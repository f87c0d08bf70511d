//! The challenge monitor: a two-state polling machine that classifies the
//! current navigation location and blocks forward progress while an
//! anti-automation challenge page is shown.
//!
//! The caller samples the location (an outside, I/O-bound act) and feeds each
//! sample to the machine; the machine alone decides whether to keep waiting.

use vstd::prelude::*;

verus! {

/// Folds an ASCII upper-case byte to lower case; leaves every other byte.
pub open spec fn fold_byte(b: u8) -> u8 {
    if 65 <= b <= 90 {
        (b + 32) as u8
    } else {
        b
    }
}

/// The challenge marker, lower-cased: the bytes of `captcha`.
pub open spec fn marker() -> Seq<u8> {
    seq![99u8, 97u8, 112u8, 116u8, 99u8, 104u8, 97u8]
}

/// The marker occurs at position `i` of `s`, ignoring ASCII case.
pub open spec fn marker_at(s: Seq<u8>, i: int) -> bool {
    &&& 0 <= i
    &&& i + marker().len() <= s.len()
    &&& forall|j: int| 0 <= j < marker().len() ==> fold_byte(#[trigger] s[i + j]) == marker()[j]
}

/// The location contains the challenge marker, ignoring ASCII case.
pub open spec fn has_marker(s: Seq<u8>) -> bool {
    exists|i: int| marker_at(s, i)
}

fn fold_byte_ex(b: u8) -> (r: u8)
    ensures
        r == fold_byte(b),
{
    if 65 <= b && b <= 90 {
        b + 32
    } else {
        b
    }
}

fn marker_byte(j: usize) -> (r: u8)
    requires
        j < 7,
    ensures
        r == marker()[j as int],
{
    if j == 0 {
        99
    } else if j == 1 {
        97
    } else if j == 2 {
        112
    } else if j == 3 {
        116
    } else if j == 4 {
        99
    } else if j == 5 {
        104
    } else {
        97
    }
}

/// Decides whether a sampled location shows the challenge marker: the
/// case-insensitive substring test that derives the challenge state.
pub fn location_challenged(location: &[u8]) -> (r: bool)
    ensures
        r == has_marker(location@),
{
    let n = location.len();
    if n < 7 {
        assert(forall|i: int| !marker_at(location@, i));
        return false;
    }
    let mut i: usize = 0;
    while i <= n - 7
        invariant
            0 <= i <= n - 7 + 1,
            n == location@.len(),
            n >= 7,
            forall|k: int| 0 <= k < i ==> !marker_at(location@, k),
        decreases n - i,
    {
        let mut j: usize = 0;
        let mut hit = true;
        while j < 7 && hit
            invariant
                0 <= j <= 7,
                i + 7 <= n,
                n == location@.len(),
                hit ==> forall|l: int|
                    0 <= l < j ==> fold_byte(#[trigger] location@[i + l]) == marker()[l],
                !hit ==> !marker_at(location@, i as int),
            decreases 7 - j + (if hit {
                1int
            } else {
                0int
            }),
        {
            let b = fold_byte_ex(location[i + j]);
            if b != marker_byte(j) {
                hit = false;
            } else {
                j = j + 1;
            }
        }
        if hit {
            assert(marker_at(location@, i as int));
            return true;
        }
        i = i + 1;
    }
    proof {
        assert forall|k: int| !marker_at(location@, k) by {
            if 0 <= k <= n - 7 {
                assert(!marker_at(location@, k));
            }
        }
    }
    false
}

/// The monitor's state. `Challenged` records the location sampled at loop
/// entry: the loop only exits on a sample that both differs from it and no
/// longer shows the marker.
pub enum MonitorState {
    Clear,
    Challenged { entry: Vec<u8> },
}

impl MonitorState {
    /// The monitor never holds a challenge-free entry location.
    pub open spec fn wf(self) -> bool {
        self matches MonitorState::Challenged { entry } ==> has_marker(entry@)
    }
}

/// The loop-exit test: a newly sampled location releases the monitor exactly
/// when it differs from the entry location and no longer shows the marker.
pub open spec fn poll_exits(entry: Seq<u8>, sample: Seq<u8>) -> bool {
    sample != entry && !has_marker(sample)
}

/// Classifies the location sampled right after navigation. A clear location
/// returns a `Clear` monitor at once: no poll, no sleep.
pub fn monitor_init(location: Vec<u8>) -> (s: MonitorState)
    ensures
        s.wf(),
        s is Clear <==> !has_marker(location@),
        s matches MonitorState::Challenged { entry } ==> entry@ == location@,
{
    if location_challenged(location.as_slice()) {
        MonitorState::Challenged { entry: location }
    } else {
        MonitorState::Clear
    }
}

/// One poll cycle: judges a re-sampled location against the entry location.
/// The entry location is kept unchanged while the monitor stays challenged.
pub fn monitor_step(state: MonitorState, sample: Vec<u8>) -> (next: MonitorState)
    requires
        state is Challenged,
        state.wf(),
    ensures
        next.wf(),
        next is Clear <==> poll_exits(state->entry@, sample@),
        next matches MonitorState::Challenged { entry } ==> entry@ == state->entry@,
{
    match state {
        MonitorState::Challenged { entry } => {
            let differs = !eq_bytes(sample.as_slice(), entry.as_slice());
            if differs && !location_challenged(sample.as_slice()) {
                MonitorState::Clear
            } else {
                MonitorState::Challenged { entry }
            }
        },
        MonitorState::Clear => MonitorState::Clear,
    }
}

fn eq_bytes(a: &[u8], b: &[u8]) -> (r: bool)
    ensures
        r == (a@ == b@),
{
    if a.len() != b.len() {
        return false;
    }
    let n = a.len();
    let mut i: usize = 0;
    while i < n
        invariant
            0 <= i <= n,
            n == a@.len() == b@.len(),
            forall|j: int| 0 <= j < i ==> a@[j] == b@[j],
        decreases n - i,
    {
        if a[i] != b[i] {
            return false;
        }
        i = i + 1;
    }
    proof {
        assert(a@ =~= b@);
    }
    true
}

/// While consecutive samples both show the marker the monitor never
/// releases: a challenged sample can never satisfy the exit test.
pub proof fn lemma_monitor_blocks_on_marker(entry: Seq<u8>, sample: Seq<u8>)
    requires
        has_marker(sample),
    ensures
        !poll_exits(entry, sample),
{
}

/// The poll cycle on which a challenged monitor releases, over a whole run:
/// the position of the first sample that passes the exit test, if any. A
/// stepped monitor stays `Challenged` through every earlier sample and turns
/// `Clear` on this one; with no such sample the run never returns.
pub open spec fn monitor_release(entry: Seq<u8>, samples: Seq<Seq<u8>>) -> Option<int>
    decreases samples.len(),
{
    if samples.len() == 0 {
        None
    } else if poll_exits(entry, samples[0]) {
        Some(0)
    } else {
        match monitor_release(entry, samples.drop_first()) {
            Some(k) => Some(k + 1),
            None => None,
        }
    }
}

/// A run releases exactly on the first passing sample: with `k` cycles of
/// samples that keep the challenge up and then one that clears it, the
/// monitor performs exactly `k + 1` sleep-and-resample cycles.
pub proof fn lemma_monitor_release_exact(entry: Seq<u8>, samples: Seq<Seq<u8>>, k: int)
    requires
        0 <= k < samples.len(),
        forall|j: int| 0 <= j < k ==> !poll_exits(entry, #[trigger] samples[j]),
        poll_exits(entry, samples[k]),
    ensures
        monitor_release(entry, samples) == Some(k),
    decreases k,
{
    if k == 0 {
    } else {
        let rest = samples.drop_first();
        assert(forall|j: int| 0 <= j < k - 1 ==> rest[j] == samples[j + 1]);
        lemma_monitor_release_exact(entry, rest, k - 1);
    }
}

} // verus!
