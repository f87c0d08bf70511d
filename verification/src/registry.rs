//! The durable process registry: three process identifiers, written one per
//! line as decimal text in a fixed order (automation driver, display server,
//! frame server), and the teardown plan computed from a registry's bytes.

use vstd::arithmetic::div_mod::lemma_fundamental_div_mod;
use vstd::prelude::*;

verus! {

/// An ASCII decimal digit.
pub open spec fn is_digit(b: u8) -> bool {
    48 <= b <= 57
}

/// Every byte of `s` is an ASCII decimal digit.
pub open spec fn all_digits(s: Seq<u8>) -> bool {
    forall|i: int| 0 <= i < s.len() ==> is_digit(#[trigger] s[i])
}

/// The value of `s` read as a decimal numeral (meaningful under `all_digits`).
pub open spec fn dec_value(s: Seq<u8>) -> int
    decreases s.len(),
{
    if s.len() == 0 {
        0
    } else {
        dec_value(s.drop_last()) * 10 + (s.last() - 48)
    }
}

/// The canonical decimal numeral of `n`: no sign, no leading zeros.
pub open spec fn dec_rep(n: nat) -> Seq<u8>
    decreases n,
{
    if n < 10 {
        seq![(48 + n) as u8]
    } else {
        dec_rep(n / 10).push((48 + n % 10) as u8)
    }
}

/// A well-formed registry line: non-empty, digits only, and within `u32`.
pub open spec fn valid_entry(s: Seq<u8>) -> bool {
    &&& s.len() > 0
    &&& all_digits(s)
    &&& dec_value(s) <= u32::MAX
}

pub proof fn lemma_dec_value_nonneg(s: Seq<u8>)
    requires
        all_digits(s),
    ensures
        dec_value(s) >= 0,
    decreases s.len(),
{
    if s.len() > 0 {
        assert(all_digits(s.drop_last()));
        lemma_dec_value_nonneg(s.drop_last());
    }
}

pub proof fn lemma_dec_rep_digits(n: nat)
    ensures
        all_digits(dec_rep(n)),
        dec_rep(n).len() > 0,
    decreases n,
{
    if n >= 10 {
        lemma_dec_rep_digits(n / 10);
    }
}

/// The numeral of `n` reads back as `n`.
pub proof fn lemma_dec_rep_value(n: nat)
    ensures
        dec_value(dec_rep(n)) == n,
    decreases n,
{
    if n < 10 {
        assert((48 + n) as u8 == 48 + n);
        assert(dec_rep(n) =~= seq![(48 + n) as u8]);
        assert(dec_rep(n).drop_last() =~= Seq::<u8>::empty());
        assert(dec_value(Seq::<u8>::empty()) == 0);
        assert(dec_rep(n).last() == (48 + n) as u8);
    } else {
        lemma_dec_rep_value(n / 10);
        lemma_fundamental_div_mod(n as int, 10);
        assert(0 <= n % 10 < 10);
        assert((48 + n % 10) as u8 == 48 + n % 10);
        assert(dec_rep(n).drop_last() =~= dec_rep(n / 10));
        assert(dec_rep(n).last() == (48 + n % 10) as u8);
    }
}

/// Renders `n` as its decimal numeral.
pub fn render_u32(n: u32) -> (r: Vec<u8>)
    ensures
        r@ == dec_rep(n as nat),
{
    let mut acc: Vec<u8> = Vec::new();
    let mut m: u32 = n;
    while m >= 10
        invariant
            dec_rep(n as nat) == dec_rep(m as nat) + acc@,
        decreases m,
    {
        let d: u8 = (m % 10) as u8 + 48;
        proof {
            assert(dec_rep(m as nat) == dec_rep((m as nat) / 10).push((48 + (m as nat) % 10) as u8));
            assert(dec_rep((m as nat) / 10).push(d) =~= dec_rep((m as nat) / 10) + seq![d]);
            assert(dec_rep((m as nat) / 10) + (seq![d] + acc@) =~= (dec_rep((m as nat) / 10)
                + seq![d]) + acc@);
            assert((m / 10) as nat == (m as nat) / 10);
        }
        acc.insert(0, d);
        m = m / 10;
    }
    let d: u8 = m as u8 + 48;
    proof {
        assert(dec_rep(m as nat) =~= seq![d]);
        assert(seq![d] + acc@ =~= acc@.insert(0, d));
    }
    acc.insert(0, d);
    acc
}

/// Appending digits never shrinks a numeral's value.
pub proof fn lemma_dec_value_prefix(s: Seq<u8>, i: int)
    requires
        0 <= i <= s.len(),
        all_digits(s),
    ensures
        dec_value(s.take(i)) <= dec_value(s),
    decreases s.len() - i,
{
    if i == s.len() {
        assert(s.take(i) =~= s);
    } else {
        lemma_dec_value_prefix(s, i + 1);
        assert(s.take(i + 1).drop_last() =~= s.take(i));
        assert(s.take(i + 1).last() == s[i]);
        assert(all_digits(s.take(i)));
        lemma_dec_value_nonneg(s.take(i));
        assert(dec_value(s.take(i + 1)) == dec_value(s.take(i)) * 10 + (s[i] - 48));
    }
}

/// Parses one registry line; `Some` exactly on well-formed decimal entries.
pub fn parse_entry(line: &[u8]) -> (r: Option<u32>)
    ensures
        r is Some <==> valid_entry(line@),
        r matches Some(v) ==> v == dec_value(line@),
{
    if line.len() == 0 {
        return None;
    }
    let mut acc: u64 = 0;
    let mut i: usize = 0;
    while i < line.len()
        invariant
            0 <= i <= line@.len(),
            all_digits(line@.take(i as int)),
            acc == dec_value(line@.take(i as int)),
            acc <= u32::MAX,
        decreases line@.len() - i,
    {
        let b = line[i];
        if b < 48 || b > 57 {
            assert(!is_digit(line@[i as int]));
            assert(!valid_entry(line@));
            return None;
        }
        let next: u64 = acc * 10 + (b - 48) as u64;
        proof {
            assert(line@.take(i + 1).drop_last() =~= line@.take(i as int));
            assert(line@.take(i + 1).last() == line@[i as int]);
            assert(next == dec_value(line@.take(i + 1)));
        }
        if next > 0xffff_ffff {
            proof {
                if all_digits(line@) {
                    lemma_dec_value_prefix(line@, i + 1);
                    assert(dec_value(line@) > u32::MAX);
                }
            }
            return None;
        }
        acc = next;
        i = i + 1;
    }
    proof {
        assert(line@.take(i as int) =~= line@);
    }
    Some(acc as u32)
}

/// Index of the first newline byte of `s`, or `s.len()` if there is none.
pub open spec fn first_nl(s: Seq<u8>) -> nat
    decreases s.len(),
{
    if s.len() == 0 {
        0
    } else if s[0] == 10 {
        0
    } else {
        1 + first_nl(s.subrange(1, s.len() as int))
    }
}

/// The lines of `s`: segments between newline bytes, a trailing newline
/// closing the last line rather than opening an empty one.
pub open spec fn split_lines(s: Seq<u8>) -> Seq<Seq<u8>>
    decreases s.len(),
{
    if s.len() == 0 {
        Seq::empty()
    } else {
        let i = first_nl(s);
        if i >= s.len() {
            seq![s]
        } else {
            seq![s.subrange(0, i as int)] + split_lines(s.subrange(i as int + 1, s.len() as int))
        }
    }
}

/// `first_nl` is the unique index with no newline before it and a newline (or
/// the end) at it.
pub proof fn lemma_first_nl_char(s: Seq<u8>, i: nat)
    requires
        i <= s.len(),
        forall|j: int| 0 <= j < i ==> s[j] != 10,
        i == s.len() || s[i as int] == 10,
    ensures
        first_nl(s) == i,
    decreases s.len(),
{
    if s.len() == 0 {
    } else if s[0] == 10 {
        assert(i == 0);
    } else {
        assert(i > 0);
        let t = s.subrange(1, s.len() as int);
        assert(forall|j: int| 0 <= j < i - 1 ==> t[j] == s[j + 1] && s[j + 1] != 10);
        lemma_first_nl_char(t, (i - 1) as nat);
    }
}

/// Splitting a newline-free segment, a newline, and a remainder yields the
/// segment followed by the remainder's lines.
pub proof fn lemma_split_prepend(a: Seq<u8>, rest: Seq<u8>)
    requires
        forall|i: int| 0 <= i < a.len() ==> a[i] != 10,
    ensures
        split_lines(a + seq![10u8] + rest) == seq![a] + split_lines(rest),
{
    let s = a + seq![10u8] + rest;
    assert(s.len() == a.len() + 1 + rest.len());
    assert(forall|j: int| 0 <= j < a.len() ==> s[j] == a[j] && s[j] != 10);
    assert(s[a.len() as int] == 10);
    lemma_first_nl_char(s, a.len());
    assert(s.subrange(0, a.len() as int) =~= a);
    assert(s.subrange(a.len() as int + 1, s.len() as int) =~= rest);
    assert(split_lines(s) == seq![a] + split_lines(rest));
}

/// The outcome of reading one registry entry: a parsed identifier, or an
/// entry that is malformed or missing.
#[derive(Clone, Copy, Debug, PartialEq, Eq, Structural)]
pub enum EntryOutcome {
    Pid(u32),
    Invalid,
}

impl EntryOutcome {
    /// The per-entry error: `InvalidRegistryEntry` exactly on a bad entry.
    pub fn entry_error(&self) -> (r: Option<crate::errors::SessionError>)
        ensures
            self is Invalid <==> r == Some(crate::errors::SessionError::InvalidRegistryEntry),
            self is Pid <==> r is None,
    {
        match self {
            EntryOutcome::Pid(_) => None,
            EntryOutcome::Invalid => Some(crate::errors::SessionError::InvalidRegistryEntry),
        }
    }
}

/// What reading entry `k` of registry text `s` yields: the parsed identifier
/// of line `k` if that line exists and is well formed, `Invalid` otherwise.
pub open spec fn entry_spec(s: Seq<u8>, k: int) -> EntryOutcome {
    if 0 <= k < split_lines(s).len() && valid_entry(split_lines(s)[k]) {
        EntryOutcome::Pid(dec_value(split_lines(s)[k]) as u32)
    } else {
        EntryOutcome::Invalid
    }
}

/// The termination requests one entry contributes: its identifier if it
/// parsed and is non-zero, nothing otherwise.
pub open spec fn kill_of(e: EntryOutcome) -> Seq<u32> {
    match e {
        EntryOutcome::Pid(p) => if p != 0 {
            seq![p]
        } else {
            Seq::empty()
        },
        EntryOutcome::Invalid => Seq::empty(),
    }
}

/// The teardown plan read from a registry: one outcome per recorded process,
/// in the fixed order automation driver, display server, frame server.
pub struct TeardownPlan {
    pub driver: EntryOutcome,
    pub display: EntryOutcome,
    pub frame: EntryOutcome,
}

impl TeardownPlan {
    /// The termination requests the plan issues, in recorded order.
    pub open spec fn kill_seq(self) -> Seq<u32> {
        kill_of(self.driver) + kill_of(self.display) + kill_of(self.frame)
    }

    /// The identifiers to terminate, in recorded order.
    pub fn kills(&self) -> (r: Vec<u32>)
        ensures
            r@ == self.kill_seq(),
    {
        let mut r: Vec<u32> = Vec::new();
        if let EntryOutcome::Pid(p) = self.driver {
            if p != 0 {
                r.push(p);
            }
        }
        if let EntryOutcome::Pid(p) = self.display {
            if p != 0 {
                r.push(p);
            }
        }
        if let EntryOutcome::Pid(p) = self.frame {
            if p != 0 {
                r.push(p);
            }
        }
        proof {
            assert(r@ =~= self.kill_seq());
        }
        r
    }
}

pub proof fn lemma_first_nl_le(s: Seq<u8>)
    ensures
        first_nl(s) <= s.len(),
    decreases s.len(),
{
    if s.len() > 0 && s[0] != 10 {
        lemma_first_nl_le(s.subrange(1, s.len() as int));
    }
}

/// Entry `0` is the first line: the bytes before the first newline.
pub proof fn lemma_head_entry(s: Seq<u8>)
    ensures
        s.len() == 0 ==> entry_spec(s, 0) == EntryOutcome::Invalid,
        s.len() > 0 ==> split_lines(s).len() > 0 && split_lines(s)[0] == s.take(first_nl(s) as int),
{
    lemma_first_nl_le(s);
    if s.len() > 0 {
        let i = first_nl(s);
        if i >= s.len() {
            assert(s.take(i as int) =~= s);
        } else {
            assert(split_lines(s)[0] == s.subrange(0, i as int));
        }
    }
}

/// Entries past the first line are the entries of the remainder after the
/// first newline; with no newline there is no entry past the first.
pub proof fn lemma_tail_entries(s: Seq<u8>, k: int)
    requires
        k >= 1,
    ensures
        s.len() > 0 && first_nl(s) < s.len() ==> entry_spec(s, k) == entry_spec(
            s.subrange(first_nl(s) as int + 1, s.len() as int),
            k - 1,
        ),
        s.len() == 0 || first_nl(s) >= s.len() ==> entry_spec(s, k) == EntryOutcome::Invalid,
{
    lemma_first_nl_le(s);
    if s.len() > 0 && first_nl(s) < s.len() {
        let i = first_nl(s);
        let rest = s.subrange(i as int + 1, s.len() as int);
        assert(split_lines(s) == seq![s.subrange(0, i as int)] + split_lines(rest));
        assert(split_lines(s).len() == 1 + split_lines(rest).len());
        if k < split_lines(s).len() {
            assert(split_lines(s)[k] == split_lines(rest)[k - 1]);
        }
    }
}

/// Index of the first newline at or after `start`, or the end of `content`.
fn scan_line(content: &[u8], start: usize) -> (end: usize)
    requires
        start <= content@.len(),
    ensures
        start <= end <= content@.len(),
        end - start == first_nl(content@.subrange(start as int, content@.len() as int)),
{
    let n = content.len();
    let mut i: usize = start;
    while i < n && content[i] != 10
        invariant
            start <= i <= n,
            n == content@.len(),
            forall|j: int| start <= j < i ==> content@[j] != 10,
        decreases n - i,
    {
        i = i + 1;
    }
    proof {
        let t = content@.subrange(start as int, n as int);
        assert(forall|j: int| 0 <= j < i - start ==> t[j] == content@[start + j] && t[j] != 10);
        assert(i < n ==> t[i - start] == 10);
        lemma_first_nl_char(t, (i - start) as nat);
    }
    i
}

fn outcome_of(r: Option<u32>) -> (o: EntryOutcome)
    ensures
        r matches Some(v) ==> o == EntryOutcome::Pid(v),
        r is None ==> o == EntryOutcome::Invalid,
{
    match r {
        Some(v) => EntryOutcome::Pid(v),
        None => EntryOutcome::Invalid,
    }
}

/// Reads a teardown plan from the raw bytes of a registry file.
///
/// Each of the three recorded entries is judged on its own line, so one
/// malformed or missing line never hides the identifiers around it.
pub fn plan_teardown(content: &[u8]) -> (p: TeardownPlan)
    ensures
        p.driver == entry_spec(content@, 0),
        p.display == entry_spec(content@, 1),
        p.frame == entry_spec(content@, 2),
{
    let s = Ghost(content@);
    let n = content.len();
    let e0 = scan_line(content, 0);
    proof {
        assert(s@.subrange(0, n as int) =~= s@);
        lemma_head_entry(s@);
        if s@.len() > 0 {
            assert(s@.take(first_nl(s@) as int) =~= content@.subrange(0, e0 as int));
        }
    }
    let driver = outcome_of(parse_entry(&content[0..e0]));
    proof {
        if s@.len() == 0 {
            assert(content@.subrange(0, 0) =~= Seq::<u8>::empty());
            assert(!valid_entry(Seq::<u8>::empty()));
        }
        lemma_tail_entries(s@, 1);
        lemma_tail_entries(s@, 2);
    }
    if e0 >= n {
        return TeardownPlan { driver, display: EntryOutcome::Invalid, frame: EntryOutcome::Invalid };
    }
    let ghost rest1 = s@.subrange(e0 as int + 1, n as int);
    let s1 = e0 + 1;
    let e1 = scan_line(content, s1);
    proof {
        assert(rest1 =~= content@.subrange(s1 as int, n as int));
        lemma_head_entry(rest1);
        if rest1.len() > 0 {
            assert(rest1.take(first_nl(rest1) as int) =~= content@.subrange(s1 as int, e1 as int));
        }
    }
    let display = outcome_of(parse_entry(&content[s1..e1]));
    proof {
        if rest1.len() == 0 {
            assert(content@.subrange(s1 as int, e1 as int) =~= Seq::<u8>::empty());
            assert(!valid_entry(Seq::<u8>::empty()));
        }
        lemma_tail_entries(rest1, 1);
    }
    if e1 >= n {
        return TeardownPlan { driver, display, frame: EntryOutcome::Invalid };
    }
    let ghost rest2 = rest1.subrange(first_nl(rest1) as int + 1, rest1.len() as int);
    let s2 = e1 + 1;
    let e2 = scan_line(content, s2);
    proof {
        assert(rest2 =~= content@.subrange(s2 as int, n as int));
        assert(rest2.subrange(0, rest2.len() as int) =~= rest2);
        lemma_head_entry(rest2);
        if rest2.len() > 0 {
            assert(rest2.take(first_nl(rest2) as int) =~= content@.subrange(s2 as int, e2 as int));
        }
    }
    let frame = outcome_of(parse_entry(&content[s2..e2]));
    proof {
        if rest2.len() == 0 {
            assert(content@.subrange(s2 as int, e2 as int) =~= Seq::<u8>::empty());
            assert(!valid_entry(Seq::<u8>::empty()));
        }
    }
    TeardownPlan { driver, display, frame }
}

/// The three recorded process identifiers, in the order they are written:
/// automation driver, display server, frame server.
#[derive(Clone, Copy, Debug, PartialEq, Eq, Structural)]
pub struct ProcessRegistry {
    pub driver: u32,
    pub display: u32,
    pub frame: u32,
}

/// The exact bytes of a registry file: three decimal numerals, each closed by
/// a newline, in the fixed order.
pub open spec fn registry_text(reg: ProcessRegistry) -> Seq<u8> {
    dec_rep(reg.driver as nat) + seq![10u8] + dec_rep(reg.display as nat) + seq![10u8] + dec_rep(
        reg.frame as nat,
    ) + seq![10u8]
}

/// Renders the registry as the bytes to persist.
pub fn render_registry(reg: &ProcessRegistry) -> (r: Vec<u8>)
    ensures
        r@ == registry_text(*reg),
{
    let mut r = render_u32(reg.driver);
    r.push(10);
    let mut t = render_u32(reg.display);
    r.append(&mut t);
    r.push(10);
    let mut u = render_u32(reg.frame);
    r.append(&mut u);
    r.push(10);
    proof {
        assert(r@ =~= registry_text(*reg));
    }
    r
}

/// The fixed path of the registry file.
pub fn registry_path() -> (r: &'static str)
    ensures
        r@ == "/tmp/ebay_driver_pids"@,
{
    "/tmp/ebay_driver_pids"
}

/// Starts a teardown from what reading the registry file gave: its bytes, or
/// nothing if the file is absent.
///
/// Absence is an error, not a no-op: a caller must be able to tell "already
/// torn down" from "session never existed". On an error no termination is
/// planned and the file is left alone.
pub fn begin_teardown(content: Option<Vec<u8>>) -> (r: Result<
    TeardownPlan,
    crate::errors::SessionError,
>)
    ensures
        r is Err <==> content is None,
        r matches Err(e) ==> e == crate::errors::SessionError::RegistryNotFound,
        content matches Some(c) ==> r matches Ok(p) && p.driver == entry_spec(c@, 0) && p.display
            == entry_spec(c@, 1) && p.frame == entry_spec(c@, 2),
{
    match content {
        None => Err(crate::errors::SessionError::RegistryNotFound),
        Some(c) => Ok(plan_teardown(c.as_slice())),
    }
}

/// Judges one termination request. A failure is reported per process and
/// never escalated: teardown stays best-effort.
pub fn termination_outcome(succeeded: bool) -> (r: Option<crate::errors::SessionError>)
    ensures
        succeeded <==> r is None,
        !succeeded ==> r == Some(crate::errors::SessionError::TerminationFailed),
{
    if succeeded {
        None
    } else {
        Some(crate::errors::SessionError::TerminationFailed)
    }
}

/// Digit bytes are never newlines.
pub proof fn lemma_digits_no_nl(s: Seq<u8>)
    requires
        all_digits(s),
    ensures
        forall|i: int| 0 <= i < s.len() ==> s[i] != 10,
{
    assert forall|i: int| 0 <= i < s.len() implies s[i] != 10 by {
        assert(is_digit(s[i]));
    }
}

/// The lines of a rendered registry are the three numerals, in order.
pub proof fn lemma_registry_text_lines(reg: ProcessRegistry)
    ensures
        split_lines(registry_text(reg)) == seq![
            dec_rep(reg.driver as nat),
            dec_rep(reg.display as nat),
            dec_rep(reg.frame as nat),
        ],
{
    let a = dec_rep(reg.driver as nat);
    let b = dec_rep(reg.display as nat);
    let c = dec_rep(reg.frame as nat);
    lemma_dec_rep_digits(reg.driver as nat);
    lemma_dec_rep_digits(reg.display as nat);
    lemma_dec_rep_digits(reg.frame as nat);
    lemma_digits_no_nl(a);
    lemma_digits_no_nl(b);
    lemma_digits_no_nl(c);
    assert(c + seq![10u8] + Seq::<u8>::empty() =~= c + seq![10u8]);
    lemma_split_prepend(c, Seq::empty());
    assert(split_lines(c + seq![10u8]) == seq![c] + split_lines(Seq::empty()));
    assert(seq![c] + split_lines(Seq::<u8>::empty()) =~= seq![c]);
    lemma_split_prepend(b, c + seq![10u8]);
    lemma_split_prepend(a, b + seq![10u8] + (c + seq![10u8]));
    assert(registry_text(reg) =~= a + seq![10u8] + (b + seq![10u8] + (c + seq![10u8])));
    assert(seq![a] + (seq![b] + seq![c]) =~= seq![a, b, c]);
}

/// A well-formed registry with three non-zero identifiers tears down to
/// exactly one termination request per identifier, in the recorded order.
pub proof fn lemma_teardown_round_trip(reg: ProcessRegistry)
    requires
        reg.driver > 0,
        reg.display > 0,
        reg.frame > 0,
    ensures
        entry_spec(registry_text(reg), 0) == EntryOutcome::Pid(reg.driver),
        entry_spec(registry_text(reg), 1) == EntryOutcome::Pid(reg.display),
        entry_spec(registry_text(reg), 2) == EntryOutcome::Pid(reg.frame),
        (TeardownPlan {
            driver: entry_spec(registry_text(reg), 0),
            display: entry_spec(registry_text(reg), 1),
            frame: entry_spec(registry_text(reg), 2),
        }).kill_seq() == seq![reg.driver, reg.display, reg.frame],
{
    lemma_registry_text_lines(reg);
    lemma_dec_rep_digits(reg.driver as nat);
    lemma_dec_rep_digits(reg.display as nat);
    lemma_dec_rep_digits(reg.frame as nat);
    lemma_dec_rep_value(reg.driver as nat);
    lemma_dec_rep_value(reg.display as nat);
    lemma_dec_rep_value(reg.frame as nat);
    assert(kill_of(EntryOutcome::Pid(reg.driver)) + kill_of(EntryOutcome::Pid(reg.display))
        + kill_of(EntryOutcome::Pid(reg.frame)) =~= seq![reg.driver, reg.display, reg.frame]);
}

/// A malformed middle line still lets teardown terminate the first and third
/// identifiers: one bad entry never aborts the whole teardown.
pub proof fn lemma_partial_failure_tolerance(first: u32, mid: Seq<u8>, third: u32)
    requires
        first > 0,
        third > 0,
        !valid_entry(mid),
        forall|i: int| 0 <= i < mid.len() ==> mid[i] != 10,
    ensures
        ({
            let t = dec_rep(first as nat) + seq![10u8] + mid + seq![10u8] + dec_rep(third as nat)
                + seq![10u8];
            &&& entry_spec(t, 0) == EntryOutcome::Pid(first)
            &&& entry_spec(t, 1) == EntryOutcome::Invalid
            &&& entry_spec(t, 2) == EntryOutcome::Pid(third)
            &&& (TeardownPlan {
                driver: entry_spec(t, 0),
                display: entry_spec(t, 1),
                frame: entry_spec(t, 2),
            }).kill_seq() == seq![first, third]
        }),
{
    let a = dec_rep(first as nat);
    let c = dec_rep(third as nat);
    let t = a + seq![10u8] + mid + seq![10u8] + c + seq![10u8];
    lemma_dec_rep_digits(first as nat);
    lemma_dec_rep_digits(third as nat);
    lemma_dec_rep_value(first as nat);
    lemma_dec_rep_value(third as nat);
    lemma_digits_no_nl(a);
    lemma_digits_no_nl(c);
    assert(c + seq![10u8] + Seq::<u8>::empty() =~= c + seq![10u8]);
    lemma_split_prepend(c, Seq::empty());
    assert(seq![c] + split_lines(Seq::<u8>::empty()) =~= seq![c]);
    lemma_split_prepend(mid, c + seq![10u8]);
    lemma_split_prepend(a, mid + seq![10u8] + (c + seq![10u8]));
    assert(t =~= a + seq![10u8] + (mid + seq![10u8] + (c + seq![10u8])));
    assert(seq![a] + (seq![mid] + seq![c]) =~= seq![a, mid, c]);
    assert(split_lines(t) == seq![a, mid, c]);
    assert(kill_of(EntryOutcome::Pid(first)) + kill_of(EntryOutcome::Invalid) + kill_of(
        EntryOutcome::Pid(third),
    ) =~= seq![first, third]);
}

} // verus!
