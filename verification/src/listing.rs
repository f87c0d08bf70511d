//! The shape of a scraped listing: plain text fields a future scraping
//! collaborator fills in. Defining the shape is all that is in scope here.

use vstd::prelude::*;

verus! {

/// A scraped listing.
#[derive(Debug, Clone)]
pub struct Listing {
    pub title: String,
    pub description: String,
    pub condition: String,
    pub item_id: String,
    pub price: String,
    pub images: Vec<String>,
    pub views: String,
    pub watchers: String,
}

} // verus!
