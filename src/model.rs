use vstd::prelude::*;

verus! {

/// The persisted settings of the program, and its last selection.
#[derive(Debug, Clone)]
pub struct WpConfig {
    /// Where the picture is written, appended to the configuration directory.
    pub file_location: String,
    /// The owner of the collection.
    pub username: String,
    /// The key sent with each listing request; empty for a public collection.
    pub api_key: String,
    /// The collection's identifier under its owner.
    pub collection_id: String,
    /// The index of the last picture chosen.
    pub current_selection: usize,
    /// The address of the last picture chosen.
    pub filepath: String,
}

/// Pagination figures of a listing response.
#[derive(Debug, Clone, Copy, PartialEq, Eq)]
pub struct WpMeta {
    /// How many items a page holds.
    pub per_page: usize,
    /// How many items the collection holds.
    pub total: usize,
}

/// One item of a listing page.
#[derive(Debug, Clone)]
pub struct WpData {
    /// The address of the picture.
    pub path: String,
}

/// One page of a collection listing.
#[derive(Debug, Clone)]
pub struct WpResp {
    pub meta: WpMeta,
    pub data: Vec<WpData>,
}

impl WpResp {
    /// The addresses of the page's items, in order.
    pub open spec fn paths(&self) -> Seq<Seq<char>> {
        self.data@.map_values(|d: WpData| d.path@)
    }
}

} // verus!
