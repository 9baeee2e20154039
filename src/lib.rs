//! Picks a wallpaper out of a remote image collection.
//!
//! The library holds every decision of a run: which page of the collection
//! holds a given index, which item of that page is chosen, the addresses that
//! are requested and the local paths that are written. Fetching, file access
//! and the command that applies the picture are left to the caller, which
//! hands the fetched values back in.
pub mod error;
pub mod model;
pub mod paths;
pub mod select;
pub mod text;

pub use error::WpError;
pub use model::{WpConfig, WpData, WpMeta, WpResp};
pub use select::{choose_page, index_from_draw, locate, random_index, PagePos};
