//! Article review queue: the spaced-repetition schedule, the article record
//! store and the ingestion, review and listing workflows built on it.
use vstd::prelude::*;

pub mod alerts;
pub mod ingest;
pub mod layout;
pub mod listing;
pub mod record;
pub mod review;
pub mod status;
pub mod store;
pub mod timing;

verus! {

} // verus!
