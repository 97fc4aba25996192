use vstd::prelude::*;

verus! {

/// One stored mapping from a short code to the URL it stands for.
pub struct ShortUrlModel {
    /// Assigned by the store, unique.
    pub id: i32,
    /// The short code, unique across the store.
    pub short_url: String,
    pub original_url: String,
    /// Instant of insertion, in Unix seconds (UTC).
    pub created_on: i64,
    /// The owner's UUID, as its 128-bit value.
    pub user_id: u128,
}

} // verus!
