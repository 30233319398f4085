//! What the single-query cover art functions compute from the store's answer.

use vstd::prelude::*;
use crate::store::{CoverArt, Reply, ReplyView};

verus! {

/// The id of the magic cover art row, from the store's reply to
/// `FindMagicCoverArt`: none when the store failed or holds no such row.
pub fn magic_cover_art_id(reply: Reply) -> (id: Option<i32>)
    requires
        reply@ is Matched || reply@ is Failed,
    ensures
        id == match reply@ {
            ReplyView::Matched(Some(c)) => Some(c.id),
            _ => None,
        },
{
    match reply {
        Reply::Matched(Some(c)) => Some(c.id),
        _ => None,
    }
}

/// The picture of the cover art row that a lookup by id found, if it found one.
pub fn cover_art_binary(found: Option<CoverArt>) -> (binary: Option<Vec<u8>>)
    ensures
        match found {
            Some(c) => binary matches Some(b) && b@ == c.binary@,
            None => binary is None,
        },
{
    match found {
        Some(c) => Some(c.binary),
        None => None,
    }
}

/// The number of rows to ask for when `n` random cover arts are wanted.
pub fn random_cover_art_limit(n: usize) -> (limit: u64)
    ensures
        limit == n,
{
    n as u64
}

} // verus!
