//! The mock photo repository: fabricates one ordered page of photo
//! records per request. A real backend takes its place behind the same
//! interface — a page number and a page size in, an ordered batch out,
//! an empty batch signalling exhaustion.

use vstd::prelude::*;

use crate::photo::Photo;
use crate::photo::mock_shaped;

verus! {

/// One page of mock records: `limit` photos whose ids run from
/// `(page - 1) * limit` upward, each shaped by its id.
#[verifier::loop_isolation(false)]
pub fn fetch_mock_photos(page: usize, limit: usize) -> (photos: Vec<Photo>)
    requires
        page >= 1,
        (page - 1) * limit + limit <= usize::MAX,
    ensures
        photos@.len() == limit,
        forall|i: int|
            0 <= i < limit ==> mock_shaped(#[trigger] photos@[i]@, (page - 1) * limit + i),
{
    let start = (page - 1) * limit;
    let mut photos: Vec<Photo> = Vec::new();
    let mut i: usize = 0;
    while i < limit
        invariant
            i <= limit,
            photos@.len() == i,
            forall|j: int| 0 <= j < i ==> mock_shaped(#[trigger] photos@[j]@, start + j),
        decreases limit - i,
    {
        photos.push(Photo::new_mock(start + i));
        i = i + 1;
    }
    photos
}

} // verus!
