//! The gallery's controllers: cursor-based pagination with single-flight
//! load suppression, refresh, and preview navigation coupled to browser
//! history.
//!
//! Fetching and the history stack belong to the platform, so every
//! operation that needs them is split in two: a method here decides,
//! mutates the store and hands back a [`FetchRequest`] or a
//! [`HistoryOp`] for the caller to perform, and a companion method takes
//! the outcome (the fetched batch, the popped history entry) and applies
//! it to the store.

use vstd::prelude::*;

use crate::PAGE_LIMIT;
use crate::photo::Photo;
use crate::photo::PhotoModel;
use crate::state::GalleryModel;
use crate::state::GalleryState;
use crate::state::fresh_batch;
use crate::state::has_id;
use crate::state::ids_unique;
use crate::state::lemma_appended_preserves_inv;
use crate::state::lemma_toggled_preserves_inv;
use crate::state::views_of;

verus! {

/// One pagination fetch to perform: the page to ask the photo
/// repository for, and how many records it should hold at most.
#[derive(Clone, Copy, PartialEq, Eq, Structural, Debug)]
pub struct FetchRequest {
    pub page: usize,
    pub limit: usize,
}

/// A history transition for the caller to perform on the browser's
/// history stack.
#[derive(Clone, Copy, PartialEq, Eq, Structural, Debug)]
pub enum HistoryOp {
    /// Push one entry carrying the preview marker.
    Push,
    /// Navigate back by one entry.
    Back,
}

/// The first position in `photos` carrying `id`, if any.
pub open spec fn find_id(photos: Seq<PhotoModel>, id: u128) -> Option<int>
    decreases photos.len(),
{
    if photos.len() == 0 {
        None
    } else if photos[0].id == id {
        Some(0)
    } else {
        match find_id(photos.drop_first(), id) {
            None => None,
            Some(i) => Some(i + 1),
        }
    }
}

/// `find_id` returns exactly the first matching position.
pub proof fn lemma_find_id_first(photos: Seq<PhotoModel>, id: u128)
    ensures
        match find_id(photos, id) {
            Some(i) => 0 <= i < photos.len() && photos[i].id == id && (forall|j: int|
                0 <= j < i ==> photos[j].id != id),
            None => forall|j: int| 0 <= j < photos.len() ==> photos[j].id != id,
        },
    decreases photos.len(),
{
    if photos.len() > 0 && photos[0].id != id {
        lemma_find_id_first(photos.drop_first(), id);
        assert forall|j: int| 1 <= j < photos.len() implies photos[j] == photos.drop_first()[j
            - 1] by {}
    }
}

/// `loadMore`: when a fetch is already in flight or the feed is
/// exhausted the call is dropped; otherwise the loading flag is raised
/// and the current cursor page is requested.
pub open spec fn load_more_step(m: GalleryModel) -> (GalleryModel, Option<int>) {
    if m.is_loading || !m.has_more {
        (m, None)
    } else {
        (m.loading_started(), Some(m.page))
    }
}

/// Next-navigation: move the selection one photo forward; at the tail,
/// with more pages available and no fetch in flight, raise the loading
/// flag and request the next page instead (lookahead).
pub open spec fn next_photo_step(m: GalleryModel) -> (GalleryModel, Option<int>) {
    match m.selected_photo {
        None => (m, None),
        Some(id) => match find_id(m.photos, id) {
            None => (m, None),
            Some(i) => if i + 1 < m.photos.len() {
                (m.with_selection(Some(m.photos[i + 1].id)), None)
            } else if m.has_more && !m.is_loading {
                (m.loading_started(), Some(m.page))
            } else {
                (m, None)
            },
        },
    }
}

/// Previous-navigation: move the selection one photo back; at the head,
/// or with no selection, nothing changes.
pub open spec fn prev_photo_step(m: GalleryModel) -> GalleryModel {
    match m.selected_photo {
        None => m,
        Some(id) => match find_id(m.photos, id) {
            None => m,
            Some(i) => if i > 0 {
                m.with_selection(Some(m.photos[i - 1].id))
            } else {
                m
            },
        },
    }
}

/// Back-navigation landed: an entry without the preview marker (empty
/// hash) closes the preview; anything else leaves the state alone.
pub open spec fn popstate_step(m: GalleryModel, hash_empty: bool) -> GalleryModel {
    if hash_empty {
        m.with_selection(None)
    } else {
        m
    }
}

/// Completion of a lookahead fetch: the batch is appended as usual and,
/// when it is not empty, the selection moves to its first photo.
pub open spec fn next_completed(m: GalleryModel, batch: Seq<PhotoModel>) -> GalleryModel {
    let appended = m.appended(batch);
    if batch.len() > 0 {
        appended.with_selection(Some(batch[0].id))
    } else {
        appended
    }
}

/// The gallery's single source of truth together with its controllers.
pub struct GalleryViewModel {
    pub state: GalleryState,
}

impl GalleryViewModel {
    /// The store is well-formed.
    pub open spec fn inv(self) -> bool {
        self.state@.inv()
    }

    /// A fresh gallery session.
    pub fn new() -> (vm: Self)
        ensures
            vm.state@ == GalleryModel::init(),
            vm.inv(),
    {
        GalleryViewModel { state: GalleryState::default() }
    }

    /// The first position in the list holding the photo with `id`.
    #[verifier::loop_isolation(false)]
    pub fn find_index(&self, id: u128) -> (r: Option<usize>)
        ensures
            match r {
                Some(i) => find_id(self.state@.photos, id) == Some(i as int),
                None => find_id(self.state@.photos, id) is None,
            },
    {
        proof {
            lemma_find_id_first(self.state@.photos, id);
        }
        let n = self.state.photos.len();
        let mut i: usize = 0;
        while i < n
            invariant
                n == self.state@.photos.len(),
                i <= n,
                forall|j: int| 0 <= j < i ==> self.state@.photos[j].id != id,
            decreases n - i,
        {
            if self.state.photos[i].id == id {
                proof {
                    let found = find_id(self.state@.photos, id);
                    if found is None {
                        assert(self.state@.photos[i as int].id != id);
                    } else {
                        let k = found->Some_0;
                        if k < i {
                            assert(self.state@.photos[k].id != id);
                        } else if k > i {
                            assert(self.state@.photos[i as int].id != id);
                        }
                    }
                }
                return Some(i);
            }
            i = i + 1;
        }
        None
    }

    /// `loadMore`: a no-op while a fetch is in flight or once the feed
    /// is exhausted (single-flight, terminal `has_more`); otherwise
    /// marks loading and returns the one fetch to perform.
    pub fn load_more(&mut self) -> (req: Option<FetchRequest>)
        requires
            old(self).inv(),
        ensures
            final(self).inv(),
            final(self).state@ == load_more_step(old(self).state@).0,
            match req {
                Some(r) => load_more_step(old(self).state@).1 == Some(r.page as int) && r.limit
                    == PAGE_LIMIT,
                None => load_more_step(old(self).state@).1 is None,
            },
    {
        if self.state.is_loading || !self.state.has_more {
            return None;
        }
        let page = self.state.page;
        self.state.begin_load();
        Some(FetchRequest { page, limit: PAGE_LIMIT })
    }

    /// Applies the batch a `load_more` fetch returned.
    pub fn finish_load(&mut self, new_photos: Vec<Photo>)
        requires
            old(self).inv(),
            fresh_batch(old(self).state@.photos, views_of(new_photos@)),
            old(self).state.page < usize::MAX,
        ensures
            final(self).inv(),
            final(self).state@ == old(self).state@.appended(views_of(new_photos@)),
    {
        proof {
            lemma_appended_preserves_inv(self.state@, views_of(new_photos@));
        }
        self.state.append_page(new_photos);
    }

    /// A `load_more` or lookahead fetch failed: the loading flag clears
    /// — pagination must never deadlock — and everything else, `has_more`
    /// included, stays as it was, so that the next qualifying viewport
    /// or gesture event retries.
    pub fn abort_load(&mut self)
        requires
            old(self).inv(),
        ensures
            final(self).inv(),
            final(self).state@ == old(self).state@.load_failed(),
    {
        self.state.fail_load();
    }

    /// Whether a fetched batch can be appended without breaking id
    /// uniqueness: its ids are pairwise distinct and none is present
    /// yet. The repository owes such batches; a caller that cannot know
    /// checks here first.
    #[verifier::loop_isolation(false)]
    pub fn can_append(&self, batch: &Vec<Photo>) -> (b: bool)
        ensures
            b == fresh_batch(self.state@.photos, views_of(batch@)),
    {
        let ghost bs = views_of(batch@);
        let n = batch.len();
        let mut i: usize = 0;
        while i < n
            invariant
                n == batch@.len(),
                bs == views_of(batch@),
                i <= n,
                forall|p: int, q: int| 0 <= p < q < i ==> bs[p].id != bs[q].id,
                forall|p: int, q: int|
                    0 <= p < self.state@.photos.len() && 0 <= q < i ==> self.state@.photos[p].id
                        != bs[q].id,
            decreases n - i,
        {
            if self.contains_id(batch[i].id) {
                proof {
                    let w = choose|k: int|
                        0 <= k < self.state@.photos.len() && self.state@.photos[k].id == bs[i as int].id;
                    assert(self.state@.photos[w].id == bs[i as int].id);
                }
                return false;
            }
            let mut j: usize = 0;
            while j < i
                invariant
                    i < n,
                    n == batch@.len(),
                    bs == views_of(batch@),
                    j <= i,
                    forall|q: int| 0 <= q < j ==> bs[q].id != bs[i as int].id,
                decreases i - j,
            {
                if batch[j].id == batch[i].id {
                    proof {
                        assert(bs[j as int].id == bs[i as int].id);
                    }
                    return false;
                }
                j = j + 1;
            }
            i = i + 1;
        }
        true
    }

    /// Whether a photo carrying `id` is present in the list.
    pub fn contains_id(&self, id: u128) -> (b: bool)
        ensures
            b == has_id(self.state@.photos, id),
    {
        match self.find_index(id) {
            Some(_) => {
                proof {
                    lemma_find_id_first(self.state@.photos, id);
                }
                true
            },
            None => {
                proof {
                    lemma_find_id_first(self.state@.photos, id);
                }
                false
            },
        }
    }

    /// Flips `is_liked` on the photo carrying `photo_id`.
    pub fn toggle_like(&mut self, photo_id: u128)
        requires
            old(self).inv(),
        ensures
            final(self).inv(),
            final(self).state@ == old(self).state@.toggled(photo_id),
    {
        proof {
            lemma_toggled_preserves_inv(old(self).state@, photo_id);
        }
        self.state.toggle_like(photo_id);
    }

    /// Opens the preview on `photo`: records the selection and asks the
    /// caller to push one history entry carrying the preview marker, so
    /// that back-navigation will close it.
    pub fn select_photo(&mut self, photo: &Photo) -> (op: HistoryOp)
        requires
            old(self).inv(),
            has_id(old(self).state@.photos, photo.id),
        ensures
            final(self).inv(),
            final(self).state@ == old(self).state@.with_selection(Some(photo.id)),
            op == HistoryOp::Push,
    {
        self.state.set_selection(Some(photo.id));
        HistoryOp::Push
    }

    /// Back-navigation landed (a popped history entry): when the
    /// exposed entry carries no hash, the preview closes; otherwise
    /// nothing changes.
    pub fn sync_on_popstate(&mut self, hash: &str)
        requires
            old(self).inv(),
        ensures
            final(self).inv(),
            final(self).state@ == popstate_step(old(self).state@, hash@.len() == 0),
    {
        if hash.is_empty() {
            self.state.set_selection(None);
        }
    }

    /// Closing the preview is back-navigation, never a direct state
    /// mutation: the caller performs the one history step, whose
    /// landing then reaches `sync_on_popstate`. Back-button and
    /// close-button thus produce the same single history transition.
    pub fn close_preview(&self) -> (op: HistoryOp)
        ensures
            op == HistoryOp::Back,
    {
        HistoryOp::Back
    }

    /// Moves the selection to the next photo; at the tail of the list,
    /// with more pages available and no fetch already in flight, starts
    /// a lookahead fetch instead and returns it for the caller to
    /// perform (its batch goes to `finish_next`).
    pub fn next_photo(&mut self) -> (req: Option<FetchRequest>)
        requires
            old(self).inv(),
        ensures
            final(self).inv(),
            final(self).state@ == next_photo_step(old(self).state@).0,
            match req {
                Some(r) => next_photo_step(old(self).state@).1 == Some(r.page as int) && r.limit
                    == PAGE_LIMIT,
                None => next_photo_step(old(self).state@).1 is None,
            },
    {
        let current = match self.state.selected_photo {
            None => {
                return None;
            },
            Some(id) => id,
        };
        let index = match self.find_index(current) {
            None => {
                return None;
            },
            Some(i) => i,
        };
        proof {
            lemma_find_id_first(self.state@.photos, current);
        }
        let n = self.state.photos.len();
        proof {
            assert(index < self.state@.photos.len() == n);
        }
        if index + 1 < n {
            let next_id = self.state.photos[index + 1].id;
            self.state.set_selection(Some(next_id));
            None
        } else if self.state.has_more && !self.state.is_loading {
            let page = self.state.page;
            self.state.begin_load();
            Some(FetchRequest { page, limit: PAGE_LIMIT })
        } else {
            None
        }
    }

    /// Applies the batch a lookahead fetch returned: appends it and,
    /// when it is not empty, selects its first photo — the one right
    /// after the previous tail.
    pub fn finish_next(&mut self, new_photos: Vec<Photo>)
        requires
            old(self).inv(),
            fresh_batch(old(self).state@.photos, views_of(new_photos@)),
            old(self).state.page < usize::MAX,
        ensures
            final(self).inv(),
            final(self).state@ == next_completed(old(self).state@, views_of(new_photos@)),
    {
        proof {
            lemma_appended_preserves_inv(self.state@, views_of(new_photos@));
        }
        let first_id = if new_photos.len() > 0 {
            Some(new_photos[0].id)
        } else {
            None
        };
        let ghost before = self.state@;
        self.state.append_page(new_photos);
        if let Some(id) = first_id {
            proof {
                assert(self.state@.photos[before.photos.len() as int].id == id);
            }
            self.state.set_selection(Some(id));
        }
    }

    /// Moves the selection to the previous photo; at the head, or with
    /// no selection, nothing changes.
    pub fn prev_photo(&mut self)
        requires
            old(self).inv(),
        ensures
            final(self).inv(),
            final(self).state@ == prev_photo_step(old(self).state@),
    {
        let current = match self.state.selected_photo {
            None => {
                return ;
            },
            Some(id) => id,
        };
        let index = match self.find_index(current) {
            None => {
                return ;
            },
            Some(i) => i,
        };
        proof {
            lemma_find_id_first(self.state@.photos, current);
        }
        if index > 0 {
            let prev_id = self.state.photos[index - 1].id;
            self.state.set_selection(Some(prev_id));
        }
    }

    /// Pull-to-refresh begun: resets the store to the initial shape —
    /// loading flag already raised — and returns the unconditional
    /// page-1 fetch to perform (its batch goes to `finish_refresh`).
    pub fn refresh(&mut self) -> (req: FetchRequest)
        requires
            old(self).inv(),
        ensures
            final(self).inv(),
            final(self).state@ == old(self).state@.reset(),
            req.page == 1,
            req.limit == PAGE_LIMIT,
    {
        self.state.reset_for_refresh();
        FetchRequest { page: 1, limit: PAGE_LIMIT }
    }

    /// Applies the batch a refresh fetch returned. A refresh begins
    /// with the reset, which clears the selection; it stays cleared
    /// while the fetch is in flight, since an empty list offers nothing
    /// to select.
    pub fn finish_refresh(&mut self, new_photos: Vec<Photo>)
        requires
            old(self).inv(),
            ids_unique(views_of(new_photos@)),
            old(self).state.selected_photo is None,
        ensures
            final(self).inv(),
            final(self).state@ == old(self).state@.refresh_completed(views_of(new_photos@)),
    {
        self.state.complete_refresh(new_photos);
    }
}

} // verus!
