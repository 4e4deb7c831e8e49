//! The gallery store: the single source of truth for the photo list,
//! the pagination cursor, the loading / has-more flags and the current
//! selection, together with the atomic mutation operations that are the
//! only way the state changes.

use vstd::prelude::*;

use crate::photo::Photo;
use crate::photo::PhotoModel;

verus! {

/// The mathematical value of a [`GalleryState`].
#[verifier::ext_equal]
pub struct GalleryModel {
    /// Ordered photo records, insertion order = load order.
    pub photos: Seq<PhotoModel>,
    /// True while a fetch is in flight.
    pub is_loading: bool,
    /// Next page cursor to fetch; starts at 1 and never decreases.
    pub page: int,
    /// True until a fetch returns an empty batch.
    pub has_more: bool,
    /// Id of the selected photo, re-resolved against `photos`.
    pub selected_photo: Option<u128>,
}

/// The sequence of photo values carried by a sequence of records.
pub open spec fn views_of(photos: Seq<Photo>) -> Seq<PhotoModel> {
    photos.map_values(|p: Photo| p@)
}

/// Some photo in `photos` carries the id.
pub open spec fn has_id(photos: Seq<PhotoModel>, id: u128) -> bool {
    exists|i: int| 0 <= i < photos.len() && photos[i].id == id
}

/// No two photos in `photos` share an id.
pub open spec fn ids_unique(photos: Seq<PhotoModel>) -> bool {
    forall|i: int, j: int|
        0 <= i < j < photos.len() ==> photos[i].id != photos[j].id
}

/// The batch carries pairwise distinct ids, none of which occurs in
/// `photos`: what the store expects of every fetched page.
pub open spec fn fresh_batch(photos: Seq<PhotoModel>, batch: Seq<PhotoModel>) -> bool {
    &&& ids_unique(batch)
    &&& forall|i: int, j: int|
        0 <= i < photos.len() && 0 <= j < batch.len() ==> photos[i].id != batch[j].id
}

/// The photo, with `is_liked` flipped when the id matches.
pub open spec fn flip_if(p: PhotoModel, id: u128) -> PhotoModel {
    if p.id == id {
        PhotoModel { is_liked: !p.is_liked, ..p }
    } else {
        p
    }
}

impl GalleryModel {
    /// The initial shape: empty list, cursor at page 1, not loading,
    /// more pages assumed, no selection.
    pub open spec fn init() -> GalleryModel {
        GalleryModel {
            photos: Seq::empty(),
            is_loading: false,
            page: 1,
            has_more: true,
            selected_photo: None,
        }
    }

    /// Well-formedness: ids are unique, the cursor is positive, and the
    /// selection, when set, names a photo that is present.
    pub open spec fn inv(self) -> bool {
        &&& ids_unique(self.photos)
        &&& self.page >= 1
        &&& (self.selected_photo matches Some(id) ==> has_id(self.photos, id))
    }

    /// `toggleLike`: flips `is_liked` on the matching photo; a no-op
    /// when the id is absent.
    pub open spec fn toggled(self, id: u128) -> GalleryModel {
        GalleryModel { photos: self.photos.map_values(|p: PhotoModel| flip_if(p, id)), ..self }
    }

    /// `setSelection`: sets or clears the selection.
    pub open spec fn with_selection(self, selection: Option<u128>) -> GalleryModel {
        GalleryModel { selected_photo: selection, ..self }
    }

    /// `appendPage`: an empty batch is exhaustion and makes `has_more`
    /// false, terminally; otherwise the batch is appended and the
    /// cursor advances. Either way the loading flag clears.
    pub open spec fn appended(self, batch: Seq<PhotoModel>) -> GalleryModel {
        if batch.len() == 0 {
            GalleryModel { has_more: false, is_loading: false, ..self }
        } else {
            GalleryModel {
                photos: self.photos + batch,
                page: self.page + 1,
                is_loading: false,
                ..self
            }
        }
    }

    /// `resetForRefresh`: back to the initial shape, except that the
    /// loading flag is raised synchronously, before the refresh fetch
    /// starts.
    pub open spec fn reset(self) -> GalleryModel {
        GalleryModel {
            photos: Seq::empty(),
            is_loading: true,
            page: 1,
            has_more: true,
            selected_photo: None,
        }
    }

    /// Marks a fetch in flight.
    pub open spec fn loading_started(self) -> GalleryModel {
        GalleryModel { is_loading: true, ..self }
    }

    /// A fetch failed: only the loading flag clears, so that the next
    /// qualifying viewport or gesture event retries.
    pub open spec fn load_failed(self) -> GalleryModel {
        GalleryModel { is_loading: false, ..self }
    }

    /// Completion of a refresh fetch: an empty batch is exhaustion;
    /// otherwise the batch replaces the list and the cursor moves past
    /// page 1. Either way the loading flag clears.
    pub open spec fn refresh_completed(self, batch: Seq<PhotoModel>) -> GalleryModel {
        if batch.len() == 0 {
            GalleryModel { has_more: false, is_loading: false, ..self }
        } else {
            GalleryModel { photos: batch, page: 2, is_loading: false, ..self }
        }
    }
}

/// Toggling a like preserves well-formedness: no id changes, so ids
/// stay unique and the selection stays resolvable.
pub proof fn lemma_toggled_preserves_inv(m: GalleryModel, id: u128)
    requires
        m.inv(),
    ensures
        m.toggled(id).inv(),
{
    let after = m.toggled(id);
    assert forall|i: int| 0 <= i < after.photos.len() implies #[trigger] after.photos[i].id
        == m.photos[i].id by {}
    match m.selected_photo {
        Some(sel) => {
            let w = choose|k: int| 0 <= k < m.photos.len() && m.photos[k].id == sel;
            assert(after.photos[w].id == sel);
        },
        None => {},
    }
}

/// Appending a batch of fresh records preserves well-formedness: ids
/// stay unique and the selection stays resolvable.
pub proof fn lemma_appended_preserves_inv(m: GalleryModel, batch: Seq<PhotoModel>)
    requires
        m.inv(),
        fresh_batch(m.photos, batch),
    ensures
        m.appended(batch).inv(),
{
    if batch.len() > 0 {
        let joined = m.photos + batch;
        assert forall|i: int, j: int| 0 <= i < j < joined.len() implies joined[i].id
            != joined[j].id by {
            if j < m.photos.len() {
                assert(m.photos[i].id != m.photos[j].id);
            } else if i >= m.photos.len() {
                assert(batch[i - m.photos.len()].id != batch[j - m.photos.len()].id);
            } else {
                assert(m.photos[i].id != batch[j - m.photos.len()].id);
            }
        }
        match m.selected_photo {
            Some(id) => {
                let w = choose|k: int| 0 <= k < m.photos.len() && m.photos[k].id == id;
                assert(joined[w].id == id);
            },
            None => {},
        }
    }
}

/// The gallery state, exclusively owned by the store that mutates it.
pub struct GalleryState {
    /// Ordered photo records, insertion order = load order.
    pub photos: Vec<Photo>,
    /// True while a fetch is in flight.
    pub is_loading: bool,
    /// Next page cursor to fetch.
    pub page: usize,
    /// True until a fetch returns an empty batch.
    pub has_more: bool,
    /// Id of the selected photo, if a preview is open.
    pub selected_photo: Option<u128>,
}

impl View for GalleryState {
    type V = GalleryModel;

    open spec fn view(&self) -> GalleryModel {
        GalleryModel {
            photos: views_of(self.photos@),
            is_loading: self.is_loading,
            page: self.page as int,
            has_more: self.has_more,
            selected_photo: self.selected_photo,
        }
    }
}

impl Default for GalleryState {
    /// A fresh gallery session.
    fn default() -> (s: Self)
        ensures
            s@ == GalleryModel::init(),
    {
        let s = GalleryState {
            photos: Vec::new(),
            is_loading: false,
            page: 1,
            has_more: true,
            selected_photo: None,
        };
        proof {
            assert(s@ =~= GalleryModel::init());
        }
        s
    }
}

impl GalleryState {
    /// Flips `is_liked` on the photo carrying `photo_id`; a no-op when
    /// no photo does.
    pub fn toggle_like(&mut self, photo_id: u128)
        ensures
            final(self)@ == old(self)@.toggled(photo_id),
    {
        let n = self.photos.len();
        let mut i: usize = 0;
        while i < n
            invariant
                n == self.photos@.len(),
                i <= n,
                self.is_loading == old(self).is_loading,
                self.page == old(self).page,
                self.has_more == old(self).has_more,
                self.selected_photo == old(self).selected_photo,
                self.photos@.len() == old(self).photos@.len(),
                forall|j: int|
                    0 <= j < i ==> #[trigger] self.photos@[j]@ == flip_if(old(self).photos@[j]@, photo_id),
                forall|j: int| i <= j < n ==> self.photos@[j] == old(self).photos@[j],
            decreases n - i,
        {
            if self.photos[i].id == photo_id {
                let flipped = !self.photos[i].is_liked;
                self.photos[i].is_liked = flipped;
            }
            i = i + 1;
        }
        proof {
            assert(final(self)@.photos =~= old(self)@.toggled(photo_id).photos);
            assert(final(self)@ =~= old(self)@.toggled(photo_id));
        }
    }

    /// Sets or clears the selection. A selection must name a photo that
    /// is present, so that it can always be re-resolved against the
    /// list.
    pub fn set_selection(&mut self, selection: Option<u128>)
        requires
            selection matches Some(id) ==> has_id(old(self)@.photos, id),
        ensures
            final(self)@ == old(self)@.with_selection(selection),
    {
        self.selected_photo = selection;
        proof {
            assert(final(self)@ =~= old(self)@.with_selection(selection));
        }
    }

    /// Appends a fetched page: an empty batch makes `has_more` false,
    /// anything else extends the list and advances the cursor. Clears
    /// the loading flag as part of the same update.
    pub fn append_page(&mut self, new_photos: Vec<Photo>)
        requires
            old(self).page < usize::MAX,
        ensures
            final(self)@ == old(self)@.appended(views_of(new_photos@)),
    {
        let mut batch = new_photos;
        if batch.len() == 0 {
            self.has_more = false;
        } else {
            self.photos.append(&mut batch);
            self.page = self.page + 1;
        }
        self.is_loading = false;
        proof {
            let b = views_of(new_photos@);
            if b.len() > 0 {
                assert(final(self)@.photos =~= old(self)@.photos + b);
            }
            assert(final(self)@ =~= old(self)@.appended(b));
        }
    }

    /// Back to the initial shape, with the loading flag already raised
    /// so that no "no more photos" notice flashes before the refresh
    /// fetch lands.
    pub fn reset_for_refresh(&mut self)
        ensures
            final(self)@ == old(self)@.reset(),
    {
        self.photos = Vec::new();
        self.page = 1;
        self.has_more = true;
        self.is_loading = true;
        self.selected_photo = None;
        proof {
            assert(final(self)@ =~= old(self)@.reset());
        }
    }

    /// Marks a fetch in flight.
    pub fn begin_load(&mut self)
        ensures
            final(self)@ == old(self)@.loading_started(),
    {
        self.is_loading = true;
        proof {
            assert(final(self)@ =~= old(self)@.loading_started());
        }
    }

    /// Resolves the loading flag after a failed fetch, touching nothing
    /// else: pagination must never deadlock on a transient failure, and
    /// `has_more` stays as it was so that the next qualifying event
    /// retries.
    pub fn fail_load(&mut self)
        ensures
            final(self)@ == old(self)@.load_failed(),
    {
        self.is_loading = false;
        proof {
            assert(final(self)@ =~= old(self)@.load_failed());
        }
    }

    /// Installs the result of a refresh fetch: an empty batch is
    /// exhaustion, anything else replaces the list and the cursor moves
    /// to the page after the one just fetched.
    pub fn complete_refresh(&mut self, new_photos: Vec<Photo>)
        ensures
            final(self)@ == old(self)@.refresh_completed(views_of(new_photos@)),
    {
        if new_photos.len() == 0 {
            self.has_more = false;
        } else {
            self.photos = new_photos;
            self.page = 2;
        }
        self.is_loading = false;
        proof {
            assert(final(self)@ =~= old(self)@.refresh_completed(views_of(new_photos@)));
        }
    }
}

} // verus!
