//! The gallery's laws: what holds of every sequence of operations, not
//! just of one call. Each proof function states one law over the model
//! transitions that the executable operations are proved to implement.

use vstd::prelude::*;

use crate::photo::PhotoModel;
use crate::state::GalleryModel;
use crate::state::flip_if;
use crate::state::fresh_batch;
use crate::state::has_id;
use crate::state::ids_unique;
use crate::state::lemma_appended_preserves_inv;
use crate::state::lemma_toggled_preserves_inv;
use crate::vm::lemma_find_id_first;
use crate::vm::load_more_step;
use crate::vm::next_completed;
use crate::vm::next_photo_step;
use crate::vm::popstate_step;
use crate::vm::prev_photo_step;

verus! {

/// The state after `n` further `loadMore` calls.
pub open spec fn load_more_repeated(m: GalleryModel, n: nat) -> GalleryModel
    decreases n,
{
    if n == 0 {
        m
    } else {
        load_more_step(load_more_repeated(m, (n - 1) as nat)).0
    }
}

/// How many fetches `n` `loadMore` calls issue from `m`.
pub open spec fn load_more_fetch_count(m: GalleryModel, n: nat) -> nat
    decreases n,
{
    if n == 0 {
        0
    } else {
        load_more_fetch_count(m, (n - 1) as nat) + if load_more_step(
            load_more_repeated(m, (n - 1) as nat),
        ).1 is Some {
            1nat
        } else {
            0nat
        }
    }
}

/// While a fetch is pending, `loadMore` is suppressed: any number of
/// calls leave the state alone and issue nothing.
pub proof fn lemma_loading_suppresses(m: GalleryModel, n: nat)
    requires
        m.is_loading,
    ensures
        load_more_repeated(m, n) == m,
        load_more_fetch_count(m, n) == 0,
    decreases n,
{
    if n > 0 {
        lemma_loading_suppresses(m, (n - 1) as nat);
    }
}

/// Single-flight: from a ready state, the first `loadMore` issues
/// exactly one fetch, for the current cursor page; every further call
/// while that fetch is pending changes nothing and issues nothing; the
/// loading flag is raised throughout and clears the moment the fetch
/// resolves through `appendPage`, whatever the batch.
pub proof fn lemma_single_flight(m: GalleryModel, n: nat, batch: Seq<PhotoModel>)
    requires
        !m.is_loading,
        m.has_more,
    ensures
        ({
            let (pending, req) = load_more_step(m);
            &&& req == Some(m.page)
            &&& pending.is_loading
            &&& load_more_repeated(pending, n) == pending
            &&& load_more_fetch_count(pending, n) == 0
            &&& !pending.appended(batch).is_loading
        }),
{
    lemma_loading_suppresses(load_more_step(m).0, n);
}

/// One gallery operation of a running session. A refresh is not one of
/// them: it deliberately starts the session over.
pub enum GalleryOp {
    /// `loadMore`, and `appendPage` with the batch its fetch returned.
    LoadMore,
    FinishLoad(Seq<PhotoModel>),
    ToggleLike(u128),
    Select(u128),
    Popstate(bool),
    /// Next-navigation, and the completion of its lookahead fetch.
    NextPhoto,
    FinishNext(Seq<PhotoModel>),
    PrevPhoto,
}

/// The state transition and the fetch, if any, of one operation.
pub open spec fn apply_op(m: GalleryModel, op: GalleryOp) -> (GalleryModel, Option<int>) {
    match op {
        GalleryOp::LoadMore => load_more_step(m),
        GalleryOp::FinishLoad(batch) => (m.appended(batch), None),
        GalleryOp::ToggleLike(id) => (m.toggled(id), None),
        GalleryOp::Select(id) => (m.with_selection(Some(id)), None),
        GalleryOp::Popstate(hash_empty) => (popstate_step(m, hash_empty), None),
        GalleryOp::NextPhoto => next_photo_step(m),
        GalleryOp::FinishNext(batch) => (next_completed(m, batch), None),
        GalleryOp::PrevPhoto => (prev_photo_step(m), None),
    }
}

/// The state after a sequence of operations.
pub open spec fn apply_ops(m: GalleryModel, ops: Seq<GalleryOp>) -> GalleryModel
    decreases ops.len(),
{
    if ops.len() == 0 {
        m
    } else {
        apply_ops(apply_op(m, ops[0]).0, ops.drop_first())
    }
}

/// How many fetches a sequence of operations issues from `m`.
pub open spec fn ops_fetch_count(m: GalleryModel, ops: Seq<GalleryOp>) -> nat
    decreases ops.len(),
{
    if ops.len() == 0 {
        0
    } else {
        (if apply_op(m, ops[0]).1 is Some {
            1nat
        } else {
            0nat
        }) + ops_fetch_count(apply_op(m, ops[0]).0, ops.drop_first())
    }
}

/// One operation keeps an exhausted feed exhausted and issues no fetch.
pub proof fn lemma_op_preserves_terminal(m: GalleryModel, op: GalleryOp)
    requires
        !m.has_more,
    ensures
        !apply_op(m, op).0.has_more,
        apply_op(m, op).1 is None,
{
}

/// Terminal `has_more`: once a fetch has returned an empty page,
/// `has_more` stays false under every sequence of session operations,
/// and none of them issues a fetch.
pub proof fn lemma_terminal_has_more(m: GalleryModel, ops: Seq<GalleryOp>)
    requires
        !m.has_more,
    ensures
        !apply_ops(m, ops).has_more,
        ops_fetch_count(m, ops) == 0,
    decreases ops.len(),
{
    if ops.len() > 0 {
        lemma_op_preserves_terminal(m, ops[0]);
        lemma_terminal_has_more(apply_op(m, ops[0]).0, ops.drop_first());
    }
}

/// What an operation asks of the state it lands on: a selection must
/// name a present photo, and a fetched batch must be fresh — what the
/// store's callers owe by contract.
pub open spec fn op_permitted(m: GalleryModel, op: GalleryOp) -> bool {
    match op {
        GalleryOp::FinishLoad(batch) => fresh_batch(m.photos, batch),
        GalleryOp::FinishNext(batch) => fresh_batch(m.photos, batch),
        GalleryOp::Select(id) => has_id(m.photos, id),
        _ => true,
    }
}

/// Every operation asks it of the state it lands on.
pub open spec fn ops_permitted(m: GalleryModel, ops: Seq<GalleryOp>) -> bool
    decreases ops.len(),
{
    if ops.len() == 0 {
        true
    } else {
        op_permitted(m, ops[0]) && ops_permitted(apply_op(m, ops[0]).0, ops.drop_first())
    }
}

/// One permitted operation preserves well-formedness: ids stay unique,
/// the cursor stays positive, and the selection stays resolvable.
pub proof fn lemma_op_preserves_inv(m: GalleryModel, op: GalleryOp)
    requires
        m.inv(),
        op_permitted(m, op),
    ensures
        apply_op(m, op).0.inv(),
{
    match op {
        GalleryOp::FinishLoad(batch) => {
            lemma_appended_preserves_inv(m, batch);
        },
        GalleryOp::FinishNext(batch) => {
            lemma_appended_preserves_inv(m, batch);
            if batch.len() > 0 {
                assert(m.appended(batch).photos[m.photos.len() as int].id == batch[0].id);
            }
        },
        GalleryOp::ToggleLike(id) => {
            lemma_toggled_preserves_inv(m, id);
        },
        GalleryOp::NextPhoto => {
            match m.selected_photo {
                Some(id) => {
                    lemma_find_id_first(m.photos, id);
                },
                None => {},
            }
        },
        GalleryOp::PrevPhoto => {
            match m.selected_photo {
                Some(id) => {
                    lemma_find_id_first(m.photos, id);
                },
                None => {},
            }
        },
        _ => {},
    }
}

/// The store's standing invariant: starting well-formed, the state
/// stays well-formed under every sequence of permitted operations.
pub proof fn lemma_ops_preserve_inv(m: GalleryModel, ops: Seq<GalleryOp>)
    requires
        m.inv(),
        ops_permitted(m, ops),
    ensures
        apply_ops(m, ops).inv(),
    decreases ops.len(),
{
    if ops.len() > 0 {
        lemma_op_preserves_inv(m, ops[0]);
        lemma_ops_preserve_inv(apply_op(m, ops[0]).0, ops.drop_first());
    }
}

/// One session operation never moves the cursor back.
pub proof fn lemma_op_page_monotone(m: GalleryModel, op: GalleryOp)
    ensures
        apply_op(m, op).0.page >= m.page,
{
}

/// The cursor never decreases: whatever session operations run, `page`
/// only ever grows.
pub proof fn lemma_page_monotone(m: GalleryModel, ops: Seq<GalleryOp>)
    ensures
        apply_ops(m, ops).page >= m.page,
    decreases ops.len(),
{
    if ops.len() > 0 {
        lemma_op_page_monotone(m, ops[0]);
        lemma_page_monotone(apply_op(m, ops[0]).0, ops.drop_first());
    }
}

/// The state after a sequence of `appendPage` calls.
pub open spec fn appends_applied(m: GalleryModel, batches: Seq<Seq<PhotoModel>>) -> GalleryModel
    decreases batches.len(),
{
    if batches.len() == 0 {
        m
    } else {
        appends_applied(m.appended(batches[0]), batches.drop_first())
    }
}

/// Every batch is fresh for the state it lands on: its ids are pairwise
/// distinct and none is present yet — what the repository owes of every
/// fetched page.
pub open spec fn batches_fresh(m: GalleryModel, batches: Seq<Seq<PhotoModel>>) -> bool
    decreases batches.len(),
{
    if batches.len() == 0 {
        true
    } else {
        fresh_batch(m.photos, batches[0]) && batches_fresh(m.appended(batches[0]), batches.drop_first())
    }
}

/// Id uniqueness: starting well-formed, after any sequence of
/// `appendPage` calls whose batches are fresh, no two photos in the
/// list share an id, and the state stays well-formed.
pub proof fn lemma_id_uniqueness(m: GalleryModel, batches: Seq<Seq<PhotoModel>>)
    requires
        m.inv(),
        batches_fresh(m, batches),
    ensures
        appends_applied(m, batches).inv(),
        ids_unique(appends_applied(m, batches).photos),
    decreases batches.len(),
{
    if batches.len() > 0 {
        lemma_appended_preserves_inv(m, batches[0]);
        lemma_id_uniqueness(m.appended(batches[0]), batches.drop_first());
    }
}

/// Like idempotence of structure: toggling a like twice in a row
/// restores the state exactly.
pub proof fn lemma_toggle_like_involution(m: GalleryModel, id: u128)
    ensures
        m.toggled(id).toggled(id) == m,
{
    let twice = m.toggled(id).toggled(id);
    assert forall|i: int| 0 <= i < m.photos.len() implies #[trigger] twice.photos[i]
        == m.photos[i] by {
        assert(flip_if(flip_if(m.photos[i], id), id) == m.photos[i]);
    }
    assert(twice.photos =~= m.photos);
    assert(twice =~= m);
}

/// Toggling a like on an absent id changes nothing.
pub proof fn lemma_toggle_like_absent(m: GalleryModel, id: u128)
    requires
        !has_id(m.photos, id),
    ensures
        m.toggled(id) == m,
{
    assert forall|i: int| 0 <= i < m.photos.len() implies #[trigger] m.toggled(id).photos[i]
        == m.photos[i] by {
        assert(m.photos[i].id != id);
    }
    assert(m.toggled(id).photos =~= m.photos);
    assert(m.toggled(id) =~= m);
}

/// History symmetry: opening the preview records the selection and
/// pushes exactly one marker entry; closing by back-navigation pops
/// exactly that entry, so the stack returns to its pre-open shape, and
/// the landing popstate — the exposed entry carries no marker, so its
/// hash is empty — leaves the gallery with no selection. The history
/// stack is modelled as the markers its entries carry.
pub proof fn lemma_history_symmetry(m: GalleryModel, history: Seq<bool>, id: u128)
    requires
        history.len() > 0,
        !history.last(),
    ensures
        ({
            let opened = m.with_selection(Some(id));
            let pushed = history.push(true);
            let popped = pushed.drop_last();
            let closed = popstate_step(opened, !popped.last());
            &&& closed.selected_photo is None
            &&& popped == history
            &&& closed == m.with_selection(None)
        }),
{
    assert(history.push(true).drop_last() =~= history);
    let opened = m.with_selection(Some(id));
    assert(popstate_step(opened, true) =~= m.with_selection(None));
}

} // verus!
