//! An infinite-scrolling photo gallery core: a gallery store with
//! cursor-based pagination, single-flight load suppression, a
//! pull-to-refresh gesture decoder, and preview navigation coupled to
//! browser history. The store and the controllers are verified; the
//! rendering layer and the platform (history stack, viewport observer,
//! touch events) are expected to drive them from outside.

use vstd::prelude::*;

mod laws;
mod photo;
mod preview;
mod pull;
mod repository;
mod state;
mod vm;

pub use photo::Photo;
pub use photo::PhotoModel;
pub use photo::decimal;
pub use photo::decimal_digit;
pub use photo::mock_dimensions;
pub use photo::mock_shaped;
pub use photo::mock_title_text;
pub use photo::preview_url_text;
pub use photo::square_url_text;
pub use repository::fetch_mock_photos;
pub use state::GalleryModel;
pub use state::GalleryState;
pub use state::lemma_appended_preserves_inv;
pub use state::lemma_toggled_preserves_inv;
pub use state::fresh_batch;
pub use state::has_id;
pub use state::ids_unique;
pub use state::views_of;
pub use state::flip_if;
pub use vm::FetchRequest;
pub use vm::GalleryViewModel;
pub use vm::HistoryOp;
pub use vm::find_id;
pub use vm::lemma_find_id_first;
pub use vm::load_more_step;
pub use vm::next_photo_step;
pub use vm::prev_photo_step;
pub use vm::popstate_step;
pub use vm::next_completed;
pub use pull::MAX_PULL;
pub use pull::PULL_THRESHOLD;
pub use pull::PullPhase;
pub use pull::PullToRefresh;
pub use pull::damped_pull;
pub use preview::PreviewCommand;
pub use preview::SWIPE_THRESHOLD;
pub use preview::SwipeTracker;
pub use preview::decode_key;
pub use preview::key_command;
pub use preview::swipe_command;
pub use laws::GalleryOp;
pub use laws::apply_op;
pub use laws::apply_ops;
pub use laws::appends_applied;
pub use laws::batches_fresh;
pub use laws::lemma_history_symmetry;
pub use laws::lemma_id_uniqueness;
pub use laws::lemma_loading_suppresses;
pub use laws::lemma_op_page_monotone;
pub use laws::lemma_op_preserves_inv;
pub use laws::lemma_op_preserves_terminal;
pub use laws::lemma_ops_preserve_inv;
pub use laws::op_permitted;
pub use laws::ops_permitted;
pub use laws::lemma_page_monotone;
pub use laws::lemma_single_flight;
pub use laws::lemma_terminal_has_more;
pub use laws::lemma_toggle_like_absent;
pub use laws::lemma_toggle_like_involution;
pub use laws::load_more_fetch_count;
pub use laws::load_more_repeated;
pub use laws::ops_fetch_count;

verus! {

/// Photos fetched per page by every pagination request.
pub const PAGE_LIMIT: usize = 20;

} // verus!
