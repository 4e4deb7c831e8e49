use photo_gallery::GalleryState;
use photo_gallery::GalleryViewModel;
use photo_gallery::HistoryOp;
use photo_gallery::Photo;
use photo_gallery::fetch_mock_photos;

fn mk_photo(id: u128, title: &str) -> Photo {
    Photo {
        id,
        url: format!("u{}", id),
        preview_url: format!("p{}", id),
        title: title.to_string(),
        created_at: 0,
        is_liked: false,
        width: 100,
        height: 100,
    }
}

fn vm_with_photos(ids: &[u128]) -> GalleryViewModel {
    let mut vm = GalleryViewModel::new();
    vm.load_more();
    let batch: Vec<Photo> = ids.iter().map(|&id| mk_photo(id, "t")).collect();
    vm.finish_load(batch);
    vm
}

#[test]
fn default_state_is_initial_shape() {
    let s = GalleryState::default();
    assert_eq!(s.photos.len(), 0);
    assert_eq!(s.page, 1);
    assert!(!s.is_loading);
    assert!(s.has_more);
    assert!(s.selected_photo.is_none());
}

#[test]
fn load_more_fills_first_page() {
    let mut vm = GalleryViewModel::new();
    let req = vm.load_more().expect("fresh state must issue a fetch");
    assert_eq!(req.page, 1);
    assert_eq!(req.limit, 20);
    assert!(vm.state.is_loading);

    let batch = fetch_mock_photos(req.page, req.limit);
    assert!(vm.can_append(&batch));
    vm.finish_load(batch);

    assert_eq!(vm.state.photos.len(), 20);
    assert_eq!(vm.state.page, 2);
    assert!(vm.state.has_more);
    assert!(!vm.state.is_loading);
}

#[test]
fn load_more_is_single_flight() {
    let mut vm = GalleryViewModel::new();
    let first = vm.load_more();
    assert!(first.is_some());
    assert!(vm.state.is_loading);

    assert!(vm.load_more().is_none());
    assert!(vm.load_more().is_none());
    assert!(vm.state.is_loading);
    assert_eq!(vm.state.page, 1);

    vm.finish_load(fetch_mock_photos(1, 20));
    assert!(!vm.state.is_loading);

    let again = vm.load_more().expect("after the fetch resolves, loading may start again");
    assert_eq!(again.page, 2);
}

#[test]
fn empty_page_makes_has_more_terminal() {
    let mut vm = vm_with_photos(&[1, 2, 3]);
    let req = vm.load_more().expect("has_more still true");
    assert_eq!(req.page, 2);
    vm.finish_load(Vec::new());

    assert!(!vm.state.has_more);
    assert!(!vm.state.is_loading);
    assert_eq!(vm.state.photos.len(), 3);
    assert_eq!(vm.state.page, 2);

    assert!(vm.load_more().is_none());
    vm.toggle_like(2);
    vm.prev_photo();
    assert!(vm.load_more().is_none());
    assert!(!vm.state.has_more);
}

#[test]
fn aborted_fetch_clears_loading_and_allows_retry() {
    let mut vm = vm_with_photos(&[1, 2, 3]);
    let req = vm.load_more().expect("ready state must issue a fetch");
    assert!(vm.state.is_loading);
    vm.abort_load();
    assert!(!vm.state.is_loading);
    assert!(vm.state.has_more);
    assert_eq!(vm.state.photos.len(), 3);
    assert_eq!(vm.state.page, req.page);
    let retry = vm.load_more().expect("the next qualifying event retries");
    assert_eq!(retry.page, req.page);
}

#[test]
fn toggle_like_twice_restores_structure() {
    let mut vm = vm_with_photos(&[1, 2, 3]);
    assert!(!vm.state.photos[1].is_liked);
    vm.toggle_like(2);
    assert!(vm.state.photos[1].is_liked);
    assert!(!vm.state.photos[0].is_liked);
    assert!(!vm.state.photos[2].is_liked);
    vm.toggle_like(2);
    assert!(!vm.state.photos[1].is_liked);
    assert_eq!(vm.state.photos.len(), 3);
    assert_eq!(vm.state.page, 2);
}

#[test]
fn toggle_like_absent_id_is_no_op() {
    let mut vm = vm_with_photos(&[1, 2, 3]);
    vm.toggle_like(99);
    assert_eq!(vm.state.photos.len(), 3);
    assert!(vm.state.photos.iter().all(|p| !p.is_liked));
}

#[test]
fn select_then_back_navigation_closes_preview() {
    let mut vm = vm_with_photos(&[1, 2, 3]);
    // The browser history, modelled as the preview marker of each entry.
    let mut history: Vec<bool> = vec![false];
    let depth_before = history.len();

    let photo = vm.state.photos[0].clone();
    let op = vm.select_photo(&photo);
    assert_eq!(op, HistoryOp::Push);
    history.push(true);
    assert_eq!(vm.state.selected_photo, Some(1));

    let op = vm.close_preview();
    assert_eq!(op, HistoryOp::Back);
    history.pop();
    let hash = if *history.last().unwrap() { "#preview" } else { "" };
    vm.sync_on_popstate(hash);

    assert!(vm.state.selected_photo.is_none());
    assert_eq!(history.len(), depth_before);
}

#[test]
fn popstate_with_marker_hash_keeps_selection() {
    let mut vm = vm_with_photos(&[1, 2]);
    let photo = vm.state.photos[1].clone();
    vm.select_photo(&photo);
    vm.sync_on_popstate("#preview");
    assert_eq!(vm.state.selected_photo, Some(2));
}

#[test]
fn next_photo_moves_selection_forward() {
    let mut vm = vm_with_photos(&[1, 2, 3]);
    let photo = vm.state.photos[0].clone();
    vm.select_photo(&photo);
    let req = vm.next_photo();
    assert!(req.is_none());
    assert_eq!(vm.state.selected_photo, Some(2));
}

#[test]
fn next_photo_without_selection_is_no_op() {
    let mut vm = vm_with_photos(&[1, 2, 3]);
    assert!(vm.next_photo().is_none());
    assert!(vm.state.selected_photo.is_none());
    assert!(!vm.state.is_loading);
}

#[test]
fn next_photo_at_tail_looks_ahead() {
    let mut vm = GalleryViewModel::new();
    let req = vm.load_more().unwrap();
    vm.finish_load(fetch_mock_photos(req.page, req.limit));
    assert_eq!(vm.state.photos.len(), 20);

    let last = vm.state.photos[19].clone();
    vm.select_photo(&last);
    let req = vm.next_photo().expect("at the tail with has_more, next must fetch");
    assert_eq!(req.page, 2);
    assert_eq!(req.limit, 20);
    assert!(vm.state.is_loading);

    let batch = fetch_mock_photos(req.page, req.limit);
    assert!(vm.can_append(&batch));
    vm.finish_next(batch);

    assert_eq!(vm.state.photos.len(), 40);
    assert_eq!(vm.state.selected_photo, Some(vm.state.photos[20].id));
    assert!(!vm.state.is_loading);
}

#[test]
fn next_photo_at_tail_exhausted_is_no_op() {
    let mut vm = vm_with_photos(&[1, 2, 3]);
    vm.load_more();
    vm.finish_load(Vec::new());
    let photo = vm.state.photos[2].clone();
    vm.select_photo(&photo);
    assert!(vm.next_photo().is_none());
    assert_eq!(vm.state.selected_photo, Some(3));
    assert!(!vm.state.is_loading);
}

#[test]
fn next_photo_lookahead_empty_page_keeps_selection() {
    let mut vm = vm_with_photos(&[1, 2, 3]);
    let photo = vm.state.photos[2].clone();
    vm.select_photo(&photo);
    let req = vm.next_photo();
    assert!(req.is_some());
    vm.finish_next(Vec::new());
    assert!(!vm.state.has_more);
    assert_eq!(vm.state.selected_photo, Some(3));
    assert_eq!(vm.state.photos.len(), 3);
}

#[test]
fn prev_photo_moves_selection_back() {
    let mut vm = vm_with_photos(&[1, 2, 3]);
    let photo = vm.state.photos[2].clone();
    vm.select_photo(&photo);
    vm.prev_photo();
    assert_eq!(vm.state.selected_photo, Some(2));
}

#[test]
fn prev_photo_at_head_is_no_op() {
    let mut vm = vm_with_photos(&[1, 2, 3]);
    let photo = vm.state.photos[0].clone();
    vm.select_photo(&photo);
    vm.prev_photo();
    assert_eq!(vm.state.selected_photo, Some(1));
}

#[test]
fn prev_photo_without_selection_is_no_op() {
    let mut vm = vm_with_photos(&[1, 2, 3]);
    vm.prev_photo();
    assert!(vm.state.selected_photo.is_none());
}

#[test]
fn refresh_resets_state_before_refetching() {
    let mut vm = GalleryViewModel::new();
    vm.load_more();
    vm.finish_load(fetch_mock_photos(1, 20));
    vm.load_more();
    vm.finish_load(Vec::new());
    assert!(!vm.state.has_more);

    let req = vm.refresh();
    assert_eq!(req.page, 1);
    assert_eq!(req.limit, 20);
    assert_eq!(vm.state.photos.len(), 0);
    assert_eq!(vm.state.page, 1);
    assert!(vm.state.has_more);
    assert!(vm.state.is_loading);
    assert!(vm.state.selected_photo.is_none());

    vm.finish_refresh(fetch_mock_photos(1, 20));
    assert_eq!(vm.state.photos.len(), 20);
    assert_eq!(vm.state.page, 2);
    assert!(vm.state.has_more);
    assert!(!vm.state.is_loading);
}

#[test]
fn refresh_with_empty_result_is_exhaustion() {
    let mut vm = vm_with_photos(&[1, 2]);
    vm.refresh();
    vm.finish_refresh(Vec::new());
    assert!(!vm.state.has_more);
    assert!(!vm.state.is_loading);
    assert_eq!(vm.state.photos.len(), 0);
}

#[test]
fn can_append_rejects_duplicate_ids_inside_batch() {
    let vm = vm_with_photos(&[1, 2]);
    let batch = vec![mk_photo(7, "a"), mk_photo(7, "b")];
    assert!(!vm.can_append(&batch));
}

#[test]
fn can_append_rejects_ids_already_present() {
    let vm = vm_with_photos(&[1, 2]);
    let batch = vec![mk_photo(3, "a"), mk_photo(2, "b")];
    assert!(!vm.can_append(&batch));
}

#[test]
fn can_append_accepts_fresh_batch() {
    let vm = vm_with_photos(&[1, 2]);
    let batch = vec![mk_photo(3, "a"), mk_photo(4, "b")];
    assert!(vm.can_append(&batch));
}

#[test]
fn find_index_returns_first_position() {
    let vm = vm_with_photos(&[10, 20, 30]);
    assert_eq!(vm.find_index(10), Some(0));
    assert_eq!(vm.find_index(30), Some(2));
    assert_eq!(vm.find_index(40), None);
    assert!(vm.contains_id(20));
    assert!(!vm.contains_id(21));
}
