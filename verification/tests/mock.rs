use photo_gallery::GalleryViewModel;
use photo_gallery::Photo;
use photo_gallery::fetch_mock_photos;

#[test]
fn mock_photo_renders_exact_addresses() {
    let p = Photo::new_mock(7);
    assert_eq!(p.url, "https://picsum.photos/id/7/400/400");
    assert_eq!(p.preview_url, "https://picsum.photos/id/7/800/1200");
    assert_eq!(p.title, "Photo #7");
    assert!(!p.is_liked);
}

#[test]
fn mock_photo_dimensions_follow_image_id() {
    let p = Photo::new_mock(0);
    assert_eq!((p.width, p.height), (1600, 900));
    let p = Photo::new_mock(1);
    assert_eq!((p.width, p.height), (800, 1200));
    let p = Photo::new_mock(2);
    assert_eq!((p.width, p.height), (1200, 1200));
}

#[test]
fn mock_image_id_wraps_at_one_thousand() {
    let p = Photo::new_mock(1002);
    assert_eq!(p.url, "https://picsum.photos/id/2/400/400");
    assert_eq!(p.title, "Photo #1002");
    assert_eq!((p.width, p.height), (1200, 1200));
}

#[test]
fn fetch_page_numbers_records_from_cursor() {
    let photos = fetch_mock_photos(2, 20);
    assert_eq!(photos.len(), 20);
    assert_eq!(photos[0].title, "Photo #20");
    assert_eq!(photos[19].title, "Photo #39");
}

#[test]
fn fetched_records_carry_fresh_ids() {
    let mut vm = GalleryViewModel::new();
    vm.load_more();
    let first = fetch_mock_photos(1, 20);
    assert_ne!(first[0].id, first[1].id);
    vm.finish_load(first);
    let second = fetch_mock_photos(2, 20);
    assert!(vm.can_append(&second));
}

#[test]
fn mock_creation_time_is_set() {
    let p = Photo::new_mock(3);
    assert!(p.created_at > 0);
}
