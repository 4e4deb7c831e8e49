//! The photo record and the fabrication of mock records.

use vstd::prelude::*;

verus! {

/// A single photo record. Immutable once created, except `is_liked`.
///
/// The identifier is held as the 128-bit value of a version-4 UUID,
/// and `created_at` as milliseconds since the Unix epoch, so that the
/// verified logic can compare and copy them as plain integers.
pub struct Photo {
    /// Opaque unique identifier, stable for the lifetime of the record.
    pub id: u128,
    /// Thumbnail / grid image reference.
    pub url: String,
    /// Full-resolution image reference; falls back to `url` when equal.
    pub preview_url: String,
    /// Display string.
    pub title: String,
    /// Milliseconds since the Unix epoch at record creation.
    pub created_at: i64,
    /// Toggled by user action.
    pub is_liked: bool,
    /// Natural width, used to preserve aspect ratio in layout.
    pub width: u32,
    /// Natural height, used to preserve aspect ratio in layout.
    pub height: u32,
}

/// The mathematical value of a [`Photo`].
pub struct PhotoModel {
    pub id: u128,
    pub url: Seq<char>,
    pub preview_url: Seq<char>,
    pub title: Seq<char>,
    pub created_at: i64,
    pub is_liked: bool,
    pub width: u32,
    pub height: u32,
}

impl View for Photo {
    type V = PhotoModel;

    open spec fn view(&self) -> PhotoModel {
        PhotoModel {
            id: self.id,
            url: self.url@,
            preview_url: self.preview_url@,
            title: self.title@,
            created_at: self.created_at,
            is_liked: self.is_liked,
            width: self.width,
            height: self.height,
        }
    }
}

/// The decimal digit `d`, for `0 <= d <= 9`.
pub open spec fn decimal_digit(d: int) -> char {
    if d == 0 {
        '0'
    } else if d == 1 {
        '1'
    } else if d == 2 {
        '2'
    } else if d == 3 {
        '3'
    } else if d == 4 {
        '4'
    } else if d == 5 {
        '5'
    } else if d == 6 {
        '6'
    } else if d == 7 {
        '7'
    } else if d == 8 {
        '8'
    } else {
        '9'
    }
}

/// The decimal rendering of `n`, most significant digit first.
pub open spec fn decimal(n: int) -> Seq<char>
    decreases n,
{
    if n < 10 {
        seq![decimal_digit(n)]
    } else {
        decimal(n / 10).push(decimal_digit(n % 10))
    }
}

/// The thumbnail address of the mock source: a square crop of the
/// picsum image with the given id.
pub open spec fn square_url_text(image_id: int) -> Seq<char> {
    "https://picsum.photos/id/"@ + decimal(image_id) + "/400/400"@
}

/// The full-resolution address of the mock source: the picsum image
/// with the given id at its natural dimensions.
pub open spec fn preview_url_text(image_id: int, width: int, height: int) -> Seq<char> {
    "https://picsum.photos/id/"@ + decimal(image_id) + "/"@ + decimal(width) + "/"@ + decimal(
        height,
    )
}

/// The display title of the mock record with the given id.
pub open spec fn mock_title_text(id: int) -> Seq<char> {
    "Photo #"@ + decimal(id)
}

/// The natural dimensions a mock record gets from its image id: the
/// three aspect ratios of the mock source, varied by the id.
pub open spec fn mock_dimensions(image_id: int) -> (u32, u32) {
    if image_id % 3 == 0 {
        (1600u32, 900u32)
    } else if image_id % 3 == 1 {
        (800u32, 1200u32)
    } else {
        (1200u32, 1200u32)
    }
}

/// Everything a mock record owes to its id: addresses, title and
/// dimensions. The record's unique id and creation time come from the
/// platform and are owed nothing.
pub open spec fn mock_shaped(p: PhotoModel, id: int) -> bool {
    &&& p.url == square_url_text(id % 1000)
    &&& p.preview_url == preview_url_text(id % 1000, p.width as int, p.height as int)
    &&& p.title == mock_title_text(id)
    &&& !p.is_liked
    &&& (p.width, p.height) == mock_dimensions(id % 1000)
}

/// Relies on `uuid::Uuid::new_v4`: a freshly generated random UUID,
/// carried as its 128-bit value. Nothing is promised of it.
#[verifier::external_body]
fn fresh_photo_id() -> u128 {
    uuid::Uuid::new_v4().as_u128()
}

/// Relies on `chrono::Utc::now`: the current wall-clock time, carried
/// as milliseconds since the Unix epoch. Nothing is promised of it.
#[verifier::external_body]
fn now_timestamp_millis() -> i64 {
    chrono::Utc::now().timestamp_millis()
}

/// Relies on `std`'s `format!`: a `usize` renders as its decimal
/// digits between the fixed parts of the thumbnail address.
#[verifier::external_body]
fn format_square_url(image_id: usize) -> (r: String)
    ensures
        r@ == square_url_text(image_id as int),
{
    format!("https://picsum.photos/id/{}/400/400", image_id)
}

/// Relies on `std`'s `format!`: each argument renders as its decimal
/// digits between the fixed parts of the full-resolution address.
#[verifier::external_body]
fn format_preview_url(image_id: usize, width: u32, height: u32) -> (r: String)
    ensures
        r@ == preview_url_text(image_id as int, width as int, height as int),
{
    format!("https://picsum.photos/id/{}/{}/{}", image_id, width, height)
}

/// Relies on `std`'s `format!`: a `usize` renders as its decimal
/// digits after the fixed title prefix.
#[verifier::external_body]
fn format_mock_title(id: usize) -> (r: String)
    ensures
        r@ == mock_title_text(id as int),
{
    format!("Photo #{}", id)
}

impl Photo {
    /// Fabricates the mock record with the given id: picsum addresses,
    /// a title naming the id, dimensions in one of three aspect ratios,
    /// a fresh unique identifier and the current creation time.
    pub fn new_mock(id: usize) -> (photo: Photo)
        ensures
            mock_shaped(photo@, id as int),
    {
        let image_id = id % 1000;
        let dims: (u32, u32) = if image_id % 3 == 0 {
            (1600, 900)
        } else if image_id % 3 == 1 {
            (800, 1200)
        } else {
            (1200, 1200)
        };
        Photo {
            id: fresh_photo_id(),
            url: format_square_url(image_id),
            preview_url: format_preview_url(image_id, dims.0, dims.1),
            title: format_mock_title(id),
            created_at: now_timestamp_millis(),
            is_liked: false,
            width: dims.0,
            height: dims.1,
        }
    }
}

impl Clone for Photo {
    fn clone(&self) -> (res: Self)
        ensures
            res == *self,
    {
        Photo {
            id: self.id,
            url: self.url.clone(),
            preview_url: self.preview_url.clone(),
            title: self.title.clone(),
            created_at: self.created_at,
            is_liked: self.is_liked,
            width: self.width,
            height: self.height,
        }
    }
}

} // verus!
