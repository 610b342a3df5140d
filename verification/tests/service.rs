use recipe_pipeline::service::{
    get_image_extension, image_file, keep_waiting, Header, ImageError, CORS, CORS_NAME,
};

#[test]
fn the_extension_follows_the_last_dot_of_the_last_part() {
    assert_eq!(get_image_extension("https://bucket.example/IMG_1476.png"), Some("png"));
    assert_eq!(get_image_extension("https://bucket.example/a.b/IMG.2314.jpg"), Some("jpg"));
    assert_eq!(get_image_extension("image.heic"), Some("heic"));
}

#[test]
fn a_last_part_without_a_dot_is_its_own_extension() {
    assert_eq!(get_image_extension("https://bucket.example/a.b/picture"), Some("picture"));
    assert_eq!(get_image_extension("picture"), Some("picture"));
}

#[test]
fn an_address_that_ends_in_a_slash_or_a_dot_has_the_empty_extension() {
    assert_eq!(get_image_extension("https://bucket.example/"), Some(""));
    assert_eq!(get_image_extension("https://bucket.example/picture."), Some(""));
    assert_eq!(get_image_extension(""), Some(""));
}

#[test]
fn the_extension_of_an_address_with_wide_characters() {
    assert_eq!(get_image_extension("https://bucket.example/cr\u{e8}me.br\u{fb}l\u{e9}e"), Some("br\u{fb}l\u{e9}e"));
}

#[test]
fn the_picture_is_kept_under_its_extension() {
    assert_eq!(image_file("png"), "/tmp/image.png");
}

#[test]
fn the_headers_let_any_page_call() {
    let header = |name: &str, value: &str| Header { name: name.to_string(), value: value.to_string() };
    assert_eq!(
        CORS.headers(),
        vec![
            header("Access-Control-Allow-Origin", "*"),
            header("Access-Control-Allow-Methods", "POST, GET, PATCH, OPTIONS"),
            header("Access-Control-Allow-Headers", "*"),
            header("Access-Control-Allow-Credentials", "true"),
        ]
    );
    assert_eq!(CORS_NAME, "Attaching CORS headers to responses");
}

#[test]
fn an_error_says_what_went_wrong() {
    let error = ImageError { message: "Failed to write image file".to_string() };
    assert_eq!(error.message(), "Failed to write image file");
}

#[test]
fn waiting_ends_when_the_file_is_there() {
    assert_eq!(keep_waiting(true, 0, 10), Some(true));
    assert_eq!(keep_waiting(true, 10, 10), Some(true));
    assert_eq!(keep_waiting(true, 3, 0), Some(true));
}

#[test]
fn waiting_ends_when_the_file_was_looked_for_often_enough() {
    assert_eq!(keep_waiting(false, 10, 10), Some(false));
    assert_eq!(keep_waiting(false, 11, 10), Some(false));
    assert_eq!(keep_waiting(false, 0, 0), Some(false));
}

#[test]
fn waiting_goes_on_otherwise() {
    assert_eq!(keep_waiting(false, 0, 10), None);
    assert_eq!(keep_waiting(false, 9, 10), None);
}
