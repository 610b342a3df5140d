use recipe_pipeline::imaging::{
    chosen_image, decode_image, encode_image, fresh_file_name, fresh_id, image_file_name,
    image_url, prepare_upload, title_prompt, ImagingError, PLACEHOLDER_IMAGE,
};

#[test]
fn the_placeholder_is_the_fixed_address() {
    assert_eq!(PLACEHOLDER_IMAGE, "https://arweave.net/imiGGOP3GIoPcVUJAoZIaBI7DqQRZ7nPSiqunzMIMxQ");
}

#[test]
fn the_second_prompt_names_the_recipe() {
    assert_eq!(title_prompt("Cinnamon Rolls"), "A realistic photo of Cinnamon Rolls");
    assert_eq!(title_prompt(""), "A realistic photo of ");
}

#[test]
fn a_picture_is_named_by_its_identifier() {
    assert_eq!(image_file_name("1234"), "1234.jpg");
}

#[test]
fn the_address_of_an_uploaded_picture() {
    assert_eq!(
        image_url("recipes", "us-east-1", "1234.jpg"),
        "https://recipes.s3.us-east-1.amazonaws.com/1234.jpg"
    );
}

#[test]
fn a_picture_has_its_base64_text() {
    assert_eq!(encode_image(&b"hello".to_vec()), Some("aGVsbG8=".to_string()));
    assert_eq!(encode_image(&b"hello world~".to_vec()), Some("aGVsbG8gd29ybGR+".to_string()));
    assert_eq!(encode_image(&Vec::new()), Some(String::new()));
}

#[test]
fn a_picture_comes_back_from_its_base64_text() {
    let picture: Vec<u8> = (0..=255u8).collect();
    assert_eq!(prepare_upload(&picture), Some(picture.clone()));
    assert_eq!(prepare_upload(&Vec::new()), Some(Vec::new()));
}

#[test]
fn a_fresh_name_is_a_hyphenated_identifier_and_the_suffix() {
    let name = fresh_file_name();
    assert_eq!(name.len(), 40);
    assert!(name.ends_with(".jpg"));
    for (i, c) in name[..36].chars().enumerate() {
        if i == 8 || i == 13 || i == 18 || i == 23 {
            assert_eq!(c, '-');
        } else {
            assert!(c.is_ascii_digit() || ('a'..='f').contains(&c));
        }
    }
    assert_ne!(fresh_file_name(), name);
}

#[test]
fn a_base64_text_stands_for_its_bytes() {
    assert_eq!(decode_image("aGVsbG8="), Some(b"hello".to_vec()));
    assert_eq!(decode_image("aGVsbG8gd29ybGR+Cg=="), Some(b"hello world~\n".to_vec()));
    assert_eq!(decode_image(""), Some(Vec::new()));
}

#[test]
fn a_text_that_is_no_base64_stands_for_nothing() {
    assert_eq!(decode_image("not base64!"), None);
    assert_eq!(decode_image("aGVsbG8"), None);
    assert_eq!(decode_image("a"), None);
}

#[test]
fn a_fresh_identifier_is_hyphenated() {
    let id = fresh_id();
    assert_eq!(id.len(), 36);
    assert_eq!(id.matches('-').count(), 4);
    assert_ne!(fresh_id(), id);
}

#[test]
fn an_uploaded_picture_is_the_one_that_is_stored() {
    assert_eq!(
        chosen_image(Ok("https://recipes.s3.us-east-1.amazonaws.com/1234.jpg".to_string())),
        "https://recipes.s3.us-east-1.amazonaws.com/1234.jpg"
    );
}

#[test]
fn whatever_goes_wrong_leaves_the_placeholder() {
    for error in [
        ImagingError::Generation,
        ImagingError::Download,
        ImagingError::Transfer,
        ImagingError::Upload,
    ] {
        assert_eq!(chosen_image(Err(error)), PLACEHOLDER_IMAGE);
    }
}
