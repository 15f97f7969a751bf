use mp3_mover::tags::{check_tag_info, MissingField, TagValues};

#[test]
fn correct_tag() {
    let dummy_title = "Dummy Title";
    let dummy_artist = "Dummy Artist";
    let dummy_album = "Dummy Album";
    let tag = TagValues {
        artist: Some(dummy_artist.to_string()),
        album: Some(dummy_album.to_string()),
        title: Some(dummy_title.to_string()),
    };
    let result = check_tag_info(tag).unwrap();
    assert_eq!(result.title, Some(dummy_title.to_string()));
    assert_eq!(result.artist, dummy_artist);
    assert_eq!(result.album, dummy_album);
}

#[test]
fn tag_with_missing_title() {
    let dummy_artist = "Dummy Artist";
    let dummy_album = "Dummy Album";
    let tag = TagValues {
        artist: Some(dummy_artist.to_string()),
        album: Some(dummy_album.to_string()),
        title: None,
    };
    let result = check_tag_info(tag).unwrap();
    assert_eq!(result.title, None);
    assert_eq!(result.artist, dummy_artist);
    assert_eq!(result.album, dummy_album);
}

#[test]
fn tag_with_missing_artist() {
    let dummy_title = "Dummy Title";
    let dummy_album = "Dummy Album";
    let tag = TagValues {
        artist: None,
        album: Some(dummy_album.to_string()),
        title: Some(dummy_title.to_string()),
    };
    let result = check_tag_info(tag).unwrap_err();
    assert_eq!(result.message(), "Missing field: artist");
}

#[test]
fn tag_with_missing_album() {
    let dummy_title = "Dummy Title";
    let dummy_artist = "Dummy Artist";
    let tag = TagValues {
        artist: Some(dummy_artist.to_string()),
        album: None,
        title: Some(dummy_title.to_string()),
    };
    let result = check_tag_info(tag).unwrap_err();
    assert_eq!(result.message(), "Missing field: album");
}

#[test]
fn missing_artist_reported_before_album() {
    let tag = TagValues {
        artist: None,
        album: None,
        title: None,
    };
    let result = check_tag_info(tag).unwrap_err();
    assert_eq!(result, MissingField::Artist);
    assert_eq!(result.field_name(), "artist");
}

#[test]
fn missing_album_field_name() {
    let tag = TagValues {
        artist: Some("A".to_string()),
        album: None,
        title: None,
    };
    let result = check_tag_info(tag).unwrap_err();
    assert_eq!(result, MissingField::Album);
    assert_eq!(result.field_name(), "album");
}
