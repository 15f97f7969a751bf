use mp3_mover::paths::is_mp3_candidate;
use mp3_mover::pipeline::{classify_file, plan_move, Classification, TagPlan};
use mp3_mover::tags::{MissingField, TagKind, TagValues};

fn full_tags(artist: &str, album: &str, title: Option<&str>) -> TagValues {
    TagValues {
        artist: Some(artist.to_string()),
        album: Some(album.to_string()),
        title: title.map(|t| t.to_string()),
    }
}

#[test]
fn classify_by_extension() {
    assert_eq!(classify_file("F00/A.mp3"), Classification::Read(TagKind::Id3v2));
    assert_eq!(classify_file("F00/C.flac"), Classification::Read(TagKind::Flac));
    assert_eq!(classify_file("F00/B.mp4"), Classification::Read(TagKind::Mp4));
    assert_eq!(classify_file("F00/E.jpg"), Classification::Unsupported);
    assert_eq!(classify_file("F00/noext"), Classification::NoExtension);
    assert_eq!(classify_file("F00/.mp3"), Classification::NoExtension);
}

#[test]
fn song_with_full_tags_is_moved_to_canonical_path() {
    // One run over a subdirectory `F00` holding `A.mp3` (complete tags),
    // `B.mp4` and `C.jpg`: only `A.mp3` is discovered, and it lands at
    // `output/Artist1/Album1/Song1.mp3`.
    assert_eq!(is_mp3_candidate("A.mp3"), true);
    assert_eq!(is_mp3_candidate("B.mp4"), false);
    assert_eq!(is_mp3_candidate("C.jpg"), false);
    assert_eq!(classify_file("F00/A.mp3"), Classification::Read(TagKind::Id3v2));
    let plan = plan_move(
        "output",
        "F00/A.mp3",
        full_tags("Artist1", "Album1", Some("Song1")),
    );
    assert_eq!(
        plan,
        TagPlan::Move {
            dest_dir: "output/Artist1/Album1".to_string(),
            dest_path: "output/Artist1/Album1/Song1.mp3".to_string(),
        }
    );
}

#[test]
fn song_without_title_keeps_its_filename() {
    // A file `XYZ.mp3` with artist and album but no title is moved to
    // `output/Artist2/Album2/XYZ.mp3`.
    let plan = plan_move(
        "output",
        "F00/XYZ.mp3",
        full_tags("Artist2", "Album2", None),
    );
    assert_eq!(
        plan,
        TagPlan::Move {
            dest_dir: "output/Artist2/Album2".to_string(),
            dest_path: "output/Artist2/Album2/XYZ.mp3".to_string(),
        }
    );
}

#[test]
fn song_without_artist_stays_in_place() {
    // A file with title and album but no artist is skipped: its plan names
    // no destination, so nothing is created and nothing is moved.
    let tag = TagValues {
        artist: None,
        album: Some("Dummy Album".to_string()),
        title: Some("Dummy Title".to_string()),
    };
    let plan = plan_move("output", "F00/A.mp3", tag);
    assert_eq!(plan, TagPlan::Skip(MissingField::Artist));
}

#[test]
fn song_without_album_stays_in_place() {
    let tag = TagValues {
        artist: Some("Dummy Artist".to_string()),
        album: None,
        title: Some("Dummy Title".to_string()),
    };
    let plan = plan_move("output", "F00/A.mp3", tag);
    assert_eq!(plan, TagPlan::Skip(MissingField::Album));
}

#[test]
fn decisions_are_repeatable() {
    // Re-running the pipeline changes nothing for a file it skipped: the
    // same inputs yield the same plan, and a moved file's destination is
    // outside the input tree, so it is never rediscovered there.
    let first = plan_move("output", "F00/A.mp3", full_tags("Artist1", "Album1", None));
    let second = plan_move("output", "F00/A.mp3", full_tags("Artist1", "Album1", None));
    assert_eq!(first, second);
    let skipped_first = plan_move(
        "output",
        "F00/B.mp3",
        TagValues { artist: None, album: None, title: None },
    );
    let skipped_second = plan_move(
        "output",
        "F00/B.mp3",
        TagValues { artist: None, album: None, title: None },
    );
    assert_eq!(skipped_first, TagPlan::Skip(MissingField::Artist));
    assert_eq!(skipped_first, skipped_second);
}

#[test]
fn unicode_tags_are_preserved() {
    let plan = plan_move(
        "out",
        "F00/umlaut.mp3",
        full_tags("Motörhead", "1916", Some("Nightmare / The Dreamtime")),
    );
    assert_eq!(
        plan,
        TagPlan::Move {
            dest_dir: "out/Motörhead/1916".to_string(),
            dest_path: "out/Motörhead/1916/Nightmare / The Dreamtime.mp3".to_string(),
        }
    );
}
