use vstd::prelude::*;

verus! {

/// The closed set of tag-container kinds the pipeline can read, chosen
/// deterministically from a file's extension: `.flac`, `.mp3` and `.mp4`
/// respectively. Any other extension is rejected before a kind is chosen.
#[derive(Clone, Copy, Debug, PartialEq, Eq, Structural)]
pub enum TagKind {
    Flac,
    Id3v2,
    Mp4,
}

/// The three optional text fields a tag container exposes to the pipeline.
/// Which on-disk format backs them does not matter here.
#[derive(Debug)]
pub struct TagValues {
    pub artist: Option<String>,
    pub album: Option<String>,
    pub title: Option<String>,
}

/// Mathematical image of [`TagValues`]: each field as an optional character
/// sequence.
#[verifier::ext_equal]
pub ghost struct TagView {
    pub artist: Option<Seq<char>>,
    pub album: Option<Seq<char>>,
    pub title: Option<Seq<char>>,
}

impl View for TagValues {
    type V = TagView;

    open spec fn view(&self) -> TagView {
        TagView {
            artist: self.artist.deep_view(),
            album: self.album.deep_view(),
            title: self.title.deep_view(),
        }
    }
}

/// A complete set of song metadata: artist and album are always present when
/// a `SongInfo` exists; a missing title is carried through, meaning the
/// original filename is kept on a move.
#[derive(Debug)]
pub struct SongInfo {
    pub artist: String,
    pub album: String,
    pub title: Option<String>,
}

/// Mathematical image of [`SongInfo`].
#[verifier::ext_equal]
pub ghost struct SongView {
    pub artist: Seq<char>,
    pub album: Seq<char>,
    pub title: Option<Seq<char>>,
}

impl View for SongInfo {
    type V = SongView;

    open spec fn view(&self) -> SongView {
        SongView { artist: self.artist@, album: self.album@, title: self.title.deep_view() }
    }
}

/// The terminal classification of a file whose tags cannot support a move:
/// exactly one of the two required fields is reported as missing, the artist
/// checked first.
#[derive(Clone, Copy, Debug, PartialEq, Eq, Structural)]
pub enum MissingField {
    Artist,
    Album,
}

impl MissingField {
    /// The name of the missing field, as the log line reports it.
    pub fn field_name(&self) -> (r: &'static str)
        ensures
            *self == MissingField::Artist ==> r@ == "artist"@,
            *self == MissingField::Album ==> r@ == "album"@,
    {
        match self {
            MissingField::Artist => "artist",
            MissingField::Album => "album",
        }
    }

    /// The full diagnostic line for this classification.
    pub fn message(&self) -> (r: String)
        ensures
            *self == MissingField::Artist ==> r@ == "Missing field: artist"@,
            *self == MissingField::Album ==> r@ == "Missing field: album"@,
    {
        match self {
            MissingField::Artist => String::from_str("Missing field: artist"),
            MissingField::Album => String::from_str("Missing field: album"),
        }
    }
}

/// What tag validation yields for a given set of optional fields: a missing
/// artist is reported before the album is even consulted, a missing album is
/// reported next, and otherwise the fields are complete and the optional
/// title is carried through unchanged.
pub open spec fn validated(t: TagView) -> Result<SongView, MissingField> {
    if t.artist is None {
        Err(MissingField::Artist)
    } else if t.album is None {
        Err(MissingField::Album)
    } else {
        Ok(SongView { artist: t.artist->0, album: t.album->0, title: t.title })
    }
}

/// Validates the required fields of one tag: artist first, then album; a
/// missing title is not an error.
pub fn check_tag_info(tag: TagValues) -> (r: Result<SongInfo, MissingField>)
    ensures
        tag@.artist is None ==> r == Err::<SongInfo, MissingField>(MissingField::Artist),
        tag@.artist is Some && tag@.album is None ==> r == Err::<SongInfo, MissingField>(
            MissingField::Album,
        ),
        tag@.artist is Some && tag@.album is Some ==> (r matches Ok(s) && s@ == validated(
            tag@,
        )->Ok_0),
{
    let title = tag.title;

    let artist = match tag.artist {
        Some(val) => val,
        None => { return Err(MissingField::Artist) },
    };

    let album = match tag.album {
        Some(val) => val,
        None => { return Err(MissingField::Album) },
    };

    let r = Ok(SongInfo { artist, album, title });
    proof {
        assert(r->Ok_0@ =~= validated(tag@)->Ok_0);
    }
    r
}

} // verus!
