use vstd::prelude::*;

use crate::paths::{
    base_name, chosen_file_name, dest_file_name, extension_of, extension_of_path, is_mp3_name,
    join_path, joined, lemma_last_occurrence_is,
};
use crate::tags::{check_tag_info, validated, MissingField, TagKind, TagValues, TagView};

verus! {

/// What inspecting a candidate file's path decides: the reason it is skipped
/// before any tag is read, or the container kind to read it as. Every path
/// falls under one of the three: discovery-time inspection never fails.
#[derive(Clone, Copy, Debug, PartialEq, Eq, Structural)]
pub enum Classification {
    /// The file has no extension, so no tag kind can be inferred.
    NoExtension,
    /// The extension names no supported container kind.
    Unsupported,
    /// The extension names this container kind.
    Read(TagKind),
}

/// The classification a path receives: its base name's extension decides,
/// `flac`, `mp3` and `mp4` naming the three container kinds.
pub open spec fn spec_classify(path: Seq<char>) -> Classification {
    match extension_of(base_name(path)) {
        None => Classification::NoExtension,
        Some(e) => {
            if e == "flac"@ {
                Classification::Read(TagKind::Flac)
            } else if e == "mp3"@ {
                Classification::Read(TagKind::Id3v2)
            } else if e == "mp4"@ {
                Classification::Read(TagKind::Mp4)
            } else {
                Classification::Unsupported
            }
        },
    }
}

/// Chooses the tag kind for a candidate file from its extension, or the
/// reason it is skipped.
pub fn classify_file(path: &str) -> (c: Classification)
    ensures
        c == spec_classify(path@),
{
    match extension_of_path(path) {
        None => Classification::NoExtension,
        Some(e) => {
            if e == String::from_str("flac") {
                Classification::Read(TagKind::Flac)
            } else if e == String::from_str("mp3") {
                Classification::Read(TagKind::Id3v2)
            } else if e == String::from_str("mp4") {
                Classification::Read(TagKind::Mp4)
            } else {
                Classification::Unsupported
            }
        },
    }
}

/// The per-file outcome once the tag fields are in hand: either the
/// destination directory to create and the full path to move the file to, or
/// the field whose absence leaves the file in place. A skipped file names no
/// destination at all, so nothing is created for it.
#[derive(Debug, PartialEq)]
pub enum TagPlan {
    Move { dest_dir: String, dest_path: String },
    Skip(MissingField),
}

/// Mathematical image of [`TagPlan`].
#[verifier::ext_equal]
pub ghost enum PlanView {
    Move { dest_dir: Seq<char>, dest_path: Seq<char> },
    Skip(MissingField),
}

impl View for TagPlan {
    type V = PlanView;

    open spec fn view(&self) -> PlanView {
        match self {
            TagPlan::Move { dest_dir, dest_path } => PlanView::Move {
                dest_dir: dest_dir@,
                dest_path: dest_path@,
            },
            TagPlan::Skip(m) => PlanView::Skip(*m),
        }
    }
}

/// The destination directory the canonical layout assigns a song:
/// `{output}/{artist}/{album}`.
pub open spec fn spec_dest_dir(output: Seq<char>, artist: Seq<char>, album: Seq<char>) -> Seq<
    char,
> {
    joined(joined(output, artist), album)
}

/// The plan for a file at `path` whose container held the fields `t`: a
/// complete artist and album send it to the canonical layout under `output`,
/// named by its title when one is present and by its own base name when not;
/// a missing required field leaves it in place.
pub open spec fn spec_plan(output: Seq<char>, path: Seq<char>, t: TagView) -> PlanView {
    match validated(t) {
        Err(m) => PlanView::Skip(m),
        Ok(s) => PlanView::Move {
            dest_dir: spec_dest_dir(output, s.artist, s.album),
            dest_path: joined(spec_dest_dir(output, s.artist, s.album), chosen_file_name(s.title, path)),
        },
    }
}

/// Turns the tag fields read from the file at `path` into the plan for it.
pub fn plan_move(output: &str, path: &str, tag: TagValues) -> (p: TagPlan)
    ensures
        p@ == spec_plan(output@, path@, tag@),
{
    let ghost t = tag@;
    match check_tag_info(tag) {
        Err(m) => TagPlan::Skip(m),
        Ok(song) => {
            let artist_dir = join_path(output, song.artist.as_str());
            let dest_dir = join_path(artist_dir.as_str(), song.album.as_str());
            let name = dest_file_name(&song.title, path);
            let dest_path = join_path(dest_dir.as_str(), name.as_str());
            let p = TagPlan::Move { dest_dir, dest_path };
            proof {
                assert(p@ =~= spec_plan(output@, path@, t));
            }
            p
        },
    }
}

/// One input file as the run model sees it: the path it was found at, and
/// the tag fields its container holds.
#[verifier::ext_equal]
pub ghost struct FileModel {
    pub path: Seq<char>,
    pub tag: TagView,
}

/// What one run does with one input file.
#[verifier::ext_equal]
pub ghost enum RunEffect {
    /// The locator's `*.mp3` pattern does not select the file: it is never
    /// visited.
    NotDiscovered,
    /// The file is visited but left at its original path.
    Skipped,
    /// The file is moved to `dest_path`, after `dest_dir` is created.
    Moved { dest_dir: Seq<char>, dest_path: Seq<char> },
}

/// What a run decides for one file under the output root `output`:
/// discovery by the `*.mp3` pattern, then classification by extension, then
/// the plan its tag fields call for. This composes the contracts of
/// [`classify_file`] and [`plan_move`] in the order the scanner applies
/// them; a decision depends on the file alone, never on other files or
/// earlier runs.
pub open spec fn decide(output: Seq<char>, f: FileModel) -> RunEffect {
    if !is_mp3_name(base_name(f.path)) {
        RunEffect::NotDiscovered
    } else {
        match spec_classify(f.path) {
            Classification::NoExtension => RunEffect::Skipped,
            Classification::Unsupported => RunEffect::Skipped,
            Classification::Read(_) => match spec_plan(output, f.path, f.tag) {
                PlanView::Skip(_) => RunEffect::Skipped,
                PlanView::Move { dest_dir, dest_path } => RunEffect::Moved {
                    dest_dir,
                    dest_path,
                },
            },
        }
    }
}

/// A name the `*.mp3` pattern selects has extension `mp3` — except the bare
/// `.mp3`, whose only dot leads it, which has no extension at all.
pub proof fn lemma_mp3_name_extension(name: Seq<char>)
    requires
        is_mp3_name(name),
        name != ".mp3"@,
    ensures
        extension_of(name) == Some("mp3"@),
{
    reveal_strlit(".mp3");
    reveal_strlit("mp3");
    let n = name.len() as int;
    let sub = name.subrange(n - 4, n);
    assert(sub == ".mp3"@);
    assert(name[n - 4] == sub[0] && name[n - 3] == sub[1] && name[n - 2] == sub[2] && name[n - 1]
        == sub[3]);
    if n == 4 {
        assert(name =~= ".mp3"@);
    }
    lemma_last_occurrence_is(name, '.', n - 4);
    assert(name.subrange(n - 3, n) =~= "mp3"@);
}

/// Law: a discovered file whose artist, album and title are all present is
/// moved, so after a run it exists at `output/{artist}/{album}/{title}.mp3`
/// and no longer at its original path. The one discovered name this cannot
/// hold for is the bare `.mp3`, which has no extension and is skipped.
pub proof fn lemma_complete_tags_are_moved(output: Seq<char>, f: FileModel)
    requires
        is_mp3_name(base_name(f.path)),
        base_name(f.path) != ".mp3"@,
        f.tag.artist is Some,
        f.tag.album is Some,
        f.tag.title is Some,
    ensures
        decide(output, f) == (RunEffect::Moved {
            dest_dir: spec_dest_dir(output, f.tag.artist->0, f.tag.album->0),
            dest_path: joined(
                spec_dest_dir(output, f.tag.artist->0, f.tag.album->0),
                f.tag.title->0 + ".mp3"@,
            ),
        }),
{
    lemma_mp3_name_extension(base_name(f.path));
    assert(decide(output, f) =~= RunEffect::Moved {
        dest_dir: spec_dest_dir(output, f.tag.artist->0, f.tag.album->0),
        dest_path: joined(
            spec_dest_dir(output, f.tag.artist->0, f.tag.album->0),
            f.tag.title->0 + ".mp3"@,
        ),
    });
}

/// Law: a discovered file with artist and album but no title is moved to
/// `output/{artist}/{album}/{original base name}`, its own name, extension
/// included, preserved verbatim.
pub proof fn lemma_untitled_file_keeps_its_name(output: Seq<char>, f: FileModel)
    requires
        is_mp3_name(base_name(f.path)),
        base_name(f.path) != ".mp3"@,
        f.tag.artist is Some,
        f.tag.album is Some,
        f.tag.title is None,
    ensures
        decide(output, f) == (RunEffect::Moved {
            dest_dir: spec_dest_dir(output, f.tag.artist->0, f.tag.album->0),
            dest_path: joined(
                spec_dest_dir(output, f.tag.artist->0, f.tag.album->0),
                base_name(f.path),
            ),
        }),
{
    lemma_mp3_name_extension(base_name(f.path));
    assert(decide(output, f) =~= RunEffect::Moved {
        dest_dir: spec_dest_dir(output, f.tag.artist->0, f.tag.album->0),
        dest_path: joined(
            spec_dest_dir(output, f.tag.artist->0, f.tag.album->0),
            base_name(f.path),
        ),
    });
}

/// Law: a file missing its artist or its album is never moved — after a run
/// it is still at its original path — and its plan names no destination, so
/// no destination directory is created for it.
pub proof fn lemma_missing_field_leaves_file(output: Seq<char>, f: FileModel)
    requires
        f.tag.artist is None || f.tag.album is None,
    ensures
        !(decide(output, f) is Moved),
        spec_plan(output, f.path, f.tag) is Skip,
{
}

/// Law: a file with no extension, or with one that names no supported
/// container kind, is never moved; every such file falls under a skip
/// outcome of the classification, so it cannot make the run fail either.
pub proof fn lemma_unsupported_files_stay(output: Seq<char>, f: FileModel)
    requires
        ({
            let e = extension_of(base_name(f.path));
            e is None || (e matches Some(x) && x != "flac"@ && x != "mp3"@ && x != "mp4"@)
        }),
    ensures
        !(decide(output, f) is Moved),
{
}

/// The files one run leaves in the input tree, in scan order: those its
/// decision does not move.
pub open spec fn run_leaves(output: Seq<char>, files: Seq<FileModel>) -> Seq<FileModel>
    decreases files.len(),
{
    if files.len() == 0 {
        Seq::empty()
    } else {
        let rest = run_leaves(output, files.drop_last());
        if decide(output, files.last()) is Moved {
            rest
        } else {
            rest.push(files.last())
        }
    }
}

/// The files one run moves out of the input tree, in scan order.
pub open spec fn run_moves(output: Seq<char>, files: Seq<FileModel>) -> Seq<FileModel>
    decreases files.len(),
{
    if files.len() == 0 {
        Seq::empty()
    } else {
        let rest = run_moves(output, files.drop_last());
        if decide(output, files.last()) is Moved {
            rest.push(files.last())
        } else {
            rest
        }
    }
}

/// One run partitions its input: every file is either moved out of the
/// input tree or left in it, and nothing else appears.
pub proof fn lemma_run_partitions_input(output: Seq<char>, files: Seq<FileModel>)
    ensures
        run_moves(output, files).len() + run_leaves(output, files).len() == files.len(),
    decreases files.len(),
{
    if files.len() > 0 {
        lemma_run_partitions_input(output, files.drop_last());
    }
}

/// Nothing a run leaves behind is a file its decision moves.
pub proof fn lemma_run_leaves_not_moved(output: Seq<char>, files: Seq<FileModel>)
    ensures
        forall|i: int|
            0 <= i < run_leaves(output, files).len() ==> !(decide(
                output,
                #[trigger] run_leaves(output, files)[i],
            ) is Moved),
    decreases files.len(),
{
    if files.len() > 0 {
        lemma_run_leaves_not_moved(output, files.drop_last());
    }
}

/// A run over files none of which its decision moves, moves nothing and
/// leaves all of them, in order.
pub proof fn lemma_unmoved_input_is_fixed(output: Seq<char>, files: Seq<FileModel>)
    requires
        forall|i: int| 0 <= i < files.len() ==> !(decide(output, #[trigger] files[i]) is Moved),
    ensures
        run_moves(output, files) =~= Seq::<FileModel>::empty(),
        run_leaves(output, files) =~= files,
    decreases files.len(),
{
    if files.len() > 0 {
        assert forall|i: int|
            0 <= i < files.drop_last().len() implies !(decide(
            output,
            #[trigger] files.drop_last()[i],
        ) is Moved) by {
            assert(files.drop_last()[i] == files[i]);
        }
        lemma_unmoved_input_is_fixed(output, files.drop_last());
        assert(!(decide(output, files.last()) is Moved));
        assert(run_leaves(output, files) =~= files.drop_last().push(files.last()));
        assert(files.drop_last().push(files.last()) =~= files);
    }
}

/// Law: running the pipeline twice produces no second-run effect. The files
/// the first run moved are gone from the input tree and are never
/// rediscovered; every decision is a function of the file alone, so the
/// second run moves nothing and leaves the remaining files exactly as they
/// are. (And a decision being a function, re-running against an untouched
/// copy of the input reproduces the first run's moves unchanged.)
pub proof fn lemma_second_run_changes_nothing(output: Seq<char>, files: Seq<FileModel>)
    ensures
        run_moves(output, run_leaves(output, files)) =~= Seq::<FileModel>::empty(),
        run_leaves(output, run_leaves(output, files)) =~= run_leaves(output, files),
{
    lemma_run_leaves_not_moved(output, files);
    lemma_unmoved_input_is_fixed(output, run_leaves(output, files));
}

} // verus!
