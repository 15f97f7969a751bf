use vstd::prelude::*;

verus! {

/// Index of the last occurrence of `c` in `s`, or `-1` when `s` has none.
pub open spec fn last_occurrence(s: Seq<char>, c: char) -> int
    decreases s.len(),
{
    if s.len() == 0 {
        -1
    } else if s[s.len() - 1] == c {
        s.len() - 1
    } else {
        last_occurrence(s.drop_last(), c)
    }
}

/// `last_occurrence` finds an occurrence when one exists, and nothing
/// follows the index it returns.
pub proof fn lemma_last_occurrence(s: Seq<char>, c: char)
    ensures
        -1 <= last_occurrence(s, c) < s.len(),
        last_occurrence(s, c) >= 0 ==> s[last_occurrence(s, c)] == c,
        forall|j: int| last_occurrence(s, c) < j < s.len() ==> s[j] != c,
    decreases s.len(),
{
    if s.len() == 0 {
    } else if s[s.len() - 1] == c {
    } else {
        lemma_last_occurrence(s.drop_last(), c);
        assert forall|j: int| last_occurrence(s, c) < j < s.len() implies s[j] != c by {
            if j < s.len() - 1 {
                assert(s.drop_last()[j] == s[j]);
            }
        }
    }
}

/// The converse: an occurrence with nothing equal after it is the last one.
pub proof fn lemma_last_occurrence_is(s: Seq<char>, c: char, k: int)
    requires
        0 <= k < s.len(),
        s[k] == c,
        forall|j: int| k < j < s.len() ==> s[j] != c,
    ensures
        last_occurrence(s, c) == k,
    decreases s.len(),
{
    if k == s.len() - 1 {
    } else {
        assert(s[s.len() - 1] != c);
        assert(s.drop_last()[k] == c);
        assert forall|j: int| k < j < s.drop_last().len() implies s.drop_last()[j] != c by {
            assert(s.drop_last()[j] == s[j]);
        }
        lemma_last_occurrence_is(s.drop_last(), c, k);
    }
}

/// The part of a path after its last separator; the whole path when it has
/// none. For the paths the locator yields this is the file name.
pub open spec fn base_name(path: Seq<char>) -> Seq<char> {
    path.subrange(last_occurrence(path, '/') + 1, path.len() as int)
}

/// The extension of a file name: the text after its last dot. A name with no
/// dot, or whose only dot leads it (a bare hidden file), has none.
pub open spec fn extension_of(name: Seq<char>) -> Option<Seq<char>> {
    let d = last_occurrence(name, '.');
    if d <= 0 {
        None
    } else {
        Some(name.subrange(d + 1, name.len() as int))
    }
}

/// `s` ends with `suffix`.
pub open spec fn ends_with(s: Seq<char>, suffix: Seq<char>) -> bool {
    s.len() >= suffix.len() && s.subrange(s.len() - suffix.len(), s.len() as int) == suffix
}

/// The names the locator's `*.mp3` pattern selects inside one subdirectory.
pub open spec fn is_mp3_name(name: Seq<char>) -> bool {
    ends_with(name, ".mp3"@)
}

/// `base` and `child` joined with a single separator.
pub open spec fn joined(base: Seq<char>, child: Seq<char>) -> Seq<char> {
    base + seq!['/'] + child
}

/// Index of the last occurrence of `c` in `s`, scanning every character.
fn rfind_char(s: &str, c: char) -> (r: Option<usize>)
    ensures
        r matches Some(i) ==> last_occurrence(s@, c) == i as int,
        r is None ==> last_occurrence(s@, c) == -1,
{
    let n = s.unicode_len();
    let mut found: Option<usize> = None;
    let mut i: usize = 0;
    while i < n
        invariant
            i <= n,
            n == s@.len(),
            found matches Some(k) ==> last_occurrence(s@.take(i as int), c) == k as int && k < i,
            found is None ==> last_occurrence(s@.take(i as int), c) == -1,
        decreases n - i,
    {
        proof {
            assert(s@.take(i + 1 as int).drop_last() =~= s@.take(i as int));
            assert(s@.take(i + 1 as int)[i as int] == s@[i as int]);
        }
        if s.get_char(i) == c {
            found = Some(i);
        }
        i = i + 1;
    }
    proof {
        assert(s@.take(n as int) =~= s@);
    }
    found
}

/// The part of `path` after its last `/`; the whole of `path` when it has
/// none.
pub fn base_name_of(path: &str) -> (r: String)
    ensures
        r@ == base_name(path@),
{
    proof {
        lemma_last_occurrence(path@, '/');
    }
    match rfind_char(path, '/') {
        Some(i) => {
            let n = path.unicode_len();
            String::from_str(path.substring_char(i + 1, n))
        },
        None => {
            proof {
                assert(base_name(path@) =~= path@);
            }
            path.to_owned()
        },
    }
}

/// The extension of `path`'s base name, when it has one.
pub fn extension_of_path(path: &str) -> (r: Option<String>)
    ensures
        r matches Some(e) ==> extension_of(base_name(path@)) == Some(e@),
        r is None ==> extension_of(base_name(path@)) is None,
{
    let name = base_name_of(path);
    proof {
        lemma_last_occurrence(name@, '.');
    }
    match rfind_char(name.as_str(), '.') {
        Some(d) => {
            if d == 0 {
                None
            } else {
                let n = name.as_str().unicode_len();
                Some(String::from_str(name.as_str().substring_char(d + 1, n)))
            }
        },
        None => None,
    }
}

/// `base` and `child` joined with a single `/`.
pub fn join_path(base: &str, child: &str) -> (r: String)
    ensures
        r@ == joined(base@, child@),
{
    let mut out = base.to_owned();
    out.append("/");
    out.append(child);
    proof {
        reveal_strlit("/");
        assert(out@ =~= joined(base@, child@));
    }
    out
}

/// The pattern the locator matches directly inside one subdirectory:
/// `{dir}/*.mp3`. Only files ending `.mp3` are ever discovered, even though
/// the reader itself knows three container kinds.
pub fn mp3_pattern_for(dir: &str) -> (r: String)
    ensures
        r@ == joined(dir@, "*.mp3"@),
{
    join_path(dir, "*.mp3")
}

/// Whether the locator's `*.mp3` pattern selects `name`.
pub fn is_mp3_candidate(name: &str) -> (r: bool)
    ensures
        r == is_mp3_name(name@),
{
    proof {
        reveal_strlit(".mp3");
    }
    let n = name.unicode_len();
    if n < 4 {
        proof {
            assert(!is_mp3_name(name@));
        }
        return false;
    }
    let r = name.get_char(n - 4) == '.' && name.get_char(n - 3) == 'm' && name.get_char(n - 2)
        == 'p' && name.get_char(n - 1) == '3';
    proof {
        if r {
            assert(name@.subrange(n - 4 as int, n as int) =~= ".mp3"@);
        } else {
            if is_mp3_name(name@) {
                let sub = name@.subrange(n - 4 as int, n as int);
                assert(sub == ".mp3"@);
                assert(name@[n - 4 as int] == sub[0] && name@[n - 3 as int] == sub[1] && name@[n
                    - 2 as int] == sub[2] && name@[n - 1 as int] == sub[3]);
            }
        }
    }
    r
}

/// The name a moved file takes: `{title}.mp3` when a title is present, the
/// original base name of `path`, extension included, when it is not.
pub open spec fn chosen_file_name(title: Option<Seq<char>>, path: Seq<char>) -> Seq<char> {
    match title {
        Some(t) => t + ".mp3"@,
        None => base_name(path),
    }
}

/// Picks the destination file name for a song found at `path`.
pub fn dest_file_name(title: &Option<String>, path: &str) -> (r: String)
    ensures
        r@ == chosen_file_name(title.deep_view(), path@),
{
    match title {
        Some(t) => {
            let mut out = t.clone();
            out.append(".mp3");
            out
        },
        None => base_name_of(path),
    }
}

} // verus!
