//! Path components, as the platform splits a path.
//!
//! How a text splits into components is the platform's own syntax (a
//! backslash separates on Windows and not elsewhere), so nothing here states
//! which texts give which components; the rules that read the components are
//! verified over whatever the platform returns.

use vstd::prelude::*;
use std::path::{Component, Path};
use crate::text::contains_seq;

verus! {

/// One component of a path.
#[derive(Clone, Debug, PartialEq, Eq)]
pub enum PathPart {
    Prefix,
    RootDir,
    CurDir,
    ParentDir,
    Normal(String),
}

/// A relative path text that every platform reads alike: a plain segment
/// (see `plain_segment`) without backslashes, and without `..` between
/// slashes.
pub open spec fn portable_relative(path: Seq<char>) -> bool {
    &&& plain_segment(path)
    &&& forall|i: int| 0 <= i < path.len() ==> #[trigger] path[i] != '\\'
    &&& forall|i: int| 0 <= i && i + 2 <= path.len() && #[trigger] path[i] == '.' && path[i + 1] == '.'
        ==> !((i == 0 || path[i - 1] == '/') && (i + 2 == path.len() || path[i + 2] == '/'))
}

/// The position of the last `c` in `s`, or -1.
pub open spec fn last_index_of(s: Seq<char>, c: char) -> int
    decreases s.len(),
{
    if s.len() == 0 {
        -1
    } else if s.last() == c {
        s.len() - 1
    } else {
        last_index_of(s.drop_last(), c)
    }
}

/// The text after the last `/`.
pub open spec fn final_segment(s: Seq<char>) -> Seq<char> {
    s.subrange(last_index_of(s, '/') + 1, s.len() as int)
}

/// The extension of a portable relative text whose final segment has a `.`
/// after its first character: what follows the last `.`; none otherwise.
pub open spec fn simple_extension(s: Seq<char>) -> Option<Seq<char>> {
    let f = final_segment(s);
    let d = last_index_of(f, '.');
    if d > 0 { Some(f.subrange(d + 1, f.len() as int)) } else { None }
}

/// A text that every platform reads as names only: not empty, without a
/// separator (`/` or `\\`) or a drive colon.
pub open spec fn name_text(s: Seq<char>) -> bool {
    s.len() > 0 && forall|i: int| 0 <= i < s.len() ==> #[trigger] s[i] != '/' && s[i] != '\\' && s[i] != ':'
}

/// One plain name: a name text other than `.` and `..`.
pub open spec fn single_name_text(s: Seq<char>) -> bool {
    name_text(s) && s != seq!['.'] && s != seq!['.', '.']
}

/// Two names joined by `/`, the second not `.` (which would be dropped):
/// two components on every platform.
pub open spec fn two_name_text(s: Seq<char>) -> bool {
    exists|i: int| 0 < i < s.len() - 1 && #[trigger] s[i] == '/' && name_text(s.take(i)) && name_text(s.skip(i + 1))
        && s.skip(i + 1) != seq!['.']
}

/// `last_index_of` is -1 or an index of `c`, and no later index holds `c`.
pub proof fn lemma_last_index_of(s: Seq<char>, c: char)
    ensures
        -1 <= last_index_of(s, c) < s.len(),
        last_index_of(s, c) >= 0 ==> s[last_index_of(s, c)] == c,
        forall|k: int| last_index_of(s, c) < k < s.len() ==> #[trigger] s[k] != c,
    decreases s.len(),
{
    if s.len() > 0 && s.last() != c {
        lemma_last_index_of(s.drop_last(), c);
        assert forall|k: int| last_index_of(s, c) < k < s.len() implies #[trigger] s[k] != c by {
            if k < s.len() - 1 {
                assert(s[k] == s.drop_last()[k]);
            }
        }
    }
}

/// The `/`-separated segments of `s`, in order (an empty text is one empty
/// segment).
pub open spec fn segments(s: Seq<char>) -> Seq<Seq<char>>
    decreases s.len(),
{
    let i = last_index_of(s, '/');
    if i < 0 {
        seq![s]
    } else {
        proof {
            lemma_last_index_of(s, '/');
        }
        segments(s.take(i)).push(s.skip(i + 1))
    }
}

/// A relative path made of plain names joined by single `/`s: every
/// platform reads its components as exactly its segments.
pub open spec fn simple_path(s: Seq<char>) -> bool {
    forall|k: int| 0 <= k < segments(s).len() ==> single_name_text(#[trigger] segments(s)[k])
}

/// The text before the last `/` (empty without one).
pub open spec fn parent_text(s: Seq<char>) -> Seq<char> {
    let i = last_index_of(s, '/');
    if i < 0 { Seq::empty() } else { s.take(i) }
}

/// The stem of a file name: the part before its last `.`, unless that `.`
/// is the first character or there is none.
pub open spec fn stem_of(f: Seq<char>) -> Seq<char> {
    let d = last_index_of(f, '.');
    if d > 0 { f.take(d) } else { f }
}

/// The parts are normal components named `names`, in order.
pub open spec fn parts_named(parts: Seq<PathPart>, names: Seq<Seq<char>>) -> bool {
    parts.len() == names.len() && forall|k: int| 0 <= k < parts.len() ==> match #[trigger] parts[k] {
        PathPart::Normal(t) => t@ == names[k],
        _ => false,
    }
}

/// The optional text is `v`.
pub open spec fn text_is(t: Option<String>, v: Option<Seq<char>>) -> bool {
    match t {
        Some(x) => v == Some(x@),
        None => v is None,
    }
}

/// The parts are exactly one normal component, named `name`.
pub open spec fn one_normal_part(parts: Seq<PathPart>, name: Seq<char>) -> bool {
    parts.len() == 1 && match parts[0] {
        PathPart::Normal(t) => t@ == name,
        _ => false,
    }
}

/// The components of `path` (`std::path::Path::components`), each taken
/// one for one; a normal component's text is converted lossily.
///
/// Which components a text has is the platform's syntax and is not stated;
/// what is stated holds on every platform, where `/` separates and only a
/// leading separator, a drive colon or a backslash can make a root or a
/// prefix: a portable relative text has no root, prefix or parent component;
/// a single plain name is one normal component, itself; two names joined by
/// `/` are two components (a leading `.` stays, a trailing one would not).
#[verifier::external_body]
pub(crate) fn path_components(path: &str) -> (parts: Vec<PathPart>)
    ensures
        portable_relative(path@) ==> forall|k: int| 0 <= k < parts@.len() ==> !escapes(#[trigger] parts@[k]),
        single_name_text(path@) ==> one_normal_part(parts@, path@),
        two_name_text(path@) ==> parts@.len() == 2,
        simple_path(path@) ==> parts_named(parts@, segments(path@)),
{
    let mut parts = Vec::new();
    for component in Path::new(path).components() {
        parts.push(match component {
            Component::Prefix(_) => PathPart::Prefix,
            Component::RootDir => PathPart::RootDir,
            Component::CurDir => PathPart::CurDir,
            Component::ParentDir => PathPart::ParentDir,
            Component::Normal(text) => PathPart::Normal(text.to_string_lossy().into_owned()),
        });
    }
    parts
}

/// Whether `path` is absolute on this platform (`std::path::Path::is_absolute`).
///
/// An absolute path starts with a root on every platform (on Windows also
/// with a prefix, which needs a drive colon or a leading separator), so a
/// plain segment is never absolute; nothing more is stated.
#[verifier::external_body]
pub(crate) fn path_is_absolute(path: &str) -> (absolute: bool)
    ensures
        plain_segment(path@) ==> !absolute,
{
    Path::new(path).is_absolute()
}

/// Whether the components are exactly one plain name.
pub fn is_single_name(parts: &Vec<PathPart>) -> (r: bool)
    ensures
        r == (parts@.len() == 1 && parts@[0] is Normal),
{
    parts.len() == 1 && match &parts[0] {
        PathPart::Normal(_) => true,
        _ => false,
    }
}

/// Whether a component climbs out of, or jumps over, the directory a path
/// is resolved in.
pub open spec fn escapes(p: PathPart) -> bool {
    p is ParentDir || p is RootDir || p is Prefix
}

/// Whether any component escapes.
pub fn any_escaping(parts: &Vec<PathPart>) -> (r: bool)
    ensures
        r == exists|k: int| 0 <= k < parts@.len() && escapes(#[trigger] parts@[k]),
{
    let mut i: usize = 0;
    while i < parts.len()
        invariant
            i <= parts.len(),
            forall|k: int| 0 <= k < i ==> !escapes(#[trigger] parts@[k]),
        decreases parts.len() - i,
    {
        match &parts[i] {
            PathPart::ParentDir | PathPart::RootDir | PathPart::Prefix => {
                assert(escapes(parts@[i as int]));
                return true;
            },
            _ => {},
        }
        i += 1;
    }
    false
}

/// A relative path text on every platform: not empty, not starting with a
/// separator, and without a drive colon.
pub open spec fn plain_segment(segment: Seq<char>) -> bool {
    &&& segment.len() > 0
    &&& segment[0] != '/' && segment[0] != '\\'
    &&& forall|i: int| 0 <= i < segment.len() ==> #[trigger] segment[i] != ':'
}

/// Whether `s` starts with the Windows verbatim prefix `\\?\`.
pub open spec fn verbatim(s: Seq<char>) -> bool {
    s.len() >= 4 && s[0] == '\\' && s[1] == '\\' && s[2] == '?' && s[3] == '\\'
}

/// `s` holds no `?` (so it has no verbatim prefix).
pub open spec fn no_question_mark(s: Seq<char>) -> bool {
    forall|i: int| 0 <= i < s.len() ==> #[trigger] s[i] != '?'
}

/// `res` is `base` joined with `segment`: `base`, then at most one
/// separator (`/` or `\\`), then `segment`.
pub open spec fn joined(base: Seq<char>, segment: Seq<char>, res: Seq<char>) -> bool {
    &&& base.is_prefix_of(res)
    &&& res.len() == base.len() + segment.len() || res.len() == base.len() + segment.len() + 1
    &&& res.subrange(res.len() - segment.len(), res.len() as int) == segment
    &&& res.len() == base.len() + segment.len() + 1 ==> (res[base.len() as int] == '/' || res[base.len() as int] == '\\')
}

/// Appends a relative path to a base path (`std::path::Path::join`).
///
/// For a relative `segment` on a base without a verbatim prefix, the result
/// is `base`, then at most one separator (`/` or `\`), then `segment`.
/// Which separator is used is the platform's and is not stated, nor is the
/// result for other segments (an absolute one replaces the base) or on a
/// verbatim base (which Windows normalizes).
#[verifier::external_body]
pub(crate) fn join_path(base: &str, segment: &str) -> (res: String)
    ensures
        plain_segment(segment@) && !verbatim(base@) ==> joined(base@, segment@, res@),
{
    Path::new(base).join(segment).to_string_lossy().into_owned()
}

/// A join of texts without `?` holds no `?`.
pub proof fn lemma_join_keeps_no_question_mark(base: Seq<char>, segment: Seq<char>, res: Seq<char>)
    requires
        no_question_mark(base),
        no_question_mark(segment),
        base.is_prefix_of(res),
        res.len() == base.len() + segment.len() || res.len() == base.len() + segment.len() + 1,
        res.subrange(res.len() - segment.len(), res.len() as int) == segment,
        res.len() == base.len() + segment.len() + 1 ==> (res[base.len() as int] == '/' || res[base.len() as int] == '\\'),
    ensures
        no_question_mark(res),
        !verbatim(res),
{
    assert forall|i: int| 0 <= i < res.len() implies #[trigger] res[i] != '?' by {
        if i < base.len() {
            assert(res[i] == base[i]);
        } else if i >= res.len() - segment.len() {
            assert(res[i] == res.subrange(res.len() - segment.len(), res.len() as int)[i - (res.len() - segment.len())]);
        }
    }
}

/// The last component of `path` (`std::path::Path::file_name`), when it is
/// valid text.
///
/// An empty path has no file name; the file name of a simple path (see
/// `simple_path`) is its last segment. Other texts are the platform's.
#[verifier::external_body]
pub(crate) fn path_file_name(path: &str) -> (name: Option<String>)
    ensures
        path@.len() == 0 ==> name is None,
        simple_path(path@) ==> text_is(name, Some(final_segment(path@))),
{
    match Path::new(path).file_name() {
        Some(name) => name.to_str().map(str::to_owned),
        None => None,
    }
}

/// The extension of the last component of `path`
/// (`std::path::Path::extension`), converted lossily.
///
/// An extension is the part of the file name after its final `.`, and the
/// file name is the last component, a part of the text itself; so the text
/// holds a `.` followed by the extension. For a portable relative text
/// (see `portable_relative`) every platform splits at `/` only, so its file
/// name is its final segment; when that segment has a `.` after its first
/// character, the extension is what follows the last `.`. What the extension
/// of any other text is is the platform's and is not stated.
#[verifier::external_body]
pub(crate) fn path_extension(path: &str) -> (ext: Option<String>)
    ensures
        match ext {
            Some(e) => contains_seq(path@, "."@ + e@)
                && (portable_relative(path@) && simple_extension(path@) is Some ==> simple_extension(path@) == Some(e@)),
            None => !(portable_relative(path@) && simple_extension(path@) is Some),
        },
{
    match Path::new(path).extension() {
        Some(e) => Some(e.to_string_lossy().into_owned()),
        None => None,
    }
}

} // verus!
