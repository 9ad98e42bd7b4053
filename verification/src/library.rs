//! The Library read model: the rows that index the session, the scanned
//! plugins and the recording takes, and the rules for editing their
//! management metadata.
//!
//! A recording row is keyed `recording:<take directory>`; its tag and note
//! are the user's and survive re-indexing. Metadata is trimmed and kept to
//! 128 characters for a tag and 16384 for a note; blank metadata is
//! cleared.

use vstd::prelude::*;
use crate::path::{join_path, plain_segment, path_file_name, no_question_mark, lemma_join_keeps_no_question_mark};
use crate::plugins::PluginEntry;
use crate::recording_index::RecordingAsset;
use crate::text::{concat2, to_string, starts_with, strip_prefix_or_self, strip_prefix_spec, trim_chars, trim_spec, string_from_range, chars_of, push_char, opt_view, str_eq};

verus! {

broadcast use vstd::string::group_string_axioms;

/// Most rows a search returns.
pub const SEARCH_LIMIT: i64 = 200;
/// Longest tag kept, in characters.
pub const TAG_LIMIT: usize = 128;
/// Longest note kept, in characters.
pub const NOTE_LIMIT: usize = 16_384;

/// One row of the Library.
#[derive(Clone, Debug, PartialEq)]
pub struct LibraryAsset {
    pub id: String,
    pub name: String,
    pub kind: String,
    pub path: Option<String>,
    pub tag: Option<String>,
    pub note: Option<String>,
    pub created_at_ms: Option<u64>,
    pub updated_at_ms: Option<u64>,
    pub stability: String,
}

/// What the Library reads of the current session.
pub struct SessionSummary {
    pub session_id: String,
    pub project_name: Option<String>,
    pub note: String,
    pub updated_at_ms: u64,
}

/// The row of the current session: `project:<id>`, named after the project
/// (`Untitled Scratch` without one), pointing at the scratch file under
/// `data_root`, with the session note (none when blank).
pub fn sync_session(data_root: &str, session: &SessionSummary) -> (row: LibraryAsset)
    ensures
        row.id@ == "project:"@ + session.session_id@,
        row.name@ == match session.project_name { Some(n) => n@, None => "Untitled Scratch"@ },
        row.kind@ == "project"@,
        row.path is Some,
        no_question_mark(data_root@) ==> (row.path matches Some(p) && {
            &&& data_root@.is_prefix_of(p@)
            &&& p@.len() == data_root@.len() + "scratch/current.json"@.len() || p@.len() == data_root@.len() + "scratch/current.json"@.len() + 1
            &&& p@.subrange(p@.len() - "scratch/current.json"@.len(), p@.len() as int) == "scratch/current.json"@
        }),
        row.tag is None,
        opt_view(row.note) == if session.note@.len() == 0 { None } else { Some(session.note@) },
        row.created_at_ms == Some(session.updated_at_ms),
        row.updated_at_ms == Some(session.updated_at_ms),
        row.stability@ == "saved"@,
{
    proof {
        reveal_strlit("scratch/current.json");
        assert(plain_segment("scratch/current.json"@));
    }
    let path = join_path(data_root, "scratch/current.json");
    LibraryAsset {
        id: concat2("project:", session.session_id.as_str()),
        name: match &session.project_name {
            Some(n) => n.clone(),
            None => to_string("Untitled Scratch"),
        },
        kind: to_string("project"),
        path: Some(path),
        tag: None,
        note: if session.note.as_str().is_empty() { None } else { Some(session.note.clone()) },
        created_at_ms: Some(session.updated_at_ms),
        updated_at_ms: Some(session.updated_at_ms),
        stability: to_string("saved"),
    }
}

/// The row of a scanned plugin: `plugin:<id>`, tagged with its vendor and
/// noted with its version.
pub open spec fn plugin_row(p: PluginEntry, row: LibraryAsset) -> bool {
    &&& row.id@ == "plugin:"@ + p.id@
    &&& row.name@ == p.name@
    &&& row.kind@ == "plugin"@
    &&& opt_view(row.path) == Some(p.path@)
    &&& opt_view(row.tag) == opt_view(p.vendor)
    &&& opt_view(row.note) == opt_view(p.version)
    &&& row.created_at_ms == p.modified_at_ms
    &&& row.updated_at_ms == p.modified_at_ms
    &&& row.stability@ == p.scan_state@
}

fn clone_opt(o: &Option<String>) -> (r: Option<String>)
    ensures
        opt_view(r) == opt_view(*o),
{
    match o {
        Some(s) => Some(s.clone()),
        None => None,
    }
}

/// The rows of the scanned plugins, in order; see `plugin_row`.
pub fn sync_plugins(plugins: &Vec<PluginEntry>) -> (rows: Vec<LibraryAsset>)
    ensures
        rows@.len() == plugins@.len(),
        forall|k: int| 0 <= k < plugins@.len() ==> plugin_row(#[trigger] plugins@[k], rows@[k]),
{
    let mut rows: Vec<LibraryAsset> = Vec::new();
    let mut i: usize = 0;
    while i < plugins.len()
        invariant
            i <= plugins.len(),
            rows@.len() == i,
            forall|k: int| 0 <= k < i ==> plugin_row(#[trigger] plugins@[k], rows@[k]),
        decreases plugins.len() - i,
    {
        let p = &plugins[i];
        rows.push(LibraryAsset {
            id: concat2("plugin:", p.id.as_str()),
            name: p.name.clone(),
            kind: to_string("plugin"),
            path: Some(p.path.clone()),
            tag: clone_opt(&p.vendor),
            note: clone_opt(&p.version),
            created_at_ms: p.modified_at_ms,
            updated_at_ms: p.modified_at_ms,
            stability: to_string(p.scan_state),
        });
        i += 1;
    }
    rows
}

/// The row id of a take: its id when it already starts with `recording:`,
/// else `recording:` and the id.
pub fn recording_asset_id(id: &str) -> (r: String)
    ensures
        r@ == if "recording:"@.is_prefix_of(id@) { id@ } else { "recording:"@ + id@ },
{
    if starts_with(id, "recording:") {
        to_string(id)
    } else {
        concat2("recording:", id)
    }
}

/// The take directory of a row or take id (`recording:` is optional).
pub fn recording_key(id: &str) -> (k: String)
    ensures
        k@ == strip_prefix_spec(id@, "recording:"@),
{
    strip_prefix_or_self(id, "recording:")
}

/// The row of a listed take: keyed by its take id, pointing at its
/// processed (else raw) audio, tagged with the capture's workspace and
/// noted with its source, created when the capture started and updated at
/// `indexed_at`, with the take's state as its stability.
pub open spec fn recording_row<P>(r: RecordingAsset<P>, indexed_at: u64, row: LibraryAsset) -> bool {
    &&& row.id@ == (if "recording:"@.is_prefix_of(r.id@) { r.id@ } else { "recording:"@ + r.id@ })
    &&& row.name@ == r.name@
    &&& row.kind@ == "recording"@
    &&& opt_view(row.path) == (if r.processed_path is Some { opt_view(r.processed_path) } else { opt_view(r.raw_path) })
    &&& opt_view(row.tag) == match r.capture { Some(c) => opt_view(c.workspace), None => None }
    &&& opt_view(row.note) == match r.capture { Some(c) => opt_view(c.source), None => None }
    &&& row.created_at_ms == match r.capture { Some(c) => Some(c.started_at_ms), None => None }
    &&& row.updated_at_ms == Some(indexed_at)
    &&& row.stability@ == r.state@
}

/// The rows of the listed takes, in order; see `recording_row`. Writing
/// them keeps the tag and note already on a row.
pub fn sync_recordings<P>(recordings: &Vec<RecordingAsset<P>>, indexed_at: u64) -> (rows: Vec<LibraryAsset>)
    ensures
        rows@.len() == recordings@.len(),
        forall|k: int| 0 <= k < recordings@.len() ==> recording_row(#[trigger] recordings@[k], indexed_at, rows@[k]),
{
    let mut rows: Vec<LibraryAsset> = Vec::new();
    let mut i: usize = 0;
    while i < recordings.len()
        invariant
            i <= recordings.len(),
            rows@.len() == i,
            forall|k: int| 0 <= k < i ==> recording_row(#[trigger] recordings@[k], indexed_at, rows@[k]),
        decreases recordings.len() - i,
    {
        let r = &recordings[i];
        let path = if r.processed_path.is_some() { clone_opt(&r.processed_path) } else { clone_opt(&r.raw_path) };
        let (tag, note, created) = match &r.capture {
            Some(c) => (clone_opt(&c.workspace), clone_opt(&c.source), Some(c.started_at_ms)),
            None => (None, None, None),
        };
        rows.push(LibraryAsset {
            id: recording_asset_id(r.id.as_str()),
            name: r.name.clone(),
            kind: to_string("recording"),
            path,
            tag,
            note,
            created_at_ms: created,
            updated_at_ms: Some(indexed_at),
            stability: r.state.clone(),
        });
        i += 1;
    }
    rows
}

/// The row ids cleared when a take is deleted: its recording row and its
/// MIDI row.
pub fn recording_row_ids(id: &str) -> (ids: (String, String))
    ensures
        ids.0@ == "recording:"@ + strip_prefix_spec(id@, "recording:"@),
        ids.1@ == "midi:"@ + strip_prefix_spec(id@, "recording:"@),
{
    let key = recording_key(id);
    (concat2("recording:", key.as_str()), concat2("midi:", key.as_str()))
}

/// How a moved take's row changes: nothing when the take stays under the
/// same key; else the row `recording:<old>` becomes `recording:<new>`,
/// named after the new directory.
pub enum Relocation {
    Unchanged,
    Move { old_row_id: String, new_row_id: String, new_name: String },
}

/// Plans the relocation of a take's row; an error when the new directory
/// has no name to show.
pub fn plan_relocation(old_id: &str, new_id: &str) -> (r: Result<Relocation, String>)
    ensures
        strip_prefix_spec(old_id@, "recording:"@) == strip_prefix_spec(new_id@, "recording:"@) ==> r matches Ok(Relocation::Unchanged),
        strip_prefix_spec(old_id@, "recording:"@) != strip_prefix_spec(new_id@, "recording:"@) ==> match r {
            Ok(Relocation::Move { old_row_id, new_row_id, new_name: _ }) =>
                old_row_id@ == "recording:"@ + strip_prefix_spec(old_id@, "recording:"@)
                && new_row_id@ == "recording:"@ + strip_prefix_spec(new_id@, "recording:"@),
            Ok(Relocation::Unchanged) => false,
            Err(e) => e@ == "Recording name could not be derived during relocation."@,
        },
{
    let old_key = recording_key(old_id);
    let new_key = recording_key(new_id);
    if str_eq(old_key.as_str(), new_key.as_str()) {
        return Ok(Relocation::Unchanged);
    }
    match path_file_name(new_key.as_str()) {
        None => Err(to_string("Recording name could not be derived during relocation.")),
        Some(new_name) => Ok(Relocation::Move {
            old_row_id: concat2("recording:", old_key.as_str()),
            new_row_id: concat2("recording:", new_key.as_str()),
            new_name,
        }),
    }
}

/// The first `limit` characters of the trimmed text, or nothing when that
/// is blank.
pub open spec fn metadata_text(value: Seq<char>, limit: nat) -> Option<Seq<char>> {
    let t = trim_spec(value);
    let kept = if t.len() > limit { t.take(limit as int) } else { t };
    if kept.len() == 0 { None } else { Some(kept) }
}

/// Normalizes a tag or note: trimmed, cut to `limit` characters, and
/// cleared when blank.
pub fn normalize_metadata(value: Option<String>, limit: usize) -> (r: Option<String>)
    ensures
        opt_view(r) == match value { Some(v) => metadata_text(v@, limit as nat), None => None },
{
    match value {
        None => None,
        Some(v) => {
            let t = trim_chars(v.as_str());
            let end = if t.len() > limit { limit } else { t.len() };
            let kept = string_from_range(&t, 0, end);
            assert(kept@ =~= (if t@.len() > limit { t@.take(limit as int) } else { t@ }));
            if end == 0 { None } else { Some(kept) }
        },
    }
}

/// Checks an id whose metadata is edited: not blank and at most 512 bytes.
pub fn check_metadata_id(id: &str) -> (r: Result<(), String>)
    ensures
        r is Ok <==> (trim_spec(id@).len() > 0 && id.len() <= 512),
        r matches Err(e) ==> e@ == "Library asset id is invalid."@,
{
    let t = trim_chars(id);
    if t.len() == 0 || id.len() > 512 {
        return Err(to_string("Library asset id is invalid."));
    }
    Ok(())
}

/// The SQL `LIKE` text of a search, `%` escaped as `\%` and `_` as `\_`.
pub open spec fn escape_like(q: Seq<char>) -> Seq<char>
    decreases q.len(),
{
    if q.len() == 0 {
        seq![]
    } else {
        let before = escape_like(q.drop_last());
        let c = q.last();
        if c == '%' || c == '_' { before + seq!['\\', c] } else { before.push(c) }
    }
}

/// `s` with every backslash that stands right before a `%` or `_` removed:
/// what a `LIKE` pattern matches literally.
pub open spec fn drop_escapes(s: Seq<char>) -> Seq<char>
    decreases s.len(),
{
    if s.len() == 0 {
        seq![]
    } else if s.len() >= 2 && s[0] == '\\' && (s[1] == '%' || s[1] == '_') {
        drop_escapes(s.drop_first())
    } else {
        seq![s[0]] + drop_escapes(s.drop_first())
    }
}

proof fn lemma_drop_escapes_concat(x: Seq<char>, y: Seq<char>)
    requires
        !(x.len() > 0 && x.last() == '\\' && y.len() > 0 && (y[0] == '%' || y[0] == '_')),
    ensures
        drop_escapes(x + y) == drop_escapes(x) + drop_escapes(y),
    decreases x.len(),
{
    if x.len() == 0 {
        assert(x + y =~= y);
    } else {
        assert((x + y).drop_first() =~= x.drop_first() + y);
        lemma_drop_escapes_concat(x.drop_first(), y);
        if x.len() == 1 {
            assert(x.drop_first() =~= Seq::<char>::empty());
            assert(drop_escapes(x.drop_first()) =~= Seq::<char>::empty());
        }
        assert(drop_escapes(x + y) =~= drop_escapes(x) + drop_escapes(y));
    }
}

proof fn lemma_escape_like_shape(q: Seq<char>)
    ensures
        q.len() > 0 ==> escape_like(q).len() > 0 && escape_like(q).last() == q.last(),
        forall|i: int| 0 <= i < escape_like(q).len() && (#[trigger] escape_like(q)[i] == '%' || escape_like(q)[i] == '_')
            ==> i > 0 && escape_like(q)[i - 1] == '\\',
    decreases q.len(),
{
    if q.len() > 0 {
        lemma_escape_like_shape(q.drop_last());
        let before = escape_like(q.drop_last());
        let e = escape_like(q);
        let c = q.last();
        assert forall|i: int| 0 <= i < e.len() && (#[trigger] e[i] == '%' || e[i] == '_') implies i > 0 && e[i - 1] == '\\' by {
            if i < before.len() {
                assert(e[i] == before[i]);
                assert(e[i - 1] == before[i - 1]);
            }
        }
    }
}

/// A search pattern matches exactly the query text: removing the escapes
/// from the escaped query gives the query back, character for character,
/// and no `%` or `_` of the query is left as a wildcard.
pub proof fn law_search_keeps_the_query(q: Seq<char>)
    ensures
        drop_escapes(escape_like(q)) == q,
        forall|i: int| 0 <= i < escape_like(q).len() && (#[trigger] escape_like(q)[i] == '%' || escape_like(q)[i] == '_')
            ==> i > 0 && escape_like(q)[i - 1] == '\\',
    decreases q.len(),
{
    lemma_escape_like_shape(q);
    if q.len() > 0 {
        let p = q.drop_last();
        law_search_keeps_the_query(p);
        let before = escape_like(p);
        let c = q.last();
        lemma_escape_like_shape(p);
        if c == '%' || c == '_' {
            let tail = seq!['\\', c];
            lemma_drop_escapes_concat(before, tail);
            assert(tail.drop_first() =~= seq![c]);
            assert(seq![c].drop_first() =~= Seq::<char>::empty());
            assert(drop_escapes(Seq::<char>::empty()) =~= Seq::<char>::empty());
            assert(seq![c][0] == c);
            assert(drop_escapes(seq![c]) == seq![seq![c][0]] + drop_escapes(seq![c].drop_first()));
            assert(drop_escapes(seq![c]) =~= seq![c]);
            assert(drop_escapes(tail) =~= seq![c]);
        } else {
            let tail = seq![c];
            lemma_drop_escapes_concat(before, tail);
            assert(tail.drop_first() =~= Seq::<char>::empty());
            assert(drop_escapes(Seq::<char>::empty()) =~= Seq::<char>::empty());
            assert(tail[0] == c);
            assert(drop_escapes(tail) == seq![tail[0]] + drop_escapes(tail.drop_first()));
            assert(drop_escapes(tail) =~= seq![c]);
            assert(before.push(c) =~= before + tail);
        }
        assert(p.push(c) =~= q);
    }
}

/// The pattern a search matches against: the trimmed query, escaped and
/// wrapped in `%`; nothing for a blank query.
pub fn search_pattern(query: &str) -> (r: Option<String>)
    ensures
        match r {
            None => trim_spec(query@).len() == 0,
            Some(p) => trim_spec(query@).len() > 0 && p@ == seq!['%'] + escape_like(trim_spec(query@)) + seq!['%']
                && drop_escapes(p@.subrange(1, p@.len() - 1)) == trim_spec(query@),
        },
{
    let t = trim_chars(query);
    if t.len() == 0 {
        return None;
    }
    let mut p = String::new();
    push_char(&mut p, '%');
    let mut i: usize = 0;
    while i < t.len()
        invariant
            i <= t.len(),
            p@ == seq!['%'] + escape_like(t@.take(i as int)),
        decreases t.len() - i,
    {
        let c = t[i];
        assert(t@.take(i as int + 1).drop_last() =~= t@.take(i as int));
        if c == '%' || c == '_' {
            push_char(&mut p, '\\');
        }
        push_char(&mut p, c);
        assert(p@ =~= seq!['%'] + escape_like(t@.take(i as int + 1)));
        i += 1;
    }
    assert(t@.take(t.len() as int) =~= t@);
    push_char(&mut p, '%');
    proof {
        law_search_keeps_the_query(t@);
        assert(p@.subrange(1, p@.len() - 1) =~= escape_like(t@));
    }
    Some(p)
}

/// The Library database file, `<data_root>/library/riffra.db`.
pub fn database_path(data_root: &str) -> (p: String)
    ensures
        no_question_mark(data_root@) ==> {
            &&& data_root@.is_prefix_of(p@)
            &&& p@.len() >= "riffra.db"@.len()
            &&& p@.subrange(p@.len() - "riffra.db"@.len(), p@.len() as int) == "riffra.db"@
        },
{
    proof {
        reveal_strlit("library");
        reveal_strlit("riffra.db");
        assert(plain_segment("library"@));
        assert(plain_segment("riffra.db"@));
        assert(no_question_mark("library"@));
    }
    let directory = join_path(data_root, "library");
    proof {
        if no_question_mark(data_root@) {
            lemma_join_keeps_no_question_mark(data_root@, "library"@, directory@);
        }
    }
    let path = join_path(directory.as_str(), "riffra.db");
    proof {
        if no_question_mark(data_root@) {
            assert forall|i: int| 0 <= i < data_root@.len() implies data_root@[i] == path@[i] by {
                assert(directory@[i] == path@[i]);
            }
        }
    }
    path
}

} // verus!
