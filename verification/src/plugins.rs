//! VST3 discovery: which files are plugins, how a plugin entry is named,
//! identified and ordered, and the report of a scan.
//!
//! A plugin is a file or bundle directory with the `vst3` extension; its id
//! is `vst3-` and the 64-bit FNV-1a hash of its lower-cased path, so the
//! same plugin keeps its id across scans. The walk over the folders is the
//! host's.

use vstd::prelude::*;
use crate::path::{path_components, path_file_name, path_extension, PathPart, portable_relative, simple_extension, simple_path,
    segments, parent_text, final_segment, stem_of, text_is, parts_named, lemma_last_index_of};
use crate::text::{
    opt_view,
    concat2, to_string, u64_to_hex16, hex_padded, eq_ignore_ascii_case, eq_ignore_ascii_case_spec, lowercase, to_lowercase,
    text_le, text_le_exec, contains_seq, lemma_text_le_total, lemma_text_le_transitive,
};

verus! {

broadcast use vstd::string::group_string_axioms;

/// At most this many folder entries are looked at in one scan.
pub const MAX_ENTRIES: usize = 100_000;

/// A discovered plugin.
#[derive(Clone, Debug)]
pub struct PluginEntry {
    pub id: String,
    pub name: String,
    pub vendor: Option<String>,
    pub version: Option<String>,
    pub format: &'static str,
    pub path: String,
    pub bundle: bool,
    pub modified_at_ms: Option<u64>,
    pub scan_state: &'static str,
}

/// Something the scan could not read.
#[derive(Clone, Debug)]
pub struct ScanIssue {
    pub path: String,
    pub message: String,
}

/// The result of scanning a folder.
pub struct ScanReport {
    pub root: String,
    pub started_at_ms: u64,
    pub finished_at_ms: u64,
    pub plugins: Vec<PluginEntry>,
    pub issues: Vec<ScanIssue>,
}

pub const FNV_OFFSET: u64 = 0xcbf29ce484222325;
pub const FNV_PRIME: u64 = 0x100000001b3;

/// The 64-bit FNV-1a hash: from the offset basis, each byte is xored in and
/// the hash multiplied by the prime, modulo 2^64.
pub open spec fn fnv1a_spec(bytes: Seq<u8>) -> u64
    decreases bytes.len(),
{
    if bytes.len() == 0 {
        FNV_OFFSET
    } else {
        vstd::wrapping::u64_specs::wrapping_mul(fnv1a_spec(bytes.drop_last()) ^ (bytes.last() as u64), FNV_PRIME)
    }
}

/// The 64-bit FNV-1a hash of `bytes`.
pub fn fnv1a(bytes: &[u8]) -> (h: u64)
    ensures
        h == fnv1a_spec(bytes@),
{
    let mut hash: u64 = FNV_OFFSET;
    let mut i: usize = 0;
    while i < bytes.len()
        invariant
            i <= bytes.len(),
            hash == fnv1a_spec(bytes@.take(i as int)),
        decreases bytes.len() - i,
    {
        assert(bytes@.take(i as int + 1).drop_last() =~= bytes@.take(i as int));
        hash = (hash ^ (bytes[i] as u64)).wrapping_mul(FNV_PRIME);
        i += 1;
    }
    assert(bytes@.take(bytes.len() as int) =~= bytes@);
    hash
}

/// The id of the plugin at `path`: `vst3-` and sixteen hex digits of the
/// FNV-1a hash of the UTF-8 bytes of its lower-cased path.
pub open spec fn plugin_id_spec(path: Seq<char>) -> Seq<char> {
    "vst3-"@ + hex_padded(fnv1a_spec(vstd::utf8::encode_utf8(lowercase(path))) as nat, 16)
}

/// The id of the plugin at `path`; see `plugin_id_spec`.
pub fn plugin_id(path: &str) -> (id: String)
    ensures
        id@ == plugin_id_spec(path@),
{
    let lowered = to_lowercase(path);
    let hash = fnv1a(lowered.as_str().as_bytes());
    let digits = u64_to_hex16(hash);
    concat2("vst3-", digits.as_str())
}

/// The last component of `path` without its extension
/// (`std::path::Path::file_stem`), when it is valid text. For a simple path
/// (see `simple_path`) that is the stem of its last segment (see
/// `stem_of`); other texts are the platform's.
#[verifier::external_body]
pub(crate) fn path_file_stem(path: &str) -> (stem: Option<String>)
    ensures
        simple_path(path@) ==> text_is(stem, Some(stem_of(final_segment(path@)))),
{
    match std::path::Path::new(path).file_stem() {
        Some(stem) => stem.to_str().map(str::to_owned),
        None => None,
    }
}

/// The path without its last component (`std::path::Path::parent`). For a
/// simple path (see `simple_path`) that is the text before its last `/`
/// (empty without one); other texts are the platform's.
#[verifier::external_body]
fn path_parent(path: &str) -> (parent: Option<String>)
    ensures
        simple_path(path@) ==> text_is(parent, Some(parent_text(path@))),
{
    match std::path::Path::new(path).parent() {
        Some(p) => Some(p.to_string_lossy().into_owned()),
        None => None,
    }
}

/// Whether an extension names a VST3 plugin (`vst3` in any case).
pub fn is_vst3_extension(extension: Option<String>) -> (r: bool)
    ensures
        r == match extension { Some(e) => eq_ignore_ascii_case_spec(e@, "vst3"@), None => false },
{
    match extension {
        Some(e) => eq_ignore_ascii_case(e.as_str(), "vst3"),
        None => false,
    }
}

/// Whether `path` is a VST3 plugin, by its extension (`vst3` in any ASCII
/// case): only a path whose text holds such a `.vst3` can be one, and a
/// portable relative path whose final segment ends so is one.
pub fn is_vst3(path: &str) -> (r: bool)
    ensures
        r ==> exists|e: Seq<char>| #[trigger] eq_ignore_ascii_case_spec(e, "vst3"@) && contains_seq(path@, "."@ + e),
        portable_relative(path@) ==> (simple_extension(path@) matches Some(e) && eq_ignore_ascii_case_spec(e, "vst3"@) ==> r),
{
    let ext = path_extension(path);
    proof {
        if ext is Some {
            let e = ext->0;
            if eq_ignore_ascii_case_spec(e@, "vst3"@) {
                assert(eq_ignore_ascii_case_spec(e@, "vst3"@) && contains_seq(path@, "."@ + e@));
            }
        }
    }
    is_vst3_extension(ext)
}

fn same_parts(a: &Vec<PathPart>, b: &Vec<PathPart>) -> (r: bool)
    ensures
        r == (a@.len() == b@.len() && forall|k: int| 0 <= k < a@.len() ==> part_eq(#[trigger] a@[k], b@[k])),
{
    if a.len() != b.len() {
        return false;
    }
    let mut i: usize = 0;
    while i < a.len()
        invariant
            a@.len() == b@.len(),
            i <= a.len(),
            forall|k: int| 0 <= k < i ==> part_eq(#[trigger] a@[k], b@[k]),
        decreases a.len() - i,
    {
        let equal = match (&a[i], &b[i]) {
            (PathPart::Normal(x), PathPart::Normal(y)) => crate::text::str_eq(x.as_str(), y.as_str()),
            (PathPart::Prefix, PathPart::Prefix) => true,
            (PathPart::RootDir, PathPart::RootDir) => true,
            (PathPart::CurDir, PathPart::CurDir) => true,
            (PathPart::ParentDir, PathPart::ParentDir) => true,
            _ => false,
        };
        if !equal {
            return false;
        }
        i += 1;
    }
    true
}

/// Two components are the same.
pub open spec fn part_eq(a: PathPart, b: PathPart) -> bool {
    match (a, b) {
        (PathPart::Normal(x), PathPart::Normal(y)) => x@ == y@,
        (PathPart::Prefix, PathPart::Prefix) => true,
        (PathPart::RootDir, PathPart::RootDir) => true,
        (PathPart::CurDir, PathPart::CurDir) => true,
        (PathPart::ParentDir, PathPart::ParentDir) => true,
        _ => false,
    }
}

/// The vendor of a plugin: the name of the folder holding it, unless that
/// folder is the scan root or is itself named `vst3` (in any case).
pub fn vendor_of(parent_is_root: bool, parent_name: Option<String>) -> (v: Option<String>)
    ensures
        v == if parent_is_root { None } else {
            match parent_name {
                Some(n) => if eq_ignore_ascii_case_spec(n@, "vst3"@) { None } else { Some(n) },
                None => None,
            }
        },
{
    if parent_is_root {
        return None;
    }
    match parent_name {
        Some(n) => if eq_ignore_ascii_case(n.as_str(), "vst3") { None } else { Some(n) },
        None => None,
    }
}

/// The vendor `vendor_of` gives, as values.
pub open spec fn vendor_spec(parent_is_root: bool, parent_name: Option<Seq<char>>) -> Option<Seq<char>> {
    if parent_is_root {
        None
    } else {
        match parent_name {
            Some(n) => if eq_ignore_ascii_case_spec(n, "vst3"@) { None } else { Some(n) },
            None => None,
        }
    }
}

/// The name of the folder holding the file at a simple path (none at the
/// top level).
pub open spec fn folder_name(path: Seq<char>) -> Option<Seq<char>> {
    if parent_text(path).len() == 0 { None } else { Some(final_segment(parent_text(path))) }
}

/// The folder of a simple path is a simple path with all but its last
/// segment, or empty.
proof fn lemma_parent_of_simple(path: Seq<char>)
    requires
        simple_path(path),
    ensures
        parent_text(path).len() > 0 ==> simple_path(parent_text(path)) && segments(parent_text(path)) == segments(path).drop_last(),
        segments(path).len() > 1 <==> parent_text(path).len() > 0,
{
    let i = crate::path::last_index_of(path, '/');
    lemma_last_index_of(path, '/');
    if i >= 0 {
        let p = path.take(i);
        assert(segments(path) == segments(p).push(path.skip(i + 1)));
        assert(segments(p) =~= segments(path).drop_last());
        assert forall|k: int| 0 <= k < segments(p).len() implies crate::path::single_name_text(#[trigger] segments(p)[k]) by {
            assert(segments(p)[k] == segments(path)[k]);
        }
        lemma_segments_nonempty(p);
        if p.len() == 0 {
            assert(segments(p) == seq![p]);
            assert(!crate::path::single_name_text(segments(p)[0]));
        }
    } else {
        assert(segments(path) == seq![path]);
    }
}

proof fn lemma_segments_nonempty(s: Seq<char>)
    ensures
        segments(s).len() >= 1,
    decreases s.len(),
{
    let i = crate::path::last_index_of(s, '/');
    lemma_last_index_of(s, '/');
    if i >= 0 {
        lemma_segments_nonempty(s.take(i));
    }
}

/// The entry of the plugin at `path` found under `root`: named by its file
/// stem (`Unknown VST3` when that is not text), with its vendor (see
/// `vendor_of`), its id (see `plugin_id_spec`), no version, format `VST3`
/// and scan state `discovered`. For simple paths (see `simple_path`) the
/// stem is that of the last segment, and the vendor is that of the folder
/// holding the plugin, which is the root when its segments are the root's.
pub fn plugin_entry(root: &str, path: &str, bundle: bool, modified_at_ms: Option<u64>) -> (e: PluginEntry)
    ensures
        simple_path(path@) ==> e.name@ == stem_of(final_segment(path@)),
        simple_path(path@) && simple_path(root@) ==> opt_view(e.vendor)
            == vendor_spec(segments(parent_text(path@)) == segments(root@), folder_name(path@)),
        e.id@ == plugin_id_spec(path@),
        e.path@ == path@,
        e.bundle == bundle,
        e.version is None,
        e.format@ == "VST3"@,
        e.scan_state@ == "discovered"@,
        e.modified_at_ms == modified_at_ms,
        entry_fits(root@, path@, bundle, modified_at_ms, e),
{
    let name = match path_file_stem(path) {
        Some(stem) => stem,
        None => to_string("Unknown VST3"),
    };
    proof {
        if simple_path(path@) {
            lemma_parent_of_simple(path@);
        }
    }
    let vendor = match path_parent(path) {
        Some(parent) => {
            let parent_parts = path_components(parent.as_str());
            let root_parts = path_components(root);
            let is_root = same_parts(&parent_parts, &root_parts);
            let name = path_file_name(parent.as_str());
            proof {
                if simple_path(path@) && simple_path(root@) && parent@.len() > 0 {
                    let a = segments(parent@);
                    let b = segments(root@);
                    if is_root {
                        assert forall|k: int| 0 <= k < a.len() implies #[trigger] a[k] == b[k] by {
                            assert(part_eq(parent_parts@[k], root_parts@[k]));
                        }
                        assert(a =~= b);
                    }
                    if a == b {
                        assert forall|k: int| 0 <= k < parent_parts@.len() implies part_eq(#[trigger] parent_parts@[k], root_parts@[k]) by {
                            assert(a[k] == b[k]);
                        }
                    }
                }
            }
            vendor_of(is_root, name)
        },
        None => None,
    };
    PluginEntry {
        id: plugin_id(path),
        name,
        vendor,
        version: None,
        format: "VST3",
        path: to_string(path),
        bundle,
        modified_at_ms,
        scan_state: "discovered",
    }
}

/// A scan issue at `path`.
pub fn issue(path: &str, message: String) -> (i: ScanIssue)
    ensures
        i.path@ == path@,
        i.message == message,
{
    ScanIssue { path: to_string(path), message }
}

/// Milliseconds since the Unix epoch as a `u64`: 0 for a time before the
/// epoch (`None`), `u64::MAX` past its range.
pub fn epoch_ms(millis_since_epoch: Option<u128>) -> (ms: u64)
    ensures
        ms == match millis_since_epoch {
            None => 0,
            Some(m) => if m > u64::MAX { u64::MAX } else { m as u64 },
        },
{
    match millis_since_epoch {
        None => 0,
        Some(m) => if m > u64::MAX as u128 { u64::MAX } else { m as u64 },
    }
}

/// What the walk does with a folder entry.
#[derive(Clone, Copy, Debug, PartialEq, Eq, Structural)]
pub enum EntryAction {
    /// A plugin; `bundle` when it is a directory (a bundle is not entered).
    Plugin { bundle: bool },
    /// A folder to walk into.
    Descend,
    Skip,
}

/// A plugin is kept whole; other directories are walked into unless they
/// are symbolic links; anything else is skipped.
pub fn classify_entry(is_plugin: bool, is_dir: bool, is_symlink: bool) -> (a: EntryAction)
    ensures
        a == if is_plugin { EntryAction::Plugin { bundle: is_dir } }
            else if is_dir && !is_symlink { EntryAction::Descend }
            else { EntryAction::Skip },
{
    if is_plugin {
        EntryAction::Plugin { bundle: is_dir }
    } else if is_dir && !is_symlink {
        EntryAction::Descend
    } else {
        EntryAction::Skip
    }
}

/// Whether the walk has looked at more entries than it may.
pub fn over_entry_limit(entries_seen: usize) -> (r: bool)
    ensures
        r == (entries_seen > MAX_ENTRIES),
{
    entries_seen > MAX_ENTRIES
}

pub open spec fn plugin_key(p: PluginEntry) -> Seq<char> {
    lowercase(p.name@)
}

/// Ordered by lower-cased name.
pub open spec fn by_name(s: Seq<PluginEntry>) -> bool {
    forall|i: int, j: int| 0 <= i < j < s.len() ==> text_le(#[trigger] plugin_key(s[i]), #[trigger] plugin_key(s[j]))
}

/// `x` placed in `s` after every plugin whose name does not sort after it.
pub open spec fn insert_by_name(s: Seq<PluginEntry>, x: PluginEntry) -> Seq<PluginEntry>
    decreases s.len(),
{
    if s.len() == 0 {
        seq![x]
    } else if !text_le(plugin_key(s[0]), plugin_key(x)) {
        seq![x] + s
    } else {
        seq![s[0]] + insert_by_name(s.drop_first(), x)
    }
}

/// The plugins ordered by lower-cased name, plugins of the same name in the
/// order given (a stable sort).
pub open spec fn by_name_order(s: Seq<PluginEntry>) -> Seq<PluginEntry>
    decreases s.len(),
{
    if s.len() == 0 { seq![] } else { insert_by_name(by_name_order(s.drop_last()), s.last()) }
}

proof fn lemma_insert_by_name(s: Seq<PluginEntry>, x: PluginEntry, p: int)
    requires
        0 <= p <= s.len(),
        forall|k: int| 0 <= k < p ==> text_le(#[trigger] plugin_key(s[k]), plugin_key(x)),
        p < s.len() ==> !text_le(plugin_key(s[p]), plugin_key(x)),
    ensures
        insert_by_name(s, x) == s.insert(p, x),
    decreases s.len(),
{
    if s.len() == 0 {
        assert(s.insert(p, x) =~= seq![x]);
    } else if p == 0 {
        assert(s.insert(0, x) =~= seq![x] + s);
    } else {
        assert forall|k: int| 0 <= k < p - 1 implies text_le(#[trigger] plugin_key(s.drop_first()[k]), plugin_key(x)) by {
            assert(s.drop_first()[k] == s[k + 1]);
        }
        lemma_insert_by_name(s.drop_first(), x, p - 1);
        assert(s.insert(p, x) =~= seq![s[0]] + s.drop_first().insert(p - 1, x));
    }
}

/// Orders plugins by lower-cased name; plugins of the same name keep their
/// order.
pub fn sort_plugins(plugins: Vec<PluginEntry>) -> (sorted: Vec<PluginEntry>)
    ensures
        sorted@ == by_name_order(plugins@),
        sorted@.to_multiset() == plugins@.to_multiset(),
        by_name(sorted@),
{
    broadcast use vstd::seq_lib::group_to_multiset_ensures, vstd::multiset::group_multiset_axioms;
    let ghost input = plugins@;
    let mut rest = plugins;
    let mut out: Vec<PluginEntry> = Vec::new();
    let mut keys: Vec<String> = Vec::new();
    let ghost mut n: int = 0;
    assert(out@.to_multiset() =~= vstd::multiset::Multiset::<PluginEntry>::empty());
    while rest.len() > 0
        invariant
            0 <= n <= input.len(),
            rest@ == input.skip(n),
            out@ == by_name_order(input.take(n)),
            out@.to_multiset().add(rest@.to_multiset()) == input.to_multiset(),
            by_name(out@),
            keys@.len() == out@.len(),
            forall|k: int| 0 <= k < out@.len() ==> (#[trigger] keys@[k])@ == plugin_key(out@[k]),
        decreases rest.len(),
    {
        let ghost rest0 = rest@;
        let x = rest.remove(0);
        assert(x == input[n]);
        assert(input.take(n + 1).drop_last() =~= input.take(n));
        proof {
            vstd::seq_lib::to_multiset_remove(rest0, 0);
        }
        let key = to_lowercase(x.name.as_str());
        let mut p: usize = 0;
        while p < out.len() && text_le_exec(keys[p].as_str(), key.as_str())
            invariant
                p <= out.len(),
                keys@.len() == out@.len(),
                forall|k: int| 0 <= k < out@.len() ==> (#[trigger] keys@[k])@ == plugin_key(out@[k]),
                key@ == plugin_key(x),
                forall|k: int| 0 <= k < p ==> text_le(#[trigger] plugin_key(out@[k]), plugin_key(x)),
            decreases out.len() - p,
        {
            p += 1;
        }
        let ghost out0 = out@;
        let ghost keys0 = keys@;
        proof {
            if p < out0.len() {
                lemma_text_le_total(plugin_key(out0[p as int]), plugin_key(x));
            }
            lemma_insert_by_name(out0, x, p as int);
        }
        out.insert(p, x);
        keys.insert(p, key);
        proof {
            n = n + 1;
            vstd::seq_lib::to_multiset_insert(out0, p as int, x);
            assert(rest0[0] == x);
            assert(rest0.contains(x));
            vstd::seq_lib::to_multiset_contains(rest0, x);
            assert(out@.to_multiset().add(rest@.to_multiset()) =~= out0.to_multiset().add(rest0.to_multiset()));
            assert forall|k: int| 0 <= k < out@.len() implies (#[trigger] keys@[k])@ == plugin_key(out@[k]) by {
                if k < p {
                    assert(keys@[k] == keys0[k] && out@[k] == out0[k]);
                } else if k > p {
                    assert(keys@[k] == keys0[k - 1] && out@[k] == out0[k - 1]);
                }
            }
            let ns = out@;
            assert forall|i: int, j: int| 0 <= i < j < ns.len() implies text_le(#[trigger] plugin_key(ns[i]), #[trigger] plugin_key(ns[j])) by {
                if j < p {
                    assert(ns[i] == out0[i] && ns[j] == out0[j]);
                } else if j == p {
                    assert(ns[i] == out0[i]);
                } else if i < p {
                    assert(ns[i] == out0[i] && ns[j] == out0[j - 1]);
                } else if i == p {
                    assert(ns[j] == out0[j - 1]);
                    if j - 1 > p {
                        lemma_text_le_transitive(plugin_key(x), plugin_key(out0[p as int]), plugin_key(out0[j - 1]));
                    }
                } else {
                    assert(ns[i] == out0[i - 1] && ns[j] == out0[j - 1]);
                }
            }
        }
    }
    assert(rest@.to_multiset() =~= vstd::multiset::Multiset::<PluginEntry>::empty());
    assert(input.take(n) =~= input);
    out
}

/// What `plugin_entry` gives for the plugin at `path` found under `root`.
pub open spec fn entry_fits(root: Seq<char>, path: Seq<char>, bundle: bool, modified_at_ms: Option<u64>, e: PluginEntry) -> bool {
    &&& simple_path(path) ==> e.name@ == stem_of(final_segment(path))
    &&& simple_path(path) && simple_path(root) ==> opt_view(e.vendor)
        == vendor_spec(segments(parent_text(path)) == segments(root), folder_name(path))
    &&& e.id@ == plugin_id_spec(path)
    &&& e.path@ == path
    &&& e.bundle == bundle
    &&& e.version is None
    &&& e.format@ == "VST3"@
    &&& e.scan_state@ == "discovered"@
    &&& e.modified_at_ms == modified_at_ms
}

/// A plugin the folder walk found: its path, whether it is a bundle folder,
/// and when it was last modified, if known.
pub struct FoundPlugin {
    pub path: String,
    pub bundle: bool,
    pub modified_at_ms: Option<u64>,
}

/// The folder walk of a scan: the folders still to read (a stack), the
/// folders already read (by their canonical path), how many entries were
/// looked at, the plugins found and the issues met.
pub struct PluginWalk {
    pub pending: Vec<String>,
    pub visited: Vec<String>,
    pub entries_seen: usize,
    pub found: Vec<FoundPlugin>,
    pub issues: Vec<ScanIssue>,
}

pub open spec fn texts(v: Seq<String>) -> Seq<Seq<char>> {
    v.map_values(|s: String| s@)
}

/// The message of a walk stopped by the entry limit.
pub open spec fn entry_limit_message() -> Seq<char> {
    "Scan stopped at the 100,000-entry safety limit."@
}

impl PluginWalk {
    /// A walk that starts at `root`.
    pub fn new(root: &str) -> (w: PluginWalk)
        ensures
            texts(w.pending@) == seq![root@],
            w.visited@.len() == 0,
            w.entries_seen == 0,
            w.found@.len() == 0,
            w.issues@.len() == 0,
    {
        let w = PluginWalk { pending: vec![to_string(root)], visited: Vec::new(), entries_seen: 0, found: Vec::new(), issues: Vec::new() };
        assert(texts(w.pending@) =~= seq![root@]);
        w
    }

    /// The next folder to read: the one pushed last.
    pub fn next_folder(&mut self) -> (f: Option<String>)
        ensures
            old(self).pending@.len() == 0 ==> f is None && final(self).pending@ == old(self).pending@,
            old(self).pending@.len() > 0 ==> (f matches Some(x) && x == old(self).pending@.last()
                && final(self).pending@ == old(self).pending@.drop_last()),
            final(self).visited@ == old(self).visited@,
            final(self).entries_seen == old(self).entries_seen,
            final(self).found@ == old(self).found@,
            final(self).issues@ == old(self).issues@,
    {
        self.pending.pop()
    }

    /// Whether the folder with canonical path `canonical` is read for the
    /// first time; it is then remembered.
    pub fn enter(&mut self, canonical: &str) -> (first: bool)
        ensures
            first == !texts(old(self).visited@).contains(canonical@),
            texts(final(self).visited@) == if first { texts(old(self).visited@).push(canonical@) } else { texts(old(self).visited@) },
            final(self).pending@ == old(self).pending@,
            final(self).entries_seen == old(self).entries_seen,
            final(self).found@ == old(self).found@,
            final(self).issues@ == old(self).issues@,
    {
        let mut i: usize = 0;
        while i < self.visited.len()
            invariant
                i <= self.visited@.len(),
                forall|k: int| 0 <= k < i ==> (#[trigger] self.visited@[k])@ != canonical@,
            decreases self.visited@.len() - i,
        {
            if crate::text::str_eq(self.visited[i].as_str(), canonical) {
                assert(texts(self.visited@)[i as int] == canonical@);
                return false;
            }
            i += 1;
        }
        assert(!texts(self.visited@).contains(canonical@)) by {
            if texts(self.visited@).contains(canonical@) {
                let k = choose|k: int| 0 <= k < texts(self.visited@).len() && texts(self.visited@)[k] == canonical@;
                assert((self.visited@[k])@ != canonical@);
            }
        }
        let ghost before = self.visited@;
        self.visited.push(to_string(canonical));
        assert(texts(self.visited@) =~= texts(before).push(canonical@));
        true
    }

    /// Records an issue at `path`.
    pub fn record_issue(&mut self, path: &str, message: String)
        ensures
            final(self).issues@.len() == old(self).issues@.len() + 1,
            final(self).issues@.drop_last() == old(self).issues@,
            final(self).issues@.last().path@ == path@,
            final(self).issues@.last().message == message,
            final(self).pending@ == old(self).pending@,
            final(self).visited@ == old(self).visited@,
            final(self).entries_seen == old(self).entries_seen,
            final(self).found@ == old(self).found@,
    {
        self.issues.push(issue(path, message));
        assert(self.issues@.drop_last() =~= old(self).issues@);
    }

    /// Whether a cancellation is checked before the next entry: every 128
    /// entries.
    pub fn cancel_check_due(&self) -> (r: bool)
        ensures
            r == (self.entries_seen % 128 == 0),
    {
        self.entries_seen % 128 == 0
    }

    /// Counts the next entry; past the entry limit the walk stops: an issue
    /// at `root` says so, no folder is left to read, and `false` is
    /// returned.
    pub fn count_entry(&mut self, root: &str) -> (go_on: bool)
        requires
            old(self).entries_seen <= MAX_ENTRIES,
        ensures
            final(self).entries_seen == old(self).entries_seen + 1,
            go_on == (old(self).entries_seen + 1 <= MAX_ENTRIES),
            go_on ==> final(self).pending@ == old(self).pending@ && final(self).issues@ == old(self).issues@,
            !go_on ==> final(self).pending@.len() == 0 && final(self).issues@.len() == old(self).issues@.len() + 1
                && final(self).issues@.drop_last() == old(self).issues@
                && final(self).issues@.last().path@ == root@
                && final(self).issues@.last().message@ == entry_limit_message(),
            final(self).visited@ == old(self).visited@,
            final(self).found@ == old(self).found@,
    {
        self.entries_seen = self.entries_seen + 1;
        if over_entry_limit(self.entries_seen) {
            self.issues.push(issue(root, to_string("Scan stopped at the 100,000-entry safety limit.")));
            assert(self.issues@.drop_last() =~= old(self).issues@);
            self.pending.clear();
            return false;
        }
        true
    }

    /// Places an entry (see `classify_entry`): a plugin is found (a plugin
    /// folder is one bundle and is not walked into), another folder that is
    /// not a link is read later, anything else is passed over.
    pub fn place_entry(&mut self, path: &str, is_plugin: bool, is_dir: bool, is_symlink: bool, modified_at_ms: Option<u64>)
        ensures
            is_plugin ==> final(self).found@.len() == old(self).found@.len() + 1
                && final(self).found@.drop_last() == old(self).found@
                && final(self).found@.last().path@ == path@
                && final(self).found@.last().bundle == is_dir
                && final(self).found@.last().modified_at_ms == modified_at_ms
                && final(self).pending@ == old(self).pending@,
            !is_plugin && is_dir && !is_symlink ==> texts(final(self).pending@) == texts(old(self).pending@).push(path@)
                && final(self).found@ == old(self).found@,
            !is_plugin && !(is_dir && !is_symlink) ==> final(self).pending@ == old(self).pending@ && final(self).found@ == old(self).found@,
            final(self).visited@ == old(self).visited@,
            final(self).entries_seen == old(self).entries_seen,
            final(self).issues@ == old(self).issues@,
    {
        match classify_entry(is_plugin, is_dir, is_symlink) {
            EntryAction::Plugin { bundle } => {
                self.found.push(FoundPlugin { path: to_string(path), bundle, modified_at_ms });
                assert(self.found@.drop_last() =~= old(self).found@);
            },
            EntryAction::Descend => {
                let ghost before = self.pending@;
                self.pending.push(to_string(path));
                assert(texts(self.pending@) =~= texts(before).push(path@));
            },
            EntryAction::Skip => {},
        }
    }
}

/// The report of a finished walk of `root`: its issues, and the entry of
/// each plugin found (see `plugin_entry`), ordered by name.
pub fn report_from_walk(root: &str, started_at_ms: u64, finished_at_ms: u64, found: &Vec<FoundPlugin>, issues: Vec<ScanIssue>) -> (report: ScanReport)
    ensures
        report.root@ == root@,
        report.started_at_ms == started_at_ms,
        report.finished_at_ms == finished_at_ms,
        report.issues@ == issues@,
        by_name(report.plugins@),
        exists|entries: Seq<PluginEntry>| #[trigger] by_name_order(entries) == report.plugins@ && entries.len() == found@.len()
            && forall|k: int| 0 <= k < found@.len() ==> entry_fits(root@, found@[k].path@, found@[k].bundle, found@[k].modified_at_ms, #[trigger] entries[k]),
{
    let mut entries: Vec<PluginEntry> = Vec::new();
    let mut i: usize = 0;
    while i < found.len()
        invariant
            i <= found@.len(),
            entries@.len() == i,
            forall|k: int| 0 <= k < i ==> entry_fits(root@, found@[k].path@, found@[k].bundle, found@[k].modified_at_ms, #[trigger] entries@[k]),
        decreases found@.len() - i,
    {
        let f = &found[i];
        let e = plugin_entry(root, f.path.as_str(), f.bundle, f.modified_at_ms);
        entries.push(e);
        i += 1;
    }
    let ghost all = entries@;
    let plugins = sort_plugins(entries);
    assert(by_name_order(all) == plugins@);
    ScanReport { root: to_string(root), started_at_ms, finished_at_ms, plugins, issues }
}

/// The report of a scan of `root` started at `started_at_ms`: that of the
/// finished walk (see `report_from_walk`), or, when the walk failed (it was
/// cancelled), an empty report holding the failure as the one issue, timed
/// at `now_ms`.
pub fn discover(root: &str, started_at_ms: u64, scanned: Result<PluginWalk, String>, now_ms: u64) -> (report: ScanReport)
    ensures
        report.root@ == root@,
        match scanned {
            Ok(w) => {
                &&& report.started_at_ms == started_at_ms
                &&& report.finished_at_ms == now_ms
                &&& report.issues@ == w.issues@
                &&& by_name(report.plugins@)
                &&& exists|entries: Seq<PluginEntry>| #[trigger] by_name_order(entries) == report.plugins@ && entries.len() == w.found@.len()
                    && forall|k: int| 0 <= k < w.found@.len()
                        ==> entry_fits(root@, w.found@[k].path@, w.found@[k].bundle, w.found@[k].modified_at_ms, #[trigger] entries[k])
            },
            Err(message) => {
                &&& report.started_at_ms == now_ms
                &&& report.finished_at_ms == now_ms
                &&& report.plugins@.len() == 0
                &&& report.issues@.len() == 1
                &&& report.issues@[0].path@ == root@
                &&& report.issues@[0].message == message
            },
        },
{
    match scanned {
        Ok(w) => report_from_walk(root, started_at_ms, now_ms, &w.found, w.issues),
        Err(message) => ScanReport {
            root: to_string(root),
            started_at_ms: now_ms,
            finished_at_ms: now_ms,
            plugins: Vec::new(),
            issues: vec![issue(root, message)],
        },
    }
}

} // verus!
