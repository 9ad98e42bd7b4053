//! The validated plugin catalog: only a plugin that the last scan validated
//! may be loaded, and it is found by its file, whatever path spelled it.

use vstd::prelude::*;
use crate::text::{append_str, concat2, str_eq};

verus! {

broadcast use vstd::string::group_string_axioms;

/// A plugin as the stored catalog lists it.
pub struct StoredPlugin<P> {
    pub name: String,
    pub path: P,
    pub scan_state: String,
}

/// The index of the first catalog entry that is the requested file, looking
/// from `i` on.
pub open spec fn first_same_file<P>(entries: Seq<(StoredPlugin<P>, bool)>, i: int) -> Option<int>
    decreases entries.len() - i,
{
    if i < 0 || i >= entries.len() {
        None
    } else if entries[i].1 {
        Some(i)
    } else {
        first_same_file(entries, i + 1)
    }
}

/// The plugin to load for a request shown as `requested`: the first entry
/// that is the requested file, which must be `validated`.
pub open spec fn choose_spec<P>(entries: Seq<(StoredPlugin<P>, bool)>, requested: Seq<char>) -> Result<(Seq<char>, P), Seq<char>> {
    match first_same_file(entries, 0) {
        None => Err("The requested VST3 is not present in the current plugin catalog: "@ + requested),
        Some(i) => {
            let p = entries[i].0;
            if p.scan_state@ == "validated"@ {
                Ok((p.name@, p.path))
            } else {
                Err("The requested VST3 is not validated (state: "@ + p.scan_state@ + "): "@ + requested)
            }
        },
    }
}

proof fn lemma_first_same_file_bounds<P>(entries: Seq<(StoredPlugin<P>, bool)>, j: int)
    requires
        0 <= j,
    ensures
        first_same_file(entries, j) matches Some(i) ==> j <= i < entries.len() && entries[i].1,
    decreases entries.len() - j,
{
    if j < entries.len() {
        lemma_first_same_file_bounds(entries, j + 1);
    }
}

/// Picks the catalog plugin to load. Each entry comes with whether it is the
/// requested file (both paths resolved by the host); `requested` is how the
/// request is shown in errors.
pub fn choose_validated_plugin<P>(entries: Vec<(StoredPlugin<P>, bool)>, requested: &str) -> (r: Result<(String, P), String>)
    ensures
        match choose_spec(entries@, requested@) {
            Ok((name, path)) => r matches Ok((n, p)) && n@ == name && p == path,
            Err(m) => r matches Err(e) && e@ == m,
        },
{
    proof { lemma_first_same_file_bounds(entries@, 0); }
    let mut rest = entries;
    let ghost all = rest@;
    let ghost mut k: int = 0;
    while rest.len() > 0
        invariant
            0 <= k <= all.len(),
            rest@ == all.skip(k),
            all == entries@,
            first_same_file(all, 0) == first_same_file(all, k),
        decreases rest@.len(),
    {
        let (plugin, same) = rest.remove(0);
        assert(all[k] == (plugin, same));
        if same {
            if str_eq(plugin.scan_state.as_str(), "validated") {
                return Ok((plugin.name, plugin.path));
            }
            let mut m = concat2("The requested VST3 is not validated (state: ", plugin.scan_state.as_str());
            append_str(&mut m, "): ");
            append_str(&mut m, requested);
            return Err(m);
        }
        proof { k = k + 1; }
    }
    Err(concat2("The requested VST3 is not present in the current plugin catalog: ", requested))
}

} // verus!
