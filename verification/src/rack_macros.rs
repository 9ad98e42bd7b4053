//! Macro controls of a rack. Each macro has an id, a display name, a value
//! and, once mapped, the index of the plugin parameter it drives. Macros are
//! found by id (the first one that carries it); an edit changes that macro
//! and no other.

use vstd::prelude::*;
use crate::model::AudioState;
use crate::rack_runtime::{usable, audio_command_succeeded};
use crate::text::{concat2, str_eq};

verus! {

broadcast use vstd::string::group_string_axioms;

/// A macro control of a rack; `V` carries its value.
#[derive(Clone, Debug, PartialEq)]
pub struct RackMacro<V> {
    pub id: String,
    pub name: String,
    pub value: V,
    pub parameter_index: Option<u32>,
}

/// The position of the first macro at or after `from` whose id is `id`, or
/// -1 when there is none.
pub open spec fn position_from<V>(macros: Seq<RackMacro<V>>, id: Seq<char>, from: int) -> int
    decreases macros.len() - from,
{
    if from < 0 || from >= macros.len() {
        -1
    } else if macros[from].id@ == id {
        from
    } else {
        position_from(macros, id, from + 1)
    }
}

/// The position of the macro registered as `id`, or -1.
pub open spec fn macro_position<V>(macros: Seq<RackMacro<V>>, id: Seq<char>) -> int {
    position_from(macros, id, 0)
}

/// The error for an id that no macro of the rack carries.
pub open spec fn unregistered_macro(id: Seq<char>) -> Seq<char> {
    "Rack macro is not registered: "@ + id
}

/// Macro `m` with its value replaced.
pub open spec fn with_value<V>(m: RackMacro<V>, value: V) -> RackMacro<V> {
    RackMacro { id: m.id, name: m.name, value, parameter_index: m.parameter_index }
}

/// Macro `m` mapped to `parameter_index` (unmapped for `None`).
pub open spec fn with_parameter<V>(m: RackMacro<V>, parameter_index: Option<u32>) -> RackMacro<V> {
    RackMacro { id: m.id, name: m.name, value: m.value, parameter_index }
}

proof fn lemma_position_bounds<V>(macros: Seq<RackMacro<V>>, id: Seq<char>, from: int)
    ensures
        position_from(macros, id, from) == -1 || (from <= position_from(macros, id, from) < macros.len()
            && macros[position_from(macros, id, from)].id@ == id),
    decreases macros.len() - from,
{
    if 0 <= from < macros.len() && macros[from].id@ != id {
        lemma_position_bounds(macros, id, from + 1);
    }
}

/// The position of the macro registered as `id`.
pub fn find_macro<V>(macros: &Vec<RackMacro<V>>, id: &str) -> (r: Option<usize>)
    ensures
        match r {
            Some(i) => i < macros@.len() && macro_position(macros@, id@) == i && macros@[i as int].id@ == id@,
            None => macro_position(macros@, id@) == -1,
        },
{
    let mut i: usize = 0;
    while i < macros.len()
        invariant
            i <= macros@.len(),
            macro_position(macros@, id@) == position_from(macros@, id@, i as int),
        decreases macros@.len() - i,
    {
        if str_eq(macros[i].id.as_str(), id) {
            return Some(i);
        }
        i += 1;
    }
    None
}

/// Sets the value of macro `id` and returns the parameter it drives, if it
/// is mapped; the caller then sends the value to that parameter, or saves the
/// rack alone for an unmapped macro. An unknown id changes nothing.
pub fn set_macro_value<V>(macros: &mut Vec<RackMacro<V>>, id: &str, value: V) -> (r: Result<Option<u32>, String>)
    ensures
        macro_position(old(macros)@, id@) == -1 <==> r is Err,
        r matches Err(e) ==> e@ == unregistered_macro(id@) && final(macros)@ == old(macros)@,
        r matches Ok(index) ==> ({
            let i = macro_position(old(macros)@, id@);
            &&& 0 <= i < old(macros)@.len()
            &&& index == old(macros)@[i].parameter_index
            &&& final(macros)@ == old(macros)@.update(i, with_value(old(macros)@[i], value))
        }),
{
    proof { lemma_position_bounds(macros@, id@, 0); }
    match find_macro(macros, id) {
        None => Err(concat2("Rack macro is not registered: ", id)),
        Some(i) => {
            let ghost before = macros@;
            let m = macros.remove(i);
            let index = m.parameter_index;
            macros.insert(i, RackMacro { id: m.id, name: m.name, value, parameter_index: m.parameter_index });
            assert(macros@ =~= before.update(i as int, with_value(before[i as int], value)));
            Ok(index)
        },
    }
}

/// Maps macro `id` to plugin parameter `parameter_index` (or unmaps it for
/// `None`). An unknown id changes nothing.
pub fn map_macro<V>(macros: &mut Vec<RackMacro<V>>, id: &str, parameter_index: Option<u32>) -> (r: Result<(), String>)
    ensures
        macro_position(old(macros)@, id@) == -1 <==> r is Err,
        r matches Err(e) ==> e@ == unregistered_macro(id@) && final(macros)@ == old(macros)@,
        r is Ok ==> ({
            let i = macro_position(old(macros)@, id@);
            &&& 0 <= i < old(macros)@.len()
            &&& final(macros)@ == old(macros)@.update(i, with_parameter(old(macros)@[i], parameter_index))
        }),
{
    proof { lemma_position_bounds(macros@, id@, 0); }
    match find_macro(macros, id) {
        None => Err(concat2("Rack macro is not registered: ", id)),
        Some(i) => {
            let ghost before = macros@;
            let m = macros.remove(i);
            macros.insert(i, RackMacro { id: m.id, name: m.name, value: m.value, parameter_index });
            assert(macros@ =~= before.update(i as int, with_parameter(before[i as int], parameter_index)));
            Ok(())
        },
    }
}

/// The outcome of sending a mapped macro's value to the runtime: the change
/// stands only when the engine stays usable.
pub fn macro_change_result(state: AudioState, message: &str) -> (r: Result<(), String>)
    ensures
        usable(state) <==> r is Ok,
        r matches Err(e) ==> e@ == "Runtime rejected rack macro change: "@ + message@,
{
    if audio_command_succeeded(state) { Ok(()) } else { Err(concat2("Runtime rejected rack macro change: ", message)) }
}

/// Editing a macro keeps every macro's id and name, and leaves every macro
/// other than the one edited as it was.
pub proof fn law_macro_edits_touch_one_macro<V>(macros: Seq<RackMacro<V>>, id: Seq<char>, value: V, parameter_index: Option<u32>)
    requires
        macro_position(macros, id) != -1,
    ensures
        ({
            let i = macro_position(macros, id);
            let set = macros.update(i, with_value(macros[i], value));
            let mapped = macros.update(i, with_parameter(macros[i], parameter_index));
            &&& set.len() == macros.len() && mapped.len() == macros.len()
            &&& set[i].value == value && set[i].parameter_index == macros[i].parameter_index
            &&& mapped[i].parameter_index == parameter_index && mapped[i].value == macros[i].value
            &&& forall|k: int| 0 <= k < macros.len() ==> #[trigger] set[k].id == macros[k].id && set[k].name == macros[k].name
                && mapped[k].id == macros[k].id && mapped[k].name == macros[k].name
            &&& forall|k: int| 0 <= k < macros.len() && k != i ==> #[trigger] set[k] == macros[k] && mapped[k] == macros[k]
        }),
{
    lemma_position_bounds(macros, id, 0);
}

} // verus!
