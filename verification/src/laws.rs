//! The laws the synchronization protocol obeys, stated over the ghost
//! model's transition functions and proved once for all inputs.

use vstd::prelude::*;

use crate::model::{
    apply_ops, cascade_safe, cleared, enable_ops, init_applied, initial, interactivity_set,
    panel_of, reloaded, selection_changed, struct_selected, wf, Model, Tone,
};
use crate::project::StructView;

verus! {

/// A fresh inspector is well formed: nothing is selected.
pub proof fn lemma_initial_wf()
    ensures
        wf(initial()),
{
}

/// Clearing is total: afterwards the selector sequence is empty, the
/// selection is gone, and both row collections are empty.
pub proof fn lemma_clear_is_total(m: Model)
    ensures
        cleared(m).selector.len() == 0,
        cleared(m).selection is None,
        cleared(m).control_rows.len() == 0,
        cleared(m).property_rows.len() == 0,
{
}

/// Reloading preserves project order: the selector sequence is exactly the
/// structs' display names, one per struct, in project order.
pub proof fn lemma_reload_preserves_order(m: Model, structs: Seq<StructView>)
    ensures
        reloaded(m, structs).selector.len() == structs.len(),
        forall|i: int|
            0 <= i < structs.len() ==> reloaded(m, structs).selector[i] == structs[i].full_name,
{
}

/// Reloading twice in a row with an unchanged project yields an identical
/// selector sequence and the same selection; each reload fires one more
/// notification.
pub proof fn lemma_reload_idempotent(m: Model, structs: Seq<StructView>)
    ensures
        reloaded(reloaded(m, structs), structs).selector == reloaded(m, structs).selector,
        reloaded(reloaded(m, structs), structs).selection == reloaded(m, structs).selection,
        reloaded(m, structs).selection == if structs.len() > 0 {
            Some(0usize)
        } else {
            None::<usize>
        },
        reloaded(reloaded(m, structs), structs).notices == m.notices + 2,
{
}

/// Reloading from an empty project leaves the selector sequence empty and
/// nothing selected, and still fires the change notifier exactly once.
pub proof fn lemma_reload_empty_project(m: Model, structs: Seq<StructView>)
    requires
        structs.len() == 0,
    ensures
        reloaded(m, structs).selector.len() == 0,
        reloaded(m, structs).selection is None,
        reloaded(m, structs).notices == m.notices + 1,
{
}

/// Selecting a struct mirrors its members: one control row per member, in
/// member order, each row holding that member's name and type name, and the
/// property rows end empty.
pub proof fn lemma_rows_mirror_members(m: Model, s: StructView)
    ensures
        struct_selected(m, s).control_rows.len() == s.members.len(),
        forall|i: int|
            0 <= i < s.members.len() ==> struct_selected(m, s).control_rows[i] == (
                s.members[i].name,
                s.members[i].ty,
            ),
        struct_selected(m, s).property_rows.len() == 0,
{
}

/// Disabling and then re-enabling returns the whole model to its original
/// state, and both operation sequences are safe to hand to the substrate:
/// every intermediate picture keeps each list view settled or in the single
/// defined transition state (interactive but muted), and every background
/// change hits a view that is still interactive at that moment.
pub proof fn lemma_enable_cascade(m: Model)
    requires
        m.enabled,
        m.control_tone == Tone::Normal,
        m.property_tone == Tone::Normal,
    ensures
        interactivity_set(interactivity_set(m, false), true) == m,
        apply_ops(panel_of(m), enable_ops(false)) == panel_of(interactivity_set(m, false)),
        apply_ops(panel_of(interactivity_set(m, false)), enable_ops(true)) == panel_of(m),
        cascade_safe(panel_of(m), enable_ops(false)),
        cascade_safe(panel_of(interactivity_set(m, false)), enable_ops(true)),
{
    reveal_with_fuel(apply_ops, 8);
    reveal_with_fuel(cascade_safe, 8);
    assert(interactivity_set(interactivity_set(m, false), true) =~= m);
    assert(apply_ops(panel_of(m), enable_ops(false)) =~= panel_of(interactivity_set(m, false)));
    assert(apply_ops(panel_of(interactivity_set(m, false)), enable_ops(true)) =~= panel_of(m));
}

/// Only a reload and a user pick fire the change notifier: clearing,
/// loading a struct's rows, the enable cascade and the one-time setup leave
/// the pending notifications untouched, while a reload and a pick each add
/// exactly one.
pub proof fn lemma_who_notifies(
    m: Model,
    structs: Seq<StructView>,
    s: StructView,
    pick: Option<usize>,
    enable: bool,
)
    ensures
        cleared(m).notices == m.notices,
        struct_selected(m, s).notices == m.notices,
        interactivity_set(m, enable).notices == m.notices,
        init_applied(m).notices == m.notices,
        reloaded(m, structs).notices == m.notices + 1,
        selection_changed(m, pick).notices == m.notices + 1,
{
}

/// Every operation leaves the inspector well formed: the selected index, if
/// present, stays a valid position into the selector sequence. `reloaded`
/// and `selection_changed` establish it outright; the others preserve it.
pub proof fn lemma_operations_preserve_wf(
    m: Model,
    structs: Seq<StructView>,
    s: StructView,
    pick: Option<usize>,
    enable: bool,
)
    ensures
        wf(cleared(m)),
        wf(reloaded(m, structs)),
        wf(selection_changed(m, pick)),
        wf(m) ==> wf(struct_selected(m, s)),
        wf(m) ==> wf(interactivity_set(m, enable)),
        wf(m) ==> wf(init_applied(m)),
{
}

} // verus!
