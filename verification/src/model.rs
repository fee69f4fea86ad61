//! The mathematical model of the inspector: a ghost state record, one
//! transition function per operation, and the primitive view operations
//! through which the enable cascade reaches the widget substrate.

use vstd::prelude::*;

use crate::project::{MemberView, StructView};

verus! {

/// The widgets the inspector drives.
#[derive(Clone, Copy, Debug, PartialEq, Eq, Structural)]
pub enum Widget {
    StructSelector,
    ReloadTrigger,
    ControlList,
    PropertyList,
}

/// The background tone of a list view: the normal tone while interactive,
/// a muted tone while disabled.
#[derive(Clone, Copy, Debug, PartialEq, Eq, Structural)]
pub enum Tone {
    Normal,
    Muted,
}

/// A primitive operation on the widget substrate. The enable cascade is a
/// strict sequence of these; the substrate applies them in order.
#[derive(Clone, Copy, Debug, PartialEq, Eq, Structural)]
pub enum ViewOp {
    SetEnabled(Widget, bool),
    SetBackground(Widget, Tone),
}

/// The ghost image of a declared list column: its title and its preferred
/// width, where one was given.
#[verifier::ext_equal]
pub ghost struct ColumnView {
    pub title: Seq<char>,
    pub width: Option<u32>,
}

/// The whole inspector state, as the contracts speak of it.
///
/// `selector` is the ordered sequence of struct display names on show;
/// `selection` the selected position into it, if any. `control_rows` holds
/// (name, type name) pairs for the last struct loaded; `property_rows`
/// (name, value) pairs for the selected control. `notices` counts the
/// change notifications fired so far and not yet drained by the host.
#[verifier::ext_equal]
pub ghost struct Model {
    pub selector: Seq<Seq<char>>,
    pub selection: Option<usize>,
    pub control_rows: Seq<(Seq<char>, Seq<char>)>,
    pub property_rows: Seq<(Seq<char>, Seq<char>)>,
    pub enabled: bool,
    pub control_tone: Tone,
    pub property_tone: Tone,
    pub notices: nat,
    pub initialized: bool,
    pub control_columns: Seq<ColumnView>,
    pub property_columns: Seq<ColumnView>,
    pub tooltips: Seq<(Widget, Seq<char>)>,
}

/// A freshly constructed inspector: every collection empty, nothing
/// selected, interactive with the normal tone, columns not yet declared.
pub open spec fn initial() -> Model {
    Model {
        selector: seq![],
        selection: None,
        control_rows: seq![],
        property_rows: seq![],
        enabled: true,
        control_tone: Tone::Normal,
        property_tone: Tone::Normal,
        notices: 0,
        initialized: false,
        control_columns: seq![],
        property_columns: seq![],
        tooltips: seq![],
    }
}

/// Well-formedness: the selected index, if present, is a valid position
/// into the selector sequence.
pub open spec fn wf(m: Model) -> bool {
    m.selection matches Some(i) ==> (i as int) < m.selector.len()
}

/// The display names of a struct sequence, in the same order.
pub open spec fn full_names(structs: Seq<StructView>) -> Seq<Seq<char>> {
    structs.map_values(|s: StructView| s.full_name)
}

/// The (name, type name) rows mirroring a member sequence, in the same order.
pub open spec fn member_rows(members: Seq<MemberView>) -> Seq<(Seq<char>, Seq<char>)> {
    members.map_values(|m: MemberView| (m.name, m.ty))
}

/// `clear`: empty the selector sequence and the selection, empty both row
/// collections. No notification is fired; interactivity and the one-time
/// setup are untouched.
pub open spec fn cleared(m: Model) -> Model {
    Model {
        selector: seq![],
        selection: None,
        control_rows: seq![],
        property_rows: seq![],
        ..m
    }
}

/// `reload`: clear everything, repopulate the selector from the project's
/// struct names in project order, select position 0 where the sequence is
/// non-empty (selecting into an empty sequence is a no-op, leaving no
/// selection), and fire the change notifier exactly once, unconditionally.
pub open spec fn reloaded(m: Model, structs: Seq<StructView>) -> Model {
    Model {
        selector: full_names(structs),
        selection: if structs.len() > 0 { Some(0usize) } else { None },
        notices: m.notices + 1,
        ..cleared(m)
    }
}

/// `select_ui_struct`: replace the control rows with one (name, type name)
/// row per member of the given struct, keyed by the member's position, and
/// empty the property rows. No notification is fired.
pub open spec fn struct_selected(m: Model, s: StructView) -> Model {
    Model { control_rows: member_rows(s.members), property_rows: seq![], ..m }
}

/// A selector pick normalized against the sequence length: an out-of-range
/// index means nothing is selected.
pub open spec fn normalized_pick(pick: Option<usize>, len: nat) -> Option<usize> {
    match pick {
        Some(i) => if (i as nat) < len {
            Some(i)
        } else {
            None
        },
        None => None,
    }
}

/// A user-originated selector pick: record the (normalized) selection and
/// fire the change notifier exactly once.
pub open spec fn selection_changed(m: Model, pick: Option<usize>) -> Model {
    Model {
        selection: normalized_pick(pick, m.selector.len() as nat),
        notices: m.notices + 1,
        ..m
    }
}

/// `enable_ui`: the state after the cascade has run. Both list views end
/// with the tone matching the interactivity flag.
pub open spec fn interactivity_set(m: Model, enable: bool) -> Model {
    Model {
        enabled: enable,
        control_tone: if enable {
            Tone::Normal
        } else {
            Tone::Muted
        },
        property_tone: if enable {
            Tone::Normal
        } else {
            Tone::Muted
        },
        ..m
    }
}

/// The exact operation sequence of the enable cascade. The selector and
/// the reload trigger are switched first in either direction. For the two
/// list views the order is direction-dependent: disabling mutes the
/// background while the views are still interactive, then clears the
/// interactive flag; enabling restores the interactive flag first, then
/// the normal background. The substrate applies a background change
/// correctly only on an interactive view, so the two steps never swap.
pub open spec fn enable_ops(enable: bool) -> Seq<ViewOp> {
    if enable {
        seq![
            ViewOp::SetEnabled(Widget::StructSelector, true),
            ViewOp::SetEnabled(Widget::ReloadTrigger, true),
            ViewOp::SetEnabled(Widget::ControlList, true),
            ViewOp::SetEnabled(Widget::PropertyList, true),
            ViewOp::SetBackground(Widget::ControlList, Tone::Normal),
            ViewOp::SetBackground(Widget::PropertyList, Tone::Normal),
        ]
    } else {
        seq![
            ViewOp::SetEnabled(Widget::StructSelector, false),
            ViewOp::SetEnabled(Widget::ReloadTrigger, false),
            ViewOp::SetBackground(Widget::ControlList, Tone::Muted),
            ViewOp::SetBackground(Widget::PropertyList, Tone::Muted),
            ViewOp::SetEnabled(Widget::ControlList, false),
            ViewOp::SetEnabled(Widget::PropertyList, false),
        ]
    }
}

/// The widget substrate's own picture of the four widgets: which are
/// interactive, and which tone each list view shows. The cascade's
/// operations are applied to this picture one at a time, so intermediate
/// states are observable.
#[verifier::ext_equal]
pub ghost struct PanelState {
    pub selector_enabled: bool,
    pub reload_enabled: bool,
    pub control_enabled: bool,
    pub control_tone: Tone,
    pub property_enabled: bool,
    pub property_tone: Tone,
}

/// The substrate picture a settled model presents: all four widgets follow
/// the one interactivity flag, and the list views show their tones.
pub open spec fn panel_of(m: Model) -> PanelState {
    PanelState {
        selector_enabled: m.enabled,
        reload_enabled: m.enabled,
        control_enabled: m.enabled,
        control_tone: m.control_tone,
        property_enabled: m.enabled,
        property_tone: m.property_tone,
    }
}

/// Whether a widget is interactive in the given substrate picture.
pub open spec fn widget_enabled(s: PanelState, w: Widget) -> bool {
    match w {
        Widget::StructSelector => s.selector_enabled,
        Widget::ReloadTrigger => s.reload_enabled,
        Widget::ControlList => s.control_enabled,
        Widget::PropertyList => s.property_enabled,
    }
}

/// One primitive operation applied to the substrate picture. A background
/// change on the selector or the reload trigger changes nothing: those two
/// widgets have no tone.
pub open spec fn apply_op(s: PanelState, op: ViewOp) -> PanelState {
    match op {
        ViewOp::SetEnabled(w, e) => match w {
            Widget::StructSelector => PanelState { selector_enabled: e, ..s },
            Widget::ReloadTrigger => PanelState { reload_enabled: e, ..s },
            Widget::ControlList => PanelState { control_enabled: e, ..s },
            Widget::PropertyList => PanelState { property_enabled: e, ..s },
        },
        ViewOp::SetBackground(w, t) => match w {
            Widget::ControlList => PanelState { control_tone: t, ..s },
            Widget::PropertyList => PanelState { property_tone: t, ..s },
            Widget::StructSelector => s,
            Widget::ReloadTrigger => s,
        },
    }
}

/// The substrate picture after a whole operation sequence.
pub open spec fn apply_ops(s: PanelState, ops: Seq<ViewOp>) -> PanelState
    decreases ops.len(),
{
    if ops.len() == 0 {
        s
    } else {
        apply_ops(apply_op(s, ops[0]), ops.skip(1))
    }
}

/// A list view's color and interactivity agree: muted exactly while
/// non-interactive.
pub open spec fn view_agrees(enabled: bool, tone: Tone) -> bool {
    enabled <==> tone == Tone::Normal
}

/// The one transition state the cascade may expose: a view still
/// interactive but already (or still) muted. A non-interactive view with
/// the normal tone is never observable.
pub open spec fn view_settled_or_in_transition(enabled: bool, tone: Tone) -> bool {
    view_agrees(enabled, tone) || (enabled && tone == Tone::Muted)
}

/// Both list views are in an allowed state: settled, or in the single
/// defined transition state.
pub open spec fn panel_consistent(s: PanelState) -> bool {
    &&& view_settled_or_in_transition(s.control_enabled, s.control_tone)
    &&& view_settled_or_in_transition(s.property_enabled, s.property_tone)
}

/// A background change is applied only to a view that is interactive at
/// that moment: the substrate re-renders the new tone correctly only then.
pub open spec fn bg_change_allowed(s: PanelState, op: ViewOp) -> bool {
    op matches ViewOp::SetBackground(w, _) ==> widget_enabled(s, w)
}

/// The sequence is safe to hand to the substrate from state `s`: every
/// intermediate picture (the start and the end included) is consistent, and
/// every background change hits a view that is still interactive.
pub open spec fn cascade_safe(s: PanelState, ops: Seq<ViewOp>) -> bool
    decreases ops.len(),
{
    &&& panel_consistent(s)
    &&& (ops.len() > 0 ==> bg_change_allowed(s, ops[0]) && cascade_safe(
        apply_op(s, ops[0]),
        ops.skip(1),
    ))
}

/// `init`: the one-time setup. Declares the control list's "Name" and
/// "Type" columns (the latter with a fixed preferred width), the property
/// list's "Name" and "Value" columns, and the four static tooltips.
pub open spec fn init_applied(m: Model) -> Model {
    Model {
        initialized: true,
        control_columns: m.control_columns + seq![
            ColumnView { title: "Name"@, width: None },
            ColumnView { title: "Type"@, width: Some(150u32) },
        ],
        property_columns: m.property_columns + seq![
            ColumnView { title: "Name"@, width: None },
            ColumnView { title: "Value"@, width: None },
        ],
        tooltips: m.tooltips + seq![
            (Widget::StructSelector, "Current GUI struct loaded in the editor"@),
            (
                Widget::ReloadTrigger,
                "Look for new gui struct in the project structure and reload the one that changed"@,
            ),
            (Widget::ControlList, "GUI control/layout defined in the current GUI struct"@),
            (Widget::PropertyList, "Properties of the selected control"@),
        ],
        ..m
    }
}

} // verus!
