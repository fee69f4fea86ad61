//! The inspector itself: an owned state object whose methods are the
//! synchronization operations. Every method's contract states the exact
//! transition on the ghost model in `crate::model`.

use vstd::prelude::*;

use crate::model::{
    cleared, enable_ops, init_applied, initial, interactivity_set, reloaded, selection_changed,
    struct_selected, wf, ColumnView, Model, Tone, ViewOp, Widget,
};
use crate::project::{GuiStruct, GuiStructMember, Project};

verus! {

/// One row of the control list: a member's name and its type name.
pub struct ControlRow {
    pub name: String,
    pub ty: String,
}

impl View for ControlRow {
    type V = (Seq<char>, Seq<char>);

    open spec fn view(&self) -> (Seq<char>, Seq<char>) {
        (self.name@, self.ty@)
    }
}

/// One row of the property list: a property's name and its value.
pub struct PropertyRow {
    pub name: String,
    pub value: String,
}

impl View for PropertyRow {
    type V = (Seq<char>, Seq<char>);

    open spec fn view(&self) -> (Seq<char>, Seq<char>) {
        (self.name@, self.value@)
    }
}

/// A declared list column: a title and, where given, a preferred width.
pub struct Column {
    pub title: &'static str,
    pub width: Option<u32>,
}

impl View for Column {
    type V = ColumnView;

    open spec fn view(&self) -> ColumnView {
        ColumnView { title: self.title@, width: self.width }
    }
}

/// A registered tooltip: the widget it helps with and its static text.
pub struct Tooltip {
    pub target: Widget,
    pub text: &'static str,
}

impl View for Tooltip {
    type V = (Widget, Seq<char>);

    open spec fn view(&self) -> (Widget, Seq<char>) {
        (self.target, self.text@)
    }
}

/// A change notification: a payload-free signal that the selected struct
/// may have changed. The host drains the pending queue and reacts by
/// reading the current selection.
pub struct ChangeNotice {}

/// The object inspector's state: the struct selector's entries and
/// selection, the control and property rows, the interactivity state of
/// the views, the queue of pending change notifications, and the one-time
/// column and tooltip declarations.
pub struct ObjectInspector {
    struct_names: Vec<String>,
    selection: Option<usize>,
    control_rows: Vec<ControlRow>,
    property_rows: Vec<PropertyRow>,
    enabled: bool,
    control_tone: Tone,
    property_tone: Tone,
    pending_notices: Vec<ChangeNotice>,
    initialized: bool,
    control_columns: Vec<Column>,
    property_columns: Vec<Column>,
    tooltips: Vec<Tooltip>,
}

impl View for ObjectInspector {
    type V = Model;

    closed spec fn view(&self) -> Model {
        Model {
            selector: self.struct_names@.map_values(|s: String| s@),
            selection: self.selection,
            control_rows: self.control_rows@.map_values(|r: ControlRow| r@),
            property_rows: self.property_rows@.map_values(|r: PropertyRow| r@),
            enabled: self.enabled,
            control_tone: self.control_tone,
            property_tone: self.property_tone,
            notices: self.pending_notices@.len() as nat,
            initialized: self.initialized,
            control_columns: self.control_columns@.map_values(|c: Column| c@),
            property_columns: self.property_columns@.map_values(|c: Column| c@),
            tooltips: self.tooltips@.map_values(|t: Tooltip| t@),
        }
    }
}

impl ObjectInspector {
    /// A fresh inspector: everything empty, nothing selected, interactive.
    pub fn new() -> (r: Self)
        ensures
            r@ == initial(),
            wf(r@),
    {
        let r = ObjectInspector {
            struct_names: Vec::new(),
            selection: None,
            control_rows: Vec::new(),
            property_rows: Vec::new(),
            enabled: true,
            control_tone: Tone::Normal,
            property_tone: Tone::Normal,
            pending_notices: Vec::new(),
            initialized: false,
            control_columns: Vec::new(),
            property_columns: Vec::new(),
            tooltips: Vec::new(),
        };
        proof {
            assert(r@ =~= initial());
        }
        r
    }

    /// Returns the selected gui struct index. The index maps directly to
    /// the position of the gui struct in the project the selector was last
    /// reloaded from; it is `None` when no gui struct is selected.
    pub fn selected_gui_struct(&self) -> (r: Option<usize>)
        ensures
            r == self@.selection,
    {
        self.selection
    }

    /// Clear all the rows in the UI: the selector's entries and selection,
    /// the control rows, and the property rows. Fires no notification.
    pub fn clear(&mut self)
        ensures
            final(self)@ == cleared(old(self)@),
    {
        self.struct_names.clear();
        self.selection = None;
        self.control_rows.clear();
        self.property_rows.clear();
        proof {
            assert(final(self)@ =~= cleared(old(self)@));
        }
    }

    /// Reload the project data in the interface: clear everything, show the
    /// project's struct names in project order, select the first entry where
    /// one exists, and fire the change notifier exactly once.
    pub fn reload(&mut self, project: &Project)
        ensures
            final(self)@ == reloaded(old(self)@, project@),
    {
        self.clear();

        let structs = project.gui_structs();
        let n = structs.len();
        let mut i: usize = 0;
        while i < n
            invariant
                n == structs@.len(),
                structs@.map_values(|s: GuiStruct| s@) == project@,
                i <= n,
                self@ == (Model { selector: self@.selector, ..cleared(old(self)@) }),
                self@.selector.len() == i,
                forall|j: int|
                    0 <= j < i ==> self@.selector[j] == structs@[j].full_name@,
            decreases n - i,
        {
            let ghost prev = self.struct_names@;
            self.struct_names.push(structs[i].full_name.clone());
            proof {
                assert forall|j: int|
                    0 <= j < i + 1 implies self@.selector[j] == structs@[j].full_name@ by {
                    if j < i {
                        assert(self.struct_names@[j] == prev[j]);
                        assert(prev.map_values(|s: String| s@)[j] == prev[j]@);
                    }
                }
            }
            i = i + 1;
        }

        if n > 0 {
            self.selection = Some(0);
        }
        self.pending_notices.push(ChangeNotice {});

        proof {
            assert(self@.selector =~= crate::model::full_names(project@));
            assert(final(self)@ =~= reloaded(old(self)@, project@));
        }
    }

    /// Load the given ui struct's member list: one control row per member,
    /// keyed by the member's position, and empty the property rows.
    pub fn select_ui_struct(&mut self, gui_struct: &GuiStruct)
        ensures
            final(self)@ == struct_selected(old(self)@, gui_struct@),
    {
        self.control_rows.clear();
        self.property_rows.clear();

        let members = gui_struct.members();
        let n = members.len();
        let mut i: usize = 0;
        while i < n
            invariant
                n == members@.len(),
                members@.map_values(|m: GuiStructMember| m@) == gui_struct@.members,
                i <= n,
                self@ == (Model { control_rows: self@.control_rows, ..struct_selected(old(self)@, gui_struct@) }),
                self@.control_rows.len() == i,
                forall|j: int|
                    0 <= j < i ==> self@.control_rows[j] == (
                        members@[j].name@,
                        members@[j].ty@,
                    ),
            decreases n - i,
        {
            let member = &members[i];
            let ghost prev = self.control_rows@;
            self.control_rows.push(ControlRow { name: member.name.clone(), ty: member.ty.clone() });
            proof {
                assert forall|j: int| 0 <= j < i + 1 implies self@.control_rows[j] == (
                    members@[j].name@,
                    members@[j].ty@,
                ) by {
                    if j < i {
                        assert(self.control_rows@[j] == prev[j]);
                        assert(prev.map_values(|r: ControlRow| r@)[j] == prev[j]@);
                    }
                }
            }
            i = i + 1;
        }

        proof {
            assert(self@.control_rows =~= crate::model::member_rows(gui_struct@.members));
            assert(final(self)@ =~= struct_selected(old(self)@, gui_struct@));
        }
    }

    /// Record a user-originated selector pick and fire the change notifier.
    /// An out-of-range index is treated as "nothing selected".
    pub fn current_gui_changed(&mut self, pick: Option<usize>)
        ensures
            final(self)@ == selection_changed(old(self)@, pick),
    {
        let normalized: Option<usize> = match pick {
            Some(i) => if i < self.struct_names.len() {
                Some(i)
            } else {
                None
            },
            None => None,
        };
        self.selection = normalized;
        self.pending_notices.push(ChangeNotice {});
        proof {
            assert(final(self)@ =~= selection_changed(old(self)@, pick));
        }
    }

    /// Enable or disable the inspector as one cascade. The state ends with
    /// the interactivity flag and both list tones in agreement; the returned
    /// operations are the exact sequence the widget substrate must apply, in
    /// order. Disabling mutes the backgrounds before clearing the
    /// interactive flags; enabling restores the flags before the
    /// backgrounds.
    pub fn enable_ui(&mut self, enable: bool) -> (ops: Vec<ViewOp>)
        ensures
            final(self)@ == interactivity_set(old(self)@, enable),
            ops@ == enable_ops(enable),
    {
        let mut ops: Vec<ViewOp> = Vec::new();
        ops.push(ViewOp::SetEnabled(Widget::StructSelector, enable));
        ops.push(ViewOp::SetEnabled(Widget::ReloadTrigger, enable));
        if enable {
            ops.push(ViewOp::SetEnabled(Widget::ControlList, true));
            ops.push(ViewOp::SetEnabled(Widget::PropertyList, true));
            ops.push(ViewOp::SetBackground(Widget::ControlList, Tone::Normal));
            ops.push(ViewOp::SetBackground(Widget::PropertyList, Tone::Normal));
            self.control_tone = Tone::Normal;
            self.property_tone = Tone::Normal;
        } else {
            ops.push(ViewOp::SetBackground(Widget::ControlList, Tone::Muted));
            ops.push(ViewOp::SetBackground(Widget::PropertyList, Tone::Muted));
            ops.push(ViewOp::SetEnabled(Widget::ControlList, false));
            ops.push(ViewOp::SetEnabled(Widget::PropertyList, false));
            self.control_tone = Tone::Muted;
            self.property_tone = Tone::Muted;
        }
        self.enabled = enable;
        proof {
            assert(ops@ =~= enable_ops(enable));
            assert(final(self)@ =~= interactivity_set(old(self)@, enable));
        }
        ops
    }

    /// One-time setup: declare the control list's "Name" and "Type" columns
    /// (the latter with a fixed preferred width), the property list's "Name"
    /// and "Value" columns, and the four static tooltips. Calling it twice
    /// would duplicate the declarations, so it must be called exactly once.
    pub fn init(&mut self)
        requires
            !old(self)@.initialized,
        ensures
            final(self)@ == init_applied(old(self)@),
    {
        self.control_columns.push(Column { title: "Name", width: None });
        self.control_columns.push(Column { title: "Type", width: Some(150) });

        self.property_columns.push(Column { title: "Name", width: None });
        self.property_columns.push(Column { title: "Value", width: None });

        self.tooltips.push(
            Tooltip {
                target: Widget::StructSelector,
                text: "Current GUI struct loaded in the editor",
            },
        );
        self.tooltips.push(
            Tooltip {
                target: Widget::ReloadTrigger,
                text: "Look for new gui struct in the project structure and reload the one that changed",
            },
        );
        self.tooltips.push(
            Tooltip {
                target: Widget::ControlList,
                text: "GUI control/layout defined in the current GUI struct",
            },
        );
        self.tooltips.push(
            Tooltip { target: Widget::PropertyList, text: "Properties of the selected control" },
        );

        self.initialized = true;
        proof {
            assert(final(self)@.control_columns =~= init_applied(old(self)@).control_columns);
            assert(final(self)@.property_columns =~= init_applied(old(self)@).property_columns);
            assert(final(self)@.tooltips =~= init_applied(old(self)@).tooltips);
            assert(final(self)@ =~= init_applied(old(self)@));
        }
    }

    /// Drain the queue of pending change notifications. The host calls this
    /// to learn that the selected struct may have changed, then reads the
    /// current selection.
    pub fn take_notices(&mut self) -> (r: Vec<ChangeNotice>)
        ensures
            r@.len() == old(self)@.notices,
            final(self)@ == (Model { notices: 0, ..old(self)@ }),
    {
        let mut drained: Vec<ChangeNotice> = Vec::new();
        core::mem::swap(&mut self.pending_notices, &mut drained);
        proof {
            assert(final(self)@ =~= (Model { notices: 0, ..old(self)@ }));
        }
        drained
    }

    /// The struct display names currently on show, in selector order.
    pub fn struct_names(&self) -> (r: &Vec<String>)
        ensures
            r@.map_values(|s: String| s@) == self@.selector,
    {
        &self.struct_names
    }

    /// The control rows currently on show, in member order.
    pub fn control_rows(&self) -> (r: &Vec<ControlRow>)
        ensures
            r@.map_values(|row: ControlRow| row@) == self@.control_rows,
    {
        &self.control_rows
    }

    /// The property rows currently on show.
    pub fn property_rows(&self) -> (r: &Vec<PropertyRow>)
        ensures
            r@.map_values(|row: PropertyRow| row@) == self@.property_rows,
    {
        &self.property_rows
    }

    /// Whether the inspector is currently interactive.
    pub fn is_enabled(&self) -> (r: bool)
        ensures
            r == self@.enabled,
    {
        self.enabled
    }

    /// The control list's current background tone.
    pub fn control_tone(&self) -> (r: Tone)
        ensures
            r == self@.control_tone,
    {
        self.control_tone
    }

    /// The property list's current background tone.
    pub fn property_tone(&self) -> (r: Tone)
        ensures
            r == self@.property_tone,
    {
        self.property_tone
    }

    /// How many change notifications are pending.
    pub fn notice_count(&self) -> (r: usize)
        ensures
            r == self@.notices,
    {
        self.pending_notices.len()
    }

    /// The columns declared for the control list.
    pub fn control_columns(&self) -> (r: &Vec<Column>)
        ensures
            r@.map_values(|c: Column| c@) == self@.control_columns,
    {
        &self.control_columns
    }

    /// The columns declared for the property list.
    pub fn property_columns(&self) -> (r: &Vec<Column>)
        ensures
            r@.map_values(|c: Column| c@) == self@.property_columns,
    {
        &self.property_columns
    }

    /// The registered tooltips, in registration order.
    pub fn tooltips(&self) -> (r: &Vec<Tooltip>)
        ensures
            r@.map_values(|t: Tooltip| t@) == self@.tooltips,
    {
        &self.tooltips
    }
}

impl Default for ObjectInspector {
    /// Same as `ObjectInspector::new`.
    fn default() -> (r: Self)
        ensures
            r@ == initial(),
    {
        ObjectInspector::new()
    }
}

} // verus!
