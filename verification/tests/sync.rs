use object_inspector::inspector::ObjectInspector;
use object_inspector::model::{Tone, ViewOp, Widget};
use object_inspector::project::{GuiStruct, GuiStructMember, Project};

fn member(name: &str, ty: &str) -> GuiStructMember {
    GuiStructMember::new(name.to_owned(), ty.to_owned())
}

fn login_form() -> GuiStruct {
    GuiStruct::new(
        "LoginForm".to_owned(),
        vec![member("username", "TextBox"), member("submit", "Button")],
    )
}

fn sample_project() -> Project {
    Project::new(vec![login_form(), GuiStruct::new("SettingsPanel".to_owned(), vec![])])
}

#[test]
fn scenario_login_form() {
    let mut insp = ObjectInspector::new();
    insp.init();

    let project = sample_project();
    insp.reload(&project);

    assert_eq!(insp.struct_names().len(), 2);
    assert_eq!(insp.struct_names()[0], "LoginForm");
    assert_eq!(insp.struct_names()[1], "SettingsPanel");
    assert_eq!(insp.selected_gui_struct(), Some(0));
    assert_eq!(insp.notice_count(), 1);

    insp.select_ui_struct(&project.gui_structs()[0]);
    let rows = insp.control_rows();
    assert_eq!(rows.len(), 2);
    assert_eq!(rows[0].name, "username");
    assert_eq!(rows[0].ty, "TextBox");
    assert_eq!(rows[1].name, "submit");
    assert_eq!(rows[1].ty, "Button");
    assert!(insp.property_rows().is_empty());
}

#[test]
fn reload_twice_with_same_project_is_idempotent() {
    let mut insp = ObjectInspector::new();
    let project = sample_project();

    insp.reload(&project);
    let first_names: Vec<String> = insp.struct_names().clone();
    let first_selection = insp.selected_gui_struct();

    insp.reload(&project);
    assert_eq!(insp.struct_names(), &first_names);
    assert_eq!(insp.selected_gui_struct(), first_selection);
    assert_eq!(insp.selected_gui_struct(), Some(0));
    assert_eq!(insp.notice_count(), 2);
}

#[test]
fn reload_preserves_project_order() {
    let mut insp = ObjectInspector::new();
    let project = Project::new(vec![
        GuiStruct::new("Alpha".to_owned(), vec![]),
        GuiStruct::new("Beta".to_owned(), vec![]),
        GuiStruct::new("Gamma".to_owned(), vec![]),
    ]);
    insp.reload(&project);
    assert_eq!(insp.struct_names(), &vec![
        "Alpha".to_owned(),
        "Beta".to_owned(),
        "Gamma".to_owned(),
    ]);
}

#[test]
fn control_rows_mirror_members() {
    let mut insp = ObjectInspector::new();
    let gs = GuiStruct::new(
        "Window".to_owned(),
        vec![member("title", "Label"), member("ok", "Button"), member("body", "TextBox")],
    );
    insp.select_ui_struct(&gs);
    let rows = insp.control_rows();
    assert_eq!(rows.len(), 3);
    for (i, m) in gs.members().iter().enumerate() {
        assert_eq!(&rows[i].name, m.name());
        assert_eq!(&rows[i].ty, m.ty());
    }
    assert!(insp.property_rows().is_empty());
}

#[test]
fn clear_empties_everything_and_fires_nothing() {
    let mut insp = ObjectInspector::new();
    let project = sample_project();
    insp.reload(&project);
    insp.select_ui_struct(&project.gui_structs()[0]);
    let notices_before = insp.notice_count();

    insp.clear();
    assert!(insp.struct_names().is_empty());
    assert_eq!(insp.selected_gui_struct(), None);
    assert!(insp.control_rows().is_empty());
    assert!(insp.property_rows().is_empty());
    assert_eq!(insp.notice_count(), notices_before);
}

#[test]
fn reload_on_empty_project_leaves_no_selection_and_notifies_once() {
    let mut insp = ObjectInspector::new();
    let project = Project::new(vec![]);
    insp.reload(&project);
    assert!(insp.struct_names().is_empty());
    assert_eq!(insp.selected_gui_struct(), None);
    assert_eq!(insp.notice_count(), 1);
}

#[test]
fn disable_ops_mute_backgrounds_before_clearing_interactivity() {
    let mut insp = ObjectInspector::new();
    let ops = insp.enable_ui(false);
    assert_eq!(ops, vec![
        ViewOp::SetEnabled(Widget::StructSelector, false),
        ViewOp::SetEnabled(Widget::ReloadTrigger, false),
        ViewOp::SetBackground(Widget::ControlList, Tone::Muted),
        ViewOp::SetBackground(Widget::PropertyList, Tone::Muted),
        ViewOp::SetEnabled(Widget::ControlList, false),
        ViewOp::SetEnabled(Widget::PropertyList, false),
    ]);
    assert!(!insp.is_enabled());
    assert_eq!(insp.control_tone(), Tone::Muted);
    assert_eq!(insp.property_tone(), Tone::Muted);
}

#[test]
fn enable_ops_restore_interactivity_before_backgrounds() {
    let mut insp = ObjectInspector::new();
    insp.enable_ui(false);
    let ops = insp.enable_ui(true);
    assert_eq!(ops, vec![
        ViewOp::SetEnabled(Widget::StructSelector, true),
        ViewOp::SetEnabled(Widget::ReloadTrigger, true),
        ViewOp::SetEnabled(Widget::ControlList, true),
        ViewOp::SetEnabled(Widget::PropertyList, true),
        ViewOp::SetBackground(Widget::ControlList, Tone::Normal),
        ViewOp::SetBackground(Widget::PropertyList, Tone::Normal),
    ]);
    assert!(insp.is_enabled());
    assert_eq!(insp.control_tone(), Tone::Normal);
    assert_eq!(insp.property_tone(), Tone::Normal);
}

#[test]
fn disable_then_enable_restores_original_state() {
    let mut insp = ObjectInspector::new();
    let project = sample_project();
    insp.reload(&project);

    insp.enable_ui(false);
    insp.enable_ui(true);

    assert!(insp.is_enabled());
    assert_eq!(insp.control_tone(), Tone::Normal);
    assert_eq!(insp.property_tone(), Tone::Normal);
    assert_eq!(insp.struct_names().len(), 2);
    assert_eq!(insp.selected_gui_struct(), Some(0));
}

#[test]
fn init_declares_columns_and_tooltips() {
    let mut insp = ObjectInspector::new();
    insp.init();

    let control = insp.control_columns();
    assert_eq!(control.len(), 2);
    assert_eq!(control[0].title, "Name");
    assert_eq!(control[0].width, None);
    assert_eq!(control[1].title, "Type");
    assert_eq!(control[1].width, Some(150));

    let property = insp.property_columns();
    assert_eq!(property.len(), 2);
    assert_eq!(property[0].title, "Name");
    assert_eq!(property[0].width, None);
    assert_eq!(property[1].title, "Value");
    assert_eq!(property[1].width, None);

    let tips = insp.tooltips();
    assert_eq!(tips.len(), 4);
    assert_eq!(tips[0].target, Widget::StructSelector);
    assert_eq!(tips[0].text, "Current GUI struct loaded in the editor");
    assert_eq!(tips[1].target, Widget::ReloadTrigger);
    assert_eq!(
        tips[1].text,
        "Look for new gui struct in the project structure and reload the one that changed"
    );
    assert_eq!(tips[2].target, Widget::ControlList);
    assert_eq!(tips[2].text, "GUI control/layout defined in the current GUI struct");
    assert_eq!(tips[3].target, Widget::PropertyList);
    assert_eq!(tips[3].text, "Properties of the selected control");
}

#[test]
fn user_pick_changes_selection_and_notifies() {
    let mut insp = ObjectInspector::new();
    let project = sample_project();
    insp.reload(&project);
    assert_eq!(insp.notice_count(), 1);

    insp.current_gui_changed(Some(1));
    assert_eq!(insp.selected_gui_struct(), Some(1));
    assert_eq!(insp.notice_count(), 2);
}

#[test]
fn out_of_range_pick_means_nothing_selected() {
    let mut insp = ObjectInspector::new();
    let project = sample_project();
    insp.reload(&project);

    insp.current_gui_changed(Some(5));
    assert_eq!(insp.selected_gui_struct(), None);
    assert_eq!(insp.notice_count(), 2);

    insp.current_gui_changed(None);
    assert_eq!(insp.selected_gui_struct(), None);
    assert_eq!(insp.notice_count(), 3);
}

#[test]
fn take_notices_drains_the_queue() {
    let mut insp = ObjectInspector::new();
    let project = sample_project();
    insp.reload(&project);
    insp.current_gui_changed(Some(1));

    let drained = insp.take_notices();
    assert_eq!(drained.len(), 2);
    assert_eq!(insp.notice_count(), 0);
}

#[test]
fn fresh_inspector_is_empty_enabled_and_unselected() {
    let insp = ObjectInspector::new();
    assert!(insp.struct_names().is_empty());
    assert_eq!(insp.selected_gui_struct(), None);
    assert!(insp.control_rows().is_empty());
    assert!(insp.property_rows().is_empty());
    assert!(insp.is_enabled());
    assert_eq!(insp.control_tone(), Tone::Normal);
    assert_eq!(insp.property_tone(), Tone::Normal);
    assert_eq!(insp.notice_count(), 0);
    assert!(insp.control_columns().is_empty());
    assert!(insp.tooltips().is_empty());
}

#[test]
fn default_matches_new() {
    let insp = ObjectInspector::default();
    assert!(insp.struct_names().is_empty());
    assert_eq!(insp.selected_gui_struct(), None);
    assert!(insp.is_enabled());
    assert_eq!(insp.notice_count(), 0);
}

#[test]
fn select_ui_struct_replaces_earlier_rows() {
    let mut insp = ObjectInspector::new();
    let first = login_form();
    let second = GuiStruct::new("SettingsPanel".to_owned(), vec![member("theme", "ComboBox")]);

    insp.select_ui_struct(&first);
    assert_eq!(insp.control_rows().len(), 2);

    insp.select_ui_struct(&second);
    let rows = insp.control_rows();
    assert_eq!(rows.len(), 1);
    assert_eq!(rows[0].name, "theme");
    assert_eq!(rows[0].ty, "ComboBox");
}
