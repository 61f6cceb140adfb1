use warp_tui::keybindings::{
    has_prefix, is_tui_owned, is_tui_owned_binding, register_shared_editor_bindings,
    shared_editor_commands, str_equal, BindingLens, IsBindingValid, Trigger,
    TuiEditorBindingTarget, TuiEditorCommand, TUI_BINDING_GROUP,
};

#[test]
fn tui_ownership_is_by_name_prefix_or_group() {
    assert!(is_tui_owned("tui:editor:undo", None));
    assert!(is_tui_owned("ctrl_c_interrupt", Some("tui")));
    assert!(!is_tui_owned("workspace:toggle", None));
    assert!(!is_tui_owned("workspace:toggle", Some("terminal")));
    assert!(!is_tui_owned("tui", None));
    assert!(!is_tui_owned("tuix:editor", Some("tuix")));
    assert!(!is_tui_owned("TUI:editor:undo", None));
}

#[test]
fn validator_exempts_non_keystroke_triggers() {
    let gui = |trigger| BindingLens { name: "editor:copy", group: None, trigger };
    assert_eq!(is_tui_owned_binding(gui(Trigger::Keystrokes)), IsBindingValid::No);
    assert_eq!(is_tui_owned_binding(gui(Trigger::Empty)), IsBindingValid::Yes);
    assert_eq!(is_tui_owned_binding(gui(Trigger::Standard)), IsBindingValid::Yes);
    assert_eq!(is_tui_owned_binding(gui(Trigger::Custom)), IsBindingValid::Yes);
    let fixed = BindingLens { name: "interrupt", group: Some(TUI_BINDING_GROUP), trigger: Trigger::Keystrokes };
    assert_eq!(is_tui_owned_binding(fixed), IsBindingValid::Yes);
}

#[test]
fn every_shared_binding_passes_the_validator() {
    for target in [TuiEditorBindingTarget::Input, TuiEditorBindingTarget::Editor] {
        let bindings = register_shared_editor_bindings(target, "TuiInputView");
        assert_eq!(bindings.len(), 34);
        for binding in &bindings {
            assert_eq!(binding.group, "tui");
            assert_eq!(binding.context, "TuiInputView");
            let lens = BindingLens {
                name: &binding.name,
                group: Some(binding.group),
                trigger: Trigger::Keystrokes,
            };
            assert_eq!(is_tui_owned_binding(lens), IsBindingValid::Yes);
        }
    }
}

#[test]
fn input_and_editor_tables_differ_only_in_names() {
    let input = register_shared_editor_bindings(TuiEditorBindingTarget::Input, "TuiInputView");
    let editor = register_shared_editor_bindings(TuiEditorBindingTarget::Editor, "TuiEditorView");
    assert_eq!(input.len(), editor.len());
    for (a, b) in input.iter().zip(editor.iter()) {
        assert_eq!(a.key, b.key);
        assert_eq!(a.command, b.command);
        assert_eq!(a.description, b.description);
        assert_eq!(a.name.replacen("tui:input:", "tui:editor:", 1), b.name);
    }
}

#[test]
fn table_lists_commands_keys_and_descriptions_in_order() {
    let bindings = register_shared_editor_bindings(TuiEditorBindingTarget::Editor, "TuiEditorView");
    let first = &bindings[0];
    assert_eq!(first.name, "tui:editor:backspace");
    assert_eq!(first.description, "Delete the previous character");
    assert_eq!(first.key, "backspace");
    assert_eq!(bindings[2].key, "ctrl-h");
    let last = &bindings[bindings.len() - 1];
    assert_eq!(last.name, "tui:editor:redo");
    assert_eq!(last.command, TuiEditorCommand::Redo);
    assert_eq!(last.key, "ctrl-shift-Z");
    let select_all: Vec<_> = bindings
        .iter()
        .filter(|b| b.command == TuiEditorCommand::SelectAll)
        .map(|b| (b.name.as_str(), b.key))
        .collect();
    assert_eq!(select_all, vec![("tui:editor:select_all", "ctrl-shift-A")]);
    assert_eq!(shared_editor_commands().len(), 17);
}

#[test]
fn string_helpers_compare_characters() {
    assert!(has_prefix("tui:input", "tui:"));
    assert!(has_prefix("abc", ""));
    assert!(!has_prefix("tu", "tui:"));
    assert!(str_equal("tui", "tui"));
    assert!(!str_equal("tui", "tu"));
    assert!(!str_equal("tui", "tux"));
}
