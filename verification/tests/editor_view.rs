use std::collections::HashSet;

use warp_tui::editor::{
    first_line, handle_action, handle_command, handle_editor_action, init, ActionPlan,
    EditorOperation, TextDirection, TextUnit, TuiEditorAction, TuiEditorView, TuiEditorViewAction,
    TuiEditorViewEvent,
};
use warp_tui::keybindings::{
    register_shared_editor_bindings, EditableBinding, TuiEditorBindingTarget, TuiEditorCommand,
};

fn keys_named(bindings: &[EditableBinding], name: &str) -> HashSet<String> {
    bindings
        .iter()
        .filter(|binding| binding.name == name)
        .map(|binding| binding.key.to_string())
        .collect()
}

#[test]
fn focus_hooks_update_editor_focus_without_changing_text() {
    let mut editor = TuiEditorView::single_line();
    // Programmatic text replacement: the model is cleared, then "gen" is
    // inserted; neither change is reported as a user edit.
    let replacement = editor.set_text("", "gen".to_string());
    assert_eq!(replacement.as_deref(), Some("gen"));
    assert_eq!(editor.on_content_changed(String::new()), None);
    assert_eq!(editor.on_content_changed("gen".to_string()), None);
    assert!(editor.on_focus(true));
    assert!(editor.is_focused());
    // Focus moves to another view: the editor blurs, its text untouched.
    assert!(editor.on_blur(true));
    assert!(!editor.is_focused());
    assert_eq!(editor.set_text("gen", "gen".to_string()), None);
}

#[test]
fn shared_initializer_registers_line_start_for_input_and_editor() {
    let mut bindings = register_shared_editor_bindings(TuiEditorBindingTarget::Input, "TuiInputView");
    bindings.extend(init());
    let expected = HashSet::from(["home".to_string(), "ctrl-a".to_string()]);
    assert_eq!(keys_named(&bindings, "tui:input:move_to_line_start"), expected);
    assert_eq!(keys_named(&bindings, "tui:editor:move_to_line_start"), expected);
    assert!(bindings.iter().all(|binding| binding.name != "tui:editor:move_up"));
}

#[test]
fn mouse_selection_action_focuses_the_editor() {
    let mut editor = TuiEditorView::single_line();
    editor.on_focus(false);
    assert!(!editor.is_focused());
    let plan = handle_action(&TuiEditorViewAction::Editor(TuiEditorAction::SelectionStartAt {
        offset: 1,
    }));
    assert!(plan.focus_self);
    assert_eq!(plan.operation, Some(EditorOperation::SelectAt { offset: 1 }));
    // The host moves focus to the view, which runs its focus hook.
    editor.on_focus(plan.focus_self);
    assert!(editor.is_focused());
}

#[test]
fn editing_actions_map_to_model_operations() {
    let plans = [
        handle_action(&TuiEditorViewAction::Editor(TuiEditorAction::InsertText(
            "gen".to_string(),
        ))),
        handle_action(&TuiEditorViewAction::Command(TuiEditorCommand::Backspace)),
        handle_action(&TuiEditorViewAction::Command(TuiEditorCommand::MoveToLineStart)),
        handle_action(&TuiEditorViewAction::Editor(TuiEditorAction::InsertChar('X'))),
    ];
    let operations: Vec<_> = plans.iter().map(|plan| plan.operation.clone()).collect();
    assert_eq!(
        operations,
        vec![
            Some(EditorOperation::InsertText("gen".to_string())),
            Some(EditorOperation::Backspace),
            Some(EditorOperation::MoveToLineStart),
            Some(EditorOperation::InsertChar('X')),
        ]
    );
    assert!(plans.iter().all(|plan| !plan.focus_self));
}

#[test]
fn commands_choose_direction_unit_and_selection() {
    assert_eq!(
        handle_command(TuiEditorCommand::DeleteForward),
        EditorOperation::Delete { direction: TextDirection::Forwards, unit: TextUnit::Character }
    );
    assert_eq!(
        handle_command(TuiEditorCommand::DeleteWordBackward),
        EditorOperation::Delete { direction: TextDirection::Backwards, unit: TextUnit::Word }
    );
    assert_eq!(
        handle_command(TuiEditorCommand::DeleteWordForward),
        EditorOperation::Delete { direction: TextDirection::Forwards, unit: TextUnit::Word }
    );
    assert_eq!(
        handle_command(TuiEditorCommand::MoveWordLeft),
        EditorOperation::BackwardWord { select: false }
    );
    assert_eq!(
        handle_command(TuiEditorCommand::SelectWordLeft),
        EditorOperation::BackwardWord { select: true }
    );
    assert_eq!(
        handle_command(TuiEditorCommand::SelectWordRight),
        EditorOperation::ForwardWord { select: true }
    );
    assert_eq!(handle_command(TuiEditorCommand::SelectAll), EditorOperation::SelectAll);
    assert_eq!(handle_command(TuiEditorCommand::Undo), EditorOperation::Undo);
    assert_eq!(handle_command(TuiEditorCommand::Redo), EditorOperation::Redo);
}

#[test]
fn only_mouse_selection_requests_focus() {
    let focusing = [
        TuiEditorAction::SelectionStartAt { offset: 0 },
        TuiEditorAction::SelectionExtendTo { offset: 2 },
        TuiEditorAction::SelectWordAt { offset: 3 },
        TuiEditorAction::SelectLineAt { offset: 4 },
    ];
    for action in focusing {
        assert!(handle_editor_action(&action).focus_self);
    }
    assert_eq!(
        handle_editor_action(&TuiEditorAction::SelectionUpdateTo { offset: 5 }),
        ActionPlan {
            focus_self: false,
            operation: Some(EditorOperation::UpdatePendingSelection { offset: 5 })
        }
    );
    assert_eq!(
        handle_editor_action(&TuiEditorAction::SelectionEnd),
        ActionPlan { focus_self: false, operation: Some(EditorOperation::EndSelection) }
    );
    assert_eq!(
        handle_editor_action(&TuiEditorAction::Scroll),
        ActionPlan { focus_self: false, operation: None }
    );
    assert_eq!(
        handle_action(&TuiEditorViewAction::FocusRequested),
        ActionPlan { focus_self: true, operation: None }
    );
}

#[test]
fn pasted_text_is_cut_to_its_first_line() {
    assert_eq!(first_line("gen"), "gen");
    assert_eq!(first_line("first\nsecond"), "first");
    assert_eq!(first_line("crlf\r\nnext"), "crlf");
    assert_eq!(first_line("\nafter"), "");
    assert_eq!(first_line(""), "");
    assert_eq!(first_line("bare\r"), "bare\r");
    assert_eq!(first_line("a\rb\nc"), "a\rb");
    assert_eq!(first_line("héllo\nwörld"), "héllo");
    let plan = handle_editor_action(&TuiEditorAction::InsertText("one\ntwo".to_string()));
    assert_eq!(plan.operation, Some(EditorOperation::InsertText("one".to_string())));
}

#[test]
fn user_edits_are_reported_and_replacements_are_not() {
    let mut editor = TuiEditorView::single_line();
    assert_eq!(
        editor.on_content_changed("a".to_string()),
        Some(TuiEditorViewEvent::Changed("a".to_string()))
    );
    assert_eq!(editor.set_text("a", "hello".to_string()).as_deref(), Some("hello"));
    assert_eq!(editor.on_content_changed(String::new()), None);
    assert_eq!(editor.on_content_changed("hel".to_string()), None);
    assert_eq!(editor.on_content_changed("hello".to_string()), None);
    // The replacement has landed: the next change is a user edit again.
    assert_eq!(
        editor.on_content_changed("hello!".to_string()),
        Some(TuiEditorViewEvent::Changed("hello!".to_string()))
    );
}

#[test]
fn focus_hooks_ignore_other_views() {
    let mut editor = TuiEditorView::single_line();
    assert!(!editor.on_focus(false));
    assert!(!editor.is_focused());
    editor.on_focus(true);
    assert!(!editor.on_blur(false));
    assert!(editor.is_focused());
}
