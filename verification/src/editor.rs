//! Decisions of the reusable single-line editor view.
//!
//! The view wraps a char-cell editor model owned by the host. This module
//! decides what the model is asked to do for each keybound command and each
//! action raised by the editor element, tracks the view's focus, and keeps
//! programmatic text replacement from being reported as a user edit.
use vstd::prelude::*;

use crate::keybindings::{
    command_description, command_slug, is_shared_binding_table, register_shared_editor_bindings, EditableBinding,
    TuiEditorBindingTarget, TuiEditorCommand,
};

verus! {

#[derive(Clone, Copy, Debug, PartialEq, Eq, Structural)]
pub enum TextDirection {
    Forwards,
    Backwards,
}

/// The unit a deletion covers; words use the default word-boundary policy.
#[derive(Clone, Copy, Debug, PartialEq, Eq, Structural)]
pub enum TextUnit {
    Character,
    Word,
}

/// An operation on the editor model.
#[derive(Clone, Debug, PartialEq, Eq)]
pub enum EditorOperation {
    Backspace,
    Delete { direction: TextDirection, unit: TextUnit },
    MoveLeft,
    MoveRight,
    /// Moves (or, with `select`, extends the selection) one word back.
    BackwardWord { select: bool },
    /// Moves (or, with `select`, extends the selection) one word forward.
    ForwardWord { select: bool },
    MoveToLineStart,
    MoveToLineEnd,
    SelectLeft,
    SelectRight,
    SelectAll,
    Undo,
    Redo,
    /// Inserts one character as if typed.
    InsertChar(char),
    /// Inserts text as if typed.
    InsertText(String),
    /// Starts a selection at a character offset.
    SelectAt { offset: usize },
    /// Moves the head of the last selection.
    SetLastSelectionHead { offset: usize },
    SelectWordAt { offset: usize },
    SelectLineAt { offset: usize },
    UpdatePendingSelection { offset: usize },
    EndSelection,
}

/// Actions raised by the editor element (mouse and text input).
#[derive(Clone, Debug, PartialEq, Eq)]
pub enum TuiEditorAction {
    InsertChar(char),
    InsertText(String),
    SelectionStartAt { offset: usize },
    SelectionExtendTo { offset: usize },
    SelectWordAt { offset: usize },
    SelectLineAt { offset: usize },
    SelectionUpdateTo { offset: usize },
    SelectionEnd,
    Scroll,
}

/// Actions raised by the shared editor element or editor chrome.
#[derive(Clone, Debug, PartialEq, Eq)]
pub enum TuiEditorViewAction {
    FocusRequested,
    Editor(TuiEditorAction),
    Command(TuiEditorCommand),
}

/// Events emitted when the editor content changes.
#[derive(Clone, Debug, PartialEq, Eq)]
pub enum TuiEditorViewEvent {
    Changed(String),
}

/// What handling an action asks of the host: whether the view takes focus
/// (before the operation is applied), and the operation on the model. The
/// view is re-rendered after every action.
#[derive(Clone, Debug, PartialEq, Eq)]
pub struct ActionPlan {
    pub focus_self: bool,
    pub operation: Option<EditorOperation>,
}

/// The model operation of each keybound command.
pub open spec fn spec_command_operation(command: TuiEditorCommand) -> EditorOperation {
    match command {
        TuiEditorCommand::Backspace => EditorOperation::Backspace,
        TuiEditorCommand::DeleteForward => EditorOperation::Delete {
            direction: TextDirection::Forwards,
            unit: TextUnit::Character,
        },
        TuiEditorCommand::DeleteWordBackward => EditorOperation::Delete {
            direction: TextDirection::Backwards,
            unit: TextUnit::Word,
        },
        TuiEditorCommand::DeleteWordForward => EditorOperation::Delete {
            direction: TextDirection::Forwards,
            unit: TextUnit::Word,
        },
        TuiEditorCommand::MoveLeft => EditorOperation::MoveLeft,
        TuiEditorCommand::MoveRight => EditorOperation::MoveRight,
        TuiEditorCommand::MoveWordLeft => EditorOperation::BackwardWord { select: false },
        TuiEditorCommand::MoveWordRight => EditorOperation::ForwardWord { select: false },
        TuiEditorCommand::MoveToLineStart => EditorOperation::MoveToLineStart,
        TuiEditorCommand::MoveToLineEnd => EditorOperation::MoveToLineEnd,
        TuiEditorCommand::SelectLeft => EditorOperation::SelectLeft,
        TuiEditorCommand::SelectRight => EditorOperation::SelectRight,
        TuiEditorCommand::SelectWordLeft => EditorOperation::BackwardWord { select: true },
        TuiEditorCommand::SelectWordRight => EditorOperation::ForwardWord { select: true },
        TuiEditorCommand::SelectAll => EditorOperation::SelectAll,
        TuiEditorCommand::Undo => EditorOperation::Undo,
        TuiEditorCommand::Redo => EditorOperation::Redo,
    }
}

/// Applies a keybound editor command: the operation the model performs.
pub fn handle_command(command: TuiEditorCommand) -> (op: EditorOperation)
    ensures
        op == spec_command_operation(command),
{
    match command {
        TuiEditorCommand::Backspace => EditorOperation::Backspace,
        TuiEditorCommand::DeleteForward => EditorOperation::Delete {
            direction: TextDirection::Forwards,
            unit: TextUnit::Character,
        },
        TuiEditorCommand::DeleteWordBackward => EditorOperation::Delete {
            direction: TextDirection::Backwards,
            unit: TextUnit::Word,
        },
        TuiEditorCommand::DeleteWordForward => EditorOperation::Delete {
            direction: TextDirection::Forwards,
            unit: TextUnit::Word,
        },
        TuiEditorCommand::MoveLeft => EditorOperation::MoveLeft,
        TuiEditorCommand::MoveRight => EditorOperation::MoveRight,
        TuiEditorCommand::MoveWordLeft => EditorOperation::BackwardWord { select: false },
        TuiEditorCommand::MoveWordRight => EditorOperation::ForwardWord { select: false },
        TuiEditorCommand::MoveToLineStart => EditorOperation::MoveToLineStart,
        TuiEditorCommand::MoveToLineEnd => EditorOperation::MoveToLineEnd,
        TuiEditorCommand::SelectLeft => EditorOperation::SelectLeft,
        TuiEditorCommand::SelectRight => EditorOperation::SelectRight,
        TuiEditorCommand::SelectWordLeft => EditorOperation::BackwardWord { select: true },
        TuiEditorCommand::SelectWordRight => EditorOperation::ForwardWord { select: true },
        TuiEditorCommand::SelectAll => EditorOperation::SelectAll,
        TuiEditorCommand::Undo => EditorOperation::Undo,
        TuiEditorCommand::Redo => EditorOperation::Redo,
    }
}

/// No line feed in `s`.
pub open spec fn newline_free(s: Seq<char>) -> bool {
    forall|k: int| 0 <= k < s.len() ==> s[k] != '\n'
}

/// `i` is the position of the first line feed in `t`.
pub open spec fn is_first_newline(t: Seq<char>, i: int) -> bool {
    0 <= i < t.len() && t[i] == '\n' && newline_free(t.take(i))
}

/// The first line of `t`, as `str::lines` yields it: everything before the
/// first line feed, without a carriage return that ends it; the whole text
/// when there is no line feed (empty for empty text).
pub open spec fn spec_first_line(t: Seq<char>) -> Seq<char> {
    if newline_free(t) {
        t
    } else {
        let i = choose|i: int| is_first_newline(t, i);
        if i > 0 && t[i - 1] == '\r' {
            t.take(i - 1)
        } else {
            t.take(i)
        }
    }
}

proof fn lemma_first_newline_unique(t: Seq<char>, i: int, j: int)
    requires
        is_first_newline(t, i),
        is_first_newline(t, j),
    ensures
        i == j,
{
    if i < j {
        assert(t.take(j)[i] == t[i]);
    } else if j < i {
        assert(t.take(i)[j] == t[j]);
    }
}

/// The first line of pasted text: a single-line field inserts only that.
pub fn first_line(text: &str) -> (line: String)
    ensures
        line@ == spec_first_line(text@),
{
    let n = text.unicode_len();
    let mut i: usize = 0;
    let mut found = false;
    while i < n && !found
        invariant
            n == text@.len(),
            i <= n,
            newline_free(text@.take(i as int)),
            found ==> i < n && text@[i as int] == '\n',
        decreases n - i + (if found { 0int } else { 1int }),
    {
        if text.get_char(i) == '\n' {
            found = true;
        } else {
            assert(text@.take(i + 1) =~= text@.take(i as int).push(text@[i as int]));
            i = i + 1;
        }
    }
    if !found {
        assert(text@.take(n as int) =~= text@);
        return String::from_str(text);
    }
    proof {
        assert(is_first_newline(text@, i as int));
        let j = choose|j: int| is_first_newline(text@, j);
        lemma_first_newline_unique(text@, i as int, j);
    }
    let end = if i > 0 && text.get_char(i - 1) == '\r' {
        i - 1
    } else {
        i
    };
    let line = text.substring_char(0, end);
    assert(text@.subrange(0, end as int) =~= text@.take(end as int));
    String::from_str(line)
}

/// Mouse selection actions: the view takes focus before they apply.
pub open spec fn is_mouse_selection(action: TuiEditorAction) -> bool {
    ||| action is SelectionStartAt
    ||| action is SelectionExtendTo
    ||| action is SelectWordAt
    ||| action is SelectLineAt
}

/// The model operation of an editor action other than text insertion.
pub open spec fn spec_action_operation(action: TuiEditorAction) -> Option<EditorOperation> {
    match action {
        TuiEditorAction::InsertChar(c) => Some(EditorOperation::InsertChar(c)),
        TuiEditorAction::InsertText(_) => None,
        TuiEditorAction::SelectionStartAt { offset } => Some(EditorOperation::SelectAt { offset }),
        TuiEditorAction::SelectionExtendTo { offset } => Some(
            EditorOperation::SetLastSelectionHead { offset },
        ),
        TuiEditorAction::SelectWordAt { offset } => Some(EditorOperation::SelectWordAt { offset }),
        TuiEditorAction::SelectLineAt { offset } => Some(EditorOperation::SelectLineAt { offset }),
        TuiEditorAction::SelectionUpdateTo { offset } => Some(
            EditorOperation::UpdatePendingSelection { offset },
        ),
        TuiEditorAction::SelectionEnd => Some(EditorOperation::EndSelection),
        TuiEditorAction::Scroll => None,
    }
}

/// What an editor action does: text is inserted (pasted text only up to its
/// first line), mouse selection focuses the view and updates the
/// selection, and scrolling a one-row field does nothing.
pub open spec fn editor_action_planned(action: TuiEditorAction, plan: ActionPlan) -> bool {
    &&& plan.focus_self == is_mouse_selection(action)
    &&& match action {
        TuiEditorAction::InsertText(t) => plan.operation matches Some(
            EditorOperation::InsertText(s),
        ) && s@ == spec_first_line(t@),
        _ => plan.operation == spec_action_operation(action),
    }
}

/// Applies an editor action raised by the editor element.
pub fn handle_editor_action(action: &TuiEditorAction) -> (plan: ActionPlan)
    ensures
        editor_action_planned(*action, plan),
{
    let focus_self = match action {
        TuiEditorAction::SelectionStartAt { .. }
        | TuiEditorAction::SelectionExtendTo { .. }
        | TuiEditorAction::SelectWordAt { .. }
        | TuiEditorAction::SelectLineAt { .. } => true,
        _ => false,
    };
    let operation = match action {
        TuiEditorAction::InsertChar(c) => Some(EditorOperation::InsertChar(*c)),
        TuiEditorAction::InsertText(text) => Some(
            EditorOperation::InsertText(first_line(text.as_str())),
        ),
        TuiEditorAction::SelectionStartAt { offset } => Some(
            EditorOperation::SelectAt { offset: *offset },
        ),
        TuiEditorAction::SelectionExtendTo { offset } => Some(
            EditorOperation::SetLastSelectionHead { offset: *offset },
        ),
        TuiEditorAction::SelectWordAt { offset } => Some(
            EditorOperation::SelectWordAt { offset: *offset },
        ),
        TuiEditorAction::SelectLineAt { offset } => Some(
            EditorOperation::SelectLineAt { offset: *offset },
        ),
        TuiEditorAction::SelectionUpdateTo { offset } => Some(
            EditorOperation::UpdatePendingSelection { offset: *offset },
        ),
        TuiEditorAction::SelectionEnd => Some(EditorOperation::EndSelection),
        TuiEditorAction::Scroll => None,
    };
    ActionPlan { focus_self, operation }
}

/// What a view action does.
pub open spec fn view_action_planned(action: TuiEditorViewAction, plan: ActionPlan) -> bool {
    match action {
        TuiEditorViewAction::FocusRequested => plan.focus_self && plan.operation is None,
        TuiEditorViewAction::Editor(a) => editor_action_planned(a, plan),
        TuiEditorViewAction::Command(c) => !plan.focus_self && plan.operation == Some(
            spec_command_operation(c),
        ),
    }
}

/// Handles an action dispatched to the view.
pub fn handle_action(action: &TuiEditorViewAction) -> (plan: ActionPlan)
    ensures
        view_action_planned(*action, plan),
{
    match action {
        TuiEditorViewAction::FocusRequested => ActionPlan { focus_self: true, operation: None },
        TuiEditorViewAction::Editor(a) => handle_editor_action(a),
        TuiEditorViewAction::Command(c) => ActionPlan {
            focus_self: false,
            operation: Some(handle_command(*c)),
        },
    }
}

/// Registers the shared single-line editor bindings: the shared table under
/// `tui:editor:*` names, active in the editor view's keymap context.
pub fn init() -> (bindings: Vec<EditableBinding>)
    ensures
        is_shared_binding_table(bindings@, TuiEditorBindingTarget::Editor, "TuiEditorView"@),
{
    register_shared_editor_bindings(TuiEditorBindingTarget::Editor, "TuiEditorView")
}

/// A model content change seen with replacement target `target`: the new
/// target, and the text reported as `Changed` (if any). While a programmatic
/// replacement is in flight nothing is reported, and reaching its text ends
/// it; otherwise every change is reported.
pub open spec fn spec_content_changed(target: Option<Seq<char>>, text: Seq<char>) -> (
    Option<Seq<char>>,
    Option<Seq<char>>,
) {
    match target {
        Some(t) => if t == text {
            (None, None)
        } else {
            (Some(t), None)
        },
        None => (None, Some(text)),
    }
}

/// The final target and the reported texts after a series of content changes.
pub open spec fn spec_content_run(target: Option<Seq<char>>, texts: Seq<Seq<char>>) -> (
    Option<Seq<char>>,
    Seq<Seq<char>>,
)
    decreases texts.len(),
{
    if texts.len() == 0 {
        (target, Seq::empty())
    } else {
        let (t, reported) = spec_content_run(target, texts.drop_last());
        let (t2, ev) = spec_content_changed(t, texts.last());
        (
            t2,
            match ev {
                Some(e) => reported.push(e),
                None => reported,
            },
        )
    }
}

/// The view's own state: focus and the target of an in-flight programmatic
/// replacement.
pub struct TuiEditorView {
    focused: bool,
    /// Target text of an in-flight programmatic replacement. Content events
    /// are suppressed until the model reaches this value (including an
    /// intermediate clear event).
    suppressed_text_target: Option<String>,
}

impl TuiEditorView {
    pub closed spec fn spec_focused(&self) -> bool {
        self.focused
    }

    pub closed spec fn spec_target(&self) -> Option<Seq<char>> {
        match self.suppressed_text_target {
            Some(t) => Some(t@),
            None => None,
        }
    }

    /// A view that is not focused and has no replacement in flight.
    pub fn single_line() -> (v: TuiEditorView)
        ensures
            !v.spec_focused(),
            v.spec_target() is None,
    {
        TuiEditorView { focused: false, suppressed_text_target: None }
    }

    /// Whether the editor owns focus.
    pub fn is_focused(&self) -> (b: bool)
        ensures
            b == self.spec_focused(),
    {
        self.focused
    }

    /// Focus hook: the view becomes focused when focus landed on itself.
    /// Returns whether the view must be re-rendered.
    pub fn on_focus(&mut self, is_self_focused: bool) -> (notify: bool)
        ensures
            notify == is_self_focused,
            final(self).spec_focused() == (old(self).spec_focused() || is_self_focused),
            final(self).spec_target() == old(self).spec_target(),
    {
        if is_self_focused {
            self.focused = true;
        }
        is_self_focused
    }

    /// Blur hook: the view loses focus when focus left itself. Returns
    /// whether the view must be re-rendered.
    pub fn on_blur(&mut self, is_self_blurred: bool) -> (notify: bool)
        ensures
            notify == is_self_blurred,
            final(self).spec_focused() == (old(self).spec_focused() && !is_self_blurred),
            final(self).spec_target() == old(self).spec_target(),
    {
        if is_self_blurred {
            self.focused = false;
        }
        is_self_blurred
    }

    /// Replaces the editor content without emitting `Changed`: given the
    /// current text, returns the text the model must be set to (by clearing
    /// it and inserting the result), or `None` when it already holds `text`.
    pub fn set_text(&mut self, current: &str, text: String) -> (replacement: Option<String>)
        ensures
            final(self).spec_focused() == old(self).spec_focused(),
            current@ == text@ ==> replacement is None
                && final(self).spec_target() == old(self).spec_target(),
            current@ != text@ ==> (replacement matches Some(r) && r@ == text@
                && final(self).spec_target() == Some(text@)),
    {
        if crate::keybindings::str_equal(current, text.as_str()) {
            return None;
        }
        self.suppressed_text_target = Some(text.clone());
        Some(text)
    }

    /// Subscription to model content changes: returns the event to emit.
    pub fn on_content_changed(&mut self, text: String) -> (event: Option<TuiEditorViewEvent>)
        ensures
            final(self).spec_focused() == old(self).spec_focused(),
            final(self).spec_target() == spec_content_changed(old(self).spec_target(), text@).0,
            match spec_content_changed(old(self).spec_target(), text@).1 {
                Some(t) => event matches Some(TuiEditorViewEvent::Changed(e)) && e@ == t,
                None => event is None,
            },
    {
        let matched = match &self.suppressed_text_target {
            Some(target) => Some(crate::keybindings::str_equal(target.as_str(), text.as_str())),
            None => None,
        };
        match matched {
            Some(true) => {
                self.suppressed_text_target = None;
                None
            },
            Some(false) => None,
            None => Some(TuiEditorViewEvent::Changed(text)),
        }
    }
}

/// A programmatic replacement is silent: while the model passes through
/// other texts on its way to the target (such as the intermediate clear),
/// nothing is reported, and once it reaches the target the replacement ends.
pub proof fn lemma_replacement_is_silent(target: Seq<char>, texts: Seq<Seq<char>>)
    requires
        texts.len() > 0,
        texts.last() == target,
        forall|k: int| 0 <= k < texts.len() - 1 ==> texts[k] != target,
    ensures
        spec_content_run(Some(target), texts) == (None::<Seq<char>>, Seq::<Seq<char>>::empty()),
{
    lemma_run_before_target(target, texts.drop_last());
}

proof fn lemma_run_before_target(target: Seq<char>, texts: Seq<Seq<char>>)
    requires
        forall|k: int| 0 <= k < texts.len() ==> texts[k] != target,
    ensures
        spec_content_run(Some(target), texts) == (Some(target), Seq::<Seq<char>>::empty()),
    decreases texts.len(),
{
    if texts.len() > 0 {
        lemma_run_before_target(target, texts.drop_last());
    }
}

/// Without a replacement in flight, every content change is reported, in order.
pub proof fn lemma_user_edits_are_reported(texts: Seq<Seq<char>>)
    ensures
        spec_content_run(None, texts) == (None::<Seq<char>>, texts),
    decreases texts.len(),
{
    if texts.len() > 0 {
        lemma_user_edits_are_reported(texts.drop_last());
        assert(texts.drop_last().push(texts.last()) =~= texts);
    }
}

/// Which way an operation moves the cursor or deletes.
pub open spec fn op_direction(op: EditorOperation) -> Option<TextDirection> {
    match op {
        EditorOperation::Backspace => Some(TextDirection::Backwards),
        EditorOperation::MoveLeft => Some(TextDirection::Backwards),
        EditorOperation::SelectLeft => Some(TextDirection::Backwards),
        EditorOperation::BackwardWord { .. } => Some(TextDirection::Backwards),
        EditorOperation::MoveRight => Some(TextDirection::Forwards),
        EditorOperation::SelectRight => Some(TextDirection::Forwards),
        EditorOperation::ForwardWord { .. } => Some(TextDirection::Forwards),
        EditorOperation::Delete { direction, .. } => Some(direction),
        _ => None,
    }
}

/// Whether an operation extends the selection rather than moving the cursor.
pub open spec fn op_extends_selection(op: EditorOperation) -> bool {
    match op {
        EditorOperation::SelectLeft | EditorOperation::SelectRight | EditorOperation::SelectAll => true,
        EditorOperation::BackwardWord { select } => select,
        EditorOperation::ForwardWord { select } => select,
        _ => false,
    }
}

/// Whether an operation works a word at a time.
pub open spec fn op_by_word(op: EditorOperation) -> bool {
    match op {
        EditorOperation::BackwardWord { .. } | EditorOperation::ForwardWord { .. } => true,
        EditorOperation::Delete { unit, .. } => unit == TextUnit::Word,
        _ => false,
    }
}

/// Whether an operation deletes text.
pub open spec fn op_deletes(op: EditorOperation) -> bool {
    op is Backspace || op is Delete
}

/// A keybound command does what its name says. Its operation goes right
/// (forwards) exactly for names ending in `_right` or `_forward`, left
/// (backwards) for names ending in `_left` or `_backward` and for
/// `backspace`; it extends the selection for `select_*` names; it works by
/// word for `*_word_*` names; it deletes for `delete_*` and `backspace`; and
/// the line, select-all and history commands perform the operation they are
/// named after. Its description says the same: right or next, left or
/// previous, extending the selection, deleting, a word at a time.
pub proof fn lemma_command_operation_follows_its_name(c: TuiEditorCommand)
    ensures
        ({
            let op = spec_command_operation(c);
            let s = command_slug(c);
            &&& op_direction(op) == Some(TextDirection::Forwards) ==> "_right"@.is_suffix_of(s)
                || "_forward"@.is_suffix_of(s)
            &&& op_direction(op) == Some(TextDirection::Backwards) ==> "_left"@.is_suffix_of(s)
                || "_backward"@.is_suffix_of(s) || s == "backspace"@
            &&& op_direction(op) is None ==> s == "move_to_line_start"@ || s
                == "move_to_line_end"@ || s == "select_all"@ || s == "undo"@ || s == "redo"@
            &&& op_extends_selection(op) ==> "select_"@.is_prefix_of(s)
            &&& !op_extends_selection(op) ==> "move_"@.is_prefix_of(s) || "delete_"@.is_prefix_of(
                s,
            ) || s == "backspace"@ || s == "undo"@ || s == "redo"@
            &&& op_by_word(op) ==> "move_word_"@.is_prefix_of(s) || "select_word_"@.is_prefix_of(
                s,
            ) || "delete_word_"@.is_prefix_of(s)
            &&& !op_by_word(op) ==> s == "move_left"@ || s == "move_right"@ || s
                == "select_left"@ || s == "select_right"@ || s == "delete_forward"@ || s
                == "backspace"@ || s == "move_to_line_start"@ || s == "move_to_line_end"@ || s
                == "select_all"@ || s == "undo"@ || s == "redo"@
            &&& op_deletes(op) ==> "delete_"@.is_prefix_of(s) || s == "backspace"@
            &&& !op_deletes(op) ==> "move_"@.is_prefix_of(s) || "select_"@.is_prefix_of(s) || s
                == "undo"@ || s == "redo"@
            &&& op is Backspace ==> s == "backspace"@
            &&& op is MoveToLineStart ==> s == "move_to_line_start"@
            &&& op is MoveToLineEnd ==> s == "move_to_line_end"@
            &&& op is SelectAll ==> s == "select_all"@
            &&& op is Undo ==> s == "undo"@
            &&& op is Redo ==> s == "redo"@
        }),
        ({
            let op = spec_command_operation(c);
            let d = command_description(c);
            &&& op_direction(op) == Some(TextDirection::Forwards) ==> " right"@.is_suffix_of(d)
                || "Delete the next "@.is_prefix_of(d)
            &&& op_direction(op) == Some(TextDirection::Backwards) ==> " left"@.is_suffix_of(d)
                || "Delete the previous "@.is_prefix_of(d)
            &&& op_extends_selection(op) ==> "Extend selection "@.is_prefix_of(d) || d
                == "Select all text"@
            &&& op_deletes(op) ==> "Delete "@.is_prefix_of(d)
            &&& op_by_word(op) ==> " word"@.is_suffix_of(d) || " word left"@.is_suffix_of(d)
                || " word right"@.is_suffix_of(d)
        }),
{
    reveal_strlit("_right");
    reveal_strlit("_forward");
    reveal_strlit("_left");
    reveal_strlit("_backward");
    reveal_strlit("select_");
    reveal_strlit("move_");
    reveal_strlit("delete_");
    reveal_strlit("move_word_");
    reveal_strlit("select_word_");
    reveal_strlit("delete_word_");
    reveal_strlit(" right");
    reveal_strlit(" left");
    reveal_strlit("Delete the next ");
    reveal_strlit("Delete the previous ");
    reveal_strlit("Extend selection ");
    reveal_strlit("Delete ");
    reveal_strlit(" word");
    reveal_strlit(" word left");
    reveal_strlit(" word right");
    match c {
        TuiEditorCommand::Backspace => reveal_strlit("Delete the previous character"),
        TuiEditorCommand::DeleteForward => reveal_strlit("Delete the next character"),
        TuiEditorCommand::DeleteWordBackward => reveal_strlit("Delete the previous word"),
        TuiEditorCommand::DeleteWordForward => reveal_strlit("Delete the next word"),
        TuiEditorCommand::MoveLeft => reveal_strlit("Move cursor left"),
        TuiEditorCommand::MoveRight => reveal_strlit("Move cursor right"),
        TuiEditorCommand::MoveWordLeft => reveal_strlit("Move cursor one word left"),
        TuiEditorCommand::MoveWordRight => reveal_strlit("Move cursor one word right"),
        TuiEditorCommand::MoveToLineStart => reveal_strlit("Move cursor to start of line"),
        TuiEditorCommand::MoveToLineEnd => reveal_strlit("Move cursor to end of line"),
        TuiEditorCommand::SelectLeft => reveal_strlit("Extend selection left"),
        TuiEditorCommand::SelectRight => reveal_strlit("Extend selection right"),
        TuiEditorCommand::SelectWordLeft => reveal_strlit("Extend selection one word left"),
        TuiEditorCommand::SelectWordRight => reveal_strlit("Extend selection one word right"),
        TuiEditorCommand::SelectAll => reveal_strlit("Select all text"),
        TuiEditorCommand::Undo => reveal_strlit("Undo"),
        TuiEditorCommand::Redo => reveal_strlit("Redo"),
    }
    match c {
        TuiEditorCommand::Backspace => reveal_strlit("backspace"),
        TuiEditorCommand::DeleteForward => reveal_strlit("delete_forward"),
        TuiEditorCommand::DeleteWordBackward => reveal_strlit("delete_word_backward"),
        TuiEditorCommand::DeleteWordForward => reveal_strlit("delete_word_forward"),
        TuiEditorCommand::MoveLeft => reveal_strlit("move_left"),
        TuiEditorCommand::MoveRight => reveal_strlit("move_right"),
        TuiEditorCommand::MoveWordLeft => reveal_strlit("move_word_left"),
        TuiEditorCommand::MoveWordRight => reveal_strlit("move_word_right"),
        TuiEditorCommand::MoveToLineStart => reveal_strlit("move_to_line_start"),
        TuiEditorCommand::MoveToLineEnd => reveal_strlit("move_to_line_end"),
        TuiEditorCommand::SelectLeft => reveal_strlit("select_left"),
        TuiEditorCommand::SelectRight => reveal_strlit("select_right"),
        TuiEditorCommand::SelectWordLeft => reveal_strlit("select_word_left"),
        TuiEditorCommand::SelectWordRight => reveal_strlit("select_word_right"),
        TuiEditorCommand::SelectAll => reveal_strlit("select_all"),
        TuiEditorCommand::Undo => reveal_strlit("undo"),
        TuiEditorCommand::Redo => reveal_strlit("redo"),
    }
}

/// The part a mouse gesture plays in building a selection.
#[derive(Clone, Copy, Debug, PartialEq, Eq, Structural)]
pub enum SelectionPhase {
    /// A new selection is started (mouse press).
    Begin,
    /// The head of the existing selection is moved (shift-click or drag).
    MoveHead,
    /// The selection being dragged out is updated.
    Update,
    /// The selection being dragged out is finished (mouse release).
    Finish,
}

/// What a selection is made of.
#[derive(Clone, Copy, Debug, PartialEq, Eq, Structural)]
pub enum SelectionUnit {
    Character,
    Word,
    Line,
}

/// The selection gesture an editor action describes: its phase, unit and
/// character offset.
pub open spec fn action_selection(a: TuiEditorAction) -> Option<
    (SelectionPhase, SelectionUnit, Option<usize>),
> {
    match a {
        TuiEditorAction::SelectionStartAt { offset } => Some(
            (SelectionPhase::Begin, SelectionUnit::Character, Some(offset)),
        ),
        TuiEditorAction::SelectWordAt { offset } => Some(
            (SelectionPhase::Begin, SelectionUnit::Word, Some(offset)),
        ),
        TuiEditorAction::SelectLineAt { offset } => Some(
            (SelectionPhase::Begin, SelectionUnit::Line, Some(offset)),
        ),
        TuiEditorAction::SelectionExtendTo { offset } => Some(
            (SelectionPhase::MoveHead, SelectionUnit::Character, Some(offset)),
        ),
        TuiEditorAction::SelectionUpdateTo { offset } => Some(
            (SelectionPhase::Update, SelectionUnit::Character, Some(offset)),
        ),
        TuiEditorAction::SelectionEnd => Some(
            (SelectionPhase::Finish, SelectionUnit::Character, None),
        ),
        _ => None,
    }
}

/// The selection gesture a model operation performs.
pub open spec fn op_selection(op: EditorOperation) -> Option<
    (SelectionPhase, SelectionUnit, Option<usize>),
> {
    match op {
        EditorOperation::SelectAt { offset } => Some(
            (SelectionPhase::Begin, SelectionUnit::Character, Some(offset)),
        ),
        EditorOperation::SelectWordAt { offset } => Some(
            (SelectionPhase::Begin, SelectionUnit::Word, Some(offset)),
        ),
        EditorOperation::SelectLineAt { offset } => Some(
            (SelectionPhase::Begin, SelectionUnit::Line, Some(offset)),
        ),
        EditorOperation::SetLastSelectionHead { offset } => Some(
            (SelectionPhase::MoveHead, SelectionUnit::Character, Some(offset)),
        ),
        EditorOperation::UpdatePendingSelection { offset } => Some(
            (SelectionPhase::Update, SelectionUnit::Character, Some(offset)),
        ),
        EditorOperation::EndSelection => Some(
            (SelectionPhase::Finish, SelectionUnit::Character, None),
        ),
        _ => None,
    }
}

/// The text an editor action types.
pub open spec fn action_typed_text(a: TuiEditorAction) -> Option<Seq<char>> {
    match a {
        TuiEditorAction::InsertChar(c) => Some(seq![c]),
        TuiEditorAction::InsertText(t) => Some(spec_first_line(t@)),
        _ => None,
    }
}

/// The text a model operation inserts.
pub open spec fn op_inserted_text(op: EditorOperation) -> Option<Seq<char>> {
    match op {
        EditorOperation::InsertChar(c) => Some(seq![c]),
        EditorOperation::InsertText(t) => Some(t@),
        _ => None,
    }
}

/// Handling an editor action performs exactly the gesture it describes:
/// a selection action becomes the model operation of the same phase, unit
/// and offset (a double-click selects the word, a triple-click the line,
/// at the clicked offset), typing inserts the typed text (the first line of
/// a paste), the view takes focus exactly for mouse presses that start or
/// extend a selection, and scrolling a one-row field changes nothing.
pub proof fn lemma_editor_actions_keep_their_gesture(a: TuiEditorAction, plan: ActionPlan)
    requires
        editor_action_planned(a, plan),
    ensures
        action_selection(a) is Some ==> (plan.operation matches Some(op) && op_selection(op)
            == action_selection(a)),
        action_typed_text(a) is Some ==> (plan.operation matches Some(op) && op_inserted_text(op)
            == action_typed_text(a)),
        plan.operation matches Some(op) ==> op_selection(op) == action_selection(a)
            && op_inserted_text(op) == action_typed_text(a),
        plan.focus_self == (action_selection(a) matches Some(g) && (g.0 == SelectionPhase::Begin
            || g.0 == SelectionPhase::MoveHead)),
        a is Scroll ==> plan.operation is None,
{
}

} // verus!
