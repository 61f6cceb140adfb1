//! The shared editor keybinding table and the TUI ownership check.
//!
//! Editable bindings are named `tui:*` so users can remap them by name; the
//! names built here are the stable contract. One table of editing commands
//! (horizontal, word and line movement, deletion, selection, undo and redo)
//! serves both text fields: the command input registers it under
//! `tui:input:*` names, the single-line editor under `tui:editor:*` names.
//!
//! Every keystroke binding that can match a TUI view must be TUI-owned: its
//! name starts with `tui:` or it carries the [`TUI_BINDING_GROUP`] group.
use vstd::prelude::*;

verus! {

/// Group tag set on every TUI-registered binding.
pub const TUI_BINDING_GROUP: &'static str = "tui";

/// Editing commands whose key definitions are shared by TUI text fields.
#[derive(Clone, Copy, Debug, PartialEq, Eq, Structural)]
pub enum TuiEditorCommand {
    Backspace,
    DeleteForward,
    DeleteWordBackward,
    DeleteWordForward,
    MoveLeft,
    MoveRight,
    MoveWordLeft,
    MoveWordRight,
    MoveToLineStart,
    MoveToLineEnd,
    SelectLeft,
    SelectRight,
    SelectWordLeft,
    SelectWordRight,
    SelectAll,
    Undo,
    Redo,
}

/// Selects stable user-configurable names for each binding consumer.
#[derive(Clone, Copy, Debug, PartialEq, Eq, Structural)]
pub enum TuiEditorBindingTarget {
    Input,
    Editor,
}

/// The commands of the shared table, in registration order.
pub open spec fn shared_commands() -> Seq<TuiEditorCommand> {
    seq![
        TuiEditorCommand::Backspace,
        TuiEditorCommand::DeleteForward,
        TuiEditorCommand::DeleteWordBackward,
        TuiEditorCommand::DeleteWordForward,
        TuiEditorCommand::MoveLeft,
        TuiEditorCommand::MoveRight,
        TuiEditorCommand::MoveWordLeft,
        TuiEditorCommand::MoveWordRight,
        TuiEditorCommand::MoveToLineStart,
        TuiEditorCommand::MoveToLineEnd,
        TuiEditorCommand::SelectLeft,
        TuiEditorCommand::SelectRight,
        TuiEditorCommand::SelectWordLeft,
        TuiEditorCommand::SelectWordRight,
        TuiEditorCommand::SelectAll,
        TuiEditorCommand::Undo,
        TuiEditorCommand::Redo,
    ]
}

/// The last segment of a command's binding names.
pub open spec fn command_slug(c: TuiEditorCommand) -> Seq<char> {
    match c {
        TuiEditorCommand::Backspace => "backspace"@,
        TuiEditorCommand::DeleteForward => "delete_forward"@,
        TuiEditorCommand::DeleteWordBackward => "delete_word_backward"@,
        TuiEditorCommand::DeleteWordForward => "delete_word_forward"@,
        TuiEditorCommand::MoveLeft => "move_left"@,
        TuiEditorCommand::MoveRight => "move_right"@,
        TuiEditorCommand::MoveWordLeft => "move_word_left"@,
        TuiEditorCommand::MoveWordRight => "move_word_right"@,
        TuiEditorCommand::MoveToLineStart => "move_to_line_start"@,
        TuiEditorCommand::MoveToLineEnd => "move_to_line_end"@,
        TuiEditorCommand::SelectLeft => "select_left"@,
        TuiEditorCommand::SelectRight => "select_right"@,
        TuiEditorCommand::SelectWordLeft => "select_word_left"@,
        TuiEditorCommand::SelectWordRight => "select_word_right"@,
        TuiEditorCommand::SelectAll => "select_all"@,
        TuiEditorCommand::Undo => "undo"@,
        TuiEditorCommand::Redo => "redo"@,
    }
}

/// The user-facing description of a command.
pub open spec fn command_description(c: TuiEditorCommand) -> Seq<char> {
    match c {
        TuiEditorCommand::Backspace => "Delete the previous character"@,
        TuiEditorCommand::DeleteForward => "Delete the next character"@,
        TuiEditorCommand::DeleteWordBackward => "Delete the previous word"@,
        TuiEditorCommand::DeleteWordForward => "Delete the next word"@,
        TuiEditorCommand::MoveLeft => "Move cursor left"@,
        TuiEditorCommand::MoveRight => "Move cursor right"@,
        TuiEditorCommand::MoveWordLeft => "Move cursor one word left"@,
        TuiEditorCommand::MoveWordRight => "Move cursor one word right"@,
        TuiEditorCommand::MoveToLineStart => "Move cursor to start of line"@,
        TuiEditorCommand::MoveToLineEnd => "Move cursor to end of line"@,
        TuiEditorCommand::SelectLeft => "Extend selection left"@,
        TuiEditorCommand::SelectRight => "Extend selection right"@,
        TuiEditorCommand::SelectWordLeft => "Extend selection one word left"@,
        TuiEditorCommand::SelectWordRight => "Extend selection one word right"@,
        TuiEditorCommand::SelectAll => "Select all text"@,
        TuiEditorCommand::Undo => "Undo"@,
        TuiEditorCommand::Redo => "Redo"@,
    }
}

/// The default keys of a command, in registration order.
pub open spec fn command_keys(c: TuiEditorCommand) -> Seq<Seq<char>> {
    match c {
        TuiEditorCommand::Backspace => seq!["backspace"@, "shift-backspace"@, "ctrl-h"@],
        TuiEditorCommand::DeleteForward => seq!["delete"@, "ctrl-d"@],
        TuiEditorCommand::DeleteWordBackward => seq![
            "ctrl-w"@,
            "ctrl-backspace"@,
            "alt-backspace"@,
        ],
        TuiEditorCommand::DeleteWordForward => seq!["alt-d"@, "alt-delete"@, "ctrl-delete"@],
        TuiEditorCommand::MoveLeft => seq!["left"@, "ctrl-b"@],
        TuiEditorCommand::MoveRight => seq!["right"@, "ctrl-f"@],
        TuiEditorCommand::MoveWordLeft => seq!["alt-left"@, "alt-b"@, "ctrl-left"@],
        TuiEditorCommand::MoveWordRight => seq!["alt-right"@, "alt-f"@, "ctrl-right"@],
        TuiEditorCommand::MoveToLineStart => seq!["home"@, "ctrl-a"@],
        TuiEditorCommand::MoveToLineEnd => seq!["end"@, "ctrl-e"@],
        TuiEditorCommand::SelectLeft => seq!["shift-left"@],
        TuiEditorCommand::SelectRight => seq!["shift-right"@],
        TuiEditorCommand::SelectWordLeft => seq!["ctrl-shift-left"@, "alt-shift-left"@],
        TuiEditorCommand::SelectWordRight => seq!["ctrl-shift-right"@, "alt-shift-right"@],
        TuiEditorCommand::SelectAll => seq!["ctrl-shift-A"@],
        TuiEditorCommand::Undo => seq!["ctrl-z"@],
        TuiEditorCommand::Redo => seq!["ctrl-shift-Z"@],
    }
}

/// The name segment that tells the two consumers apart.
pub open spec fn target_segment(t: TuiEditorBindingTarget) -> Seq<char> {
    match t {
        TuiEditorBindingTarget::Input => "input"@,
        TuiEditorBindingTarget::Editor => "editor"@,
    }
}

/// `tui:<target>:<command>`.
pub open spec fn binding_name(t: TuiEditorBindingTarget, c: TuiEditorCommand) -> Seq<char> {
    "tui:"@ + target_segment(t) + ":"@ + command_slug(c)
}

/// One (command, key) pair per binding, commands in table order and each
/// command's keys in order.
pub open spec fn binding_entries(commands: Seq<TuiEditorCommand>) -> Seq<(TuiEditorCommand, Seq<char>)>
    decreases commands.len(),
{
    if commands.len() == 0 {
        Seq::empty()
    } else {
        binding_entries(commands.drop_last()) + command_keys(commands.last()).map_values(
            |k: Seq<char>| (commands.last(), k),
        )
    }
}

/// A registered editable binding: a named, described, remappable key for
/// one editor command, active in the given keymap context.
#[derive(Clone, Debug, PartialEq, Eq)]
pub struct EditableBinding {
    pub name: String,
    pub description: &'static str,
    pub command: TuiEditorCommand,
    pub context: String,
    pub group: &'static str,
    pub key: &'static str,
}

/// `b` is the binding for `entry` registered for `target` in `context`.
pub open spec fn binding_matches(
    b: EditableBinding,
    target: TuiEditorBindingTarget,
    context: Seq<char>,
    entry: (TuiEditorCommand, Seq<char>),
) -> bool {
    &&& b.name@ == binding_name(target, entry.0)
    &&& b.description@ == command_description(entry.0)
    &&& b.command == entry.0
    &&& b.context@ == context
    &&& b.group@ == TUI_BINDING_GROUP@
    &&& b.key@ == entry.1
}

/// `bindings` is exactly the shared table registered for `target` in `context`.
pub open spec fn is_shared_binding_table(
    bindings: Seq<EditableBinding>,
    target: TuiEditorBindingTarget,
    context: Seq<char>,
) -> bool {
    let entries = binding_entries(shared_commands());
    &&& bindings.len() == entries.len()
    &&& forall|i: int|
        0 <= i < bindings.len() ==> binding_matches(
            #[trigger] bindings[i],
            target,
            context,
            entries[i],
        )
}

impl TuiEditorCommand {
    pub fn slug(self) -> (s: &'static str)
        ensures
            s@ == command_slug(self),
    {
        match self {
            TuiEditorCommand::Backspace => "backspace",
            TuiEditorCommand::DeleteForward => "delete_forward",
            TuiEditorCommand::DeleteWordBackward => "delete_word_backward",
            TuiEditorCommand::DeleteWordForward => "delete_word_forward",
            TuiEditorCommand::MoveLeft => "move_left",
            TuiEditorCommand::MoveRight => "move_right",
            TuiEditorCommand::MoveWordLeft => "move_word_left",
            TuiEditorCommand::MoveWordRight => "move_word_right",
            TuiEditorCommand::MoveToLineStart => "move_to_line_start",
            TuiEditorCommand::MoveToLineEnd => "move_to_line_end",
            TuiEditorCommand::SelectLeft => "select_left",
            TuiEditorCommand::SelectRight => "select_right",
            TuiEditorCommand::SelectWordLeft => "select_word_left",
            TuiEditorCommand::SelectWordRight => "select_word_right",
            TuiEditorCommand::SelectAll => "select_all",
            TuiEditorCommand::Undo => "undo",
            TuiEditorCommand::Redo => "redo",
        }
    }

    pub fn description(self) -> (s: &'static str)
        ensures
            s@ == command_description(self),
    {
        match self {
            TuiEditorCommand::Backspace => "Delete the previous character",
            TuiEditorCommand::DeleteForward => "Delete the next character",
            TuiEditorCommand::DeleteWordBackward => "Delete the previous word",
            TuiEditorCommand::DeleteWordForward => "Delete the next word",
            TuiEditorCommand::MoveLeft => "Move cursor left",
            TuiEditorCommand::MoveRight => "Move cursor right",
            TuiEditorCommand::MoveWordLeft => "Move cursor one word left",
            TuiEditorCommand::MoveWordRight => "Move cursor one word right",
            TuiEditorCommand::MoveToLineStart => "Move cursor to start of line",
            TuiEditorCommand::MoveToLineEnd => "Move cursor to end of line",
            TuiEditorCommand::SelectLeft => "Extend selection left",
            TuiEditorCommand::SelectRight => "Extend selection right",
            TuiEditorCommand::SelectWordLeft => "Extend selection one word left",
            TuiEditorCommand::SelectWordRight => "Extend selection one word right",
            TuiEditorCommand::SelectAll => "Select all text",
            TuiEditorCommand::Undo => "Undo",
            TuiEditorCommand::Redo => "Redo",
        }
    }

    /// The default keys of this command.
    pub fn keys(self) -> (keys: Vec<&'static str>)
        ensures
            keys@.len() == command_keys(self).len(),
            forall|i: int| 0 <= i < keys@.len() ==> (#[trigger] keys@[i])@ == command_keys(self)[i],
    {
        let mut v: Vec<&'static str> = Vec::new();
        match self {
            TuiEditorCommand::Backspace => {
                v.push("backspace");
                v.push("shift-backspace");
                v.push("ctrl-h");
            },
            TuiEditorCommand::DeleteForward => {
                v.push("delete");
                v.push("ctrl-d");
            },
            TuiEditorCommand::DeleteWordBackward => {
                v.push("ctrl-w");
                v.push("ctrl-backspace");
                v.push("alt-backspace");
            },
            TuiEditorCommand::DeleteWordForward => {
                v.push("alt-d");
                v.push("alt-delete");
                v.push("ctrl-delete");
            },
            TuiEditorCommand::MoveLeft => {
                v.push("left");
                v.push("ctrl-b");
            },
            TuiEditorCommand::MoveRight => {
                v.push("right");
                v.push("ctrl-f");
            },
            TuiEditorCommand::MoveWordLeft => {
                v.push("alt-left");
                v.push("alt-b");
                v.push("ctrl-left");
            },
            TuiEditorCommand::MoveWordRight => {
                v.push("alt-right");
                v.push("alt-f");
                v.push("ctrl-right");
            },
            TuiEditorCommand::MoveToLineStart => {
                v.push("home");
                v.push("ctrl-a");
            },
            TuiEditorCommand::MoveToLineEnd => {
                v.push("end");
                v.push("ctrl-e");
            },
            TuiEditorCommand::SelectLeft => {
                v.push("shift-left");
            },
            TuiEditorCommand::SelectRight => {
                v.push("shift-right");
            },
            TuiEditorCommand::SelectWordLeft => {
                v.push("ctrl-shift-left");
                v.push("alt-shift-left");
            },
            TuiEditorCommand::SelectWordRight => {
                v.push("ctrl-shift-right");
                v.push("alt-shift-right");
            },
            TuiEditorCommand::SelectAll => {
                v.push("ctrl-shift-A");
            },
            TuiEditorCommand::Undo => {
                v.push("ctrl-z");
            },
            TuiEditorCommand::Redo => {
                v.push("ctrl-shift-Z");
            },
        }
        v
    }
}

impl TuiEditorBindingTarget {
    pub fn segment(self) -> (s: &'static str)
        ensures
            s@ == target_segment(self),
    {
        match self {
            TuiEditorBindingTarget::Input => "input",
            TuiEditorBindingTarget::Editor => "editor",
        }
    }
}

/// The commands of the shared table, in registration order.
pub fn shared_editor_commands() -> (commands: Vec<TuiEditorCommand>)
    ensures
        commands@ == shared_commands(),
{
    let mut v: Vec<TuiEditorCommand> = Vec::new();
    v.push(TuiEditorCommand::Backspace);
    v.push(TuiEditorCommand::DeleteForward);
    v.push(TuiEditorCommand::DeleteWordBackward);
    v.push(TuiEditorCommand::DeleteWordForward);
    v.push(TuiEditorCommand::MoveLeft);
    v.push(TuiEditorCommand::MoveRight);
    v.push(TuiEditorCommand::MoveWordLeft);
    v.push(TuiEditorCommand::MoveWordRight);
    v.push(TuiEditorCommand::MoveToLineStart);
    v.push(TuiEditorCommand::MoveToLineEnd);
    v.push(TuiEditorCommand::SelectLeft);
    v.push(TuiEditorCommand::SelectRight);
    v.push(TuiEditorCommand::SelectWordLeft);
    v.push(TuiEditorCommand::SelectWordRight);
    v.push(TuiEditorCommand::SelectAll);
    v.push(TuiEditorCommand::Undo);
    v.push(TuiEditorCommand::Redo);
    assert(v@ =~= shared_commands());
    v
}

/// The stable name `tui:<target>:<command>`.
pub fn binding_name_for(target: TuiEditorBindingTarget, command: TuiEditorCommand) -> (name:
    String)
    ensures
        name@ == binding_name(target, command),
{
    let mut name = String::from_str("tui:");
    name.append(target.segment());
    name.append(":");
    name.append(command.slug());
    name
}

/// Registers the common editor binding table for one consumer: one binding
/// per (command, key) pair, named for `target`, scoped to `context` and
/// tagged with the TUI group.
pub fn register_shared_editor_bindings(target: TuiEditorBindingTarget, context: &str) -> (bindings:
    Vec<EditableBinding>)
    ensures
        is_shared_binding_table(bindings@, target, context@),
{
    let commands = shared_editor_commands();
    let mut out: Vec<EditableBinding> = Vec::new();
    let mut i: usize = 0;
    while i < commands.len()
        invariant
            commands@ == shared_commands(),
            i <= commands.len(),
            out@.len() == binding_entries(commands@.take(i as int)).len(),
            forall|k: int|
                0 <= k < out@.len() ==> binding_matches(
                    #[trigger] out@[k],
                    target,
                    context@,
                    binding_entries(commands@.take(i as int))[k],
                ),
        decreases commands.len() - i,
    {
        let command = commands[i];
        let keys = command.keys();
        let ghost prefix = binding_entries(commands@.take(i as int));
        let ghost part = command_keys(command).map_values(|k: Seq<char>| (command, k));
        let mut j: usize = 0;
        while j < keys.len()
            invariant
                i < commands.len(),
                command == commands@[i as int],
                keys@.len() == command_keys(command).len(),
                forall|m: int| 0 <= m < keys@.len() ==> (#[trigger] keys@[m])@ == command_keys(command)[m],
                part == command_keys(command).map_values(|k: Seq<char>| (command, k)),
                j <= keys.len(),
                out@.len() == prefix.len() + j,
                forall|k: int|
                    0 <= k < out@.len() ==> binding_matches(
                        #[trigger] out@[k],
                        target,
                        context@,
                        (prefix + part)[k],
                    ),
            decreases keys.len() - j,
        {
            let binding = EditableBinding {
                name: binding_name_for(target, command),
                description: command.description(),
                command,
                context: String::from_str(context),
                group: TUI_BINDING_GROUP,
                key: keys[j],
            };
            out.push(binding);
            j = j + 1;
        }
        proof {
            let next = commands@.take(i + 1);
            assert(next.drop_last() =~= commands@.take(i as int));
            assert(next.last() == command);
            assert(binding_entries(next) == prefix + part);
        }
        i = i + 1;
    }
    assert(commands@.take(commands.len() as int) =~= commands@);
    out
}

/// How a binding is triggered.
#[derive(Clone, Copy, Debug, PartialEq, Eq, Structural)]
pub enum Trigger {
    /// One or more keystrokes.
    Keystrokes,
    /// Palette-only: no key.
    Empty,
    /// A platform-standard action.
    Standard,
    /// A host-defined trigger.
    Custom,
}

/// The identity of a registered binding, as seen by validators.
#[derive(Clone, Copy, Debug)]
pub struct BindingLens<'a> {
    pub name: &'a str,
    pub group: Option<&'a str>,
    pub trigger: Trigger,
}

/// A validator's verdict on a binding.
#[derive(Clone, Copy, Debug, PartialEq, Eq, Structural)]
pub enum IsBindingValid {
    Yes,
    No,
}

/// A `tui:`-prefixed name (editable bindings) or the TUI group (fixed bindings).
pub open spec fn spec_is_tui_owned(name: Seq<char>, group: Option<Seq<char>>) -> bool {
    "tui:"@.is_prefix_of(name) || group == Some(TUI_BINDING_GROUP@)
}

/// Only keystroke bindings can fire from TUI keyboard input; those must be TUI-owned.
pub open spec fn spec_binding_valid(name: Seq<char>, group: Option<Seq<char>>, trigger: Trigger) -> bool {
    trigger != Trigger::Keystrokes || spec_is_tui_owned(name, group)
}

/// The character view of an optional string.
pub open spec fn opt_str_view(s: Option<&str>) -> Option<Seq<char>> {
    match s {
        Some(t) => Some(t@),
        None => None,
    }
}

/// Whether `prefix` is a prefix of `s`, compared character by character.
pub fn has_prefix(s: &str, prefix: &str) -> (b: bool)
    ensures
        b == prefix@.is_prefix_of(s@),
{
    let n = prefix.unicode_len();
    let m = s.unicode_len();
    if n > m {
        return false;
    }
    let mut i: usize = 0;
    while i < n
        invariant
            n == prefix@.len(),
            m == s@.len(),
            n <= m,
            i <= n,
            forall|k: int| 0 <= k < i ==> prefix@[k] == s@[k],
        decreases n - i,
    {
        if prefix.get_char(i) != s.get_char(i) {
            return false;
        }
        i = i + 1;
    }
    assert(prefix@ =~= s@.subrange(0, prefix@.len() as int));
    true
}

/// Whether two strings hold the same characters.
pub fn str_equal(a: &str, b: &str) -> (eq: bool)
    ensures
        eq == (a@ == b@),
{
    if a.unicode_len() != b.unicode_len() {
        return false;
    }
    let r = has_prefix(a, b);
    proof {
        if r {
            assert(a@ =~= b@);
        }
    }
    r
}

/// Whether a binding's identity marks it as TUI-owned: a `tui:`-prefixed
/// name (editable bindings) or the [`TUI_BINDING_GROUP`] group (fixed bindings).
pub fn is_tui_owned(name: &str, group: Option<&str>) -> (owned: bool)
    ensures
        owned == spec_is_tui_owned(name@, opt_str_view(group)),
{
    if has_prefix(name, "tui:") {
        return true;
    }
    match group {
        Some(g) => str_equal(g, TUI_BINDING_GROUP),
        None => false,
    }
}

/// The cross-surface validator: keystroke bindings that can match a TUI view
/// must be TUI-owned; other triggers can never fire from TUI keyboard input
/// and are exempt.
pub fn is_tui_owned_binding(binding: BindingLens) -> (valid: IsBindingValid)
    ensures
        (valid == IsBindingValid::Yes) == spec_binding_valid(
            binding.name@,
            opt_str_view(binding.group),
            binding.trigger,
        ),
{
    match binding.trigger {
        Trigger::Keystrokes => {},
        _ => return IsBindingValid::Yes,
    }
    if is_tui_owned(binding.name, binding.group) {
        IsBindingValid::Yes
    } else {
        IsBindingValid::No
    }
}

/// Every binding of the shared table is TUI-owned, so the validator accepts
/// it whatever its trigger.
pub proof fn lemma_shared_bindings_are_tui_owned(
    bindings: Seq<EditableBinding>,
    target: TuiEditorBindingTarget,
    context: Seq<char>,
    trigger: Trigger,
)
    requires
        is_shared_binding_table(bindings, target, context),
    ensures
        forall|i: int|
            0 <= i < bindings.len() ==> spec_is_tui_owned(
                (#[trigger] bindings[i]).name@,
                Some(bindings[i].group@),
            ) && spec_binding_valid(bindings[i].name@, Some(bindings[i].group@), trigger),
{
    assert forall|i: int| 0 <= i < bindings.len() implies spec_is_tui_owned(
        (#[trigger] bindings[i]).name@,
        Some(bindings[i].group@),
    ) by {
        let e = binding_entries(shared_commands())[i];
        assert(binding_matches(bindings[i], target, context, e));
        let rest = target_segment(target) + ":"@ + command_slug(e.0);
        assert(binding_name(target, e.0) =~= "tui:"@ + rest);
        assert(("tui:"@ + rest).subrange(0, "tui:"@.len() as int) =~= "tui:"@);
    }
}

/// The command input and the single-line editor share one table: for each
/// position they bind the same key to the same command with the same
/// description, and their names differ only in the target segment.
pub proof fn lemma_targets_share_keys(
    input: Seq<EditableBinding>,
    input_context: Seq<char>,
    editor: Seq<EditableBinding>,
    editor_context: Seq<char>,
)
    requires
        is_shared_binding_table(input, TuiEditorBindingTarget::Input, input_context),
        is_shared_binding_table(editor, TuiEditorBindingTarget::Editor, editor_context),
    ensures
        input.len() == editor.len(),
        forall|i: int|
            0 <= i < input.len() ==> {
                &&& (#[trigger] input[i]).key@ == editor[i].key@
                &&& input[i].command == editor[i].command
                &&& input[i].description@ == editor[i].description@
                &&& input[i].name@ == "tui:input:"@ + command_slug(input[i].command)
                &&& editor[i].name@ == "tui:editor:"@ + command_slug(editor[i].command)
            },
{
    assert forall|i: int| 0 <= i < input.len() implies {
        &&& (#[trigger] input[i]).key@ == editor[i].key@
        &&& input[i].command == editor[i].command
        &&& input[i].description@ == editor[i].description@
        &&& input[i].name@ == "tui:input:"@ + command_slug(input[i].command)
        &&& editor[i].name@ == "tui:editor:"@ + command_slug(editor[i].command)
    } by {
        let e = binding_entries(shared_commands())[i];
        assert(binding_matches(input[i], TuiEditorBindingTarget::Input, input_context, e));
        assert(binding_matches(editor[i], TuiEditorBindingTarget::Editor, editor_context, e));
        reveal_strlit("tui:");
        reveal_strlit("input");
        reveal_strlit("editor");
        reveal_strlit(":");
        reveal_strlit("tui:input:");
        reveal_strlit("tui:editor:");
        assert("tui:"@ + "input"@ + ":"@ =~= "tui:input:"@);
        assert("tui:"@ + "editor"@ + ":"@ =~= "tui:editor:"@);
    }
}

/// The key reference of the text fields: which editing command each
/// default key triggers. Arrows move by character, with alt or ctrl by
/// word, and with shift they extend the selection; home/end and the emacs
/// keys (ctrl-a/e/b/f, alt-b/f) move; backspace/delete and their emacs and
/// word variants delete; ctrl-z undoes and ctrl-shift-Z redoes.
pub open spec fn key_command(k: Seq<char>) -> Option<TuiEditorCommand> {
    if k == "left"@ {
        Some(TuiEditorCommand::MoveLeft)
    } else if k == "right"@ {
        Some(TuiEditorCommand::MoveRight)
    } else if k == "shift-left"@ {
        Some(TuiEditorCommand::SelectLeft)
    } else if k == "shift-right"@ {
        Some(TuiEditorCommand::SelectRight)
    } else if k == "alt-left"@ {
        Some(TuiEditorCommand::MoveWordLeft)
    } else if k == "ctrl-left"@ {
        Some(TuiEditorCommand::MoveWordLeft)
    } else if k == "alt-right"@ {
        Some(TuiEditorCommand::MoveWordRight)
    } else if k == "ctrl-right"@ {
        Some(TuiEditorCommand::MoveWordRight)
    } else if k == "ctrl-shift-left"@ {
        Some(TuiEditorCommand::SelectWordLeft)
    } else if k == "alt-shift-left"@ {
        Some(TuiEditorCommand::SelectWordLeft)
    } else if k == "ctrl-shift-right"@ {
        Some(TuiEditorCommand::SelectWordRight)
    } else if k == "alt-shift-right"@ {
        Some(TuiEditorCommand::SelectWordRight)
    } else if k == "home"@ {
        Some(TuiEditorCommand::MoveToLineStart)
    } else if k == "end"@ {
        Some(TuiEditorCommand::MoveToLineEnd)
    } else if k == "ctrl-a"@ {
        Some(TuiEditorCommand::MoveToLineStart)
    } else if k == "ctrl-e"@ {
        Some(TuiEditorCommand::MoveToLineEnd)
    } else if k == "ctrl-b"@ {
        Some(TuiEditorCommand::MoveLeft)
    } else if k == "ctrl-f"@ {
        Some(TuiEditorCommand::MoveRight)
    } else if k == "alt-b"@ {
        Some(TuiEditorCommand::MoveWordLeft)
    } else if k == "alt-f"@ {
        Some(TuiEditorCommand::MoveWordRight)
    } else if k == "backspace"@ {
        Some(TuiEditorCommand::Backspace)
    } else if k == "shift-backspace"@ {
        Some(TuiEditorCommand::Backspace)
    } else if k == "ctrl-h"@ {
        Some(TuiEditorCommand::Backspace)
    } else if k == "ctrl-backspace"@ {
        Some(TuiEditorCommand::DeleteWordBackward)
    } else if k == "alt-backspace"@ {
        Some(TuiEditorCommand::DeleteWordBackward)
    } else if k == "ctrl-w"@ {
        Some(TuiEditorCommand::DeleteWordBackward)
    } else if k == "delete"@ {
        Some(TuiEditorCommand::DeleteForward)
    } else if k == "ctrl-d"@ {
        Some(TuiEditorCommand::DeleteForward)
    } else if k == "alt-delete"@ {
        Some(TuiEditorCommand::DeleteWordForward)
    } else if k == "ctrl-delete"@ {
        Some(TuiEditorCommand::DeleteWordForward)
    } else if k == "alt-d"@ {
        Some(TuiEditorCommand::DeleteWordForward)
    } else if k == "ctrl-shift-A"@ {
        Some(TuiEditorCommand::SelectAll)
    } else if k == "ctrl-z"@ {
        Some(TuiEditorCommand::Undo)
    } else if k == "ctrl-shift-Z"@ {
        Some(TuiEditorCommand::Redo)
    } else {
        None
    }
}

/// Lengths and end characters of the default keys: enough to tell any two apart.
proof fn lemma_key_literals()
    ensures
        "left"@.len() == 4 && "left"@[0] == 'l' && "left"@[3] == 't',
        "right"@.len() == 5 && "right"@[0] == 'r' && "right"@[4] == 't',
        "shift-left"@.len() == 10 && "shift-left"@[0] == 's' && "shift-left"@[9] == 't',
        "shift-right"@.len() == 11 && "shift-right"@[0] == 's' && "shift-right"@[10] == 't',
        "alt-left"@.len() == 8 && "alt-left"@[0] == 'a' && "alt-left"@[7] == 't',
        "ctrl-left"@.len() == 9 && "ctrl-left"@[0] == 'c' && "ctrl-left"@[8] == 't',
        "alt-right"@.len() == 9 && "alt-right"@[0] == 'a' && "alt-right"@[8] == 't',
        "ctrl-right"@.len() == 10 && "ctrl-right"@[0] == 'c' && "ctrl-right"@[9] == 't',
        "ctrl-shift-left"@.len() == 15 && "ctrl-shift-left"@[0] == 'c' && "ctrl-shift-left"@[14] == 't',
        "alt-shift-left"@.len() == 14 && "alt-shift-left"@[0] == 'a' && "alt-shift-left"@[13] == 't',
        "ctrl-shift-right"@.len() == 16 && "ctrl-shift-right"@[0] == 'c' && "ctrl-shift-right"@[15] == 't',
        "alt-shift-right"@.len() == 15 && "alt-shift-right"@[0] == 'a' && "alt-shift-right"@[14] == 't',
        "home"@.len() == 4 && "home"@[0] == 'h' && "home"@[3] == 'e',
        "end"@.len() == 3 && "end"@[0] == 'e' && "end"@[2] == 'd',
        "ctrl-a"@.len() == 6 && "ctrl-a"@[0] == 'c' && "ctrl-a"@[5] == 'a',
        "ctrl-e"@.len() == 6 && "ctrl-e"@[0] == 'c' && "ctrl-e"@[5] == 'e',
        "ctrl-b"@.len() == 6 && "ctrl-b"@[0] == 'c' && "ctrl-b"@[5] == 'b',
        "ctrl-f"@.len() == 6 && "ctrl-f"@[0] == 'c' && "ctrl-f"@[5] == 'f',
        "alt-b"@.len() == 5 && "alt-b"@[0] == 'a' && "alt-b"@[4] == 'b',
        "alt-f"@.len() == 5 && "alt-f"@[0] == 'a' && "alt-f"@[4] == 'f',
        "backspace"@.len() == 9 && "backspace"@[0] == 'b' && "backspace"@[8] == 'e',
        "shift-backspace"@.len() == 15 && "shift-backspace"@[0] == 's' && "shift-backspace"@[14] == 'e',
        "ctrl-h"@.len() == 6 && "ctrl-h"@[0] == 'c' && "ctrl-h"@[5] == 'h',
        "ctrl-backspace"@.len() == 14 && "ctrl-backspace"@[0] == 'c' && "ctrl-backspace"@[13] == 'e',
        "alt-backspace"@.len() == 13 && "alt-backspace"@[0] == 'a' && "alt-backspace"@[12] == 'e',
        "ctrl-w"@.len() == 6 && "ctrl-w"@[0] == 'c' && "ctrl-w"@[5] == 'w',
        "delete"@.len() == 6 && "delete"@[0] == 'd' && "delete"@[5] == 'e',
        "ctrl-d"@.len() == 6 && "ctrl-d"@[0] == 'c' && "ctrl-d"@[5] == 'd',
        "alt-delete"@.len() == 10 && "alt-delete"@[0] == 'a' && "alt-delete"@[9] == 'e',
        "ctrl-delete"@.len() == 11 && "ctrl-delete"@[0] == 'c' && "ctrl-delete"@[10] == 'e',
        "alt-d"@.len() == 5 && "alt-d"@[0] == 'a' && "alt-d"@[4] == 'd',
        "ctrl-shift-A"@.len() == 12 && "ctrl-shift-A"@[0] == 'c' && "ctrl-shift-A"@[11] == 'A',
        "ctrl-z"@.len() == 6 && "ctrl-z"@[0] == 'c' && "ctrl-z"@[5] == 'z',
        "ctrl-shift-Z"@.len() == 12 && "ctrl-shift-Z"@[0] == 'c' && "ctrl-shift-Z"@[11] == 'Z',
{
    reveal_strlit("left");
    reveal_strlit("right");
    reveal_strlit("shift-left");
    reveal_strlit("shift-right");
    reveal_strlit("alt-left");
    reveal_strlit("ctrl-left");
    reveal_strlit("alt-right");
    reveal_strlit("ctrl-right");
    reveal_strlit("ctrl-shift-left");
    reveal_strlit("alt-shift-left");
    reveal_strlit("ctrl-shift-right");
    reveal_strlit("alt-shift-right");
    reveal_strlit("home");
    reveal_strlit("end");
    reveal_strlit("ctrl-a");
    reveal_strlit("ctrl-e");
    reveal_strlit("ctrl-b");
    reveal_strlit("ctrl-f");
    reveal_strlit("alt-b");
    reveal_strlit("alt-f");
    reveal_strlit("backspace");
    reveal_strlit("shift-backspace");
    reveal_strlit("ctrl-h");
    reveal_strlit("ctrl-backspace");
    reveal_strlit("alt-backspace");
    reveal_strlit("ctrl-w");
    reveal_strlit("delete");
    reveal_strlit("ctrl-d");
    reveal_strlit("alt-delete");
    reveal_strlit("ctrl-delete");
    reveal_strlit("alt-d");
    reveal_strlit("ctrl-shift-A");
    reveal_strlit("ctrl-z");
    reveal_strlit("ctrl-shift-Z");
}

/// Every default key of a command triggers that very command in the key
/// reference.
pub proof fn lemma_default_keys_trigger_their_command(c: TuiEditorCommand)
    ensures
        forall|j: int|
            0 <= j < command_keys(c).len() ==> key_command(#[trigger] command_keys(c)[j]) == Some(c),
{
    lemma_key_literals();
}

/// `entry`'s key is one of its command's default keys.
pub open spec fn uses_default_key(entry: (TuiEditorCommand, Seq<char>)) -> bool {
    exists|j: int| 0 <= j < command_keys(entry.0).len() && entry.1 == command_keys(entry.0)[j]
}

proof fn lemma_entries_use_default_keys(commands: Seq<TuiEditorCommand>)
    ensures
        forall|i: int|
            0 <= i < binding_entries(commands).len() ==> uses_default_key(
                #[trigger] binding_entries(commands)[i],
            ),
    decreases commands.len(),
{
    if commands.len() > 0 {
        lemma_entries_use_default_keys(commands.drop_last());
        let prefix = binding_entries(commands.drop_last());
        let c = commands.last();
        let part = command_keys(c).map_values(|k: Seq<char>| (c, k));
        assert(binding_entries(commands) == prefix + part);
        assert forall|i: int| 0 <= i < binding_entries(commands).len() implies uses_default_key(
            #[trigger] binding_entries(commands)[i],
        ) by {
            if i < prefix.len() {
                assert(binding_entries(commands)[i] == prefix[i]);
            } else {
                let j = i - prefix.len();
                assert(binding_entries(commands)[i] == part[j]);
                assert(part[j] == (c, command_keys(c)[j]));
                assert(0 <= j < command_keys(part[j].0).len() && part[j].1 == command_keys(
                    part[j].0,
                )[j]);
            }
        }
    }
}

/// Each registered binding triggers the command the key reference gives for
/// its key; so no key is bound to two different commands, and for instance
/// `left` always moves the cursor left and `right` right.
pub proof fn lemma_bindings_follow_key_reference(
    bindings: Seq<EditableBinding>,
    target: TuiEditorBindingTarget,
    context: Seq<char>,
)
    requires
        is_shared_binding_table(bindings, target, context),
    ensures
        forall|i: int|
            0 <= i < bindings.len() ==> key_command((#[trigger] bindings[i]).key@) == Some(
                bindings[i].command,
            ),
        forall|i: int, j: int|
            0 <= i < bindings.len() && 0 <= j < bindings.len() && (#[trigger] bindings[i]).key@
                == (#[trigger] bindings[j]).key@ ==> bindings[i].command == bindings[j].command,
{
    lemma_entries_use_default_keys(shared_commands());
    assert forall|i: int| 0 <= i < bindings.len() implies key_command(
        (#[trigger] bindings[i]).key@,
    ) == Some(bindings[i].command) by {
        let e = binding_entries(shared_commands())[i];
        assert(binding_matches(bindings[i], target, context, e));
        assert(uses_default_key(e));
        let j = choose|j: int| 0 <= j < command_keys(e.0).len() && e.1 == command_keys(e.0)[j];
        lemma_default_keys_trigger_their_command(e.0);
        assert(key_command(command_keys(e.0)[j]) == Some(e.0));
    }
}

/// Conversely, every key of the reference is one of its command's default
/// keys, so the shared table registers all of them.
pub proof fn lemma_reference_keys_are_default_keys(k: Seq<char>)
    ensures
        key_command(k) matches Some(c) ==> command_keys(c).contains(k),
{
    if let Some(c) = key_command(k) {
        lemma_key_literals();
        let ks = command_keys(c);
        if ks.len() > 0 && k == ks[0] {
            assert(ks.contains(k));
        } else if ks.len() > 1 && k == ks[1] {
            assert(ks.contains(k));
        } else if ks.len() > 2 && k == ks[2] {
            assert(ks.contains(k));
        }
    }
}

} // verus!
