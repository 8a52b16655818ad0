//! The menu data model: commands, submenus, and the static menu definition.
//!
//! A command binds a stable string id to an abstract action, with a display
//! label and an optional keyboard accelerator.  A submenu is an ordered
//! sequence of entries: commands, separators, and actions built into the
//! host framework.  The whole hierarchy is declared once, at startup, by
//! `standard_menus`.

use crate::accel::valid_accelerator;
use vstd::prelude::*;

verus! {

/// The abstract action a command dispatches to; consumed by the rest of the
/// application.
#[derive(Clone, Copy, Debug, PartialEq, Eq)]
pub enum Action {
    NewCharacter,
    Save,
    Load,
    Reload,
}

/// A menu entry whose behavior is supplied entirely by the host framework,
/// with no custom id or handler.
#[derive(Clone, Copy, Debug, PartialEq, Eq)]
pub enum BuiltinAction {
    Undo,
    Redo,
    Cut,
    CopySelection,
    Paste,
    SelectAll,
    Quit,
    Fullscreen,
}

/// A named, dispatchable user action exposed through the menu.
#[derive(Clone, Debug, PartialEq, Eq)]
pub struct Command {
    /// Unique, stable id, used for dispatch.
    pub id: String,
    /// Display text.
    pub label: String,
    /// Optional keyboard accelerator, still platform-neutral.
    pub accelerator: Option<String>,
    /// The abstract action the command stands for.
    pub action: Action,
}

/// One entry of a submenu, in declaration order.
#[derive(Clone, Debug, PartialEq, Eq)]
pub enum Entry {
    Command(Command),
    Separator,
    Builtin(BuiltinAction),
}

/// A titled, ordered sequence of entries.
#[derive(Clone, Debug, PartialEq, Eq)]
pub struct Submenu {
    pub title: String,
    pub entries: Vec<Entry>,
}

/// The mathematical value of a `Command`.
#[verifier::ext_equal]
pub struct CommandModel {
    pub id: Seq<char>,
    pub label: Seq<char>,
    pub accelerator: Option<Seq<char>>,
    pub action: Action,
}

/// The mathematical value of an `Entry`.
#[verifier::ext_equal]
pub enum EntryModel {
    Command(CommandModel),
    Separator,
    Builtin(BuiltinAction),
}

/// The mathematical value of a `Submenu`.
#[verifier::ext_equal]
pub struct SubmenuModel {
    pub title: Seq<char>,
    pub entries: Seq<EntryModel>,
}

impl View for Command {
    type V = CommandModel;

    open spec fn view(&self) -> CommandModel {
        CommandModel {
            id: self.id@,
            label: self.label@,
            accelerator: match self.accelerator {
                Some(a) => Some(a@),
                None => None,
            },
            action: self.action,
        }
    }
}

impl View for Entry {
    type V = EntryModel;

    open spec fn view(&self) -> EntryModel {
        match self {
            Entry::Command(c) => EntryModel::Command(c@),
            Entry::Separator => EntryModel::Separator,
            Entry::Builtin(b) => EntryModel::Builtin(*b),
        }
    }
}

impl View for Submenu {
    type V = SubmenuModel;

    open spec fn view(&self) -> SubmenuModel {
        SubmenuModel { title: self.title@, entries: self.entries@.map_values(|e: Entry| e@) }
    }
}

/// The view of a whole menu bar: each submenu's model, in order.
pub open spec fn menus_view(ms: Seq<Submenu>) -> Seq<SubmenuModel> {
    ms.map_values(|m: Submenu| m@)
}

/// Is position `(i, j)` a command entry of the hierarchy?
pub open spec fn cmd_at(ms: Seq<SubmenuModel>, i: int, j: int) -> bool {
    &&& 0 <= i < ms.len()
    &&& 0 <= j < ms[i].entries.len()
    &&& ms[i].entries[j] is Command
}

/// The command at position `(i, j)`.
pub open spec fn cmd(ms: Seq<SubmenuModel>, i: int, j: int) -> CommandModel
    recommends
        cmd_at(ms, i, j),
{
    ms[i].entries[j]->Command_0
}

/// No two distinct command entries share an id.
pub open spec fn unique_ids(ms: Seq<SubmenuModel>) -> bool {
    forall|i1: int, j1: int, i2: int, j2: int|
        cmd_at(ms, i1, j1) && cmd_at(ms, i2, j2) && #[trigger] cmd(ms, i1, j1).id == #[trigger] cmd(
            ms,
            i2,
            j2,
        ).id ==> i1 == i2 && j1 == j2
}

/// Every accelerator carried by a command of the hierarchy is well formed.
pub open spec fn accels_valid(ms: Seq<SubmenuModel>) -> bool {
    forall|i: int, j: int|
        #[trigger] cmd_at(ms, i, j) ==> (cmd(ms, i, j).accelerator matches Some(a)
            ==> valid_accelerator(a))
}

/// Some command of the hierarchy carries this id.
pub open spec fn has_command(ms: Seq<SubmenuModel>, id: Seq<char>) -> bool {
    exists|i: int, j: int| #[trigger] cmd_at(ms, i, j) && cmd(ms, i, j).id == id
}

/// Some command of the hierarchy carries this id and this action.
pub open spec fn has_command_action(ms: Seq<SubmenuModel>, id: Seq<char>, a: Action) -> bool {
    exists|i: int, j: int|
        #[trigger] cmd_at(ms, i, j) && cmd(ms, i, j).id == id && cmd(ms, i, j).action == a
}

/// The File submenu: three commands, a separator, and the built-in quit.
pub open spec fn file_menu() -> SubmenuModel {
    SubmenuModel {
        title: "File"@,
        entries: seq![
            EntryModel::Command(
                CommandModel {
                    id: "new"@,
                    label: "New Character"@,
                    accelerator: Some("CmdOrCtrl+N"@),
                    action: Action::NewCharacter,
                },
            ),
            EntryModel::Command(
                CommandModel {
                    id: "save"@,
                    label: "Save"@,
                    accelerator: Some("CmdOrCtrl+S"@),
                    action: Action::Save,
                },
            ),
            EntryModel::Command(
                CommandModel {
                    id: "load"@,
                    label: "Load"@,
                    accelerator: Some("CmdOrCtrl+O"@),
                    action: Action::Load,
                },
            ),
            EntryModel::Separator,
            EntryModel::Builtin(BuiltinAction::Quit),
        ],
    }
}

/// The Edit submenu: built-in editing actions only.
pub open spec fn edit_menu() -> SubmenuModel {
    SubmenuModel {
        title: "Edit"@,
        entries: seq![
            EntryModel::Builtin(BuiltinAction::Undo),
            EntryModel::Builtin(BuiltinAction::Redo),
            EntryModel::Separator,
            EntryModel::Builtin(BuiltinAction::Cut),
            EntryModel::Builtin(BuiltinAction::CopySelection),
            EntryModel::Builtin(BuiltinAction::Paste),
            EntryModel::Builtin(BuiltinAction::SelectAll),
        ],
    }
}

/// The View submenu: the reload command, a separator, and the built-in
/// fullscreen toggle.
pub open spec fn view_menu() -> SubmenuModel {
    SubmenuModel {
        title: "View"@,
        entries: seq![
            EntryModel::Command(
                CommandModel {
                    id: "reload"@,
                    label: "Reload"@,
                    accelerator: Some("CmdOrCtrl+R"@),
                    action: Action::Reload,
                },
            ),
            EntryModel::Separator,
            EntryModel::Builtin(BuiltinAction::Fullscreen),
        ],
    }
}

/// The static menu definition: File, Edit, View, in that order.
pub open spec fn standard_menus() -> Seq<SubmenuModel> {
    seq![file_menu(), edit_menu(), view_menu()]
}

/// An accelerator of the form `CmdOrCtrl+` followed by one key character
/// other than `+` is well formed.
proof fn lemma_cmdorctrl_accel_valid(s: Seq<char>, k: char)
    requires
        s == "CmdOrCtrl+"@.push(k),
        k != '+',
    ensures
        valid_accelerator(s),
{
    reveal_strlit("CmdOrCtrl+");
    assert(s.len() == 11);
    assert(s[0] == 'C');
    assert(s[10] == k);
    assert forall|i: int| 0 < i < s.len() implies !(#[trigger] s[i] == '+' && s[i - 1] == '+') by {
        if s[i] == '+' {
            assert(s[1] == 'm' && s[2] == 'd' && s[3] == 'O' && s[4] == 'r' && s[5] == 'C' && s[6]
                == 't' && s[7] == 'r' && s[8] == 'l' && s[9] == '+' && s[10] == k);
            assert(i == 9);
            assert(s[8] == 'l');
        }
    }
}

/// Every accelerator of the static menu definition is well formed.
pub proof fn lemma_standard_accels_valid()
    ensures
        accels_valid(standard_menus()),
{
    let ms = standard_menus();
    reveal_strlit("CmdOrCtrl+");
    reveal_strlit("CmdOrCtrl+N");
    reveal_strlit("CmdOrCtrl+S");
    reveal_strlit("CmdOrCtrl+O");
    reveal_strlit("CmdOrCtrl+R");
    assert("CmdOrCtrl+N"@ =~= "CmdOrCtrl+"@.push('N'));
    assert("CmdOrCtrl+S"@ =~= "CmdOrCtrl+"@.push('S'));
    assert("CmdOrCtrl+O"@ =~= "CmdOrCtrl+"@.push('O'));
    assert("CmdOrCtrl+R"@ =~= "CmdOrCtrl+"@.push('R'));
    lemma_cmdorctrl_accel_valid("CmdOrCtrl+N"@, 'N');
    lemma_cmdorctrl_accel_valid("CmdOrCtrl+S"@, 'S');
    lemma_cmdorctrl_accel_valid("CmdOrCtrl+O"@, 'O');
    lemma_cmdorctrl_accel_valid("CmdOrCtrl+R"@, 'R');
    assert forall|i: int, j: int| #[trigger] cmd_at(ms, i, j) implies (cmd(
        ms,
        i,
        j,
    ).accelerator matches Some(a) ==> valid_accelerator(a)) by {
        assert(ms.len() == 3);
        assert(ms[0].entries.len() == 5);
        assert(ms[1].entries.len() == 7);
        assert(ms[2].entries.len() == 3);
    }
}

/// The four command ids of the static menu definition are pairwise distinct
/// sequences.
proof fn lemma_standard_ids_distinct()
    ensures
        "new"@ != "save"@,
        "new"@ != "load"@,
        "new"@ != "reload"@,
        "save"@ != "load"@,
        "save"@ != "reload"@,
        "load"@ != "reload"@,
{
    reveal_strlit("new");
    reveal_strlit("save");
    reveal_strlit("load");
    reveal_strlit("reload");
    assert("new"@.len() == 3 && "save"@.len() == 4 && "load"@.len() == 4 && "reload"@.len() == 6);
    assert("save"@[0] == 's' && "load"@[0] == 'l');
}

/// The command ids `new`, `save`, `load` and `reload` are each present
/// exactly once across the whole static menu definition: each occurs, no two
/// commands share an id, and no other id occurs.
pub proof fn lemma_command_ids_unique()
    ensures
        unique_ids(standard_menus()),
        has_command(standard_menus(), "new"@),
        has_command(standard_menus(), "save"@),
        has_command(standard_menus(), "load"@),
        has_command(standard_menus(), "reload"@),
        forall|id: Seq<char>|
            #[trigger] has_command(standard_menus(), id) ==> (id == "new"@ || id == "save"@ || id
                == "load"@ || id == "reload"@),
{
    let ms = standard_menus();
    lemma_standard_ids_distinct();
    assert(cmd_at(ms, 0, 0) && cmd(ms, 0, 0).id == "new"@);
    assert(cmd_at(ms, 0, 1) && cmd(ms, 0, 1).id == "save"@);
    assert(cmd_at(ms, 0, 2) && cmd(ms, 0, 2).id == "load"@);
    assert(cmd_at(ms, 2, 0) && cmd(ms, 2, 0).id == "reload"@);
    assert forall|i1: int, j1: int, i2: int, j2: int|
        cmd_at(ms, i1, j1) && cmd_at(ms, i2, j2) && #[trigger] cmd(ms, i1, j1).id
            == #[trigger] cmd(ms, i2, j2).id implies i1 == i2 && j1 == j2 by {
        assert(ms.len() == 3);
        assert(ms[0].entries.len() == 5);
        assert(ms[1].entries.len() == 7);
        assert(ms[2].entries.len() == 3);
    }
    assert forall|id: Seq<char>| #[trigger] has_command(ms, id) implies (id == "new"@ || id
        == "save"@ || id == "load"@ || id == "reload"@) by {
        let (i, j) = choose|i: int, j: int| #[trigger] cmd_at(ms, i, j) && cmd(ms, i, j).id == id;
        assert(ms.len() == 3);
        assert(ms[0].entries.len() == 5);
        assert(ms[1].entries.len() == 7);
        assert(ms[2].entries.len() == 3);
    }
}

/// Each command id of the static menu definition dispatches to its declared
/// action.
pub proof fn lemma_dispatch_table()
    ensures
        has_command_action(standard_menus(), "new"@, Action::NewCharacter),
        has_command_action(standard_menus(), "save"@, Action::Save),
        has_command_action(standard_menus(), "load"@, Action::Load),
        has_command_action(standard_menus(), "reload"@, Action::Reload),
{
    let ms = standard_menus();
    assert(cmd_at(ms, 0, 0) && cmd(ms, 0, 0).id == "new"@ && cmd(ms, 0, 0).action
        == Action::NewCharacter);
    assert(cmd_at(ms, 0, 1) && cmd(ms, 0, 1).id == "save"@ && cmd(ms, 0, 1).action == Action::Save);
    assert(cmd_at(ms, 0, 2) && cmd(ms, 0, 2).id == "load"@ && cmd(ms, 0, 2).action == Action::Load);
    assert(cmd_at(ms, 2, 0) && cmd(ms, 2, 0).id == "reload"@ && cmd(ms, 2, 0).action
        == Action::Reload);
}

/// In a hierarchy with unique ids, an id determines the action: two commands
/// that carry the same id are the same command.
pub proof fn lemma_id_determines_action(ms: Seq<SubmenuModel>, id: Seq<char>, a1: Action, a2: Action)
    requires
        unique_ids(ms),
        has_command_action(ms, id, a1),
        has_command_action(ms, id, a2),
    ensures
        a1 == a2,
{
    let (i1, j1) = choose|i: int, j: int|
        #[trigger] cmd_at(ms, i, j) && cmd(ms, i, j).id == id && cmd(ms, i, j).action == a1;
    let (i2, j2) = choose|i: int, j: int|
        #[trigger] cmd_at(ms, i, j) && cmd(ms, i, j).id == id && cmd(ms, i, j).action == a2;
    assert(cmd(ms, i1, j1).id == cmd(ms, i2, j2).id);
}

/// The shape of the static menu definition: three submenus, File with five
/// entries (three commands, a separator, the built-in quit), Edit with seven
/// built-in entries, View with three entries, in the declared order.
pub proof fn lemma_menu_shape()
    ensures
        standard_menus().len() == 3,
        standard_menus()[0].title == "File"@,
        standard_menus()[0].entries.len() == 5,
        standard_menus()[0].entries[0] is Command,
        standard_menus()[0].entries[1] is Command,
        standard_menus()[0].entries[2] is Command,
        standard_menus()[0].entries[3] == EntryModel::Separator,
        standard_menus()[0].entries[4] == EntryModel::Builtin(BuiltinAction::Quit),
        standard_menus()[1].title == "Edit"@,
        standard_menus()[1].entries.len() == 7,
        standard_menus()[1].entries[0] == EntryModel::Builtin(BuiltinAction::Undo),
        standard_menus()[1].entries[1] == EntryModel::Builtin(BuiltinAction::Redo),
        standard_menus()[1].entries[2] == EntryModel::Separator,
        standard_menus()[1].entries[3] == EntryModel::Builtin(BuiltinAction::Cut),
        standard_menus()[1].entries[4] == EntryModel::Builtin(BuiltinAction::CopySelection),
        standard_menus()[1].entries[5] == EntryModel::Builtin(BuiltinAction::Paste),
        standard_menus()[1].entries[6] == EntryModel::Builtin(BuiltinAction::SelectAll),
        standard_menus()[2].title == "View"@,
        standard_menus()[2].entries.len() == 3,
        standard_menus()[2].entries[0] is Command,
        standard_menus()[2].entries[1] == EntryModel::Separator,
        standard_menus()[2].entries[2] == EntryModel::Builtin(BuiltinAction::Fullscreen),
{
}

} // verus!
