//! The menu registry: validated construction and command dispatch.
//!
//! A registry is an immutable, ordered command hierarchy.  Construction
//! validates that no two commands share an id and that every accelerator
//! string is well formed; on any violation the whole build is refused and no
//! partial registry exists.  Dispatch is a pure lookup from a command id to
//! its abstract action.

use crate::accel::accelerator_ok;
use crate::accel::valid_accelerator;
use crate::menu::accels_valid;
use crate::menu::cmd;
use crate::menu::cmd_at;
use crate::menu::has_command;
use crate::menu::has_command_action;
use crate::menu::menus_view;
use crate::menu::standard_menus;
use crate::menu::unique_ids;
use crate::menu::Action;
use crate::menu::BuiltinAction;
use crate::menu::Command;
use crate::menu::Entry;
use crate::menu::Submenu;
use crate::menu::SubmenuModel;
use vstd::prelude::*;

verus! {

/// Why a menu hierarchy was refused at construction.
#[derive(Clone, Copy, Debug, PartialEq, Eq)]
pub enum MenuBuildError {
    /// Two commands share an id.
    DuplicateId,
    /// A command carries a malformed accelerator string.
    InvalidAccelerator,
}

/// Why a dispatch failed.
#[derive(Clone, Copy, Debug, PartialEq, Eq)]
pub enum DispatchError {
    /// The id names no command of the registry.
    UnknownCommand,
}

/// An immutable, ordered hierarchy of submenus with unique command ids and
/// well-formed accelerators.
#[derive(Clone, Debug, PartialEq, Eq)]
pub struct MenuRegistry {
    submenus: Vec<Submenu>,
}

impl View for MenuRegistry {
    type V = Seq<SubmenuModel>;

    closed spec fn view(&self) -> Seq<SubmenuModel> {
        menus_view(self.submenus@)
    }
}

/// Position `p` is visited strictly before position `q` when submenus are
/// walked in order and each submenu's entries in order.
spec fn before(p: (int, int), q: (int, int)) -> bool {
    p.0 < q.0 || (p.0 == q.0 && p.1 < q.1)
}

/// Is some element of `v` view-equal to `s`?
fn contains_string(v: &Vec<String>, s: &String) -> (b: bool)
    ensures
        b == exists|k: int| 0 <= k < v@.len() && #[trigger] v@[k]@ == s@,
{
    let n = v.len();
    let mut i: usize = 0;
    while i < n
        invariant
            i <= n,
            n == v@.len(),
            forall|k: int| 0 <= k < i ==> #[trigger] v@[k]@ != s@,
        decreases n - i,
    {
        if v[i] == *s {
            return true;
        }
        i = i + 1;
    }
    false
}

/// Does every command of the hierarchy carry a well-formed accelerator (or
/// none)?
fn accels_ok(submenus: &Vec<Submenu>) -> (b: bool)
    ensures
        b == accels_valid(menus_view(submenus@)),
{
    let ghost v = menus_view(submenus@);
    let n = submenus.len();
    let mut i: usize = 0;
    while i < n
        invariant
            i <= n,
            n == submenus@.len(),
            v == menus_view(submenus@),
            forall|i2: int, j2: int|
                #[trigger] cmd_at(v, i2, j2) && i2 < i ==> (cmd(v, i2, j2).accelerator matches Some(
                    a,
                ) ==> valid_accelerator(a)),
        decreases n - i,
    {
        let sm = &submenus[i];
        let m = sm.entries.len();
        let mut j: usize = 0;
        while j < m
            invariant
                i < n,
                j <= m,
                n == submenus@.len(),
                v == menus_view(submenus@),
                sm == &submenus@[i as int],
                m == sm.entries@.len(),
                forall|i2: int, j2: int|
                    #[trigger] cmd_at(v, i2, j2) && i2 < i ==> (cmd(
                        v,
                        i2,
                        j2,
                    ).accelerator matches Some(a) ==> valid_accelerator(a)),
                forall|j2: int|
                    #[trigger] cmd_at(v, i as int, j2) && j2 < j ==> (cmd(
                        v,
                        i as int,
                        j2,
                    ).accelerator matches Some(a) ==> valid_accelerator(a)),
            decreases m - j,
        {
            proof {
                assert(v[i as int] == sm@);
                assert(v[i as int].entries[j as int] == sm.entries@[j as int]@);
            }
            match &sm.entries[j] {
                Entry::Command(c) => {
                    match &c.accelerator {
                        Some(a) => {
                            if !accelerator_ok(a.as_str()) {
                                proof {
                                    assert(cmd_at(v, i as int, j as int));
                                    assert(cmd(v, i as int, j as int).accelerator == Some(a@));
                                }
                                return false;
                            }
                        },
                        None => {},
                    }
                },
                _ => {},
            }
            j = j + 1;
        }
        i = i + 1;
    }
    true
}

/// Does no pair of distinct commands of the hierarchy share an id?
fn ids_unique(submenus: &Vec<Submenu>) -> (b: bool)
    ensures
        b == unique_ids(menus_view(submenus@)),
{
    let ghost v = menus_view(submenus@);
    let mut seen: Vec<String> = Vec::new();
    let ghost mut pos: Seq<(int, int)> = Seq::empty();
    let n = submenus.len();
    let mut i: usize = 0;
    while i < n
        invariant
            i <= n,
            n == submenus@.len(),
            v == menus_view(submenus@),
            seen@.len() == pos.len(),
            forall|k: int|
                0 <= k < pos.len() ==> cmd_at(v, (#[trigger] pos[k]).0, pos[k].1) && cmd(
                    v,
                    pos[k].0,
                    pos[k].1,
                ).id == seen@[k]@ && before(pos[k], (i as int, 0)),
            forall|a: int, b: int|
                #[trigger] cmd_at(v, a, b) && before((a, b), (i as int, 0)) ==> exists|k: int|
                    0 <= k < pos.len() && #[trigger] pos[k] == (a, b),
            forall|k1: int, k2: int|
                0 <= k1 < k2 < pos.len() ==> #[trigger] seen@[k1]@ != #[trigger] seen@[k2]@,
        decreases n - i,
    {
        let sm = &submenus[i];
        let m = sm.entries.len();
        let mut j: usize = 0;
        while j < m
            invariant
                i < n,
                j <= m,
                n == submenus@.len(),
                v == menus_view(submenus@),
                sm == &submenus@[i as int],
                m == sm.entries@.len(),
                seen@.len() == pos.len(),
                forall|k: int|
                    0 <= k < pos.len() ==> cmd_at(v, (#[trigger] pos[k]).0, pos[k].1) && cmd(
                        v,
                        pos[k].0,
                        pos[k].1,
                    ).id == seen@[k]@ && before(pos[k], (i as int, j as int)),
                forall|a: int, b: int|
                    #[trigger] cmd_at(v, a, b) && before((a, b), (i as int, j as int)) ==> exists|
                        k: int,
                    |
                        0 <= k < pos.len() && #[trigger] pos[k] == (a, b),
                forall|k1: int, k2: int|
                    0 <= k1 < k2 < pos.len() ==> #[trigger] seen@[k1]@ != #[trigger] seen@[k2]@,
            decreases m - j,
        {
            let ghost pos0 = pos;
            proof {
                assert(v[i as int] == sm@);
                assert(v[i as int].entries[j as int] == sm.entries@[j as int]@);
            }
            match &sm.entries[j] {
                Entry::Command(c) => {
                    proof {
                        assert(cmd_at(v, i as int, j as int));
                        assert(cmd(v, i as int, j as int).id == c.id@);
                    }
                    if contains_string(&seen, &c.id) {
                        proof {
                            let k = choose|k: int| 0 <= k < seen@.len() && #[trigger] seen@[k]@
                                == c.id@;
                            let p = pos[k];
                            assert(cmd_at(v, p.0, p.1));
                            assert(cmd(v, p.0, p.1).id == cmd(v, i as int, j as int).id);
                            assert(before(p, (i as int, j as int)));
                            assert(!(p.0 == i as int && p.1 == j as int));
                            assert(!unique_ids(v));
                        }
                        return false;
                    }
                    seen.push(c.id.clone());
                    proof {
                        pos = pos.push((i as int, j as int));
                        assert(pos[pos.len() - 1] == (i as int, j as int));
                    }
                },
                _ => {
                    proof {
                        assert(!cmd_at(v, i as int, j as int));
                    }
                },
            }
            j = j + 1;
            proof {
                assert forall|a: int, b: int|
                    #[trigger] cmd_at(v, a, b) && before((a, b), (i as int, j as int))
                    implies exists|k: int| 0 <= k < pos.len() && #[trigger] pos[k] == (a, b) by {
                    if before((a, b), (i as int, j as int - 1)) {
                        let k0 = choose|k: int| 0 <= k < pos0.len() && #[trigger] pos0[k] == (
                        a,
                        b,
                        );
                        assert(pos[k0] == (a, b));
                    } else {
                        assert(a == i as int && b == j as int - 1);
                        assert(pos[pos.len() - 1] == (a, b));
                    }
                }
            }
        }
        i = i + 1;
    }
    proof {
        assert forall|i1: int, j1: int, i2: int, j2: int|
            cmd_at(v, i1, j1) && cmd_at(v, i2, j2) && #[trigger] cmd(v, i1, j1).id
                == #[trigger] cmd(v, i2, j2).id implies i1 == i2 && j1 == j2 by {
            assert(before((i1, j1), (n as int, 0)));
            assert(before((i2, j2), (n as int, 0)));
            let k1 = choose|k: int| 0 <= k < pos.len() && #[trigger] pos[k] == (i1, j1);
            let k2 = choose|k: int| 0 <= k < pos.len() && #[trigger] pos[k] == (i2, j2);
            assert(seen@[k1]@ == cmd(v, i1, j1).id);
            assert(seen@[k2]@ == cmd(v, i2, j2).id);
            assert(k1 == k2);
        }
    }
    true
}

impl MenuRegistry {
    /// A well-formed registry: unique command ids and well-formed
    /// accelerators.
    pub open spec fn wf(&self) -> bool {
        accels_valid(self@) && unique_ids(self@)
    }

    /// Validates a menu hierarchy and wraps it into a registry.
    ///
    /// Succeeds exactly when every accelerator is well formed and no two
    /// commands share an id; a malformed accelerator is reported first.
    /// On failure no registry exists at all: the build aborts as a whole.
    pub fn from_submenus(submenus: Vec<Submenu>) -> (r: Result<MenuRegistry, MenuBuildError>)
        ensures
            ({
                let v = menus_view(submenus@);
                match r {
                    Ok(reg) => reg@ == v && reg.wf(),
                    Err(MenuBuildError::InvalidAccelerator) => !accels_valid(v),
                    Err(MenuBuildError::DuplicateId) => accels_valid(v) && !unique_ids(v),
                }
            }),
    {
        if !accels_ok(&submenus) {
            return Err(MenuBuildError::InvalidAccelerator);
        }
        if !ids_unique(&submenus) {
            return Err(MenuBuildError::DuplicateId);
        }
        Ok(MenuRegistry { submenus })
    }

    /// Builds the registry from the static menu definition: File, Edit and
    /// View, in order, with their declared commands, separators and built-in
    /// actions.  The definition is valid, so the build always succeeds and
    /// always yields the same hierarchy.
    pub fn build() -> (r: Result<MenuRegistry, MenuBuildError>)
        ensures
            r matches Ok(reg) && reg@ == standard_menus() && reg.wf(),
    {
        let mut file_entries: Vec<Entry> = Vec::new();
        file_entries.push(
            Entry::Command(
                Command {
                    id: "new".to_owned(),
                    label: "New Character".to_owned(),
                    accelerator: Some("CmdOrCtrl+N".to_owned()),
                    action: Action::NewCharacter,
                },
            ),
        );
        file_entries.push(
            Entry::Command(
                Command {
                    id: "save".to_owned(),
                    label: "Save".to_owned(),
                    accelerator: Some("CmdOrCtrl+S".to_owned()),
                    action: Action::Save,
                },
            ),
        );
        file_entries.push(
            Entry::Command(
                Command {
                    id: "load".to_owned(),
                    label: "Load".to_owned(),
                    accelerator: Some("CmdOrCtrl+O".to_owned()),
                    action: Action::Load,
                },
            ),
        );
        file_entries.push(Entry::Separator);
        file_entries.push(Entry::Builtin(BuiltinAction::Quit));
        let file = Submenu { title: "File".to_owned(), entries: file_entries };

        let mut edit_entries: Vec<Entry> = Vec::new();
        edit_entries.push(Entry::Builtin(BuiltinAction::Undo));
        edit_entries.push(Entry::Builtin(BuiltinAction::Redo));
        edit_entries.push(Entry::Separator);
        edit_entries.push(Entry::Builtin(BuiltinAction::Cut));
        edit_entries.push(Entry::Builtin(BuiltinAction::CopySelection));
        edit_entries.push(Entry::Builtin(BuiltinAction::Paste));
        edit_entries.push(Entry::Builtin(BuiltinAction::SelectAll));
        let edit = Submenu { title: "Edit".to_owned(), entries: edit_entries };

        let mut view_entries: Vec<Entry> = Vec::new();
        view_entries.push(
            Entry::Command(
                Command {
                    id: "reload".to_owned(),
                    label: "Reload".to_owned(),
                    accelerator: Some("CmdOrCtrl+R".to_owned()),
                    action: Action::Reload,
                },
            ),
        );
        view_entries.push(Entry::Separator);
        view_entries.push(Entry::Builtin(BuiltinAction::Fullscreen));
        let view_sm = Submenu { title: "View".to_owned(), entries: view_entries };

        let mut submenus: Vec<Submenu> = Vec::new();
        submenus.push(file);
        submenus.push(edit);
        submenus.push(view_sm);
        proof {
            assert(menus_view(submenus@) =~~= standard_menus());
            crate::menu::lemma_standard_accels_valid();
            crate::menu::lemma_command_ids_unique();
        }
        MenuRegistry::from_submenus(submenus)
    }

    /// The submenus of the registry, in order, for the host to render.
    pub fn submenus(&self) -> (r: &Vec<Submenu>)
        ensures
            menus_view(r@) == self@,
    {
        &self.submenus
    }

    /// Maps a command id to the abstract action of the command that carries
    /// it; fails with `UnknownCommand` when no command of the registry does.
    pub fn dispatch(&self, id: &str) -> (r: Result<Action, DispatchError>)
        ensures
            match r {
                Ok(a) => has_command_action(self@, id@, a),
                Err(e) => e == DispatchError::UnknownCommand && !has_command(self@, id@),
            },
    {
        let target: String = id.to_owned();
        let n = self.submenus.len();
        let mut i: usize = 0;
        while i < n
            invariant
                i <= n,
                n == self.submenus@.len(),
                target@ == id@,
                forall|i2: int, j2: int|
                    #[trigger] cmd_at(self@, i2, j2) && i2 < i ==> cmd(self@, i2, j2).id != id@,
            decreases n - i,
        {
            let sm = &self.submenus[i];
            let m = sm.entries.len();
            let mut j: usize = 0;
            while j < m
                invariant
                    i < n,
                    j <= m,
                    n == self.submenus@.len(),
                    target@ == id@,
                    sm == &self.submenus@[i as int],
                    m == sm.entries@.len(),
                    forall|i2: int, j2: int|
                        #[trigger] cmd_at(self@, i2, j2) && i2 < i ==> cmd(self@, i2, j2).id
                            != id@,
                    forall|j2: int|
                        #[trigger] cmd_at(self@, i as int, j2) && j2 < j ==> cmd(
                            self@,
                            i as int,
                            j2,
                        ).id != id@,
                decreases m - j,
            {
                proof {
                    assert(self@[i as int] == sm@);
                    assert(self@[i as int].entries[j as int] == sm.entries@[j as int]@);
                }
                match &sm.entries[j] {
                    Entry::Command(c) => {
                        if c.id == target {
                            proof {
                                assert(cmd_at(self@, i as int, j as int));
                                assert(cmd(self@, i as int, j as int).id == id@);
                                assert(cmd(self@, i as int, j as int).action == c.action);
                            }
                            return Ok(c.action);
                        }
                    },
                    _ => {},
                }
                j = j + 1;
            }
            i = i + 1;
        }
        Err(DispatchError::UnknownCommand)
    }
}

/// Building is idempotent: any two registries built from the static menu
/// definition are structurally equal — same submenus, titles, ids, labels,
/// accelerators and order.  `build` pins the hierarchy of every registry it
/// returns to `standard_menus()`, so two builds can never differ.
pub proof fn lemma_build_idempotent(a: &MenuRegistry, b: &MenuRegistry)
    requires
        a@ == standard_menus(),
        b@ == standard_menus(),
    ensures
        a@ == b@,
{
}

} // verus!
