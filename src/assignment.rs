use vstd::prelude::*;
use crate::diff::{RoleDiff, compute_diff, contains_role, grants_of, revokes_of};
use crate::menu::{RoleMenu, MenuView, SELECTOR_LIMIT, copy_roles};
use crate::messages::{missing_message, missing_text};

verus! {

/// How many roles a member must keep selected unless configured otherwise.
pub const DEFAULT_MIN_SELECTED: usize = 1;

/// Where a member's use of a menu stands.
#[derive(PartialEq, Eq, Structural)]
pub enum AssignmentPhase {
    /// Waiting for the menu and the member's roles.
    Rendering,
    /// The selector is shown; waiting for its answer or the timeout.
    AwaitingSelection,
    /// The role changes were handed out; the use is over.
    Applied,
    /// No menu has the name.
    Missing,
    /// Nobody answered in time; nothing changed.
    Abandoned,
}

/// One entry of the selector shown to a member.
pub struct MenuOption {
    pub role_id: i64,
    /// Shown as selected because the member holds the role.
    pub checked: bool,
}

/// What the caller reports to a use of a menu.
pub enum AssignmentEvent {
    /// The menu was looked up by name, and the member's roles read.
    Loaded { menu: Option<RoleMenu>, member_roles: Vec<i64> },
    /// A selector was answered.
    Selected { custom_id: String, roles: Vec<i64> },
    /// The wait for the selector's answer ran out.
    TimedOut,
}

/// What a use of a menu asks the caller to do next.
pub enum AssignmentAction {
    /// Send `content` as the reply; the use is over.
    Reply { content: String },
    /// Show a selector tagged `custom_id` with `options`, allowing between
    /// `min_values` and `max_values` of them, then report its answer or the
    /// timeout.
    Render { custom_id: String, options: Vec<MenuOption>, min_values: usize, max_values: usize },
    /// Acknowledge the answer, then grant and revoke the roles of `diff`,
    /// each independently of the other, and replace the prompt by `content`.
    Apply { diff: RoleDiff, content: String },
    /// Delete the prompt.
    Retract,
    /// Do nothing; the event did not concern this use.
    Wait,
}

/// One member's use of one menu.
pub struct AssignmentFlow {
    pub name: String,
    /// Tags the selector of this use.
    pub token: String,
    /// The fewest roles a member may leave selected.
    pub min_selected: usize,
    pub phase: AssignmentPhase,
    /// The menu's roles, once loaded.
    pub menu_roles: Vec<i64>,
    /// The roles the member held when the menu was loaded.
    pub member_roles: Vec<i64>,
}

/// How many roles the selector allows: the menu's bound, else the selector
/// limit, and never more than the menu has.
pub open spec fn max_values_of(m: MenuView) -> int {
    let bound: int = match m.max_selectable {
        Some(b) => b as int,
        None => SELECTOR_LIMIT as int,
    };
    if m.roles.len() < bound { m.roles.len() as int } else { bound }
}

/// The selector's entries: each role of the menu, in order, checked when held.
pub open spec fn options_match(options: Seq<MenuOption>, menu: Seq<i64>, held: Seq<i64>) -> bool {
    &&& options.len() == menu.len()
    &&& forall|k: int| 0 <= k < menu.len() ==> (#[trigger] options[k]).role_id == menu[k]
        && options[k].checked == held.contains(menu[k])
}

pub open spec fn assigned_text() -> Seq<char> {
    "Successfully assigned roles"@
}

/// The selector's entries for a menu and the roles a member holds.
pub fn menu_options(menu: &Vec<i64>, held: &Vec<i64>) -> (r: Vec<MenuOption>)
    ensures
        options_match(r@, menu@, held@),
{
    let mut out: Vec<MenuOption> = Vec::new();
    let mut i: usize = 0;
    while i < menu.len()
        invariant
            i <= menu@.len(),
            options_match(out@, menu@.take(i as int), held@),
        decreases menu@.len() - i,
    {
        let r = menu[i];
        out.push(MenuOption { role_id: r, checked: contains_role(held, r) });
        i = i + 1;
    }
    assert(menu@.take(menu@.len() as int) =~= menu@);
    out
}

/// How many roles the selector for `menu` allows.
pub fn max_values(menu: &RoleMenu) -> (r: usize)
    requires
        menu.max_selectable matches Some(b) ==> b >= 0,
    ensures
        r == max_values_of(menu@),
{
    let bound: usize = match menu.max_selectable {
        Some(b) => b as usize,
        None => SELECTOR_LIMIT,
    };
    if menu.roles.len() < bound {
        menu.roles.len()
    } else {
        bound
    }
}

impl AssignmentFlow {
    /// A use of menu `name`, about to load it; `min_selected` is the fewest
    /// roles the member may leave selected.
    pub fn start(name: String, token: String, min_selected: usize) -> (f: AssignmentFlow)
        ensures
            f.name@ == name@,
            f.token@ == token@,
            f.min_selected == min_selected,
            f.phase == AssignmentPhase::Rendering,
            f.menu_roles@.len() == 0,
            f.member_roles@.len() == 0,
    {
        AssignmentFlow {
            name,
            token,
            min_selected,
            phase: AssignmentPhase::Rendering,
            menu_roles: Vec::new(),
            member_roles: Vec::new(),
        }
    }

    /// Advances the use by one event and says what to do.
    pub fn step(&mut self, event: AssignmentEvent) -> (a: AssignmentAction)
        requires
            event matches AssignmentEvent::Loaded { menu: Some(m), .. } ==> (m.max_selectable matches Some(b)
                ==> b >= 0),
        ensures
            final(self).name == old(self).name,
            final(self).token == old(self).token,
            final(self).min_selected == old(self).min_selected,
            match (old(self).phase, event) {
                (AssignmentPhase::Rendering, AssignmentEvent::Loaded { menu, member_roles }) => match menu {
                    None => final(self).phase == AssignmentPhase::Missing
                        && (a matches AssignmentAction::Reply { content } && content@ == missing_text(old(self).name@)),
                    Some(m) => final(self).phase == AssignmentPhase::AwaitingSelection
                        && final(self).menu_roles@ == m.roles@
                        && final(self).member_roles@ == member_roles@
                        && (a matches AssignmentAction::Render { custom_id, options, min_values, max_values }
                            && custom_id@ == old(self).token@
                            && options_match(options@, m.roles@, member_roles@)
                            && max_values == max_values_of(m@)
                            && min_values == if old(self).min_selected < max_values {
                                old(self).min_selected
                            } else {
                                max_values
                            }),
                },
                (AssignmentPhase::AwaitingSelection, AssignmentEvent::Selected { custom_id, roles }) =>
                    if custom_id@ == old(self).token@ {
                        final(self).phase == AssignmentPhase::Applied
                            && (a matches AssignmentAction::Apply { diff, content }
                                && diff.grant@ == grants_of(old(self).menu_roles@, old(self).member_roles@, roles@)
                                && diff.revoke@ == revokes_of(old(self).menu_roles@, old(self).member_roles@, roles@)
                                && content@ == assigned_text())
                    } else {
                        final(self).phase == old(self).phase && a is Wait
                    },
                (AssignmentPhase::AwaitingSelection, AssignmentEvent::TimedOut) =>
                    final(self).phase == AssignmentPhase::Abandoned && a is Retract,
                _ => final(self).phase == old(self).phase && a is Wait,
            },
    {
        match (&self.phase, event) {
            (AssignmentPhase::Rendering, AssignmentEvent::Loaded { menu, member_roles }) => match menu {
                None => {
                    self.phase = AssignmentPhase::Missing;
                    AssignmentAction::Reply { content: missing_message(self.name.as_str()) }
                },
                Some(m) => {
                    let options = menu_options(&m.roles, &member_roles);
                    let max = max_values(&m);
                    let min = if self.min_selected < max { self.min_selected } else { max };
                    self.menu_roles = copy_roles(&m.roles);
                    self.member_roles = member_roles;
                    self.phase = AssignmentPhase::AwaitingSelection;
                    AssignmentAction::Render {
                        custom_id: self.token.clone(),
                        options,
                        min_values: min,
                        max_values: max,
                    }
                },
            },
            (AssignmentPhase::AwaitingSelection, AssignmentEvent::Selected { custom_id, roles }) => {
                if custom_id == self.token {
                    let diff = compute_diff(&self.menu_roles, &self.member_roles, &roles);
                    self.phase = AssignmentPhase::Applied;
                    AssignmentAction::Apply { diff, content: String::from_str("Successfully assigned roles") }
                } else {
                    AssignmentAction::Wait
                }
            },
            (AssignmentPhase::AwaitingSelection, AssignmentEvent::TimedOut) => {
                self.phase = AssignmentPhase::Abandoned;
                AssignmentAction::Retract
            },
            _ => AssignmentAction::Wait,
        }
    }
}

} // verus!
