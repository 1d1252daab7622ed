use vstd::prelude::*;
use crate::menu::{NewRoleMenu, SELECTOR_LIMIT, copy_roles};
use crate::messages::{exists_message, prompt_message, exists_text, prompt_text};
use crate::store::StoreError;

verus! {

/// Where a creation stands.
#[derive(PartialEq, Eq, Structural)]
pub enum CreationPhase {
    /// Waiting to learn whether the name is taken.
    CheckingName,
    /// The role selector is shown; waiting for its answer or the timeout.
    AwaitingSelection,
    /// The menu was handed to the store; waiting for the outcome.
    Persisting,
    /// The menu was created.
    Created,
    /// The name was taken; nothing was written.
    Rejected,
    /// Nobody answered in time; nothing was written.
    Abandoned,
    /// The store failed.
    Failed,
}

/// What the caller reports to a creation.
pub enum CreationEvent {
    /// The lookup of the name finished.
    NameChecked { exists: bool },
    /// A role selector was answered.
    Selected { custom_id: String, roles: Vec<i64> },
    /// The wait for the selector's answer ran out.
    TimedOut,
    /// The store answered the write.
    Stored { result: Result<(), StoreError> },
}

/// What a creation asks the caller to do next.
pub enum CreationAction {
    /// Send `content` as the reply; the creation is over.
    Reply { content: String },
    /// Show `content` with a role selector tagged `custom_id` that allows up
    /// to `max_values` roles, then report its answer or the timeout.
    Prompt { custom_id: String, content: String, max_values: usize },
    /// Write `menu` to the store and report the outcome.
    Persist { menu: NewRoleMenu },
    /// Delete the prompt.
    Retract,
    /// Replace the prompt by `content` and remove its controls.
    Finish { content: String },
    /// Report a failure of the store.
    Fail,
    /// Do nothing; the event did not concern this creation.
    Wait,
}

/// One administrator's creation of one menu.
pub struct CreationFlow {
    pub guild_id: i64,
    pub name: String,
    pub max_selectable: Option<i32>,
    /// Tags the selector of this creation, so that answers to other prompts
    /// are told apart.
    pub token: String,
    pub phase: CreationPhase,
}

pub open spec fn created_text() -> Seq<char> {
    "Successfully created role menu"@
}

impl CreationFlow {
    /// A creation of menu `name` in guild `guild_id`, about to check the name.
    pub fn start(guild_id: i64, name: String, max_selectable: Option<i32>, token: String) -> (f: CreationFlow)
        ensures
            f.guild_id == guild_id,
            f.name@ == name@,
            f.max_selectable == max_selectable,
            f.token@ == token@,
            f.phase == CreationPhase::CheckingName,
    {
        CreationFlow { guild_id, name, max_selectable, token, phase: CreationPhase::CheckingName }
    }

    /// Advances the creation by one event and says what to do.
    pub fn step(&mut self, event: CreationEvent) -> (a: CreationAction)
        ensures
            final(self).guild_id == old(self).guild_id,
            final(self).name == old(self).name,
            final(self).max_selectable == old(self).max_selectable,
            final(self).token == old(self).token,
            match (old(self).phase, event) {
                (CreationPhase::CheckingName, CreationEvent::NameChecked { exists }) =>
                    if exists {
                        final(self).phase == CreationPhase::Rejected
                            && (a matches CreationAction::Reply { content } && content@ == exists_text(old(self).name@))
                    } else {
                        final(self).phase == CreationPhase::AwaitingSelection
                            && (a matches CreationAction::Prompt { custom_id, content, max_values }
                                && custom_id@ == old(self).token@
                                && content@ == prompt_text(old(self).name@)
                                && max_values == SELECTOR_LIMIT)
                    },
                (CreationPhase::AwaitingSelection, CreationEvent::Selected { custom_id, roles }) =>
                    if custom_id@ == old(self).token@ {
                        final(self).phase == CreationPhase::Persisting
                            && (a matches CreationAction::Persist { menu }
                                && menu.guild_id == old(self).guild_id
                                && menu.name@ == old(self).name@
                                && menu.max_selectable == old(self).max_selectable
                                && menu.roles@ == roles@)
                    } else {
                        final(self).phase == old(self).phase && a is Wait
                    },
                (CreationPhase::AwaitingSelection, CreationEvent::TimedOut) =>
                    final(self).phase == CreationPhase::Abandoned && a is Retract,
                (CreationPhase::Persisting, CreationEvent::Stored { result }) =>
                    match result {
                        Ok(_) => final(self).phase == CreationPhase::Created
                            && (a matches CreationAction::Finish { content } && content@ == created_text()),
                        Err(StoreError::Conflict) => final(self).phase == CreationPhase::Rejected
                            && (a matches CreationAction::Finish { content }
                                && content@ == exists_text(old(self).name@)),
                        Err(StoreError::Failure) => final(self).phase == CreationPhase::Failed && a is Fail,
                    },
                _ => final(self).phase == old(self).phase && a is Wait,
            },
    {
        match (&self.phase, event) {
            (CreationPhase::CheckingName, CreationEvent::NameChecked { exists }) => {
                if exists {
                    self.phase = CreationPhase::Rejected;
                    CreationAction::Reply { content: exists_message(self.name.as_str()) }
                } else {
                    self.phase = CreationPhase::AwaitingSelection;
                    CreationAction::Prompt {
                        custom_id: self.token.clone(),
                        content: prompt_message(self.name.as_str()),
                        max_values: SELECTOR_LIMIT,
                    }
                }
            },
            (CreationPhase::AwaitingSelection, CreationEvent::Selected { custom_id, roles }) => {
                if custom_id == self.token {
                    self.phase = CreationPhase::Persisting;
                    CreationAction::Persist {
                        menu: NewRoleMenu {
                            guild_id: self.guild_id,
                            name: self.name.clone(),
                            max_selectable: self.max_selectable,
                            roles: copy_roles(&roles),
                        },
                    }
                } else {
                    CreationAction::Wait
                }
            },
            (CreationPhase::AwaitingSelection, CreationEvent::TimedOut) => {
                self.phase = CreationPhase::Abandoned;
                CreationAction::Retract
            },
            (CreationPhase::Persisting, CreationEvent::Stored { result }) => {
                match result {
                    Ok(_) => {
                        self.phase = CreationPhase::Created;
                        CreationAction::Finish { content: String::from_str("Successfully created role menu") }
                    },
                    Err(StoreError::Conflict) => {
                        self.phase = CreationPhase::Rejected;
                        CreationAction::Finish { content: exists_message(self.name.as_str()) }
                    },
                    Err(StoreError::Failure) => {
                        self.phase = CreationPhase::Failed;
                        CreationAction::Fail
                    },
                }
            },
            _ => CreationAction::Wait,
        }
    }
}

} // verus!
