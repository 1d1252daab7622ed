use vstd::prelude::*;
use crate::menu::RoleMenu;
use crate::store::{MenuStore, StoreError, has_entry, taken_by_other};

verus! {

/// `before`, then `name`, then `after`.
pub fn quote(before: &str, name: &str, after: &str) -> (r: String)
    ensures
        r@ == before@ + name@ + after@,
{
    let mut s = String::from_str(before);
    s.append(name);
    s.append(after);
    s
}

pub open spec fn exists_text(name: Seq<char>) -> Seq<char> {
    "The role menu '"@ + name + "' already exists"@
}

pub open spec fn unknown_text(name: Seq<char>) -> Seq<char> {
    "Could not find role menu '"@ + name + "'"@
}

pub open spec fn deleted_text(name: Seq<char>) -> Seq<char> {
    "Deleted role menu '"@ + name + "'"@
}

pub open spec fn renamed_text(from: Seq<char>, to: Seq<char>) -> Seq<char> {
    "Renamed '"@ + from + "' to '"@ + to + "'"@
}

pub open spec fn missing_text(name: Seq<char>) -> Seq<char> {
    "The role menu '"@ + name + "' does not exist"@
}

pub open spec fn prompt_text(name: Seq<char>) -> Seq<char> {
    "Choose the roles that should be selectable in the rolemenu '"@ + name + "'"@
}

/// Reply when a menu of that name already exists.
pub fn exists_message(name: &str) -> (r: String)
    ensures
        r@ == exists_text(name@),
{
    quote("The role menu '", name, "' already exists")
}

/// Reply when no menu of that name exists, to an administrator.
pub fn unknown_message(name: &str) -> (r: String)
    ensures
        r@ == unknown_text(name@),
{
    quote("Could not find role menu '", name, "'")
}

/// Reply to a member who asked for a menu that does not exist.
pub fn missing_message(name: &str) -> (r: String)
    ensures
        r@ == missing_text(name@),
{
    quote("The role menu '", name, "' does not exist")
}

/// Text of the prompt that asks an administrator for the menu's roles.
pub fn prompt_message(name: &str) -> (r: String)
    ensures
        r@ == prompt_text(name@),
{
    quote("Choose the roles that should be selectable in the rolemenu '", name, "'")
}

/// The reply to deleting menu `name`, given how many menus were deleted.
pub fn delete_reply(name: &str, deleted: usize) -> (r: String)
    ensures
        deleted > 0 ==> r@ == deleted_text(name@),
        deleted == 0 ==> r@ == unknown_text(name@),
{
    if deleted > 0 {
        quote("Deleted role menu '", name, "'")
    } else {
        unknown_message(name)
    }
}

/// The reply to renaming menu `from` to `to`, given what the store answered;
/// a failure of the store is handed on.
pub fn rename_reply(from: &str, to: &str, outcome: Result<usize, StoreError>) -> (r: Result<String, StoreError>)
    ensures
        outcome == Ok::<usize, StoreError>(0) ==> (r matches Ok(s) && s@ == unknown_text(from@)),
        (outcome matches Ok(n) && n > 0) ==> (r matches Ok(s) && s@ == renamed_text(from@, to@)),
        outcome matches Err(StoreError::Conflict) ==> (r matches Ok(s) && s@ == exists_text(to@)),
        outcome matches Err(StoreError::Failure) ==> r matches Err(StoreError::Failure),
{
    match outcome {
        Ok(0) => Ok(unknown_message(from)),
        Ok(_) => {
            let mut s = quote("Renamed '", from, "' to '");
            s.append(to);
            s.append("'");
            Ok(s)
        },
        Err(StoreError::Conflict) => Ok(exists_message(to)),
        Err(StoreError::Failure) => Err(StoreError::Failure),
    }
}

/// Deletes guild `guild_id`'s menu `name` and returns the reply.
pub fn delete_command(store: &mut MenuStore, guild_id: i64, name: &str) -> (r: String)
    requires
        old(store).wf(),
    ensures
        final(store).wf(),
        has_entry(old(store)@.rows, guild_id, name@) ==> r@ == deleted_text(name@),
        !has_entry(old(store)@.rows, guild_id, name@) ==> r@ == unknown_text(name@)
            && final(store)@ == old(store)@,
{
    let deleted = RoleMenu::delete(store, guild_id, name);
    delete_reply(name, deleted)
}

/// Renames guild `guild_id`'s menu `from` to `to` and returns the reply.
pub fn rename_command(store: &mut MenuStore, guild_id: i64, from: &str, to: &str) -> (r: Result<String, StoreError>)
    requires
        old(store).wf(),
    ensures
        final(store).wf(),
        !has_entry(old(store)@.rows, guild_id, from@) ==> (r matches Ok(s) && s@ == unknown_text(from@))
            && final(store)@ == old(store)@,
        has_entry(old(store)@.rows, guild_id, from@) ==> exists|i: int|
            0 <= i < old(store)@.rows.len() && crate::store::is_entry(old(store)@.rows[i], guild_id, from@) && (
            if taken_by_other(old(store)@.rows, i, guild_id, to@) {
                (r matches Ok(s) && s@ == exists_text(to@)) && final(store)@ == old(store)@
            } else {
                r matches Ok(s) && s@ == renamed_text(from@, to@)
            }),
{
    let outcome = RoleMenu::rename(store, guild_id, from, to);
    rename_reply(from, to, outcome)
}

} // verus!
