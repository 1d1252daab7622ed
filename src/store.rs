use vstd::prelude::*;
use crate::menu::{
    RoleMenu, MenuView, NewRoleMenu, SELECTOR_LIMIT, valid_limit, distinct_roles, dedup_roles,
    copy_roles,
};
use crate::names::{same_name, has_folded_prefix, lower_of, names_match, starts_with_chars, to_lower};

verus! {

/// Why the store refused a write.
pub enum StoreError {
    /// Another menu of the guild already has the name, compared case-insensitively.
    Conflict,
    /// The store could not carry out the write.
    Failure,
}

/// The role menus of all guilds.
pub struct MenuStore {
    rows: Vec<RoleMenu>,
    next_id: i32,
}

/// The store as a mathematical value: its menus in insertion order, and the
/// id that the next created menu receives.
pub struct StoreView {
    pub rows: Seq<MenuView>,
    pub next_id: i32,
}

impl View for MenuStore {
    type V = StoreView;

    closed spec fn view(&self) -> StoreView {
        StoreView { rows: self.rows@.map_values(|m: RoleMenu| m@), next_id: self.next_id }
    }
}

/// Menu `m` is the one that guild `g` calls `name`.
pub open spec fn is_entry(m: MenuView, g: i64, name: Seq<char>) -> bool {
    m.guild_id == g && same_name(m.name, name)
}

/// Guild `g` has a menu called `name`.
pub open spec fn has_entry(rows: Seq<MenuView>, g: i64, name: Seq<char>) -> bool {
    exists|i: int| 0 <= i < rows.len() && is_entry(#[trigger] rows[i], g, name)
}

/// A menu of guild `g` other than the one at `skip` is called `name`.
pub open spec fn taken_by_other(rows: Seq<MenuView>, skip: int, g: i64, name: Seq<char>) -> bool {
    exists|j: int| 0 <= j < rows.len() && j != skip && is_entry(#[trigger] rows[j], g, name)
}

/// The store's invariant: within a guild no two menus share a name under
/// case-insensitive comparison; each menu has a valid selection bound, no
/// repeated role and an id below the next one handed out.
pub open spec fn store_wf(v: StoreView) -> bool {
    &&& 1 <= v.next_id
    &&& forall|i: int, j: int|
        0 <= i < v.rows.len() && 0 <= j < v.rows.len() && i != j
            && (#[trigger] v.rows[i]).guild_id == (#[trigger] v.rows[j]).guild_id
            ==> !same_name(v.rows[i].name, v.rows[j].name)
    &&& forall|i: int| 0 <= i < v.rows.len() ==> {
        &&& valid_limit((#[trigger] v.rows[i]).max_selectable)
        &&& v.rows[i].roles.no_duplicates()
        &&& 1 <= v.rows[i].id < v.next_id
    }
}

/// The names of guild `g`'s menus that start with `partial`, case-insensitively,
/// in store order.
pub open spec fn prefix_matches(rows: Seq<MenuView>, g: i64, partial: Seq<char>) -> Seq<Seq<char>>
    decreases rows.len(),
{
    if rows.len() == 0 {
        Seq::empty()
    } else {
        let rest = prefix_matches(rows.drop_last(), g, partial);
        if rows.last().guild_id == g && has_folded_prefix(rows.last().name, partial) {
            rest.push(rows.last().name)
        } else {
            rest
        }
    }
}

/// The names of guild `g`'s menus, in store order.
pub open spec fn guild_names(rows: Seq<MenuView>, g: i64) -> Seq<Seq<char>>
    decreases rows.len(),
{
    if rows.len() == 0 {
        Seq::empty()
    } else {
        let rest = guild_names(rows.drop_last(), g);
        if rows.last().guild_id == g {
            rest.push(rows.last().name)
        } else {
            rest
        }
    }
}

proof fn lemma_empty_prefix(rows: Seq<MenuView>, g: i64, partial: Seq<char>)
    requires
        lower_of(partial).len() == 0,
    ensures
        prefix_matches(rows, g, partial) == guild_names(rows, g),
    decreases rows.len(),
{
    if rows.len() > 0 {
        lemma_empty_prefix(rows.drop_last(), g, partial);
    }
}

proof fn lemma_no_prefix_match(rows: Seq<MenuView>, g: i64, partial: Seq<char>)
    requires
        forall|i: int| 0 <= i < rows.len() ==> !((#[trigger] rows[i]).guild_id == g
            && has_folded_prefix(rows[i].name, partial)),
    ensures
        prefix_matches(rows, g, partial).len() == 0,
    decreases rows.len(),
{
    if rows.len() > 0 {
        assert(rows[rows.len() - 1] == rows.last());
        lemma_no_prefix_match(rows.drop_last(), g, partial);
    }
}

/// At most the first `SELECTOR_LIMIT` entries of `s`.
pub open spec fn capped<A>(s: Seq<A>) -> Seq<A> {
    if s.len() <= SELECTOR_LIMIT {
        s
    } else {
        s.take(SELECTOR_LIMIT as int)
    }
}

/// `m` with its name replaced by `name`.
pub open spec fn renamed(m: MenuView, name: Seq<char>) -> MenuView {
    MenuView { name, ..m }
}

/// The views of a sequence of strings.
pub open spec fn string_views(v: Seq<String>) -> Seq<Seq<char>> {
    v.map_values(|s: String| s@)
}

impl MenuStore {
    pub open spec fn wf(&self) -> bool {
        store_wf(self@)
    }

    /// A store without menus.
    pub fn new() -> (s: MenuStore)
        ensures
            s.wf(),
            s@.rows == Seq::<MenuView>::empty(),
            s@.next_id == 1,
    {
        let s = MenuStore { rows: Vec::new(), next_id: 1 };
        assert(s@.rows =~= Seq::<MenuView>::empty());
        s
    }

    /// The number of menus held, over all guilds.
    pub fn len(&self) -> (n: usize)
        ensures
            n == self@.rows.len(),
    {
        self.rows.len()
    }

    /// The position of guild `g`'s menu called `name`, if there is one.
    fn find_index(&self, g: i64, name: &str) -> (r: Option<usize>)
        ensures
            r is None <==> !has_entry(self@.rows, g, name@),
            r matches Some(i) ==> i < self@.rows.len() && is_entry(self@.rows[i as int], g, name@),
    {
        let mut i: usize = 0;
        while i < self.rows.len()
            invariant
                i <= self@.rows.len(),
                self@.rows.len() == self.rows@.len(),
                forall|k: int| 0 <= k < i ==> !is_entry(#[trigger] self@.rows[k], g, name@),
            decreases self.rows@.len() - i,
        {
            let m = &self.rows[i];
            if m.guild_id == g && names_match(m.name.as_str(), name) {
                assert(is_entry(self@.rows[i as int], g, name@));
                return Some(i);
            }
            i = i + 1;
        }
        None
    }
}

impl RoleMenu {
    /// Guild `guild_id`'s menu called `name`, compared case-insensitively.
    pub fn find(store: &MenuStore, guild_id: i64, name: &str) -> (r: Option<RoleMenu>)
        ensures
            r is None <==> !has_entry(store@.rows, guild_id, name@),
            r matches Some(m) ==> exists|i: int|
                0 <= i < store@.rows.len() && is_entry(store@.rows[i], guild_id, name@)
                    && m@ == store@.rows[i],
    {
        match store.find_index(guild_id, name) {
            Some(i) => Some(store.rows[i].duplicate()),
            None => None,
        }
    }

    /// Deletes guild `guild_id`'s menu called `name`, compared
    /// case-insensitively, and returns how many menus were deleted: one, or
    /// none when there is no such menu.
    pub fn delete(store: &mut MenuStore, guild_id: i64, name: &str) -> (r: usize)
        requires
            old(store).wf(),
        ensures
            final(store).wf(),
            !has_entry(final(store)@.rows, guild_id, name@),
            !has_entry(old(store)@.rows, guild_id, name@) ==> r == 0 && final(store)@ == old(store)@,
            has_entry(old(store)@.rows, guild_id, name@) ==> r == 1 && exists|i: int|
                0 <= i < old(store)@.rows.len() && is_entry(old(store)@.rows[i], guild_id, name@)
                    && final(store)@ == (StoreView { rows: old(store)@.rows.remove(i), ..old(store)@ }),
    {
        match store.find_index(guild_id, name) {
            Some(i) => {
                let ghost old_rows = store.rows@;
                let _gone = store.rows.remove(i);
                proof {
                    assert(store.rows@ == old_rows.remove(i as int));
                    assert(store@.rows =~= old(store)@.rows.remove(i as int));
                    let rows = old(store)@.rows;
                    assert forall|k: int| 0 <= k < store@.rows.len()
                        implies !is_entry(#[trigger] store@.rows[k], guild_id, name@) by {
                        let j = if k < i { k } else { k + 1 };
                        assert(store@.rows[k] == rows[j]);
                        assert(j != i);
                    }
                }
                1
            },
            None => 0,
        }
    }

    /// Renames guild `guild_id`'s menu `from` to `to`. Returns how many menus
    /// were renamed: none when there is no menu `from`, else one; or
    /// `Conflict`, with nothing changed, when another menu of the guild is
    /// already called `to`, compared case-insensitively.
    pub fn rename(store: &mut MenuStore, guild_id: i64, from: &str, to: &str) -> (r: Result<usize, StoreError>)
        requires
            old(store).wf(),
        ensures
            final(store).wf(),
            !has_entry(old(store)@.rows, guild_id, from@) ==> r == Ok::<usize, StoreError>(0)
                && final(store)@ == old(store)@,
            has_entry(old(store)@.rows, guild_id, from@) ==> exists|i: int|
                0 <= i < old(store)@.rows.len() && is_entry(old(store)@.rows[i], guild_id, from@) && (
                if taken_by_other(old(store)@.rows, i, guild_id, to@) {
                    r == Err::<usize, StoreError>(StoreError::Conflict) && final(store)@ == old(store)@
                } else {
                    r == Ok::<usize, StoreError>(1) && final(store)@ == (StoreView {
                        rows: old(store)@.rows.update(i, renamed(old(store)@.rows[i], to@)),
                        ..old(store)@
                    })
                }),
    {
        let i = match store.find_index(guild_id, from) {
            Some(i) => i,
            None => return Ok(0),
        };
        let mut j: usize = 0;
        while j < store.rows.len()
            invariant
                store@ == old(store)@,
                store.wf(),
                i < store@.rows.len(),
                is_entry(store@.rows[i as int], guild_id, from@),
                j <= store@.rows.len(),
                store@.rows.len() == store.rows@.len(),
                forall|k: int| 0 <= k < j && k != i ==> !is_entry(#[trigger] store@.rows[k], guild_id, to@),
            decreases store.rows@.len() - j,
        {
            if j != i {
                let m = &store.rows[j];
                if m.guild_id == guild_id && names_match(m.name.as_str(), to) {
                    assert(is_entry(store@.rows[i as int], guild_id, from@));
                    assert(is_entry(store@.rows[j as int], guild_id, to@));
                    assert(taken_by_other(old(store)@.rows, i as int, guild_id, to@));
                    return Err(StoreError::Conflict);
                }
            }
            j = j + 1;
        }
        let old_menu = &store.rows[i];
        let menu = RoleMenu {
            id: old_menu.id,
            guild_id: old_menu.guild_id,
            name: String::from_str(to),
            max_selectable: old_menu.max_selectable,
            roles: copy_roles(&old_menu.roles),
        };
        let ghost old_rows = store.rows@;
        let _prev = store.rows.remove(i);
        store.rows.insert(i, menu);
        proof {
            assert(store.rows@ =~= old_rows.update(i as int, menu));
            assert(store@.rows =~= old(store)@.rows.update(i as int, renamed(old(store)@.rows[i as int], to@)));
            assert(!taken_by_other(old(store)@.rows, i as int, guild_id, to@));
        }
        Ok(1)
    }

    /// The names of guild `guild_id`'s menus that start with `partial`,
    /// compared case-insensitively, in store order and at most
    /// `SELECTOR_LIMIT` of them.
    pub fn comp_rolemenu(store: &MenuStore, guild_id: i64, partial: &str) -> (r: Vec<String>)
        ensures
            string_views(r@) == capped(prefix_matches(store@.rows, guild_id, partial@)),
            partial@.len() == 0 ==> string_views(r@) == capped(guild_names(store@.rows, guild_id)),
            (forall|i: int| 0 <= i < store@.rows.len() ==> !((#[trigger] store@.rows[i]).guild_id == guild_id
                && has_folded_prefix(store@.rows[i].name, partial@))) ==> r@.len() == 0,
    {
        let folded = to_lower(partial);
        let mut out: Vec<String> = Vec::new();
        let mut i: usize = 0;
        while i < store.rows.len()
            invariant
                i <= store@.rows.len(),
                store@.rows.len() == store.rows@.len(),
                folded@ == lower_of(partial@),
                partial@.len() == 0 ==> folded@.len() == 0,
                string_views(out@) == capped(prefix_matches(store@.rows.take(i as int), guild_id, partial@)),
            decreases store.rows@.len() - i,
        {
            let ghost before = prefix_matches(store@.rows.take(i as int), guild_id, partial@);
            proof {
                assert(store@.rows.take(i + 1).drop_last() =~= store@.rows.take(i as int));
            }
            let m = &store.rows[i];
            if m.guild_id == guild_id && starts_with_chars(to_lower(m.name.as_str()).as_str(), folded.as_str()) {
                if out.len() < SELECTOR_LIMIT {
                    let ghost prev = out@;
                    out.push(m.name.clone());
                    proof {
                        assert(string_views(out@) =~= string_views(prev).push(m.name@));
                    }
                } else {
                    assert(before.push(m.name@).take(SELECTOR_LIMIT as int) =~= before.take(SELECTOR_LIMIT as int));
                }
            }
            i = i + 1;
        }
        proof {
            assert(store@.rows.take(store@.rows.len() as int) =~= store@.rows);
            if partial@.len() == 0 {
                lemma_empty_prefix(store@.rows, guild_id, partial@);
            }
            if forall|i: int| 0 <= i < store@.rows.len() ==> !((#[trigger] store@.rows[i]).guild_id == guild_id
                && has_folded_prefix(store@.rows[i].name, partial@)) {
                lemma_no_prefix_match(store@.rows, guild_id, partial@);
                assert(string_views(out@).len() == out@.len());
            }
        }
        out
    }
}

impl NewRoleMenu {
    /// Creates the menu in `store` under the next id, its roles kept once each
    /// in order of first occurrence. Fails with `Conflict` when the guild
    /// already has a menu of that name, compared case-insensitively, and with
    /// `Failure` when no id is left; the store is unchanged on failure.
    pub fn insert(&self, store: &mut MenuStore) -> (r: Result<(), StoreError>)
        requires
            old(store).wf(),
            valid_limit(self.max_selectable),
        ensures
            final(store).wf(),
            has_entry(old(store)@.rows, self.guild_id, self.name@) ==> r == Err::<(), StoreError>(
                StoreError::Conflict,
            ) && final(store)@ == old(store)@,
            !has_entry(old(store)@.rows, self.guild_id, self.name@) && old(store)@.next_id == i32::MAX
                ==> r == Err::<(), StoreError>(StoreError::Failure) && final(store)@ == old(store)@,
            !has_entry(old(store)@.rows, self.guild_id, self.name@) && old(store)@.next_id < i32::MAX
                ==> r == Ok::<(), StoreError>(()) && final(store)@ == (StoreView {
                rows: old(store)@.rows.push(
                    MenuView {
                        id: old(store)@.next_id,
                        guild_id: self.guild_id,
                        name: self.name@,
                        max_selectable: self.max_selectable,
                        roles: distinct_roles(self.roles@),
                    },
                ),
                next_id: (old(store)@.next_id + 1) as i32,
            }),
    {
        if store.find_index(self.guild_id, self.name.as_str()).is_some() {
            return Err(StoreError::Conflict);
        }
        if store.next_id == i32::MAX {
            return Err(StoreError::Failure);
        }
        let menu = RoleMenu {
            id: store.next_id,
            guild_id: self.guild_id,
            name: self.name.clone(),
            max_selectable: self.max_selectable,
            roles: dedup_roles(&self.roles),
        };
        store.rows.push(menu);
        store.next_id = store.next_id + 1;
        proof {
            assert(store@.rows =~= old(store)@.rows.push(menu@));
        }
        Ok(())
    }
}

/// After a menu is created, a lookup by its name, or by any name equal to
/// it case-insensitively, finds that menu and no other; so a second create
/// under such a name meets an existing entry and is refused.
pub proof fn lemma_created_menu_found(before: StoreView, created: MenuView, query: Seq<char>)
    requires
        store_wf(before),
        !has_entry(before.rows, created.guild_id, created.name),
        same_name(query, created.name),
    ensures
        has_entry(before.rows.push(created), created.guild_id, query),
        forall|i: int| 0 <= i < before.rows.len() + 1
            && is_entry(#[trigger] before.rows.push(created)[i], created.guild_id, query)
            ==> before.rows.push(created)[i] == created,
{
    let after = before.rows.push(created);
    assert(is_entry(after[before.rows.len() as int], created.guild_id, query));
    assert forall|i: int| 0 <= i < before.rows.len() + 1
        && is_entry(#[trigger] after[i], created.guild_id, query) implies after[i] == created by {
        if i < before.rows.len() {
            assert(after[i] == before.rows[i]);
            assert(is_entry(before.rows[i], created.guild_id, created.name));
        }
    }
}

} // verus!
