use vstd::prelude::*;
use crate::diff::contains_role;

verus! {

/// The platform's cap on how many entries one selector may offer.
pub const SELECTOR_LIMIT: usize = 25;

/// A stored role menu.
pub struct RoleMenu {
    /// Surrogate key, assigned by the store.
    pub id: i32,
    /// The guild the menu belongs to.
    pub guild_id: i64,
    /// The menu's name, unique per guild under case-insensitive comparison.
    pub name: String,
    /// How many of the menu's roles a member may hold at once; `None` for all.
    pub max_selectable: Option<i32>,
    /// The menu's roles, in display order, without duplicates.
    pub roles: Vec<i64>,
}

/// A role menu as a mathematical value.
pub struct MenuView {
    pub id: i32,
    pub guild_id: i64,
    pub name: Seq<char>,
    pub max_selectable: Option<i32>,
    pub roles: Seq<i64>,
}

impl View for RoleMenu {
    type V = MenuView;

    open spec fn view(&self) -> MenuView {
        MenuView {
            id: self.id,
            guild_id: self.guild_id,
            name: self.name@,
            max_selectable: self.max_selectable,
            roles: self.roles@,
        }
    }
}

/// A menu that is about to be created; the store assigns its id.
pub struct NewRoleMenu {
    pub guild_id: i64,
    pub name: String,
    pub max_selectable: Option<i32>,
    pub roles: Vec<i64>,
}

/// A selection bound is either absent or between one and the selector limit.
pub open spec fn valid_limit(max_selectable: Option<i32>) -> bool {
    match max_selectable {
        Some(m) => 1 <= m <= SELECTOR_LIMIT,
        None => true,
    }
}

/// The roles of `s` in order of first occurrence, each once.
pub open spec fn distinct_roles(s: Seq<i64>) -> Seq<i64>
    decreases s.len(),
{
    if s.len() == 0 {
        s
    } else if s.drop_last().contains(s.last()) {
        distinct_roles(s.drop_last())
    } else {
        distinct_roles(s.drop_last()).push(s.last())
    }
}

proof fn lemma_distinct_roles(s: Seq<i64>)
    ensures
        distinct_roles(s).no_duplicates(),
        forall|x: i64| distinct_roles(s).contains(x) <==> s.contains(x),
    decreases s.len(),
{
    if s.len() > 0 {
        lemma_distinct_roles(s.drop_last());
        assert forall|x: i64| s.contains(x) <==> (s.drop_last().contains(x) || x == s.last()) by {
            if s.contains(x) {
                let i = choose|i: int| 0 <= i < s.len() && s[i] == x;
                if i < s.len() - 1 {
                    assert(s.drop_last()[i] == x);
                }
            }
            if x == s.last() {
                assert(s[s.len() - 1] == x);
            }
            if s.drop_last().contains(x) {
                let i = choose|i: int| 0 <= i < s.len() - 1 && s.drop_last()[i] == x;
                assert(s[i] == x);
            }
        }
        let d = distinct_roles(s.drop_last());
        if !s.drop_last().contains(s.last()) {
            assert forall|x: i64| d.push(s.last()).contains(x) <==> (d.contains(x) || x == s.last()) by {
                if d.push(s.last()).contains(x) {
                    let i = choose|i: int| 0 <= i < d.len() + 1 && d.push(s.last())[i] == x;
                    if i < d.len() {
                        assert(d[i] == x);
                    }
                }
                if d.contains(x) {
                    let i = choose|i: int| 0 <= i < d.len() && d[i] == x;
                    assert(d.push(s.last())[i] == x);
                }
                if x == s.last() {
                    assert(d.push(s.last())[d.len() as int] == x);
                }
            }
        }
    }
}

/// The roles of `roles` in order of first occurrence, each kept once.
pub fn dedup_roles(roles: &Vec<i64>) -> (r: Vec<i64>)
    ensures
        r@ == distinct_roles(roles@),
        r@.no_duplicates(),
        forall|x: i64| r@.contains(x) <==> roles@.contains(x),
{
    let mut out: Vec<i64> = Vec::new();
    let mut i: usize = 0;
    while i < roles.len()
        invariant
            i <= roles@.len(),
            out@ == distinct_roles(roles@.take(i as int)),
        decreases roles@.len() - i,
    {
        proof {
            assert(roles@.take(i + 1).drop_last() =~= roles@.take(i as int));
            lemma_distinct_roles(roles@.take(i as int));
        }
        let r = roles[i];
        if !contains_role(&out, r) {
            out.push(r);
        }
        i = i + 1;
    }
    proof {
        assert(roles@.take(roles@.len() as int) =~= roles@);
        lemma_distinct_roles(roles@);
    }
    out
}

/// A copy of a list of role ids.
pub fn copy_roles(roles: &Vec<i64>) -> (r: Vec<i64>)
    ensures
        r@ == roles@,
{
    let mut out: Vec<i64> = Vec::new();
    let mut i: usize = 0;
    while i < roles.len()
        invariant
            i <= roles@.len(),
            out@ == roles@.take(i as int),
        decreases roles@.len() - i,
    {
        out.push(roles[i]);
        i = i + 1;
        proof {
            assert(out@ =~= roles@.take(i as int));
        }
    }
    assert(roles@.take(roles@.len() as int) =~= roles@);
    out
}

impl RoleMenu {
    /// A copy of this menu.
    pub fn duplicate(&self) -> (r: RoleMenu)
        ensures
            r@ == self@,
    {
        RoleMenu {
            id: self.id,
            guild_id: self.guild_id,
            name: self.name.clone(),
            max_selectable: self.max_selectable,
            roles: copy_roles(&self.roles),
        }
    }
}

} // verus!
