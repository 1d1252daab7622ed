use vstd::prelude::*;

verus! {

/// Roles of the menu, in menu order, that were selected and are not held yet.
pub open spec fn grants_of(menu: Seq<i64>, current: Seq<i64>, selected: Seq<i64>) -> Seq<i64> {
    menu.filter(|r: i64| selected.contains(r) && !current.contains(r))
}

/// Roles of the menu, in menu order, that are held and were not selected.
pub open spec fn revokes_of(menu: Seq<i64>, current: Seq<i64>, selected: Seq<i64>) -> Seq<i64> {
    menu.filter(|r: i64| current.contains(r) && !selected.contains(r))
}

/// The roles a member holds after `revoke` is taken away and `grant` is added.
pub open spec fn apply_diff(current: Set<i64>, grant: Set<i64>, revoke: Set<i64>) -> Set<i64> {
    current.difference(revoke).union(grant)
}

/// The role changes that bring a member's roles in line with a selection.
pub struct RoleDiff {
    /// Roles to add to the member.
    pub grant: Vec<i64>,
    /// Roles to take from the member.
    pub revoke: Vec<i64>,
}

/// Whether `r` occurs in `ids`.
pub fn contains_role(ids: &Vec<i64>, r: i64) -> (b: bool)
    ensures
        b == ids@.contains(r),
{
    let mut i: usize = 0;
    while i < ids.len()
        invariant
            i <= ids@.len(),
            forall|k: int| 0 <= k < i ==> ids@[k] != r,
        decreases ids@.len() - i,
    {
        if ids[i] == r {
            return true;
        }
        i = i + 1;
    }
    false
}

/// Splits the menu's roles into those to grant and those to revoke, given the
/// roles the member holds now (`current`) and the roles just selected.
/// Roles outside the menu are never touched.
pub fn compute_diff(menu: &Vec<i64>, current: &Vec<i64>, selected: &Vec<i64>) -> (d: RoleDiff)
    ensures
        d.grant@ == grants_of(menu@, current@, selected@),
        d.revoke@ == revokes_of(menu@, current@, selected@),
{
    let ghost gp = |r: i64| selected@.contains(r) && !current@.contains(r);
    let ghost rp = |r: i64| current@.contains(r) && !selected@.contains(r);
    let mut grant: Vec<i64> = Vec::new();
    let mut revoke: Vec<i64> = Vec::new();
    let mut i: usize = 0;
    while i < menu.len()
        invariant
            i <= menu@.len(),
            gp == (|r: i64| selected@.contains(r) && !current@.contains(r)),
            rp == (|r: i64| current@.contains(r) && !selected@.contains(r)),
            grant@ == menu@.take(i as int).filter(gp),
            revoke@ == menu@.take(i as int).filter(rp),
        decreases menu@.len() - i,
    {
        let r = menu[i];
        let held = contains_role(current, r);
        let chosen = contains_role(selected, r);
        proof {
            assert(menu@.take(i + 1).drop_last() =~= menu@.take(i as int));
            reveal(Seq::filter);
        }
        if chosen && !held {
            grant.push(r);
        }
        if held && !chosen {
            revoke.push(r);
        }
        i = i + 1;
    }
    assert(menu@.take(menu@.len() as int) =~= menu@);
    RoleDiff { grant, revoke }
}

proof fn lemma_filter_member(s: Seq<i64>, p: spec_fn(i64) -> bool, x: i64)
    ensures
        s.filter(p).contains(x) <==> (s.contains(x) && p(x)),
{
    if s.filter(p).contains(x) {
        s.lemma_filter_contains_rev(p, x);
        let j = choose|j: int| 0 <= j < s.filter(p).len() && s.filter(p)[j] == x;
        s.lemma_filter_pred(p, j);
    }
    if s.contains(x) && p(x) {
        let i = choose|i: int| 0 <= i < s.len() && s[i] == x;
        s.lemma_filter_contains(p, i);
    }
}

/// For a menu `menu`, held roles `current` and a selection `selected`, both
/// within the menu: the grants are the selected roles not held, the
/// revocations are the held roles not selected, and applying both to the held
/// roles leaves exactly the selection.
pub proof fn lemma_diff_exact(menu: Seq<i64>, current: Seq<i64>, selected: Seq<i64>)
    requires
        current.to_set().subset_of(menu.to_set()),
        selected.to_set().subset_of(menu.to_set()),
    ensures
        grants_of(menu, current, selected).to_set() == selected.to_set().difference(current.to_set()),
        revokes_of(menu, current, selected).to_set() == current.to_set().difference(selected.to_set()),
        apply_diff(
            current.to_set(),
            grants_of(menu, current, selected).to_set(),
            revokes_of(menu, current, selected).to_set(),
        ) == selected.to_set().intersect(menu.to_set()),
{
    let gp = |r: i64| selected.contains(r) && !current.contains(r);
    let rp = |r: i64| current.contains(r) && !selected.contains(r);
    assert forall|x: i64| grants_of(menu, current, selected).to_set().contains(x)
        <==> selected.to_set().difference(current.to_set()).contains(x) by {
        lemma_filter_member(menu, gp, x);
    }
    assert forall|x: i64| revokes_of(menu, current, selected).to_set().contains(x)
        <==> current.to_set().difference(selected.to_set()).contains(x) by {
        lemma_filter_member(menu, rp, x);
    }
    assert(grants_of(menu, current, selected).to_set() =~= selected.to_set().difference(current.to_set()));
    assert(revokes_of(menu, current, selected).to_set() =~= current.to_set().difference(selected.to_set()));
    assert(apply_diff(
        current.to_set(),
        grants_of(menu, current, selected).to_set(),
        revokes_of(menu, current, selected).to_set(),
    ) =~= selected.to_set().intersect(menu.to_set()));
}

/// Whatever the inputs, nothing granted is already held, everything revoked
/// is held, and no role is both granted and revoked.
pub proof fn lemma_diff_disjoint(menu: Seq<i64>, current: Seq<i64>, selected: Seq<i64>)
    ensures
        grants_of(menu, current, selected).to_set().disjoint(current.to_set()),
        revokes_of(menu, current, selected).to_set().subset_of(current.to_set()),
        grants_of(menu, current, selected).to_set().disjoint(revokes_of(menu, current, selected).to_set()),
{
    let gp = |r: i64| selected.contains(r) && !current.contains(r);
    let rp = |r: i64| current.contains(r) && !selected.contains(r);
    assert forall|x: i64| !(grants_of(menu, current, selected).to_set().contains(x)
        && current.to_set().contains(x)) by {
        lemma_filter_member(menu, gp, x);
    }
    assert forall|x: i64| revokes_of(menu, current, selected).to_set().contains(x)
        implies current.to_set().contains(x) by {
        lemma_filter_member(menu, rp, x);
    }
    assert forall|x: i64| !(grants_of(menu, current, selected).to_set().contains(x)
        && revokes_of(menu, current, selected).to_set().contains(x)) by {
        lemma_filter_member(menu, gp, x);
        lemma_filter_member(menu, rp, x);
    }
}

/// Once the held roles equal the selection, the same selection asks for no
/// change: nothing to grant and nothing to revoke.
pub proof fn lemma_diff_idempotent(menu: Seq<i64>, selected: Seq<i64>)
    ensures
        grants_of(menu, selected, selected) == Seq::<i64>::empty(),
        revokes_of(menu, selected, selected) == Seq::<i64>::empty(),
{
    let gp = |r: i64| selected.contains(r) && !selected.contains(r);
    let rp = |r: i64| selected.contains(r) && !selected.contains(r);
    broadcast use vstd::seq_lib::group_filter_ensures;
    if grants_of(menu, selected, selected).len() > 0 {
        menu.lemma_filter_pred(gp, 0);
    }
    if revokes_of(menu, selected, selected).len() > 0 {
        menu.lemma_filter_pred(rp, 0);
    }
    assert(grants_of(menu, selected, selected) =~= Seq::<i64>::empty());
    assert(revokes_of(menu, selected, selected) =~= Seq::<i64>::empty());
}

} // verus!
