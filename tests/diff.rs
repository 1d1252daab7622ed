use bean_bot::diff::{compute_diff, contains_role};

#[test]
fn diff_grants_selected_and_revokes_unselected() {
    let menu = vec![1, 2, 3, 4];
    let current = vec![1, 2];
    let selected = vec![2, 3];
    let d = compute_diff(&menu, &current, &selected);
    assert_eq!(d.grant, vec![3]);
    assert_eq!(d.revoke, vec![1]);
    // Applying the diff to the held roles leaves exactly the selection.
    let mut after: Vec<i64> = current.iter().copied().filter(|r| !d.revoke.contains(r)).collect();
    after.extend(d.grant.iter().copied());
    after.sort();
    assert_eq!(after, vec![2, 3]);
}

#[test]
fn diff_again_with_selection_held_is_empty() {
    let menu = vec![5, 6, 7];
    let selected = vec![7, 5];
    let d = compute_diff(&menu, &selected, &selected);
    assert!(d.grant.is_empty());
    assert!(d.revoke.is_empty());
}

#[test]
fn diff_ignores_roles_outside_the_menu() {
    let menu = vec![1, 2];
    let current = vec![1, 99];
    let selected = vec![2, 42];
    let d = compute_diff(&menu, &current, &selected);
    assert_eq!(d.grant, vec![2]);
    assert_eq!(d.revoke, vec![1]);
}

#[test]
fn diff_colors_scenario() {
    let red = 100;
    let green = 200;
    let menu = vec![red, green];
    let current = vec![red];
    let selected = vec![green];
    let d = compute_diff(&menu, &current, &selected);
    assert_eq!(d.grant, vec![green]);
    assert_eq!(d.revoke, vec![red]);
    let mut after: Vec<i64> = current.iter().copied().filter(|r| !d.revoke.contains(r)).collect();
    after.extend(d.grant.iter().copied());
    assert_eq!(after, vec![green]);
}

#[test]
fn contains_role_finds_members() {
    assert!(contains_role(&vec![3, 4], 4));
    assert!(!contains_role(&vec![3, 4], 5));
    assert!(!contains_role(&vec![], 5));
}
