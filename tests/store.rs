use bean_bot::menu::{NewRoleMenu, RoleMenu};
use bean_bot::store::{MenuStore, StoreError};

fn new_menu(guild_id: i64, name: &str, max_selectable: Option<i32>, roles: Vec<i64>) -> NewRoleMenu {
    NewRoleMenu { guild_id, name: name.to_string(), max_selectable, roles }
}

#[test]
fn created_menu_is_found_by_any_case() {
    let mut store = MenuStore::new();
    assert!(new_menu(7, "Colors", Some(1), vec![10, 20]).insert(&mut store).is_ok());
    for query in ["Colors", "colors", "COLORS", "cOlOrS"] {
        let m = RoleMenu::find(&store, 7, query).expect("menu should be found");
        assert_eq!(m.name, "Colors");
        assert_eq!(m.guild_id, 7);
        assert_eq!(m.max_selectable, Some(1));
        assert_eq!(m.roles, vec![10, 20]);
    }
    assert!(RoleMenu::find(&store, 8, "colors").is_none());
    assert!(RoleMenu::find(&store, 7, "colour").is_none());
}

#[test]
fn second_create_with_case_variant_conflicts() {
    let mut store = MenuStore::new();
    assert!(new_menu(7, "colors", None, vec![1]).insert(&mut store).is_ok());
    let r = new_menu(7, "COLORS", None, vec![2]).insert(&mut store);
    assert!(matches!(r, Err(StoreError::Conflict)));
    assert_eq!(store.len(), 1);
    assert_eq!(RoleMenu::find(&store, 7, "colors").unwrap().roles, vec![1]);
    // Another guild may use the same name.
    assert!(new_menu(8, "Colors", None, vec![3]).insert(&mut store).is_ok());
    assert_eq!(store.len(), 2);
}

#[test]
fn insert_assigns_ids_and_drops_repeated_roles() {
    let mut store = MenuStore::new();
    assert!(new_menu(1, "a", None, vec![5, 3, 5, 9, 3]).insert(&mut store).is_ok());
    assert!(new_menu(1, "b", None, vec![]).insert(&mut store).is_ok());
    let a = RoleMenu::find(&store, 1, "a").unwrap();
    let b = RoleMenu::find(&store, 1, "b").unwrap();
    assert_eq!(a.roles, vec![5, 3, 9]);
    assert_eq!(a.id, 1);
    assert_eq!(b.id, 2);
}

#[test]
fn search_with_empty_prefix_lists_all_names_of_guild() {
    let mut store = MenuStore::new();
    for name in ["colors", "Pronouns", "games"] {
        assert!(new_menu(3, name, None, vec![1]).insert(&mut store).is_ok());
    }
    assert!(new_menu(4, "elsewhere", None, vec![1]).insert(&mut store).is_ok());
    assert_eq!(RoleMenu::comp_rolemenu(&store, 3, ""), vec!["colors", "Pronouns", "games"]);
    assert_eq!(RoleMenu::comp_rolemenu(&store, 3, "pro"), vec!["Pronouns"]);
    assert_eq!(RoleMenu::comp_rolemenu(&store, 3, "G"), vec!["games"]);
    assert!(RoleMenu::comp_rolemenu(&store, 3, "zzz").is_empty());
    assert!(RoleMenu::comp_rolemenu(&store, 5, "").is_empty());
}

#[test]
fn search_is_capped_at_selector_limit() {
    let mut store = MenuStore::new();
    for i in 0..30 {
        let name = format!("menu{}", i);
        assert!(new_menu(3, &name, None, vec![1]).insert(&mut store).is_ok());
    }
    let names = RoleMenu::comp_rolemenu(&store, 3, "MENU");
    assert_eq!(names.len(), 25);
    assert_eq!(names[0], "menu0");
    assert_eq!(names[24], "menu24");
}

#[test]
fn delete_missing_menu_returns_zero() {
    let mut store = MenuStore::new();
    assert_eq!(RoleMenu::delete(&mut store, 1, "nothing"), 0);
    assert!(new_menu(1, "Colors", None, vec![1]).insert(&mut store).is_ok());
    assert_eq!(RoleMenu::delete(&mut store, 2, "colors"), 0);
    assert_eq!(store.len(), 1);
    assert_eq!(RoleMenu::delete(&mut store, 1, "COLORS"), 1);
    assert_eq!(store.len(), 0);
    assert!(RoleMenu::find(&store, 1, "colors").is_none());
    assert_eq!(RoleMenu::delete(&mut store, 1, "colors"), 0);
}

#[test]
fn rename_onto_existing_name_conflicts() {
    let mut store = MenuStore::new();
    assert!(new_menu(1, "colors", None, vec![1, 2]).insert(&mut store).is_ok());
    assert!(new_menu(1, "palette", None, vec![3]).insert(&mut store).is_ok());
    let r = RoleMenu::rename(&mut store, 1, "colors", "Palette");
    assert!(matches!(r, Err(StoreError::Conflict)));
    let colors = RoleMenu::find(&store, 1, "colors").unwrap();
    assert_eq!(colors.name, "colors");
    assert_eq!(colors.roles, vec![1, 2]);
    assert_eq!(RoleMenu::find(&store, 1, "palette").unwrap().roles, vec![3]);
}

#[test]
fn rename_moves_menu_to_new_name() {
    let mut store = MenuStore::new();
    assert!(new_menu(1, "colors", Some(2), vec![1, 2]).insert(&mut store).is_ok());
    assert!(matches!(RoleMenu::rename(&mut store, 1, "COLORS", "hues"), Ok(1)));
    assert!(RoleMenu::find(&store, 1, "colors").is_none());
    let m = RoleMenu::find(&store, 1, "HUES").unwrap();
    assert_eq!(m.name, "hues");
    assert_eq!(m.roles, vec![1, 2]);
    assert_eq!(m.max_selectable, Some(2));
    // A change of case only is no conflict with itself.
    assert!(matches!(RoleMenu::rename(&mut store, 1, "hues", "Hues"), Ok(1)));
    assert_eq!(RoleMenu::find(&store, 1, "hues").unwrap().name, "Hues");
    // Nothing to rename.
    assert!(matches!(RoleMenu::rename(&mut store, 1, "colors", "x"), Ok(0)));
}
