use bean_bot::fortune::{build_matthias, matthias_line};
use bean_bot::messages::{delete_command, delete_reply, rename_command, rename_reply};
use bean_bot::menu::NewRoleMenu;
use bean_bot::names::{names_match, starts_with_chars};
use bean_bot::nulls::VecNoNulls;
use bean_bot::store::{MenuStore, StoreError};

#[test]
fn names_compare_without_case() {
    assert!(names_match("Colors", "cOLORS"));
    assert!(names_match("ÄRGER", "ärger"));
    assert!(!names_match("Colors", "Colours"));
    assert!(starts_with_chars("palette", "pal"));
    assert!(!starts_with_chars("pal", "palette"));
    assert!(starts_with_chars("x", ""));
}

#[test]
fn nulls_are_dropped_in_order() {
    let v: Vec<i64> = VecNoNulls::build(vec![Some(3), None, Some(1), None]).into();
    assert_eq!(v, vec![3, 1]);
    let e: Vec<i64> = VecNoNulls::build(vec![None, None]).into();
    assert!(e.is_empty());
}

#[test]
fn matthias_replies() {
    assert_eq!(matthias_line(0), "<:phoenix:900483319039402014> | Go slay!");
    assert_eq!(matthias_line(1), "<:phoenix:900483319039402014> | Big slay!");
    assert_eq!(matthias_line(2), "<:phoenix:900483319039402014> | slay!");
    let r = build_matthias();
    assert!((0..3).any(|i| matthias_line(i) == r));
}

#[test]
fn command_replies() {
    assert_eq!(delete_reply("x", 1), "Deleted role menu 'x'");
    assert_eq!(delete_reply("x", 0), "Could not find role menu 'x'");
    assert_eq!(rename_reply("a", "b", Ok(0)).ok().unwrap(), "Could not find role menu 'a'");
    assert_eq!(rename_reply("a", "b", Ok(1)).ok().unwrap(), "Renamed 'a' to 'b'");
    assert_eq!(rename_reply("a", "b", Err(StoreError::Conflict)).ok().unwrap(), "The role menu 'b' already exists");
    assert!(matches!(rename_reply("a", "b", Err(StoreError::Failure)), Err(StoreError::Failure)));
}

#[test]
fn commands_on_store() {
    let mut store = MenuStore::new();
    let m = NewRoleMenu { guild_id: 1, name: "colors".to_string(), max_selectable: None, roles: vec![1] };
    assert!(m.insert(&mut store).is_ok());
    let p = NewRoleMenu { guild_id: 1, name: "palette".to_string(), max_selectable: None, roles: vec![2] };
    assert!(p.insert(&mut store).is_ok());
    assert_eq!(rename_command(&mut store, 1, "colors", "PALETTE").ok().unwrap(), "The role menu 'PALETTE' already exists");
    assert_eq!(rename_command(&mut store, 1, "colors", "hues").ok().unwrap(), "Renamed 'colors' to 'hues'");
    assert_eq!(delete_command(&mut store, 1, "HUES"), "Deleted role menu 'HUES'");
    assert_eq!(delete_command(&mut store, 1, "hues"), "Could not find role menu 'hues'");
}
