use doggy_daycare::strmap::{same_text, StrMap};
use doggy_daycare::text::{has_part, has_prefix, matches_at};

#[test]
fn prefixes() {
    assert!(has_prefix("rex_Daycare", "rex_"));
    assert!(has_prefix("rex_", "rex_"));
    assert!(has_prefix("anything", ""));
    assert!(!has_prefix("rex", "rex_"));
    assert!(!has_prefix("Rex_Daycare", "rex_"));
    assert!(has_prefix("\u{fc}ber", "\u{fc}"));
}

#[test]
fn parts() {
    assert!(has_part("an Auto-scheduled entry", "Auto-scheduled"));
    assert!(has_part("Auto-scheduled", "Auto-scheduled"));
    assert!(has_part("abc", ""));
    assert!(has_part("", ""));
    assert!(!has_part("", "a"));
    assert!(!has_part("Auto-schedule", "Auto-scheduled"));
    assert!(has_part("aab", "ab"));
    assert!(has_part("caf\u{e9} au lait", "\u{e9} au"));
}

#[test]
fn matching_at_a_position() {
    assert!(matches_at("hello", "ll", 2));
    assert!(!matches_at("hello", "ll", 3));
    assert!(matches_at("hello", "", 5));
    assert!(!matches_at("hello", "", 6));
    assert!(!matches_at("hello", "lo!", 3));
}

#[test]
fn same_texts() {
    assert!(same_text("", ""));
    assert!(same_text("abc", "abc"));
    assert!(!same_text("abc", "abd"));
    assert!(!same_text("abc", "ab"));
    assert!(!same_text("e\u{301}", "\u{e9}"));
}

#[test]
fn a_map_holds_one_value_for_each_key() {
    let mut map: StrMap<u32> = StrMap::new();
    assert_eq!(map.len(), 0);
    assert!(map.get("a").is_none());
    map.insert("a".to_string(), 1);
    map.insert("b".to_string(), 2);
    map.insert("a".to_string(), 3);
    assert_eq!(map.len(), 2);
    assert_eq!(map.get("a"), Some(&3));
    assert_eq!(map.get("b"), Some(&2));
    assert!(map.contains_key("b"));
    assert!(!map.contains_key("c"));
    assert_eq!(map.keys(), vec!["a".to_string(), "b".to_string()]);
    assert_eq!(map.key_at(1), "b");
    assert_eq!(map.remove("a"), Some(3));
    assert_eq!(map.remove("a"), None);
    assert_eq!(map.len(), 1);
    assert_eq!(map.keys(), vec!["b".to_string()]);
    let copy = map.clone();
    assert_eq!(copy.get("b"), Some(&2));
    assert_eq!(copy.len(), 1);
}
