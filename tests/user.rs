use std::collections::HashSet;

use user_core::{User, UserId, UserName};

const MASK: u128 = 0xF000_C000_0000_0000_0000;
const MARK: u128 = 0x4000_8000_0000_0000_0000;

fn hex_value(text: &str) -> u128 {
    let digits: String = text.chars().filter(|c| *c != '-').collect();
    u128::from_str_radix(&digits, 16).unwrap()
}

#[test]
fn user_keeps_name() {
    let name = UserName::new("alice".to_string()).unwrap();
    let user = User::new(name);
    assert_eq!(user.name().to_string(), "alice");
}

#[test]
fn user_clone_keeps_fields() {
    let user = User::new(UserName::new("bob".to_string()).unwrap());
    let copy = user.clone();
    assert_eq!(copy.id(), user.id());
    assert_eq!(copy.name().to_string(), "bob");
}

#[test]
fn ids_have_random_uuid_bits() {
    for _ in 0..100 {
        let id = UserId::new();
        assert_eq!(id.as_u128() & MASK, MARK);
    }
}

#[test]
fn ten_thousand_ids_distinct() {
    let mut seen = HashSet::new();
    for _ in 0..10_000 {
        let user = User::new(UserName::new("dup".to_string()).unwrap());
        assert!(seen.insert(*user.id()));
    }
    assert_eq!(seen.len(), 10_000);
}

#[test]
fn id_text_is_hyphenated_hex() {
    let id = UserId::new();
    let text = id.to_string();
    assert_eq!(text.len(), 36);
    for (i, c) in text.chars().enumerate() {
        if i == 8 || i == 13 || i == 18 || i == 23 {
            assert_eq!(c, '-');
        } else {
            assert!(c.is_ascii_hexdigit() && !c.is_ascii_uppercase());
        }
    }
    assert_eq!(text.chars().nth(14), Some('4'));
    assert_eq!(hex_value(&text), id.as_u128());
}

#[test]
fn id_text_differs_from_decimal() {
    let id = UserId::new();
    assert_ne!(id.to_string(), id.as_u128().to_string());
}
