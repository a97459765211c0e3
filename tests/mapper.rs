use std::cell::Cell;

use luksctl::error::LuksError;
use luksctl::locale::{detect_locale, select_language};
use luksctl::mapper::{
    generate_mapper_name, generate_unique_mapper_name, generate_unique_mapper_name_with,
    get_mapper_path, mapper_exists, mapper_name_for,
};
use luksctl::validate::validate_owned_mapper_name;

#[test]
fn generated_names_are_owned() {
    let a = generate_mapper_name();
    let b = generate_mapper_name();
    assert!(a.starts_with("luks-"));
    assert_eq!(a.len(), 41);
    assert_eq!(validate_owned_mapper_name(&a), Ok(()));
    assert_ne!(a, b);
    assert_eq!(&a[19..20], "4");
    assert!(["8", "9", "a", "b"].contains(&&a[24..25]));
    let id: Vec<char> = a[5..].chars().collect();
    for (i, c) in id.iter().enumerate() {
        if [8, 13, 18, 23].contains(&i) {
            assert_eq!(*c, '-');
        } else {
            assert!(c.is_ascii_hexdigit() && !c.is_ascii_uppercase());
        }
    }
}

#[test]
fn mapper_paths() {
    assert_eq!(get_mapper_path("luks-1"), "/dev/mapper/luks-1");
    assert_eq!(get_mapper_path(""), "/dev/mapper/");
    assert_eq!(get_mapper_path("/abs"), "/abs");
}

#[test]
fn absent_mapper_does_not_exist() {
    assert!(!mapper_exists("luks-00000000-0000-0000-0000-000000000000-absent"));
}

#[test]
fn retry_bound_is_ten() {
    let calls = Cell::new(0u32);
    let mut tried = Vec::new();
    let r = generate_unique_mapper_name_with(
        &|_n: &str| {
            calls.set(calls.get() + 1);
            true
        },
        &mut tried,
    );
    assert_eq!(r, Err(LuksError::IdentityExhausted));
    assert_eq!(calls.get(), 10);
    assert_eq!(tried.len(), 10);
    for (i, a) in tried.iter().enumerate() {
        assert!(a.starts_with("luks-"));
        for b in &tried[i + 1..] {
            assert_ne!(a, b);
        }
    }
}

#[test]
fn free_name_taken_first_time() {
    let calls = Cell::new(0u32);
    let mut tried = Vec::new();
    let r = generate_unique_mapper_name_with(
        &|_n: &str| {
            calls.set(calls.get() + 1);
            false
        },
        &mut tried,
    );
    let name = r.unwrap();
    assert!(name.starts_with("luks-"));
    assert_eq!(calls.get(), 1);
    assert_eq!(tried, vec![name]);
}

#[test]
fn collision_then_success() {
    let calls = Cell::new(0u32);
    let mut tried = vec!["earlier".to_string()];
    let r = generate_unique_mapper_name_with(
        &|_n: &str| {
            calls.set(calls.get() + 1);
            calls.get() < 3
        },
        &mut tried,
    );
    assert_eq!(calls.get(), 3);
    assert_eq!(tried.len(), 4);
    assert_eq!(tried[0], "earlier");
    assert_eq!(r, Ok(tried[3].clone()));
}

#[test]
fn test_detect_locale() {
    let locale = detect_locale();
    assert!(["en", "ko", "ja"].contains(&locale.as_str()) || locale == "en");
}

#[test]
fn language_selection() {
    assert_eq!(select_language(&Some("ko-KR".to_string())), "ko");
    assert_eq!(select_language(&Some("ja_JP.UTF-8".to_string())), "ja");
    assert_eq!(select_language(&Some("en".to_string())), "en");
    assert_eq!(select_language(&Some("fr-FR".to_string())), "en");
    assert_eq!(select_language(&None), "en");
}

#[test]
fn name_for_drawn_id() {
    assert_eq!(
        mapper_name_for("123e4567-e89b-42d3-a456-426614174000"),
        "luks-123e4567-e89b-42d3-a456-426614174000"
    );
    assert_eq!(mapper_name_for(""), "luks-");
}

#[test]
fn unique_name_from_live_namespace() {
    let name = generate_unique_mapper_name().unwrap();
    assert_eq!(validate_owned_mapper_name(&name), Ok(()));
}
