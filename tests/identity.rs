use replit_xray::identity::{choose_identity, resolve_identity};

fn is_uuid_v4(s: &str) -> bool {
    let c: Vec<char> = s.chars().collect();
    c.len() == 36
        && c.iter().enumerate().all(|(i, ch)| {
            if [8, 13, 18, 23].contains(&i) {
                *ch == '-'
            } else {
                ch.is_ascii_digit() || ('a'..='f').contains(ch)
            }
        })
        && c[14] == '4'
        && "89ab".contains(c[19])
}

#[test]
fn stored_identity_is_used_without_write() {
    let r = resolve_identity(Some("U1".to_string()));
    assert_eq!(r.identity, "U1");
    assert!(!r.persist);
}

#[test]
fn absent_identity_is_generated_and_written() {
    let r = resolve_identity(None);
    assert!(is_uuid_v4(&r.identity), "{}", r.identity);
    assert!(r.persist);
    let again = resolve_identity(None);
    assert_ne!(r.identity, again.identity);
}

#[test]
fn empty_stored_identity_counts_as_absent() {
    let r = resolve_identity(Some(String::new()));
    assert!(is_uuid_v4(&r.identity));
    assert!(r.persist);
}

#[test]
fn choose_identity_with_fresh_value() {
    let kept = choose_identity(Some("U1".to_string()), "F".to_string());
    assert_eq!((kept.identity.as_str(), kept.persist), ("U1", false));
    let fresh = choose_identity(None, "F".to_string());
    assert_eq!((fresh.identity.as_str(), fresh.persist), ("F", true));
    let empty = choose_identity(Some(String::new()), "F".to_string());
    assert_eq!((empty.identity.as_str(), empty.persist), ("F", true));
}
