use zed::{installation_id, installation_id_for, INSTALLATION_ID_KEY, LEGACY_INSTALLATION_ID_KEY};

fn found(s: &str) -> Result<Option<String>, ()> {
    Ok(Some(s.to_string()))
}

#[test]
fn installation_keys() {
    assert_eq!(LEGACY_INSTALLATION_ID_KEY, "device_id");
    assert_eq!(INSTALLATION_ID_KEY, "installation_id");
}

#[test]
fn legacy_id_is_migrated() {
    let r = installation_id_for(found("legacy"), found("current"), "fresh".to_string());
    assert_eq!(r.id, "legacy");
    assert!(r.existing && r.store && r.delete_legacy);
}

#[test]
fn current_id_is_kept() {
    let r = installation_id_for(Ok::<_, ()>(None), found("current"), "fresh".to_string());
    assert_eq!(r.id, "current");
    assert!(r.existing && !r.store && !r.delete_legacy);
}

#[test]
fn failed_legacy_read_counts_as_missing() {
    let r = installation_id_for(Err::<Option<String>, &str>("io"), found("current"), "fresh".to_string());
    assert_eq!(r.id, "current");
    assert!(r.existing);
}

#[test]
fn fresh_id_is_stored() {
    let r = installation_id_for(Ok::<_, ()>(None), Err::<Option<String>, ()>(()), "fresh".to_string());
    assert_eq!(r.id, "fresh");
    assert!(!r.existing && r.store && !r.delete_legacy);
}

#[test]
fn new_installation_gets_hyphenated_uuid() {
    let r = installation_id(Ok::<_, ()>(None), Ok::<_, ()>(None));
    assert!(!r.existing && r.store && !r.delete_legacy);
    assert_eq!(r.id.len(), 36);
    for (i, c) in r.id.chars().enumerate() {
        if i == 8 || i == 13 || i == 18 || i == 23 {
            assert_eq!(c, '-');
        } else {
            assert!(c.is_ascii_digit() || ('a'..='f').contains(&c));
        }
    }
    let other = installation_id(Ok::<_, ()>(None), Ok::<_, ()>(None));
    assert_ne!(r.id, other.id);
}

#[test]
fn stored_installation_id_is_not_replaced() {
    let r = installation_id(Ok::<_, ()>(None), found("kept"));
    assert_eq!(r.id, "kept");
    assert!(r.existing && !r.store);
}
