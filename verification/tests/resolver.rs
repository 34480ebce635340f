use bidimail::language::{resolve, toggle_code, UnsupportedLanguage};
use bidimail::localization::LocalizationTable;

#[test]
fn resolve_english_is_left_to_right() {
    assert_eq!(resolve("en"), Ok(true));
}

#[test]
fn resolve_arabic_is_right_to_left() {
    assert_eq!(resolve("ar"), Ok(false));
}

#[test]
fn resolve_is_deterministic() {
    assert_eq!(resolve("en"), resolve("en"));
    assert_eq!(resolve("ar"), resolve("ar"));
}

#[test]
fn resolve_rejects_unknown_codes() {
    assert_eq!(resolve("fr"), Err(UnsupportedLanguage));
    assert_eq!(resolve(""), Err(UnsupportedLanguage));
    assert_eq!(resolve("EN"), Err(UnsupportedLanguage));
    assert_eq!(resolve("en "), Err(UnsupportedLanguage));
    assert_eq!(resolve("arabic"), Err(UnsupportedLanguage));
}

#[test]
fn toggle_swaps_the_two_codes() {
    let en = String::from("en");
    let ar = toggle_code(&en);
    assert_eq!(ar, "ar");
    let back = toggle_code(&ar);
    assert_eq!(back, "en");
}

#[test]
fn lookup_hits_and_misses() {
    let mut table = LocalizationTable::new();
    table.insert("en", "folders", "Folders");
    table.insert("ar", "folders", "مجلدات");
    assert_eq!(table.lookup("en", "folders").as_deref(), Some("Folders"));
    assert_eq!(table.lookup("ar", "folders").as_deref(), Some("مجلدات"));
    assert_eq!(table.lookup("en", "inbox"), None);
    assert_eq!(table.lookup("fr", "folders"), None);
}

#[test]
fn lookup_on_empty_table_misses() {
    let table = LocalizationTable::new();
    assert_eq!(table.lookup("en", "folders"), None);
    assert_eq!(table.len(), 0);
}

#[test]
fn later_insert_overrides_earlier() {
    let mut table = LocalizationTable::new();
    table.insert("en", "inbox", "Inbox");
    table.insert("en", "inbox", "Mailbox");
    assert_eq!(table.lookup("en", "inbox").as_deref(), Some("Mailbox"));
    assert_eq!(table.len(), 2);
}
