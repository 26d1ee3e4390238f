use vaulty::listing::{entries_for_service, nth_entry_index, unique_services};
use vaulty::models::{Entry, Vault};
use vaulty::strength::{classify_password_strength, validate_master_passphrase, PassphraseIssue};

fn entry(name: &str, email: &str) -> Entry {
    Entry::create("id".to_string(), name.to_string(), email.to_string(), "pw".to_string(), None, None).unwrap()
}

fn sample() -> Vault {
    let mut v = Vault::empty();
    v.entries.push(entry("mail", "a@x"));
    v.entries.push(entry("bank", "b@x"));
    v.entries.push(entry("mail", "c@x"));
    v.entries.push(entry("Zoo", "d@x"));
    v
}

#[test]
fn services_sorted_and_unique() {
    let v = sample();
    assert_eq!(unique_services(&v), vec!["Zoo".to_string(), "bank".to_string(), "mail".to_string()]);
    assert!(unique_services(&Vault::empty()).is_empty());
}

#[test]
fn entries_of_selected_service() {
    let v = sample();
    let (services, entries) = entries_for_service(&v, 2);
    assert_eq!(services.len(), 3);
    let emails: Vec<&str> = entries.iter().map(|e| e.email.as_str()).collect();
    assert_eq!(emails, vec!["a@x", "c@x"]);
    let (_, clamped) = entries_for_service(&v, 99);
    assert_eq!(clamped.len(), 2);
    let nothing = Vault::empty();
    let (none, empty) = entries_for_service(&nothing, 0);
    assert!(none.is_empty() && empty.is_empty());
}

#[test]
fn nth_entry_of_service() {
    let v = sample();
    assert_eq!(nth_entry_index(&v, "mail", 0), Some(0));
    assert_eq!(nth_entry_index(&v, "mail", 1), Some(2));
    assert_eq!(nth_entry_index(&v, "mail", 2), None);
    assert_eq!(nth_entry_index(&v, "none", 0), None);
}

#[test]
fn entry_creation_requires_name_email_password() {
    assert!(Entry::create("i".to_string(), "".to_string(), "e".to_string(), "p".to_string(), None, None).is_none());
    assert!(Entry::create("i".to_string(), "n".to_string(), "".to_string(), "p".to_string(), None, None).is_none());
    assert!(Entry::create("i".to_string(), "n".to_string(), "e".to_string(), "".to_string(), None, None).is_none());
    let e = Entry::create("i".to_string(), "n".to_string(), "e".to_string(), "p".to_string(), Some("u".to_string()), None).unwrap();
    assert_eq!(e.id, "i");
    assert_eq!((e.name.as_str(), e.email.as_str(), e.password.as_str()), ("n", "e", "p"));
    assert_eq!(e.username.as_deref(), Some("u"));
}

#[test]
fn strength_levels() {
    let weak = classify_password_strength("Ab1!");
    assert_eq!((weak.label.as_str(), weak.level), ("Weak", 1));
    let average = classify_password_strength("abcdefgh1");
    assert_eq!((average.label.as_str(), average.level), ("Weak", 1));
    let avg2 = classify_password_strength("abcdefG1");
    assert_eq!((avg2.label.as_str(), avg2.level), ("Average", 2));
    let strong = classify_password_strength("abcdefG1!xyz");
    assert_eq!((strong.label.as_str(), strong.level), ("Strong", 3));
    let excellent = classify_password_strength("abcdefG1!xyzabcdefgh");
    assert_eq!((excellent.label.as_str(), excellent.level), ("Excellent", 4));
}

#[test]
fn master_passphrase_rule() {
    assert_eq!(validate_master_passphrase("Ab1!"), Err(PassphraseIssue::TooShort));
    assert_eq!(validate_master_passphrase("abcdefg1!"), Err(PassphraseIssue::NoUppercase));
    assert_eq!(validate_master_passphrase("Abcdefgh!"), Err(PassphraseIssue::NoDigit));
    assert_eq!(validate_master_passphrase("Abcdefgh1 "), Err(PassphraseIssue::NoSpecial));
    assert_eq!(validate_master_passphrase("Str0ng!Pass"), Ok(()));
    assert_eq!(validate_master_passphrase("Ab1!ééé"), Ok(()));
    assert_eq!(validate_master_passphrase("Abcdefg1é"), Err(PassphraseIssue::NoSpecial));
    assert_eq!(PassphraseIssue::NoDigit.message(), "Password should include at least one number.");
}
