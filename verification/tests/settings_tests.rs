use doordash_gen::settings::resolve;
use doordash_gen::settings::ConfigError;
use doordash_gen::settings::RawSettings;

const ALPHABET: &str = "ABCDEFGHIJKLMNOPQRSTUVWXYZabcdefghijklmnopqrstuvwxyz0123456789!@#$%^&*";

fn full_raw() -> RawSettings {
    RawSettings {
        first_name: Some("Jane".to_string()),
        last_name: Some("Doe".to_string()),
        email_name: Some("jane".to_string()),
        email_domain: Some("example.com".to_string()),
        address: Some("1 Main St".to_string()),
        password: None,
        quantity: None,
        save_to_file: None,
        headless: None,
        chromedriver_port: None,
    }
}

#[test]
fn defaults_are_applied() {
    let c = resolve(full_raw()).unwrap();
    assert_eq!(c.first_name, "Jane");
    assert_eq!(c.last_name, "Doe");
    assert_eq!(c.email_name, "jane");
    assert_eq!(c.email_domain, "example.com");
    assert_eq!(c.address, "1 Main St");
    assert_eq!(c.quantity, 1);
    assert!(c.save_to_file);
    assert!(c.headless);
    assert_eq!(c.chromedriver_port, 9515);
}

#[test]
fn missing_password_is_generated() {
    let c = resolve(full_raw()).unwrap();
    assert_eq!(c.password.chars().count(), 14);
    assert!(c.password.chars().all(|ch| ALPHABET.contains(ch)));
}

#[test]
fn explicit_values_survive() {
    let mut raw = full_raw();
    raw.password = Some("hunter2hunter2".to_string());
    raw.quantity = Some(5);
    raw.save_to_file = Some(false);
    raw.headless = Some(false);
    raw.chromedriver_port = Some(4444);
    let c = resolve(raw).unwrap();
    assert_eq!(c.password, "hunter2hunter2");
    assert_eq!(c.quantity, 5);
    assert!(!c.save_to_file);
    assert!(!c.headless);
    assert_eq!(c.chromedriver_port, 4444);
}

#[test]
fn each_missing_identity_field_is_fatal() {
    let mut raw = full_raw();
    raw.first_name = None;
    assert!(matches!(resolve(raw), Err(ConfigError::MissingFirstName)));

    let mut raw = full_raw();
    raw.last_name = None;
    assert!(matches!(resolve(raw), Err(ConfigError::MissingLastName)));

    let mut raw = full_raw();
    raw.email_name = None;
    assert!(matches!(resolve(raw), Err(ConfigError::MissingEmailName)));

    let mut raw = full_raw();
    raw.email_domain = None;
    assert!(matches!(resolve(raw), Err(ConfigError::MissingEmailDomain)));

    let mut raw = full_raw();
    raw.address = None;
    assert!(matches!(resolve(raw), Err(ConfigError::MissingAddress)));
}

#[test]
fn first_missing_field_wins() {
    let mut raw = full_raw();
    raw.first_name = None;
    raw.address = None;
    assert!(matches!(resolve(raw), Err(ConfigError::MissingFirstName)));
}
