use doordash_gen::identity::draw_email_tag;
use doordash_gen::identity::draw_phone_suffix;
use doordash_gen::identity::generate_password;
use doordash_gen::identity::make_email;
use doordash_gen::identity::make_phone;
use doordash_gen::identity::password_alphabet_str;
use doordash_gen::identity::password_from_indices;

const ALPHABET: &str = "ABCDEFGHIJKLMNOPQRSTUVWXYZabcdefghijklmnopqrstuvwxyz0123456789!@#$%^&*";

#[test]
fn email_is_name_plus_tag_at_domain() {
    let email = make_email("jane", 1234567890, "example.com");
    assert_eq!(email, "jane+1234567890@example.com");
}

#[test]
fn email_pattern_holds_at_tag_bounds() {
    assert_eq!(
        make_email("jane", 1000000000, "example.com"),
        "jane+1000000000@example.com"
    );
    assert_eq!(
        make_email("jane", 9999999999, "example.com"),
        "jane+9999999999@example.com"
    );
}

#[test]
fn email_tag_renders_as_ten_digits() {
    let email = make_email("a", 4242424242, "b.c");
    let plus = email.find('+').unwrap();
    let at = email.find('@').unwrap();
    let tag = &email[plus + 1..at];
    assert_eq!(tag.len(), 10);
    assert!(tag.chars().all(|c| c.is_ascii_digit()));
}

#[test]
fn phone_is_area_code_plus_six_digits() {
    assert_eq!(make_phone(123456), "0452123456");
    assert_eq!(make_phone(100000), "0452100000");
    assert_eq!(make_phone(999999), "0452999999");
}

#[test]
fn phone_has_length_ten() {
    let phone = make_phone(314159);
    assert_eq!(phone.len(), 10);
    assert!(phone.starts_with("0452"));
    assert!(phone[4..].chars().all(|c| c.is_ascii_digit()));
}

#[test]
fn password_from_indices_picks_alphabet_positions() {
    let indices: Vec<u8> = (0..14).collect();
    assert_eq!(password_from_indices(&indices), "ABCDEFGHIJKLMN");
    assert_eq!(password_from_indices(&vec![69, 68, 67]), "*&^");
    assert_eq!(password_from_indices(&vec![]), "");
}

#[test]
fn alphabet_is_the_declared_one() {
    assert_eq!(password_alphabet_str(), ALPHABET);
    assert_eq!(ALPHABET.len(), 70);
}

#[test]
fn generated_password_is_fourteen_alphabet_chars() {
    for _ in 0..20 {
        let pw = generate_password();
        assert_eq!(pw.chars().count(), 14);
        assert!(pw.chars().all(|c| ALPHABET.contains(c)));
    }
}

#[test]
fn drawn_tag_is_ten_digits_wide() {
    for _ in 0..20 {
        let tag = draw_email_tag();
        assert!((1000000000..=9999999999).contains(&tag));
    }
}

#[test]
fn drawn_suffix_is_six_digits_wide() {
    for _ in 0..20 {
        let suffix = draw_phone_suffix();
        assert!((100000..=999999).contains(&suffix));
    }
}
