use cursor_reset::account::CursorEmail;
use cursor_reset::color::{blue, green, red, yellow};
use cursor_reset::digits::dec_string;
use cursor_reset::hexid::{generate_id, to_hex16};
use cursor_reset::names::NameGenerator;

#[test]
fn test_email_generation() {
    let email = CursorEmail::new("example.com");

    assert!(email.email.contains('@'));
    assert!(email.email.ends_with("example.com"));
    assert!(email.email.contains(&email.first_name.to_lowercase()));
    assert!(email.email.contains(&email.last_name.to_lowercase()));

    assert!(email.password.starts_with(&email.first_name));
    assert!(email.password.len() > email.first_name.len());
}

#[test]
fn test_name_generation() {
    let mut generator = NameGenerator::new();
    let (first_name, last_name) = generator.generate_name();

    assert!(!first_name.is_empty());
    assert!(!last_name.is_empty());
    assert!(first_name.chars().any(|c| c.is_digit(10)));
    assert!(last_name.chars().any(|c| c.is_digit(10)));
}

#[test]
fn test_password_generation() {
    let mut generator = NameGenerator::new();
    let (first_name, _) = generator.generate_name();
    let password = generator.generate_password(&first_name);

    assert!(password.starts_with(&first_name));
    assert!(password.chars().skip(first_name.len()).all(|c| c.is_digit(10)));
    assert!(password.len() > first_name.len());
}

#[test]
fn hex_id_is_sixteen_lowercase_hex_digits() {
    let id = generate_id();
    assert_eq!(id.len(), 16);
    assert!(id.chars().all(|c| c.is_ascii_hexdigit() && !c.is_ascii_uppercase()));
}

#[test]
fn hex_rendering_exact_values() {
    assert_eq!(to_hex16(0), "0000000000000000");
    assert_eq!(to_hex16(0x123456789abcdef0), "123456789abcdef0");
    assert_eq!(to_hex16(u64::MAX), "ffffffffffffffff");
}

#[test]
fn dec_rendering_exact_values() {
    assert_eq!(dec_string(42, 6), "000042");
    assert_eq!(dec_string(999, 3), "999");
    assert_eq!(dec_string(0, 8), "00000000");
}

#[test]
fn color_wrapping_exact() {
    assert_eq!(green("ok"), "\x1b[32mok\x1b[0m");
    assert_eq!(red("no"), "\x1b[31mno\x1b[0m");
    assert_eq!(yellow("eh"), "\x1b[33meh\x1b[0m");
    assert_eq!(blue("hm"), "\x1b[34mhm\x1b[0m");
}

#[test]
fn lowercase_is_ascii_only() {
    let email = CursorEmail::new("test.org");
    // The generated address is the lower-cased name pair joined with a dot.
    let at = email.email.find('@').unwrap();
    let local = &email.email[..at];
    assert_eq!(local, local.to_lowercase());
    assert_eq!(
        local,
        format!(
            "{}.{}",
            email.first_name.to_lowercase(),
            email.last_name.to_lowercase()
        )
    );
}
