use newsletter::domain::{
    char_is_forbidden_in_name, check_email, check_name, validate, SubscriberEmail, SubscriberName,
    ValidationError, MAX_EMAIL_CHARS, MAX_NAME_GRAPHEMES,
};
use newsletter::text::{
    char_is_ascii_alphanumeric, char_is_whitespace, chars_of, find_char, text_has_whitespace,
    text_is_blank,
};

fn name(s: &str) -> Result<SubscriberName, ValidationError> {
    SubscriberName::parse(s.to_string())
}

fn email(s: &str) -> Result<SubscriberEmail, ValidationError> {
    SubscriberEmail::parse(s.to_string())
}

#[test]
fn a_plain_name_and_address_are_accepted() {
    let subscriber = validate("ankit sharma", "email@gmail.com").unwrap();
    assert_eq!(subscriber.name.as_str(), "ankit sharma");
    assert_eq!(subscriber.email.as_str(), "email@gmail.com");
}

#[test]
fn validated_data_is_kept_as_given() {
    let subscriber = validate("  le mans ", "Test@Gmail.com").unwrap();
    assert_eq!(subscriber.name.as_str(), "  le mans ");
    assert_eq!(subscriber.email.as_str(), "Test@Gmail.com");
}

#[test]
fn an_empty_name_is_rejected_before_the_address_is_read() {
    assert_eq!(validate("", ""), Err(ValidationError::EmptyName));
    assert_eq!(validate("", "email@gmail.com"), Err(ValidationError::EmptyName));
    assert_eq!(validate("(", "not-an-email"), Err(ValidationError::ForbiddenCharacter));
}

#[test]
fn a_fault_of_the_address_is_reported_for_a_good_name() {
    assert_eq!(validate("kit", ""), Err(ValidationError::EmptyEmail));
    assert_eq!(validate("kit", "not-an-email"), Err(ValidationError::MalformedEmail));
}

#[test]
fn an_empty_name_is_rejected() {
    assert_eq!(name(""), Err(ValidationError::EmptyName));
}

#[test]
fn a_name_of_white_space_is_rejected() {
    assert_eq!(name(" "), Err(ValidationError::EmptyName));
    assert_eq!(name(" \t\n\u{a0}\u{3000}"), Err(ValidationError::EmptyName));
}

#[test]
fn a_name_of_256_graphemes_is_accepted() {
    let long = "ё".repeat(MAX_NAME_GRAPHEMES);
    assert_eq!(name(&long).unwrap().as_str(), long);
}

#[test]
fn a_name_of_257_graphemes_is_rejected() {
    let long = "a".repeat(MAX_NAME_GRAPHEMES + 1);
    assert_eq!(name(&long), Err(ValidationError::NameTooLong));
}

#[test]
fn the_length_of_a_name_is_counted_in_grapheme_clusters() {
    // 256 clusters of two characters each: 512 characters, 768 bytes.
    let long = "e\u{301}".repeat(MAX_NAME_GRAPHEMES);
    assert_eq!(long.chars().count(), 512);
    assert!(name(&long).is_ok());
    let longer = "e\u{301}".repeat(MAX_NAME_GRAPHEMES + 1);
    assert_eq!(name(&longer), Err(ValidationError::NameTooLong));
}

#[test]
fn each_forbidden_character_is_rejected_in_a_name() {
    for c in ['/', '(', ')', '"', '<', '>', '\\', '{', '}'] {
        let s = format!("ab{}cd", c);
        assert_eq!(name(&s), Err(ValidationError::ForbiddenCharacter));
        assert!(char_is_forbidden_in_name(c));
    }
    for c in ['a', ' ', '-', '\'', '.', '[', ']', '@'] {
        assert!(!char_is_forbidden_in_name(c));
    }
}

#[test]
fn a_blank_name_is_reported_before_its_length() {
    let blank = " ".repeat(300);
    assert_eq!(name(&blank), Err(ValidationError::EmptyName));
}

#[test]
fn a_long_name_is_reported_before_its_characters() {
    let long = "/".repeat(300);
    assert_eq!(name(&long), Err(ValidationError::NameTooLong));
}

#[test]
fn check_name_goes_by_the_count_it_is_given() {
    let chars = chars_of("abc");
    assert_eq!(check_name(&chars, 3), Ok(()));
    assert_eq!(check_name(&chars, 256), Ok(()));
    assert_eq!(check_name(&chars, 257), Err(ValidationError::NameTooLong));
    assert_eq!(check_name(&chars_of("a{"), 2), Err(ValidationError::ForbiddenCharacter));
    assert_eq!(check_name(&chars_of("\t"), 1), Err(ValidationError::EmptyName));
}

#[test]
fn an_empty_address_is_rejected() {
    assert_eq!(email(""), Err(ValidationError::EmptyEmail));
    assert_eq!(email("   "), Err(ValidationError::EmptyEmail));
}

#[test]
fn an_address_without_at_is_rejected() {
    assert_eq!(email("not-an-email"), Err(ValidationError::MalformedEmail));
    assert_eq!(email("ursuladomain.com"), Err(ValidationError::MalformedEmail));
}

#[test]
fn an_address_without_local_part_is_rejected() {
    assert_eq!(email("@domain.com"), Err(ValidationError::MalformedEmail));
}

#[test]
fn an_address_with_two_ats_is_rejected() {
    assert_eq!(email("a@b@domain.com"), Err(ValidationError::MalformedEmail));
    assert_eq!(email("a@domain.com@"), Err(ValidationError::MalformedEmail));
}

#[test]
fn an_address_needs_a_dot_inside_its_domain() {
    assert_eq!(email("a@domain"), Err(ValidationError::MalformedEmail));
    assert_eq!(email("a@.com"), Err(ValidationError::MalformedEmail));
    assert_eq!(email("a@domain."), Err(ValidationError::MalformedEmail));
    assert_eq!(email("a@."), Err(ValidationError::MalformedEmail));
    assert_eq!(email("a@"), Err(ValidationError::MalformedEmail));
    assert_eq!(email("a.b@domain"), Err(ValidationError::MalformedEmail));
    assert!(email("a@b.c").is_ok());
    assert!(email("a@b..c").is_ok());
    assert!(email("first.last@mail.example.org").is_ok());
}

#[test]
fn an_address_with_white_space_is_rejected() {
    assert_eq!(email("a b@domain.com"), Err(ValidationError::MalformedEmail));
    assert_eq!(email("ab@domain.com "), Err(ValidationError::MalformedEmail));
    assert_eq!(email("ab@do\u{2003}main.com"), Err(ValidationError::MalformedEmail));
}

#[test]
fn an_address_of_254_characters_is_the_longest() {
    let local = "a".repeat(MAX_EMAIL_CHARS - "@example.com".len());
    let longest = format!("{}@example.com", local);
    assert_eq!(longest.chars().count(), 254);
    assert_eq!(email(&longest).unwrap().as_str(), longest);
    let too_long = format!("a{}", longest);
    assert_eq!(email(&too_long), Err(ValidationError::EmailTooLong));
}

#[test]
fn the_length_of_an_address_is_counted_in_characters() {
    let local = "é".repeat(MAX_EMAIL_CHARS - "@example.com".len());
    let longest = format!("{}@example.com", local);
    assert!(longest.len() > 254);
    assert!(email(&longest).is_ok());
}

#[test]
fn a_long_address_is_reported_before_its_form() {
    let long = "a".repeat(255);
    assert_eq!(email(&long), Err(ValidationError::EmailTooLong));
}

#[test]
fn check_email_agrees_with_parse() {
    for s in ["", " ", "a@b.c", "a@b", "@b.c", "a@@b.c", "x y@b.c", "email@gmail.com"] {
        let by_chars = check_email(&chars_of(s));
        let by_parse = email(s).map(|_| ());
        assert_eq!(by_chars, by_parse, "for {:?}", s);
    }
}

#[test]
fn each_fault_has_its_reason() {
    assert_eq!(ValidationError::EmptyName.reason(), "the name is empty");
    assert_eq!(ValidationError::NameTooLong.reason(), "the name is too long");
    assert_eq!(
        ValidationError::ForbiddenCharacter.reason(),
        "the name holds a forbidden character"
    );
    assert_eq!(ValidationError::EmptyEmail.reason(), "the e-mail address is empty");
    assert_eq!(ValidationError::EmailTooLong.reason(), "the e-mail address is too long");
    assert_eq!(ValidationError::MalformedEmail.reason(), "the e-mail address is malformed");
}

#[test]
fn a_clone_of_validated_data_reads_the_same() {
    let subscriber = validate("le mans", "test@gmail.com").unwrap();
    let copy = subscriber.clone();
    assert_eq!(copy, subscriber);
    assert_eq!(copy.name.as_str(), "le mans");
    assert_eq!(copy.email.as_str(), "test@gmail.com");
}

#[test]
fn white_space_is_what_the_standard_library_says() {
    for n in 0..=0x10FFFFu32 {
        if let Some(c) = char::from_u32(n) {
            assert_eq!(char_is_whitespace(c), c.is_whitespace(), "for U+{:04X}", n);
        }
    }
}

#[test]
fn ascii_letters_and_digits_are_what_the_standard_library_says() {
    for n in 0..=0x10FFFFu32 {
        if let Some(c) = char::from_u32(n) {
            assert_eq!(char_is_ascii_alphanumeric(c), c.is_ascii_alphanumeric(), "for U+{:04X}", n);
        }
    }
}

#[test]
fn chars_of_gives_the_characters_in_order() {
    assert_eq!(chars_of(""), Vec::<char>::new());
    assert_eq!(chars_of("aé\u{1F600}z"), vec!['a', 'é', '\u{1F600}', 'z']);
}

#[test]
fn find_char_gives_the_first_position_from_the_start_given() {
    let chars = chars_of("a.b.c");
    assert_eq!(find_char(&chars, '.', 0), Some(1));
    assert_eq!(find_char(&chars, '.', 1), Some(1));
    assert_eq!(find_char(&chars, '.', 2), Some(3));
    assert_eq!(find_char(&chars, '.', 4), None);
    assert_eq!(find_char(&chars, '.', 5), None);
    assert_eq!(find_char(&chars, '.', 99), None);
    assert_eq!(find_char(&chars, 'x', 0), None);
}

#[test]
fn blank_and_white_space_scans() {
    assert!(text_is_blank(&chars_of("")));
    assert!(text_is_blank(&chars_of(" \r\n")));
    assert!(!text_is_blank(&chars_of(" a ")));
    assert!(!text_has_whitespace(&chars_of("")));
    assert!(!text_has_whitespace(&chars_of("abc")));
    assert!(text_has_whitespace(&chars_of("ab c")));
}

#[test]
fn validated_data_is_borrowed_as_text() {
    let subscriber = validate("le mans", "test@gmail.com").unwrap();
    let name: &str = subscriber.name.as_ref();
    let email: &str = subscriber.email.as_ref();
    assert_eq!(name, "le mans");
    assert_eq!(email, "test@gmail.com");
}
