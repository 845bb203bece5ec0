use ryob::controllers::register::{
    registration_form_sanitize, registration_form_to_previous, registration_form_validate,
    RegistrationForm, RegistrationFormValidationError,
};
use ryob::controllers::users::login::{login_form_to_previous, sanitize_login_form, LoginForm};
use ryob::controllers::users::register::{
    is_valid_password_char, is_valid_user_name_char, register_form_to_previous,
    sanitize_register_form, validate_password, validate_register_form, validate_user_name,
    validation_error_to_string, RegisterForm,
};
use ryob::controllers::users::register::RegisterFormValidationError::{
    PasswordInsecure, PasswordInvalidCharacters, PasswordNotConfirmed, PasswordTooLong,
    PasswordTooShort, UserNameInvalidCharacters, UserNameTooLong, UserNameTooShort,
};

fn registration(name: &str, password: &str, confirm: &str) -> RegistrationForm {
    RegistrationForm {
        user_name: name.to_string(),
        password: password.to_string(),
        password_confirm: confirm.to_string(),
    }
}

fn verdict(name: &str, password: &str, confirm: &str) -> Result<(), RegistrationFormValidationError> {
    registration_form_validate(&registration(name, password, confirm))
}

#[test]
fn registration_form_passes() {
    assert_eq!(verdict("Ada", "correcthorse", "correcthorse"), Ok(()));
    assert_eq!(verdict("Ada Lovelace 2", "p@ss-w0rd!", "p@ss-w0rd!"), Ok(()));
}

#[test]
fn registration_name_of_one_character_is_too_short() {
    assert_eq!(
        verdict("a", "correcthorse", "correcthorse"),
        Err(RegistrationFormValidationError::NameTooShort)
    );
    assert_eq!(
        verdict("", "correcthorse", "correcthorse"),
        Err(RegistrationFormValidationError::NameTooShort)
    );
}

#[test]
fn registration_name_bounds() {
    let ok = "correcthorse";
    assert_eq!(verdict("ab", ok, ok), Ok(()));
    assert_eq!(verdict(&"a".repeat(64), ok, ok), Ok(()));
    assert_eq!(
        verdict(&"a".repeat(65), ok, ok),
        Err(RegistrationFormValidationError::NameTooLong)
    );
}

#[test]
fn registration_name_characters() {
    let ok = "correcthorse";
    assert_eq!(verdict("Ada!", ok, ok), Err(RegistrationFormValidationError::NameInvalidCharacters));
    assert_eq!(
        verdict("Ada_L", ok, ok),
        Err(RegistrationFormValidationError::NameInvalidCharacters)
    );
    assert_eq!(
        verdict("Ada\tL", ok, ok),
        Err(RegistrationFormValidationError::NameInvalidCharacters)
    );
    assert_eq!(verdict("Zoë 藏 ٣", ok, ok), Ok(()));
}

#[test]
fn registration_length_counts_characters() {
    let ok = "correcthorse";
    // One letter of two bytes is one character.
    assert_eq!(verdict("é", ok, ok), Err(RegistrationFormValidationError::NameTooShort));
    // Sixty-four letters of three bytes each are sixty-four characters.
    assert_eq!(verdict(&"藏".repeat(64), ok, ok), Ok(()));
    assert_eq!(
        verdict(&"藏".repeat(65), ok, ok),
        Err(RegistrationFormValidationError::NameTooLong)
    );
}

#[test]
fn registration_password_bounds() {
    assert_eq!(
        verdict("Ada", "seven77", "seven77"),
        Err(RegistrationFormValidationError::PasswordTooShort)
    );
    assert_eq!(verdict("Ada", "eight888", "eight888"), Ok(()));
    let long = "p".repeat(256);
    assert_eq!(verdict("Ada", &long, &long), Ok(()));
    let longer = "p".repeat(257);
    assert_eq!(
        verdict("Ada", &longer, &longer),
        Err(RegistrationFormValidationError::PasswordTooLong)
    );
}

#[test]
fn registration_password_characters() {
    assert_eq!(
        verdict("Ada", "correct horse", "correct horse"),
        Err(RegistrationFormValidationError::PasswordInvalidCharacters)
    );
    for mark in "!\"#$%&'()*+,-./:;<=>?@[\\]^_`{|}~".chars() {
        let password = format!("passw0rd{}", mark);
        assert_eq!(verdict("Ada", &password, &password), Ok(()), "{}", mark);
    }
    for other in [' ', '\n', '\u{7f}', '€', '«', '\u{0}'] {
        let password = format!("passw0rd{}", other);
        assert_eq!(
            verdict("Ada", &password, &password),
            Err(RegistrationFormValidationError::PasswordInvalidCharacters),
            "{:?}",
            other
        );
    }
}

#[test]
fn registration_password_mismatch() {
    assert_eq!(
        verdict("Ada", "correcthorse", "correcthorsE"),
        Err(RegistrationFormValidationError::PasswordMismatch)
    );
    assert_eq!(
        verdict("Ada", "correcthorse", ""),
        Err(RegistrationFormValidationError::PasswordMismatch)
    );
}

#[test]
fn registration_reports_the_first_broken_rule() {
    assert_eq!(verdict("a", "x y", "z"), Err(RegistrationFormValidationError::NameTooShort));
    assert_eq!(
        verdict("a!", "x y", "z"),
        Err(RegistrationFormValidationError::NameInvalidCharacters)
    );
    assert_eq!(
        verdict(&"!".repeat(65), "x y", "z"),
        Err(RegistrationFormValidationError::NameTooLong)
    );
    assert_eq!(verdict("Ada", "x y", "z"), Err(RegistrationFormValidationError::PasswordTooShort));
    assert_eq!(
        verdict("Ada", "correct horse", "z"),
        Err(RegistrationFormValidationError::PasswordInvalidCharacters)
    );
}

#[test]
fn registration_form_is_sanitized_by_trimming_the_name() {
    let form = registration("  Ada Lovelace \t\n", " pass word ", " pass word  ");
    let clean = registration_form_sanitize(&form);
    assert_eq!(clean.user_name, "Ada Lovelace");
    assert_eq!(clean.password, " pass word ");
    assert_eq!(clean.password_confirm, " pass word  ");
    let twice = registration_form_sanitize(&clean);
    assert_eq!(twice.user_name, clean.user_name);
    assert_eq!(registration_form_to_previous(&clean).user_name, "Ada Lovelace");
}

#[test]
fn trimming_removes_unicode_white_space_only_at_the_ends() {
    let form = registration("\u{a0}\u{2003}Ada\u{3000}L\u{2028}", "", "");
    assert_eq!(registration_form_sanitize(&form).user_name, "Ada\u{3000}L");
    let form = registration(" \t \n", "", "");
    assert_eq!(registration_form_sanitize(&form).user_name, "");
    let form = registration("", "", "");
    assert_eq!(registration_form_sanitize(&form).user_name, "");
    let form = registration("Ada", "", "");
    assert_eq!(registration_form_sanitize(&form).user_name, "Ada");
    let form = registration("_ Ada _", "", "");
    assert_eq!(registration_form_sanitize(&form).user_name, "_ Ada _");
}

#[test]
fn login_form_is_sanitized_by_trimming_the_name() {
    let form = LoginForm { user_name: " Ada ".to_string(), password: " pw ".to_string() };
    let clean = sanitize_login_form(&form);
    assert_eq!(clean.user_name, "Ada");
    assert_eq!(clean.password, " pw ");
    assert_eq!(login_form_to_previous(&clean).user_name, "Ada");
    assert_eq!(login_form_to_previous(&form).user_name, " Ada ");
}

#[test]
fn register_form_is_sanitized_by_trimming_the_name() {
    let form = RegisterForm {
        user_name: "\tAda ".to_string(),
        password: " pw".to_string(),
        confirm_password: "pw ".to_string(),
    };
    let clean = sanitize_register_form(&form);
    assert_eq!(clean.user_name, "Ada");
    assert_eq!(clean.password, " pw");
    assert_eq!(clean.confirm_password, "pw ");
    assert_eq!(register_form_to_previous(&clean).user_name, "Ada");
}

#[test]
fn user_name_characters() {
    for c in ['a', 'Z', '0', '9', ' ', 'é', '藏', '٣', '¾'] {
        assert!(is_valid_user_name_char(c), "{:?}", c);
    }
    for c in ['!', '_', '-', '\t', '\n', '.', '€', '\u{a0}'] {
        assert!(!is_valid_user_name_char(c), "{:?}", c);
    }
}

#[test]
fn password_characters() {
    for c in ['a', 'Z', '0', '9', ' ', 'é'] {
        assert!(is_valid_password_char(c), "{:?}", c);
    }
    for c in ['!', '_', '-', '\t', '@'] {
        assert!(!is_valid_password_char(c), "{:?}", c);
    }
}

#[test]
fn user_name_rules() {
    assert_eq!(validate_user_name(&"Ada".to_string()), vec![]);
    assert_eq!(validate_user_name(&"ab".to_string()), vec![]);
    assert_eq!(validate_user_name(&"a".to_string()), vec![UserNameTooShort]);
    assert_eq!(validate_user_name(&"".to_string()), vec![UserNameTooShort]);
    assert_eq!(validate_user_name(&"a".repeat(128)), vec![]);
    assert_eq!(validate_user_name(&"a".repeat(129)), vec![UserNameTooLong]);
    assert_eq!(validate_user_name(&"Ada!".to_string()), vec![UserNameInvalidCharacters]);
    assert_eq!(validate_user_name(&"!".to_string()), vec![UserNameTooShort, UserNameInvalidCharacters]);
    assert_eq!(
        validate_user_name(&"!".repeat(129)),
        vec![UserNameTooLong, UserNameInvalidCharacters]
    );
    assert_eq!(validate_user_name(&"é".to_string()), vec![UserNameTooShort]);
    assert_eq!(validate_user_name(&"藏".repeat(128)), vec![]);
}

#[test]
fn password_rules() {
    let check = |p: &str, c: &str| validate_password(&p.to_string(), &c.to_string());
    assert_eq!(check("correcthorse", "correcthorse"), vec![]);
    assert_eq!(check("correct horse", "correct horse"), vec![]);
    assert_eq!(check("eight888", "eight888"), vec![]);
    assert_eq!(check("seven77", "seven77"), vec![PasswordTooShort]);
    assert_eq!(check("correcthorse", "other"), vec![PasswordNotConfirmed]);
    assert_eq!(check("correct-horse", "correct-horse"), vec![PasswordInvalidCharacters]);
    assert_eq!(check("a!", "b"), vec![PasswordNotConfirmed, PasswordTooShort, PasswordInvalidCharacters]);
    assert_eq!(check("", ""), vec![PasswordTooShort]);
    let long = "p".repeat(256);
    assert_eq!(check(&long, &long), vec![]);
    let longer = "p".repeat(257);
    assert_eq!(check(&longer, &longer), vec![PasswordTooLong]);
    let longer = "!".repeat(257);
    assert_eq!(check(&longer, ""), vec![PasswordNotConfirmed, PasswordTooLong, PasswordInvalidCharacters]);
}

#[test]
fn register_form_rules_name_first() {
    let form = |n: &str, p: &str, c: &str| RegisterForm {
        user_name: n.to_string(),
        password: p.to_string(),
        confirm_password: c.to_string(),
    };
    assert_eq!(validate_register_form(&form("Ada", "correcthorse", "correcthorse")), vec![]);
    assert_eq!(
        validate_register_form(&form("a", "correcthorse", "correcthorse")),
        vec![UserNameTooShort]
    );
    assert_eq!(
        validate_register_form(&form("?", "pw!", "pw")),
        vec![
            UserNameTooShort,
            UserNameInvalidCharacters,
            PasswordNotConfirmed,
            PasswordTooShort,
            PasswordInvalidCharacters
        ]
    );
    // The form is judged as it stands: white space around the name counts.
    assert_eq!(
        validate_register_form(&form(" a ", "correcthorse", "correcthorse")),
        vec![]
    );
}

#[test]
fn validation_messages() {
    assert_eq!(
        validation_error_to_string(UserNameTooShort),
        "Username must be between 2 and 128 characters long"
    );
    assert_eq!(
        validation_error_to_string(UserNameTooLong),
        "Username must be between 2 and 128 characters long"
    );
    assert_eq!(
        validation_error_to_string(UserNameInvalidCharacters),
        "Username must consist of alphanumeric characters and spaces"
    );
    assert_eq!(validation_error_to_string(PasswordInsecure), "Password not secure");
    assert_eq!(
        validation_error_to_string(PasswordTooShort),
        "Password must be 8 or more characters long"
    );
    assert_eq!(
        validation_error_to_string(PasswordTooLong),
        "Password must be 256 or fewer characters long"
    );
    assert_eq!(
        validation_error_to_string(PasswordInvalidCharacters),
        "Password must consist of alphanumeric characters and spaces"
    );
    assert_eq!(validation_error_to_string(PasswordNotConfirmed), "Passwords did not match");
}
