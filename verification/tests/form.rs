use dispatch::routes::subscription::{Field, FormData, FormError};

fn pairs(items: &[(&str, &str)]) -> Vec<(String, String)> {
    items.iter().map(|(key, value)| (key.to_string(), value.to_string())).collect()
}

fn form(email: &str, name: &str) -> FormData {
    FormData { email: email.to_string(), name: name.to_string() }
}

#[test]
fn field_keys_are_email_and_name() {
    assert_eq!(Field::Email.as_str(), "email");
    assert_eq!(Field::Name.as_str(), "name");
}

#[test]
fn parse_decodes_percent_escapes() {
    let decoded = FormData::parse(b"name=le%20guin&email=ursula_le_guin%40gmail.com");

    assert_eq!(decoded, Ok(form("ursula_le_guin@gmail.com", "le guin")));
}

#[test]
fn parse_turns_plus_into_space() {
    let decoded = FormData::parse(b"name=le+guin&email=ursula%2Bnews%40gmail.com");

    assert_eq!(decoded, Ok(form("ursula+news@gmail.com", "le guin")));
}

#[test]
fn parse_takes_the_fields_in_either_order() {
    let decoded = FormData::parse(b"email=a%40b.c&name=x");

    assert_eq!(decoded, Ok(form("a@b.c", "x")));
}

#[test]
fn parse_passes_over_other_keys() {
    let decoded = FormData::parse(b"utm=1&name=x&lang=en&email=a%40b.c&name_=y");

    assert_eq!(decoded, Ok(form("a@b.c", "x")));
}

#[test]
fn parse_accepts_empty_values() {
    assert_eq!(FormData::parse(b"name=&email="), Ok(form("", "")));
    assert_eq!(FormData::parse(b"name&email"), Ok(form("", "")));
}

#[test]
fn parse_does_not_look_into_the_email() {
    let decoded = FormData::parse(b"name=x&email=definitely-not-an-email");

    assert_eq!(decoded, Ok(form("definitely-not-an-email", "x")));
}

#[test]
fn parse_keeps_a_broken_escape_as_it_stands() {
    let decoded = FormData::parse(b"name=100%&email=a%4");

    assert_eq!(decoded, Ok(form("a%4", "100%")));
}

#[test]
fn parse_reports_missing_email() {
    assert_eq!(FormData::parse(b"name=le%20guin"), Err(FormError::MissingField(Field::Email)));
}

#[test]
fn parse_reports_missing_name() {
    assert_eq!(
        FormData::parse(b"email=ursula_le_guin%40gmail.com"),
        Err(FormError::MissingField(Field::Name))
    );
}

#[test]
fn parse_reports_email_first_when_both_are_missing() {
    assert_eq!(FormData::parse(b""), Err(FormError::MissingField(Field::Email)));
    assert_eq!(FormData::parse(b"&&"), Err(FormError::MissingField(Field::Email)));
    assert_eq!(FormData::parse(b"other=1"), Err(FormError::MissingField(Field::Email)));
}

#[test]
fn parse_is_case_sensitive_about_keys() {
    assert_eq!(FormData::parse(b"Name=x&email=y"), Err(FormError::MissingField(Field::Name)));
    assert_eq!(FormData::parse(b"name=x&EMAIL=y"), Err(FormError::MissingField(Field::Email)));
}

#[test]
fn parse_reports_duplicate_name() {
    assert_eq!(
        FormData::parse(b"name=a&name=b&email=c"),
        Err(FormError::DuplicateField(Field::Name))
    );
}

#[test]
fn parse_reports_duplicate_email() {
    assert_eq!(
        FormData::parse(b"email=a&name=b&email=c"),
        Err(FormError::DuplicateField(Field::Email))
    );
}

#[test]
fn duplicate_is_reported_before_missing() {
    assert_eq!(FormData::parse(b"name=a&name=b"), Err(FormError::DuplicateField(Field::Name)));
    assert_eq!(FormData::parse(b"email=a&email=a"), Err(FormError::DuplicateField(Field::Email)));
}

#[test]
fn first_repeated_key_decides_the_duplicate() {
    assert_eq!(
        FormData::parse(b"email=a&name=b&name=c&email=d"),
        Err(FormError::DuplicateField(Field::Name))
    );
    assert_eq!(
        FormData::parse(b"name=a&email=b&email=c&name=d"),
        Err(FormError::DuplicateField(Field::Email))
    );
}

#[test]
fn from_pairs_picks_both_values() {
    let decoded = FormData::from_pairs(&pairs(&[("name", "le guin"), ("email", "u@g.com")]));

    assert_eq!(decoded, Ok(form("u@g.com", "le guin")));
}

#[test]
fn from_pairs_of_nothing_misses_email() {
    assert_eq!(FormData::from_pairs(&[]), Err(FormError::MissingField(Field::Email)));
}

#[test]
fn from_pairs_misses_name() {
    let decoded = FormData::from_pairs(&pairs(&[("email", "u@g.com"), ("nam", "x")]));

    assert_eq!(decoded, Err(FormError::MissingField(Field::Name)));
}

#[test]
fn from_pairs_reports_the_first_repeat() {
    let decoded = FormData::from_pairs(&pairs(&[
        ("name", "a"),
        ("email", "b"),
        ("other", "c"),
        ("other", "d"),
        ("email", "e"),
        ("name", "f"),
    ]));

    assert_eq!(decoded, Err(FormError::DuplicateField(Field::Email)));
}

#[test]
fn from_pairs_allows_other_keys_to_repeat() {
    let decoded =
        FormData::from_pairs(&pairs(&[("tag", "a"), ("name", "n"), ("tag", "b"), ("email", "e")]));

    assert_eq!(decoded, Ok(form("e", "n")));
}

#[test]
fn from_pairs_agrees_with_parse() {
    let bodies: [&[u8]; 5] = [
        b"name=le%20guin&email=ursula_le_guin%40gmail.com",
        b"name=le%20guin",
        b"email=ursula_le_guin%40gmail.com",
        b"",
        b"name=a&email=b&name=c",
    ];

    for body in bodies {
        let decoded: Vec<(String, String)> =
            serde_urlencoded::from_bytes(body).expect("pairs of strings always decode");

        assert_eq!(FormData::parse(body), FormData::from_pairs(&decoded));
    }
}
