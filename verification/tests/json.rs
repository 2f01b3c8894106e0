use auth_core::claims::Claims;
use auth_core::json::{ClaimsField, JsonValue, MalformedClaims};

fn text(value: &str) -> JsonValue {
    JsonValue::Text(value.to_string())
}

fn entry(key: &str, value: JsonValue) -> (String, JsonValue) {
    (key.to_string(), value)
}

fn payload() -> Vec<(String, JsonValue)> {
    vec![
        entry("sub", JsonValue::Unsigned(7)),
        entry("iss", text("issuer")),
        entry("grt", JsonValue::List(vec![text("a"), text("b")])),
        entry("app", JsonValue::List(vec![])),
        entry("iat", JsonValue::Unsigned(1)),
        entry("exp", JsonValue::Unsigned(2)),
    ]
}

fn claims() -> Claims {
    Claims {
        user_id: 7,
        issuer: "issuer".to_string(),
        grants: vec!["a".to_string(), "b".to_string()],
        apps: vec![],
        issued_at: 1,
        expires: 2,
    }
}

fn without(key: &str) -> JsonValue {
    JsonValue::Object(payload().into_iter().filter(|(name, _)| name != key).collect())
}

fn with(key: &str, value: JsonValue) -> JsonValue {
    let mut entries = payload();
    entries.push(entry(key, value));
    JsonValue::Object(entries)
}

#[test]
fn claims_are_written_as_six_fields() {
    assert_eq!(
        claims().to_json(),
        JsonValue::Object(vec![
            entry("app", JsonValue::List(vec![])),
            entry("exp", JsonValue::Unsigned(2)),
            entry("grt", JsonValue::List(vec![text("a"), text("b")])),
            entry("iat", JsonValue::Unsigned(1)),
            entry("iss", text("issuer")),
            entry("sub", JsonValue::Unsigned(7)),
        ])
    );
    let negative = Claims {
        user_id: -1,
        ..claims()
    };
    assert_eq!(
        negative.to_json().get("sub"),
        Some(&JsonValue::Signed(-1))
    );
}

#[test]
fn claims_are_read_from_their_payload() {
    assert_eq!(Claims::from_json(&JsonValue::Object(payload())), Ok(claims()));
    assert_eq!(Claims::from_json(&claims().to_json()), Ok(claims()));
    let mut reversed = payload();
    reversed.reverse();
    assert_eq!(Claims::from_json(&JsonValue::Object(reversed)), Ok(claims()));
}

#[test]
fn other_fields_are_ignored() {
    assert_eq!(Claims::from_json(&with("nbf", JsonValue::Fraction)), Ok(claims()));
    assert_eq!(
        Claims::from_json(&with("x", JsonValue::Object(vec![entry("sub", text("y"))]))),
        Ok(claims())
    );
    assert_eq!(Claims::from_json(&with("SUB", JsonValue::Null)), Ok(claims()));
}

#[test]
fn a_later_entry_replaces_an_earlier_one() {
    assert_eq!(
        Claims::from_json(&with("sub", JsonValue::Unsigned(8))).map(|claims| claims.user_id),
        Ok(8)
    );
    assert_eq!(
        Claims::from_json(&with("iss", JsonValue::Null)),
        Err(MalformedClaims::Field(ClaimsField::Issuer))
    );
}

#[test]
fn a_missing_field_is_named() {
    let fields = [
        ("sub", ClaimsField::Subject),
        ("iss", ClaimsField::Issuer),
        ("grt", ClaimsField::Grants),
        ("app", ClaimsField::Apps),
        ("iat", ClaimsField::IssuedAt),
        ("exp", ClaimsField::Expires),
    ];
    for (name, field) in fields {
        assert_eq!(field.name(), name);
        assert_eq!(
            Claims::from_json(&without(name)),
            Err(MalformedClaims::Field(field))
        );
        assert_eq!(
            Claims::from_json(&with(name, JsonValue::Null)),
            Err(MalformedClaims::Field(field))
        );
        assert_eq!(
            Claims::from_json(&with(name, JsonValue::Bool(true))),
            Err(MalformedClaims::Field(field))
        );
    }
}

#[test]
fn the_first_bad_field_is_named() {
    let entries = vec![
        entry("exp", JsonValue::Null),
        entry("iat", JsonValue::Null),
        entry("app", JsonValue::Null),
        entry("grt", JsonValue::Null),
        entry("iss", JsonValue::Null),
        entry("sub", JsonValue::Unsigned(1)),
    ];
    assert_eq!(
        Claims::from_json(&JsonValue::Object(entries)),
        Err(MalformedClaims::Field(ClaimsField::Issuer))
    );
    assert_eq!(
        Claims::from_json(&JsonValue::Object(vec![])),
        Err(MalformedClaims::Field(ClaimsField::Subject))
    );
}

#[test]
fn only_an_object_holds_claims() {
    for value in [
        JsonValue::Null,
        JsonValue::Bool(false),
        JsonValue::Unsigned(1),
        JsonValue::Signed(-1),
        JsonValue::Fraction,
        text("{}"),
        JsonValue::List(vec![JsonValue::Object(payload())]),
    ] {
        assert_eq!(Claims::from_json(&value), Err(MalformedClaims::NotAnObject));
        assert_eq!(value.get("sub"), None);
    }
}

#[test]
fn the_subject_is_an_integer_of_32_bits() {
    let subject = |value: JsonValue| Claims::from_json(&with("sub", value)).map(|claims| claims.user_id);
    let bad = Err(MalformedClaims::Field(ClaimsField::Subject));
    assert_eq!(subject(JsonValue::Unsigned(0)), Ok(0));
    assert_eq!(subject(JsonValue::Unsigned(2147483647)), Ok(i32::MAX));
    assert_eq!(subject(JsonValue::Unsigned(2147483648)), bad);
    assert_eq!(subject(JsonValue::Unsigned(u64::MAX)), bad);
    assert_eq!(subject(JsonValue::Signed(-2147483648)), Ok(i32::MIN));
    assert_eq!(subject(JsonValue::Signed(-2147483649)), bad);
    assert_eq!(subject(JsonValue::Signed(5)), Ok(5));
    assert_eq!(subject(JsonValue::Signed(i64::MAX)), bad);
    assert_eq!(subject(JsonValue::Fraction), bad);
    assert_eq!(subject(text("7")), bad);
}

#[test]
fn times_are_unsigned_integers_of_64_bits() {
    let issued = |value: JsonValue| Claims::from_json(&with("iat", value)).map(|claims| claims.issued_at);
    let bad = Err(MalformedClaims::Field(ClaimsField::IssuedAt));
    assert_eq!(issued(JsonValue::Unsigned(u64::MAX)), Ok(u64::MAX));
    assert_eq!(issued(JsonValue::Signed(0)), Ok(0));
    assert_eq!(issued(JsonValue::Signed(i64::MAX)), Ok(i64::MAX as u64));
    assert_eq!(issued(JsonValue::Signed(-1)), bad);
    assert_eq!(issued(JsonValue::Fraction), bad);
    assert_eq!(issued(JsonValue::List(vec![])), bad);
}

#[test]
fn grants_are_a_list_of_strings() {
    let grants = |value: JsonValue| Claims::from_json(&with("grt", value)).map(|claims| claims.grants);
    let bad = Err(MalformedClaims::Field(ClaimsField::Grants));
    assert_eq!(grants(JsonValue::List(vec![])), Ok(vec![]));
    assert_eq!(
        grants(JsonValue::List(vec![text("x"), text("x"), text("")])),
        Ok(vec!["x".to_string(), "x".to_string(), String::new()])
    );
    assert_eq!(grants(JsonValue::List(vec![text("x"), JsonValue::Null])), bad);
    assert_eq!(
        grants(JsonValue::List(vec![JsonValue::List(vec![text("x")])])),
        bad
    );
    assert_eq!(grants(text("x")), bad);
}

#[test]
fn values_are_read_by_their_kind() {
    assert_eq!(JsonValue::Unsigned(3).to_unsigned(), Some(3));
    assert_eq!(JsonValue::Signed(3).to_unsigned(), Some(3));
    assert_eq!(JsonValue::Signed(-3).to_unsigned(), None);
    assert_eq!(JsonValue::Null.to_unsigned(), None);
    assert_eq!(JsonValue::Signed(-3).to_int32(), Some(-3));
    assert_eq!(JsonValue::Unsigned(3).to_int32(), Some(3));
    assert_eq!(text("3").to_int32(), None);
    assert_eq!(text("3").to_text(), Some("3".to_string()));
    assert_eq!(JsonValue::Unsigned(3).to_text(), None);
    assert_eq!(JsonValue::List(vec![]).to_texts(), Some(vec![]));
    assert_eq!(text("3").to_texts(), None);
    assert_eq!(
        JsonValue::from_texts(&vec!["a".to_string()]),
        JsonValue::List(vec![text("a")])
    );
    assert_eq!(JsonValue::from_int32(0), JsonValue::Unsigned(0));
    assert_eq!(JsonValue::from_int32(i32::MIN), JsonValue::Signed(-2147483648));
    assert_eq!(JsonValue::from_int32(i32::MAX), JsonValue::Unsigned(2147483647));
}

#[test]
fn reasons_have_their_messages() {
    assert_eq!(MalformedClaims::NotAnObject.message(), "the payload is not an object");
    assert_eq!(
        MalformedClaims::Field(ClaimsField::Expires).message(),
        "missing or malformed field: exp"
    );
}
