use mxsend::{IdError, Recipient, RecipientError, RoomId, UserId};

#[test]
fn user_recipient_keeps_the_text() {
    let r = Recipient::parse("@admin:example.com").unwrap();
    assert!(matches!(r, Recipient::User(_)));
    assert_eq!(r.as_str(), "@admin:example.com");
}

#[test]
fn room_recipient_keeps_the_text() {
    let r = Recipient::parse("!alerts:example.com").unwrap();
    assert!(matches!(r, Recipient::Room(_)));
    assert_eq!(r.as_str(), "!alerts:example.com");
}

#[test]
fn recipient_without_sigil_is_refused() {
    assert_eq!(Recipient::parse("admin:example.com"), Err(RecipientError::MissingSigil));
    assert_eq!(Recipient::parse(""), Err(RecipientError::MissingSigil));
    assert_eq!(Recipient::parse("#room:example.com"), Err(RecipientError::MissingSigil));
}

#[test]
fn missing_sigil_message_matches() {
    assert_eq!(
        RecipientError::missing_sigil_message(),
        "recipient must start with @ (user) or ! (room)"
    );
}

#[test]
fn user_without_colon_is_refused() {
    assert_eq!(
        Recipient::parse("@admin"),
        Err(RecipientError::InvalidUserId(IdError::MissingColon))
    );
}

#[test]
fn user_with_bad_server_is_refused() {
    assert_eq!(
        Recipient::parse("@admin:"),
        Err(RecipientError::InvalidUserId(IdError::InvalidServerName))
    );
    assert_eq!(
        Recipient::parse("@alice::8448"),
        Err(RecipientError::InvalidUserId(IdError::InvalidServerName))
    );
}

#[test]
fn room_with_nul_is_refused() {
    assert_eq!(
        Recipient::parse("!a\0b:example.com"),
        Err(RecipientError::InvalidRoomId(IdError::InvalidCharacters))
    );
}

#[test]
fn bare_room_sigil_is_a_room() {
    let r = Recipient::parse("!").unwrap();
    assert_eq!(r.as_str(), "!");
}

#[test]
fn from_str_parses_like_parse() {
    let r: Recipient = "@r:localhost".parse().unwrap();
    assert_eq!(r, Recipient::User(UserId::parse("@r:localhost").unwrap()));
    let e = "nobody".parse::<Recipient>().unwrap_err();
    assert_eq!(e, RecipientError::MissingSigil);
}

#[test]
fn user_id_sigil_errors() {
    assert_eq!(UserId::parse("alice:example.com").unwrap_err(), IdError::MissingLeadingSigil);
    assert_eq!(UserId::parse("").unwrap_err(), IdError::MissingLeadingSigil);
    assert_eq!(RoomId::parse("room").unwrap_err(), IdError::MissingLeadingSigil);
}

#[test]
fn server_name_is_text_after_first_colon() {
    let u = UserId::parse("@bot:example.com").unwrap();
    assert_eq!(u.server_name(), "example.com");
    let u = UserId::parse("@bot:example.com:8448").unwrap();
    assert_eq!(u.server_name(), "example.com:8448");
    let u = UserId::parse("@bot:[::1]:8448").unwrap();
    assert_eq!(u.server_name(), "[::1]:8448");
}

#[test]
fn clone_keeps_the_recipient() {
    let r = Recipient::parse("!alerts:example.com").unwrap();
    assert_eq!(r.clone(), r);
}
