//! The recipient of a message: a user (`@user:server`) or a room (`!room:server`).

use crate::ids::{
    refused, room_id_verdict, ruma_user_id_verdict, standard_user_id, user_id_text, IdError,
    RoomId, UserId,
};
use vstd::prelude::*;
use vstd::string::StrSliceExecFns;
use vstd::string::StringExecFns;

verus! {

broadcast use vstd::string::group_string_axioms;

/// A message recipient: either a user ID or a room ID.
#[derive(Debug, PartialEq, Eq)]
pub enum Recipient {
    User(UserId),
    Room(RoomId),
}

/// Why a recipient text was refused.
#[derive(Clone, Copy, Debug, PartialEq, Eq, Structural)]
pub enum RecipientError {
    /// The text starts with `@` but ruma refuses it as a user ID.
    InvalidUserId(IdError),
    /// The text starts with `!` but ruma refuses it as a room ID.
    InvalidRoomId(IdError),
    /// The text starts with neither `@` nor `!`.
    MissingSigil,
}

/// Whether a text starts with the given character.
pub open spec fn starts_with_char(s: Seq<char>, c: char) -> bool {
    s.len() > 0 && s[0] == c
}

/// What parsing the text `s` as a recipient gives: a user for `@...` that ruma accepts, a
/// room for `!...` that ruma accepts, the refusal otherwise; the ID keeps the text.
pub open spec fn parsed_recipient(s: Seq<char>, r: Result<Recipient, RecipientError>) -> bool {
    match r {
        Ok(Recipient::User(u)) => {
            &&& starts_with_char(s, '@')
            &&& ruma_user_id_verdict(s) is Ok
            &&& u@ == s
        },
        Ok(Recipient::Room(room)) => {
            &&& starts_with_char(s, '!')
            &&& room_id_verdict(s) is Ok
            &&& room@ == s
        },
        Err(RecipientError::InvalidUserId(e)) => {
            &&& starts_with_char(s, '@')
            &&& ruma_user_id_verdict(s) == refused(e)
        },
        Err(RecipientError::InvalidRoomId(e)) => {
            &&& starts_with_char(s, '!')
            &&& room_id_verdict(s) == refused(e)
        },
        Err(RecipientError::MissingSigil) => {
            !starts_with_char(s, '@') && !starts_with_char(s, '!')
        },
    }
}

impl Recipient {
    /// The identifier text of the recipient.
    pub open spec fn id_view(self) -> Seq<char> {
        match self {
            Recipient::User(u) => u@,
            Recipient::Room(r) => r@,
        }
    }

    /// Parses a recipient: `@...` as a user ID, `!...` as a room ID, anything else refused.
    pub fn parse(s: &str) -> (r: Result<Recipient, RecipientError>)
        ensures
            parsed_recipient(s@, r),
            standard_user_id(s@) ==> (r matches Ok(Recipient::User(u)) && u@ == s@),
    {
        proof {
            if standard_user_id(s@) {
                let (l, h, p) = choose|l: Seq<char>, h: Seq<char>, p: Seq<char>|
                    #![trigger user_id_text(l, h, p)]
                    crate::ids::standard_parts(l, h, p) && s@ == user_id_text(l, h, p);
                assert(s@[0] == '@');
            }
        }
        if s.is_empty() {
            return Err(RecipientError::MissingSigil);
        }
        let first = s.get_char(0);
        if first == '@' {
            match UserId::parse(s) {
                Ok(u) => Ok(Recipient::User(u)),
                Err(e) => Err(RecipientError::InvalidUserId(e)),
            }
        } else if first == '!' {
            match RoomId::parse(s) {
                Ok(room) => Ok(Recipient::Room(room)),
                Err(e) => Err(RecipientError::InvalidRoomId(e)),
            }
        } else {
            Err(RecipientError::MissingSigil)
        }
    }

    /// The identifier text of the recipient.
    pub fn as_str(&self) -> (r: &str)
        ensures
            r@ == self.id_view(),
    {
        match self {
            Recipient::User(u) => u.as_str(),
            Recipient::Room(room) => room.as_str(),
        }
    }
}

impl Recipient {
    /// The identifier text of the recipient, owned.
    pub fn as_string(&self) -> (r: &String)
        ensures
            r@ == self.id_view(),
    {
        match self {
            Recipient::User(u) => u.as_string(),
            Recipient::Room(room) => room.as_string(),
        }
    }
}

impl Clone for Recipient {
    fn clone(&self) -> (r: Self)
        ensures
            r.id_view() == self.id_view(),
            r is User <==> self is User,
    {
        match self {
            Recipient::User(u) => Recipient::User(u.clone()),
            Recipient::Room(room) => Recipient::Room(room.clone()),
        }
    }
}

impl std::str::FromStr for Recipient {
    type Err = RecipientError;

    fn from_str(s: &str) -> (r: Result<Recipient, RecipientError>)
        ensures
            parsed_recipient(s@, r),
            standard_user_id(s@) ==> (r matches Ok(Recipient::User(u)) && u@ == s@),
    {
        Recipient::parse(s)
    }
}

impl RecipientError {
    /// The explanation given for a recipient without a sigil.
    pub fn missing_sigil_message() -> (r: String)
        ensures
            r@ == "recipient must start with @ (user) or ! (room)"@,
    {
        String::from_str("recipient must start with @ (user) or ! (room)")
    }
}

} // verus!
