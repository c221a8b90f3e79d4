//! Matrix user and room identifiers, validated through ruma.

use matrix_sdk::ruma::IdParseError as E;
use vstd::prelude::*;
use vstd::std_specs::iter::IteratorSpec;
use vstd::string::StrSliceExecFns;
use vstd::string::StringExecFns;

verus! {

broadcast use vstd::string::group_string_axioms;

/// Why ruma refused an identifier.
#[derive(Clone, Copy, Debug, PartialEq, Eq, Structural)]
pub enum IdError {
    Empty,
    InvalidCharacters,
    InvalidServerName,
    InvalidUtf8,
    MaximumLengthExceeded,
    MissingColon,
    MissingLeadingSigil,
    Other,
}

/// The verdict of ruma's user-ID grammar (`UserId::parse`) on a text.
pub uninterp spec fn ruma_user_id_verdict(s: Seq<char>) -> Result<(), IdError>;

/// A refusal of an identifier for the given reason.
pub open spec fn refused(e: IdError) -> Result<(), IdError> {
    Err(e)
}

/// The text of the server name part of a user ID: everything after the first colon.
pub open spec fn server_name_of(id: Seq<char>) -> Seq<char> {
    match id.index_of_first(':') {
        Some(i) => id.skip(i + 1),
        None => Seq::empty(),
    }
}

/// A character of a user-ID localpart in the current grammar: `a-z`, `0-9` and `. _ = - / +`.
pub open spec fn is_localpart_char(c: char) -> bool {
    ||| 'a' <= c <= 'z'
    ||| '0' <= c <= '9'
    ||| c == '.' || c == '_' || c == '=' || c == '-' || c == '/' || c == '+'
}

/// A character of a host name: ASCII letters and digits, `-` and `.`.
pub open spec fn is_host_char(c: char) -> bool {
    ||| 'a' <= c <= 'z'
    ||| 'A' <= c <= 'Z'
    ||| '0' <= c <= '9'
    ||| c == '-' || c == '.'
}

/// The text `@localpart:host`, followed by `:port` when a port is given.
pub open spec fn user_id_text(localpart: Seq<char>, host: Seq<char>, port: Seq<char>) -> Seq<char> {
    let base = seq!['@'] + localpart + seq![':'] + host;
    if port.len() == 0 {
        base
    } else {
        base + seq![':'] + port
    }
}

/// Parts of a user ID in the current grammar: a non-empty localpart of localpart characters, a
/// non-empty host name, and no port or one of one to four digits.
pub open spec fn standard_parts(localpart: Seq<char>, host: Seq<char>, port: Seq<char>) -> bool {
    &&& localpart.len() > 0
    &&& forall|i: int| 0 <= i < localpart.len() ==> is_localpart_char(#[trigger] localpart[i])
    &&& host.len() > 0
    &&& forall|i: int| 0 <= i < host.len() ==> is_host_char(#[trigger] host[i])
    &&& port.len() <= 4
    &&& forall|i: int| 0 <= i < port.len() ==> '0' <= #[trigger] port[i] <= '9'
}

/// A user ID in the current grammar, such as `@john.doe:example.com` or `@bot:example.com:8448`.
pub open spec fn standard_user_id(s: Seq<char>) -> bool {
    exists|localpart: Seq<char>, host: Seq<char>, port: Seq<char>|
        #![trigger user_id_text(localpart, host, port)]
        standard_parts(localpart, host, port) && s == user_id_text(localpart, host, port)
}

/// A text that ruma accepts as a user ID.
pub open spec fn accepted_user_id(s: Seq<char>) -> bool {
    &&& ruma_user_id_verdict(s) is Ok
    &&& s.len() > 0
    &&& s[0] == '@'
    &&& s.contains(':')
}

/// The verdict of ruma's room-ID grammar (`RoomId::parse`), as its source states it
/// (matrix-sdk turns on `compat-arbitrary-length-ids`, so there is no length limit).
pub open spec fn room_id_verdict(s: Seq<char>) -> Result<(), IdError> {
    if s.len() == 0 || s[0] != '!' {
        Err(IdError::MissingLeadingSigil)
    } else if s.contains('\0') {
        Err(IdError::InvalidCharacters)
    } else {
        Ok(())
    }
}

/// Calls `matrix_sdk::ruma::UserId::parse` and keeps its verdict.
///
/// Claimed: the verdict is the named `ruma_user_id_verdict` of the text; as the validation
/// source (`parse_id` in ruma-identifiers-validation) shows, a text without a leading `@` is
/// refused for its sigil, one with the sigil but no colon for the missing colon, and an
/// accepted one has both. A user ID in the current grammar (`standard_user_id`) is accepted:
/// `parse_id` finds its colon after the localpart, `server_name::validate` takes the host
/// name and the port, and the localpart holds neither `:` nor NUL (the length check is off
/// under `compat-arbitrary-length-ids`). The rest of the server-name and localpart checks
/// (IP literals, longer ports, historical localparts) is left unsaid.
#[verifier::external_body]
fn ruma_parse_user_id(s: &str) -> (r: Result<(), IdError>)
    ensures
        r == ruma_user_id_verdict(s@),
        (s@.len() == 0 || s@[0] != '@') ==> r == refused(IdError::MissingLeadingSigil),
        (s@.len() > 0 && s@[0] == '@' && !s@.contains(':')) ==> r == refused(IdError::MissingColon),
        r is Ok ==> s@.len() > 0 && s@[0] == '@' && s@.contains(':'),
        standard_user_id(s@) ==> r is Ok,
{
    match matrix_sdk::ruma::UserId::parse(s) {
        Ok(_) => Ok(()),
        Err(E::Empty) => Err(IdError::Empty),
        Err(E::InvalidCharacters) => Err(IdError::InvalidCharacters),
        Err(E::InvalidServerName) => Err(IdError::InvalidServerName),
        Err(E::InvalidUtf8) => Err(IdError::InvalidUtf8),
        Err(E::MaximumLengthExceeded) => Err(IdError::MaximumLengthExceeded),
        Err(E::MissingColon) => Err(IdError::MissingColon),
        Err(E::MissingLeadingSigil) => Err(IdError::MissingLeadingSigil),
        Err(_) => Err(IdError::Other),
    }
}

/// Calls `matrix_sdk::ruma::RoomId::parse` and keeps its verdict.
///
/// Claimed: the verdict is `room_id_verdict`, which restates `room_id::validate` of
/// ruma-identifiers-validation (the first byte is `!`, no NUL byte) over characters.
#[verifier::external_body]
fn ruma_parse_room_id(s: &str) -> (r: Result<(), IdError>)
    ensures
        r == room_id_verdict(s@),
{
    match matrix_sdk::ruma::RoomId::parse(s) {
        Ok(_) => Ok(()),
        Err(E::Empty) => Err(IdError::Empty),
        Err(E::InvalidCharacters) => Err(IdError::InvalidCharacters),
        Err(E::InvalidServerName) => Err(IdError::InvalidServerName),
        Err(E::InvalidUtf8) => Err(IdError::InvalidUtf8),
        Err(E::MaximumLengthExceeded) => Err(IdError::MaximumLengthExceeded),
        Err(E::MissingColon) => Err(IdError::MissingColon),
        Err(E::MissingLeadingSigil) => Err(IdError::MissingLeadingSigil),
        Err(_) => Err(IdError::Other),
    }
}

/// The characters of a string slice, in order.
pub fn chars_of(s: &str) -> (v: Vec<char>)
    ensures
        v@ == s@,
{
    let mut it = s.chars();
    let mut v: Vec<char> = Vec::new();
    loop
        invariant
            it.obeys_prophetic_iter_laws(),
            it.decrease() is Some,
            v@ + it.remaining() == s@,
        ensures
            v@ == s@,
        decreases it.decrease()->0,
    {
        match it.next() {
            Some(c) => {
                v.push(c);
                assert(v@ + it.remaining() =~= s@);
            },
            None => {
                assert(v@ =~= s@);
                break;
            },
        }
    }
    v
}

/// A Matrix user ID (`@localpart:server`) that ruma accepts.
#[derive(Debug, PartialEq, Eq)]
pub struct UserId {
    id: String,
}

impl View for UserId {
    type V = Seq<char>;

    closed spec fn view(&self) -> Seq<char> {
        self.id@
    }
}

impl UserId {
    #[verifier::type_invariant]
    spec fn well_formed(&self) -> bool {
        ruma_user_id_verdict(self.id@) is Ok
    }

    /// Makes the user ID of a text from ruma's verdict on it: the ID keeps the text when the
    /// verdict accepts it, else the verdict's reason is the error.
    pub fn from_verdict(s: &str, verdict: Result<(), IdError>) -> (r: Result<UserId, IdError>)
        requires
            verdict == ruma_user_id_verdict(s@),
        ensures
            r is Ok <==> verdict is Ok,
            r matches Ok(u) ==> u@ == s@,
            r matches Err(e) ==> verdict == refused(e),
    {
        match verdict {
            Ok(()) => Ok(UserId { id: String::from_str(s) }),
            Err(e) => Err(e),
        }
    }

    /// Parses a user ID as ruma does; the ID keeps the text unchanged.
    pub fn parse(s: &str) -> (r: Result<UserId, IdError>)
        ensures
            r is Ok <==> ruma_user_id_verdict(s@) is Ok,
            r matches Ok(u) ==> u@ == s@ && accepted_user_id(s@),
            r matches Err(e) ==> ruma_user_id_verdict(s@) == refused(e),
            s@.len() == 0 || s@[0] != '@' ==> r == Err::<UserId, IdError>(
                IdError::MissingLeadingSigil,
            ),
            standard_user_id(s@) ==> r is Ok,
    {
        let verdict = ruma_parse_user_id(s);
        UserId::from_verdict(s, verdict)
    }

    /// The ID as text.
    pub fn as_str(&self) -> (r: &str)
        ensures
            r@ == self@,
    {
        self.id.as_str()
    }

    /// The ID as an owned text.
    pub fn as_string(&self) -> (r: &String)
        ensures
            r@ == self@,
    {
        &self.id
    }

    /// The server name: the text after the first colon, as ruma's `UserId::server_name` takes it.
    pub fn server_name(&self) -> (r: String)
        ensures
            r@ == server_name_of(self@),
    {
        proof {
            use_type_invariant(self);
            self.id@.index_of_first_ensures(':');
        }
        let text = self.id.as_str();
        let chars = chars_of(text);
        let n: usize = chars.len();
        let mut i: usize = 0;
        while i < n && chars[i] != ':'
            invariant
                i <= n,
                n == chars@.len(),
                chars@ == self.id@,
                forall|j: int| 0 <= j < i ==> chars@[j] != ':',
            decreases n - i,
        {
            i = i + 1;
        }
        if i == n {
            assert(!self.id@.contains(':'));
            return String::new();
        }
        let tail = text.substring_char(i + 1, n);
        proof {
            assert(tail@ =~= self.id@.skip(i + 1));
        }
        String::from_str(tail)
    }
}

impl Clone for UserId {
    fn clone(&self) -> (r: Self)
        ensures
            r@ == self@,
    {
        proof {
            use_type_invariant(self);
        }
        UserId { id: self.id.clone() }
    }
}

/// A Matrix room ID (`!opaque:server` or `!opaque`) that ruma accepts.
#[derive(Debug, PartialEq, Eq)]
pub struct RoomId {
    id: String,
}

impl View for RoomId {
    type V = Seq<char>;

    closed spec fn view(&self) -> Seq<char> {
        self.id@
    }
}

impl RoomId {
    #[verifier::type_invariant]
    spec fn well_formed(&self) -> bool {
        room_id_verdict(self.id@) is Ok
    }

    /// Parses a room ID as ruma does; the ID keeps the text unchanged.
    pub fn parse(s: &str) -> (r: Result<RoomId, IdError>)
        ensures
            match r {
                Ok(room) => room@ == s@ && room_id_verdict(s@) is Ok,
                Err(e) => room_id_verdict(s@) == refused(e),
            },
    {
        match ruma_parse_room_id(s) {
            Ok(()) => Ok(RoomId { id: String::from_str(s) }),
            Err(e) => Err(e),
        }
    }

    /// The ID as text.
    pub fn as_str(&self) -> (r: &str)
        ensures
            r@ == self@,
    {
        self.id.as_str()
    }

    /// The ID as an owned text.
    pub fn as_string(&self) -> (r: &String)
        ensures
            r@ == self@,
    {
        &self.id
    }

}

impl Clone for RoomId {
    fn clone(&self) -> (r: Self)
        ensures
            r@ == self@,
    {
        proof {
            use_type_invariant(self);
        }
        RoomId { id: self.id.clone() }
    }
}

} // verus!
