//! Choosing the message body: the argument, or else what is piped in.

use crate::text::{lemma_trim_idempotent, trim, trim_whitespace};
use vstd::prelude::*;
use vstd::string::StringExecFns;
use vstd::utf8::{decode_utf8, valid_utf8};

verus! {

broadcast use vstd::string::group_string_axioms;

/// A source of piped message text, such as standard input.
pub trait MessageInput: Sized {
    /// The text that reading everything left would yield, or `None` when what is left cannot
    /// be read as text.
    spec fn pending(&self) -> Option<Seq<char>>;

    /// Reads everything that is left and returns it as text, or the reason it could not.
    fn read_all_text(&mut self) -> (r: Result<String, String>)
        ensures
            r is Ok <==> old(self).pending() is Some,
            r matches Ok(t) ==> t@ == old(self).pending()->0,
            r is Ok ==> final(self).pending() == Some(Seq::<char>::empty()),
    ;
}

/// Calls `std::io::Read::read_to_string` on a byte slice.
///
/// Claimed, as std documents it: the read succeeds exactly when the bytes are valid UTF-8,
/// and then yields their decoding, and reading to the end leaves the slice empty. The text of
/// the error, and the slice after a failed read, are left unsaid.
#[verifier::external_body]
fn read_slice_to_string(bytes: &mut &[u8]) -> (r: Result<String, String>)
    ensures
        r is Ok <==> valid_utf8(old(bytes)@),
        r matches Ok(t) ==> t@ == decode_utf8(old(bytes)@),
        r is Ok ==> final(bytes)@.len() == 0,
{
    let mut buf = String::new();
    match std::io::Read::read_to_string(bytes, &mut buf) {
        Ok(_) => Ok(buf),
        Err(e) => Err(e.to_string()),
    }
}

impl<'a> MessageInput for &'a [u8] {
    /// The decoding of the bytes left, when they are valid UTF-8.
    open spec fn pending(&self) -> Option<Seq<char>> {
        if valid_utf8(self@) {
            Some(decode_utf8(self@))
        } else {
            None
        }
    }

    fn read_all_text(&mut self) -> (r: Result<String, String>) {
        let r = read_slice_to_string(self);
        proof {
            if r is Ok {
                assert(self@ =~= Seq::<u8>::empty());
                assert(valid_utf8(self@));
                assert(decode_utf8(self@) =~= Seq::<char>::empty());
            }
        }
        r
    }
}

/// The error given when there is no message to send.
pub open spec fn no_message_text() -> Seq<char> {
    "No message provided. Pass as an argument or pipe input via stdin."@
}

/// The error given when the piped input could not be read.
pub open spec fn read_failure_text(reason: Seq<char>) -> Seq<char> {
    "Error reading stdin: "@ + reason
}

/// A text result seen as character sequences.
pub open spec fn text_result(r: Result<String, String>) -> Result<Seq<char>, Seq<char>> {
    match r {
        Ok(s) => Ok(s@),
        Err(e) => Err(e@),
    }
}

/// The message taken from what reading the piped input gave.
pub open spec fn piped_message(read: Result<Seq<char>, Seq<char>>) -> Result<Seq<char>, Seq<char>> {
    match read {
        Err(reason) => Err(read_failure_text(reason)),
        Ok(buf) => if trim(buf).len() == 0 {
            Err(no_message_text())
        } else {
            Ok(trim(buf))
        },
    }
}

/// Whether the argument holds a message: present and not empty.
pub open spec fn argument_given(message: Option<String>) -> bool {
    message matches Some(m) && m@.len() > 0
}

/// The error given when there is no message to send.
pub fn no_message_error() -> (r: String)
    ensures
        r@ == no_message_text(),
{
    String::from_str("No message provided. Pass as an argument or pipe input via stdin.")
}

/// Takes the message from what reading the piped input gave: trimmed, and not empty.
pub fn message_from_read(read: Result<String, String>) -> (r: Result<String, String>)
    ensures
        text_result(r) == piped_message(text_result(read)),
{
    match read {
        Err(reason) => {
            let mut text = String::from_str("Error reading stdin: ");
            text.append(reason.as_str());
            Err(text)
        },
        Ok(buf) => {
            let trimmed = trim_whitespace(buf.as_str());
            if trimmed.as_str().is_empty() {
                Err(no_message_error())
            } else {
                Ok(trimmed)
            }
        },
    }
}

/// Resolves the message from the argument or by reading from `reader`.
///
/// A non-empty argument is the message as it stands. Otherwise, on a terminal there is nothing
/// to read and the message is missing; else the reader is read to its end and the message is
/// what `message_from_read` makes of that.
pub fn resolve_message<R: MessageInput>(
    message: Option<String>,
    reader: &mut R,
    is_terminal: bool,
) -> (r: Result<String, String>)
    ensures
        argument_given(message) ==> r == Ok::<String, String>(message->0),
        !argument_given(message) && is_terminal ==> text_result(r) == Err::<Seq<char>, Seq<char>>(
            no_message_text(),
        ),
        argument_given(message) || is_terminal ==> *final(reader) == *old(reader),
        !argument_given(message) && !is_terminal ==> match old(reader).pending() {
            Some(t) => {
                &&& text_result(r) == piped_message(Ok(t))
                &&& final(reader).pending() == Some(Seq::<char>::empty())
            },
            None => exists|e: Seq<char>| text_result(r) == piped_message(Err(e)),
        },
        r matches Ok(m) ==> m@.len() > 0,
{
    match message {
        Some(msg) if !msg.as_str().is_empty() => Ok(msg),
        _ => {
            if is_terminal {
                return Err(no_message_error());
            }
            let read = reader.read_all_text();
            let ghost seen = text_result(read);
            let r = message_from_read(read);
            assert(text_result(r) == piped_message(seen));
            r
        },
    }
}

/// A piped message is already trimmed: feeding it back in gives it back unchanged.
pub proof fn lemma_piped_message_stable(buf: Seq<char>)
    ensures
        piped_message(Ok(buf)) matches Ok(m) ==> piped_message(Ok(m)) == Ok::<Seq<char>, Seq<char>>(m),
{
    lemma_trim_idempotent(buf);
}

} // verus!
