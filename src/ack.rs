//! The acknowledgment record the bulk-transfer layer sends once all data
//! has arrived: `{"ack": ..., "sha256": ...}`.
use vstd::prelude::*;
use vstd::string::*;
use vstd::utf8::encode_utf8;
use crate::error::TransferError;

verus! {

/// The lower-case hex digit for `d`, where `d < 16`.
pub open spec fn hex_digit(d: u32) -> char {
    if d < 10 { ((('0' as u32) + d) as u8) as char } else { ((('a' as u32) + d - 10) as u8) as char }
}

/// How one character appears inside a quoted text value: `"` and `\` and
/// the control characters are escaped, everything else stands as it is.
pub open spec fn escaped_char(c: char) -> Seq<char> {
    if c == '"' {
        seq!['\\', '"']
    } else if c == '\\' {
        seq!['\\', '\\']
    } else if c == '\u{8}' {
        seq!['\\', 'b']
    } else if c == '\t' {
        seq!['\\', 't']
    } else if c == '\n' {
        seq!['\\', 'n']
    } else if c == '\u{c}' {
        seq!['\\', 'f']
    } else if c == '\r' {
        seq!['\\', 'r']
    } else if (c as u32) < 0x20 {
        seq!['\\', 'u', '0', '0', hex_digit((c as u32) / 16), hex_digit((c as u32) % 16)]
    } else {
        seq![c]
    }
}

pub open spec fn escaped(s: Seq<char>) -> Seq<char>
    decreases s.len(),
{
    if s.len() == 0 {
        Seq::empty()
    } else {
        escaped(s.drop_last()) + escaped_char(s.last())
    }
}

/// The quoted, escaped text form of a string value.
pub open spec fn json_quoted(s: Seq<char>) -> Seq<char> {
    seq!['"'] + escaped(s) + seq!['"']
}

/// Relies on `serde_json::to_string` applied to a `str`: the string in
/// double quotes, with `"`, `\` and control characters escaped (the short
/// forms `\b \t \n \f \r` where they exist, else `\u00xx` in lower-case
/// hex). Serializing a string cannot fail.
#[verifier::external_body]
fn quote(s: &str) -> (r: String)
    ensures
        r@ == json_quoted(s@),
{
    serde_json::to_string(s).unwrap_or_default()
}

/// The acknowledgment of a completed transfer, with the hex digest of what
/// was received.
#[derive(Debug, PartialEq)]
pub struct TransitAck {
    pub ack: String,
    pub sha256: String,
}

/// The text form of an acknowledgment record.
pub open spec fn ack_text(a: TransitAck) -> Seq<char> {
    "{\"ack\":"@ + json_quoted(a.ack@) + ",\"sha256\":"@ + json_quoted(a.sha256@) + "}"@
}

impl TransitAck {
    pub fn new(msg: &str, sha256: &str) -> (r: TransitAck)
        ensures
            r.ack@ == msg@,
            r.sha256@ == sha256@,
    {
        TransitAck { ack: msg.to_owned(), sha256: sha256.to_owned() }
    }

    /// The record as text.
    pub fn serialize(&self) -> (r: String)
        ensures
            r@ == ack_text(*self),
    {
        let mut r = "{\"ack\":".to_owned();
        r.append(quote(self.ack.as_str()).as_str());
        r.append(",\"sha256\":");
        r.append(quote(self.sha256.as_str()).as_str());
        r.append("}");
        r
    }

    /// The record as UTF-8 bytes.
    pub fn serialize_vec(&self) -> (r: Vec<u8>)
        ensures
            r@ == encode_utf8(ack_text(*self)),
    {
        let text = self.serialize();
        text.as_str().as_bytes_vec()
    }

    /// Checks the peer's acknowledgment against the digest of what was sent.
    pub fn check(&self, expected_sha256: &String) -> (r: Result<(), TransferError>)
        ensures
            self.ack@ != "ok"@ ==> r == Err::<(), TransferError>(TransferError::AckError),
            self.ack@ == "ok"@ && self.sha256@ != expected_sha256@
                ==> r == Err::<(), TransferError>(TransferError::Checksum),
            self.ack@ == "ok"@ && self.sha256@ == expected_sha256@ ==> r is Ok,
    {
        if self.ack != "ok".to_owned() {
            Err(TransferError::AckError)
        } else if self.sha256 != *expected_sha256 {
            Err(TransferError::Checksum)
        } else {
            Ok(())
        }
    }
}

} // verus!
