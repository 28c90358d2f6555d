//! The closed set of failures a transfer can end in.
use vstd::prelude::*;

verus! {

/// Why a transfer failed. Failures of the channel, of transit and of local
/// streams carry the text of the underlying error.
#[derive(Debug, PartialEq)]
#[non_exhaustive]
pub enum TransferError {
    /// The peer never acknowledged the transfer.
    AckError,
    /// The received data failed its integrity check.
    Checksum,
    /// The number of bytes moved differs from the advertised size.
    FileSize { sent_size: u64, file_size: u64 },
    /// The files being sent changed during the transfer.
    FilesystemSkew,
    /// The offer is of a kind this implementation cannot act on.
    UnsupportedOffer,
    /// The peer reported a failure; its text is kept verbatim.
    PeerError(String),
    /// A text-encoded message was malformed.
    ProtocolJson(String),
    /// A binary-encoded record was malformed.
    ProtocolMsgpack(String),
    /// Messages arrived out of the expected order.
    Protocol(String),
    /// A message of another kind arrived where the named kind was required.
    ProtocolUnexpectedMessage(String, String),
    /// The encrypted channel failed.
    Wormhole(String),
    /// The transit connection could not be established.
    TransitConnect(String),
    /// The established transit connection failed.
    Transit(String),
    /// A local stream failed.
    IO(String),
}

/// The decimal digits of `n`, most significant first.
pub open spec fn decimal(n: nat) -> Seq<char>
    decreases n,
{
    if n < 10 {
        seq![digit_char(n)]
    } else {
        decimal(n / 10).push(digit_char(n % 10))
    }
}

pub open spec fn digit_char(d: nat) -> char {
    if d == 0 { '0' } else if d == 1 { '1' } else if d == 2 { '2' } else if d == 3 { '3' }
    else if d == 4 { '4' } else if d == 5 { '5' } else if d == 6 { '6' } else if d == 7 { '7' }
    else if d == 8 { '8' } else { '9' }
}

fn digit_text(d: u64) -> (r: &'static str)
    requires
        d < 10,
    ensures
        r@ == seq![digit_char(d as nat)],
{
    proof {
        reveal_strlit("0");
        reveal_strlit("1");
        reveal_strlit("2");
        reveal_strlit("3");
        reveal_strlit("4");
        reveal_strlit("5");
        reveal_strlit("6");
        reveal_strlit("7");
        reveal_strlit("8");
        reveal_strlit("9");
    }
    let r = if d == 0 { "0" } else if d == 1 { "1" } else if d == 2 { "2" } else if d == 3 { "3" }
    else if d == 4 { "4" } else if d == 5 { "5" } else if d == 6 { "6" } else if d == 7 { "7" }
    else if d == 8 { "8" } else { "9" };
    assert(r@ =~= seq![digit_char(d as nat)]);
    r
}

/// The plain decimal rendering of `n`, without sign or padding.
fn u64_text(n: u64) -> (r: String)
    ensures
        r@ == decimal(n as nat),
    decreases n,
{
    if n < 10 {
        digit_text(n).to_owned()
    } else {
        let mut r = u64_text(n / 10);
        r.append(digit_text(n % 10));
        r
    }
}

/// The human-readable rendering of each failure.
pub open spec fn error_text(e: TransferError) -> Seq<char> {
    match e {
        TransferError::AckError => "Transfer was not acknowledged by peer"@,
        TransferError::Checksum => "Receive checksum error"@,
        TransferError::FileSize { sent_size, file_size } =>
            "The file contained a different amount of bytes than advertized! Sent "@
                + decimal(sent_size as nat) + " bytes, but should have been "@
                + decimal(file_size as nat),
        TransferError::FilesystemSkew =>
            "The file(s) to send got modified during the transfer, and thus corrupted"@,
        TransferError::UnsupportedOffer => "Unsupported offer type"@,
        TransferError::PeerError(s) => "Something went wrong on the other side: "@ + s@,
        TransferError::ProtocolJson(_) => "Corrupt JSON message received"@,
        TransferError::ProtocolMsgpack(_) => "Corrupt Msgpack message received"@,
        TransferError::Protocol(s) => "Protocol error: "@ + s@,
        TransferError::ProtocolUnexpectedMessage(expected, got) =>
            "Unexpected message (protocol error): Expected '"@ + expected@ + "', but got: "@
                + got@,
        TransferError::Wormhole(_) => "Wormhole connection error"@,
        TransferError::TransitConnect(_) => "Error while establishing transit connection"@,
        TransferError::Transit(_) => "Transit error"@,
        TransferError::IO(_) => "IO error"@,
    }
}

fn join(a: &str, b: &String) -> (r: String)
    ensures
        r@ == a@ + b@,
{
    let mut r = a.to_owned();
    r.append(b.as_str());
    r
}

impl TransferError {
    /// A failure where a message of kind `expected` was required and one
    /// described by `got` arrived.
    pub fn unexpected_message(expected: &str, got: String) -> (r: TransferError)
        ensures
            r matches TransferError::ProtocolUnexpectedMessage(e, g) && e@ == expected@ && g == got,
    {
        TransferError::ProtocolUnexpectedMessage(expected.to_owned(), got)
    }

    /// The human-readable text of this failure, as sent to the peer.
    pub fn message(&self) -> (r: String)
        ensures
            r@ == error_text(*self),
    {
        match self {
            TransferError::AckError => "Transfer was not acknowledged by peer".to_owned(),
            TransferError::Checksum => "Receive checksum error".to_owned(),
            TransferError::FileSize { sent_size, file_size } => {
                let mut r = join(
                    "The file contained a different amount of bytes than advertized! Sent ",
                    &u64_text(*sent_size),
                );
                r.append(" bytes, but should have been ");
                r.append(u64_text(*file_size).as_str());
                r
            },
            TransferError::FilesystemSkew =>
                "The file(s) to send got modified during the transfer, and thus corrupted".to_owned(),
            TransferError::UnsupportedOffer => "Unsupported offer type".to_owned(),
            TransferError::PeerError(s) => join("Something went wrong on the other side: ", s),
            TransferError::ProtocolJson(_) => "Corrupt JSON message received".to_owned(),
            TransferError::ProtocolMsgpack(_) => "Corrupt Msgpack message received".to_owned(),
            TransferError::Protocol(s) => join("Protocol error: ", s),
            TransferError::ProtocolUnexpectedMessage(expected, got) => {
                let mut r = join("Unexpected message (protocol error): Expected '", expected);
                r.append("', but got: ");
                r.append(got.as_str());
                r
            },
            TransferError::Wormhole(_) => "Wormhole connection error".to_owned(),
            TransferError::TransitConnect(_) => "Error while establishing transit connection".to_owned(),
            TransferError::Transit(_) => "Transit error".to_owned(),
            TransferError::IO(_) => "IO error".to_owned(),
        }
    }
}

} // verus!
