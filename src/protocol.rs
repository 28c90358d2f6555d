//! The decisions of the sender and receiver state machines.
//!
//! The caller performs each step's channel or transit work and hands the
//! result to the matching function here, which says what comes next. A
//! failed step yields an [`Abort`]: the error to return, and the message to
//! send the peer first, if any. That notification is best effort: a failure
//! to send it is ignored and never replaces the error.
use vstd::prelude::*;
use crate::error::{TransferError, error_text};
use crate::json::Json;
use crate::messages::{Answer, PeerMessage};

verus! {

/// How a step of the protocol failed.
#[derive(Debug, PartialEq)]
pub struct Abort {
    pub error: TransferError,
    /// The `Error` message to send the peer before giving up, if any.
    pub notify: Option<PeerMessage>,
}

/// `a` aborts with `error` and tells the peer about it.
pub open spec fn notifies(a: Abort) -> bool {
    a.notify matches Some(PeerMessage::Error(text)) && text@ == error_text(a.error)
}

/// `a` is the abort for a message rendered as `shown` arriving where one of
/// kind `expected` was required: the peer is told.
pub open spec fn is_unexpected(a: Abort, expected: Seq<char>, shown: String) -> bool {
    &&& a.error matches TransferError::ProtocolUnexpectedMessage(e, g) && e@ == expected && g == shown
    &&& notifies(a)
}

/// One piece of channel work.
#[derive(Debug, PartialEq)]
pub enum ChannelAction {
    Send(PeerMessage),
    Close,
}

/// `a` is the abort for the peer reporting `reason`: nothing is sent back.
pub open spec fn is_peer_error(a: Abort, reason: String) -> bool {
    a.error == TransferError::PeerError(reason) && a.notify is None
}

/// Aborts with `error`, telling the peer about it.
pub fn abort_notifying(error: TransferError) -> (r: Abort)
    ensures
        r.error == error,
        notifies(r),
{
    let text = error.message();
    Abort { error, notify: Some(PeerMessage::Error(text)) }
}

pub fn unexpected(expected: &str, shown: String) -> (r: Abort)
    ensures
        is_unexpected(r, expected@, shown),
{
    abort_notifying(TransferError::unexpected_message(expected, shown))
}

/// The peer's transit abilities and connection hints.
#[derive(Debug, PartialEq)]
pub struct PeerTransit {
    pub abilities: Json,
    pub hints: Json,
}

/// What handling the reply that must be a transit advertisement gives.
pub open spec fn transit_outcome(msg: PeerMessage, shown: String, r: Result<PeerTransit, Abort>) -> bool {
    match msg {
        PeerMessage::Transit { abilities, hints } =>
            r == Ok::<PeerTransit, Abort>(PeerTransit { abilities, hints }),
        PeerMessage::Error(reason) => r matches Err(a) && is_peer_error(a, reason),
        _ => r matches Err(a) && is_unexpected(a, "transit"@, shown),
    }
}

/// What handling the reply that must acknowledge a file offer gives.
pub open spec fn ack_outcome(msg: PeerMessage, shown: String, r: Result<(), Abort>) -> bool {
    match msg {
        PeerMessage::Answer(Answer::FileAck(s)) => if s@ == "ok"@ {
            r is Ok
        } else {
            r matches Err(a) && a.error == TransferError::AckError && notifies(a)
        },
        PeerMessage::Error(reason) => r matches Err(a) && is_peer_error(a, reason),
        _ => r matches Err(a) && is_unexpected(a, "answer"@, shown),
    }
}

/// Handles the reply that must be the peer's transit advertisement;
/// `shown` is the rendering of `msg` that an unexpected-message error
/// carries.
pub fn expect_transit(msg: PeerMessage, shown: String) -> (r: Result<PeerTransit, Abort>)
    ensures
        transit_outcome(msg, shown, r),
{
    match msg {
        PeerMessage::Transit { abilities, hints } => Ok(PeerTransit { abilities, hints }),
        PeerMessage::Error(reason) => Err(Abort { error: TransferError::PeerError(reason), notify: None }),
        _ => Err(unexpected("transit", shown)),
    }
}

/// Handles the reply that must acknowledge this side's file offer;
/// `shown` is the rendering of `msg` that an unexpected-message error
/// carries.
pub fn expect_file_ack(msg: PeerMessage, shown: String) -> (r: Result<(), Abort>)
    ensures
        ack_outcome(msg, shown, r),
{
    match msg {
        PeerMessage::Answer(Answer::FileAck(s)) => if s == "ok".to_owned() {
            Ok(())
        } else {
            Err(abort_notifying(TransferError::AckError))
        },
        PeerMessage::Error(reason) => Err(Abort { error: TransferError::PeerError(reason), notify: None }),
        _ => Err(unexpected("answer", shown)),
    }
}

/// Checks the number of bytes the bulk transfer moved against the size
/// that was advertised.
pub fn check_sent_size(sent_size: u64, file_size: u64) -> (r: Result<(), TransferError>)
    ensures
        sent_size == file_size ==> r is Ok,
        sent_size != file_size ==> r == Err::<(), TransferError>(TransferError::FileSize { sent_size, file_size }),
{
    if sent_size == file_size {
        Ok(())
    } else {
        Err(TransferError::FileSize { sent_size, file_size })
    }
}

} // verus!
