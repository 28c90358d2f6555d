//! The sending side: the offer it makes, and what it does with the replies.
use vstd::prelude::*;
use crate::error::TransferError;
use crate::json::Json;
use crate::messages::{Offer, PeerMessage};
use crate::ack::TransitAck;
use crate::protocol::{
    Abort, ChannelAction, PeerTransit, abort_notifying, ack_outcome, expect_file_ack, expect_transit, notifies,
    transit_outcome,
};
use crate::receive::{archive_path, is_named_path, to_archive_path};

verus! {

/// What the sender advertises for a folder sent as one archive: the
/// folder's name in its archive form, and the archive's size.
pub fn offer_folder(dirname: String, zipsize: u64, numbytes: u64, numfiles: u64) -> (r: PeerMessage)
    ensures
        r matches PeerMessage::Offer(Offer::Directory { dirname: d, mode, zipsize: z, numbytes: b, numfiles: f })
            && (is_named_path(dirname@) ==> d@ == archive_path(dirname@)) && mode@ == "zipfile/deflated"@
            && z == zipsize && b == numbytes && f == numfiles,
{
    PeerMessage::Offer(
        Offer::Directory {
            dirname: to_archive_path(dirname),
            mode: "zipfile/deflated".to_owned(),
            zipsize,
            numbytes,
            numfiles,
        },
    )
}

/// Handles the end of the bulk transfer on the sending side: `sent_size`
/// bytes went out, whose digest is `digest`, and the peer acknowledged with
/// `ack`. On success the channel is closed next; every failure is told to
/// the peer.
pub fn finish_send(sent_size: u64, file_size: u64, ack: &TransitAck, digest: &String) -> (r: Result<
    ChannelAction,
    Abort,
>)
    ensures
        sent_size != file_size ==> (r matches Err(a) && a.error == (TransferError::FileSize {
            sent_size,
            file_size,
        }) && notifies(a)),
        sent_size == file_size && ack.ack@ != "ok"@ ==> (r matches Err(a) && a.error
            == TransferError::AckError && notifies(a)),
        sent_size == file_size && ack.ack@ == "ok"@ && ack.sha256@ != digest@ ==> (r matches Err(a)
            && a.error == TransferError::Checksum && notifies(a)),
        sent_size == file_size && ack.ack@ == "ok"@ && ack.sha256@ == digest@ ==> r
            == Ok::<ChannelAction, Abort>(ChannelAction::Close),
{
    match crate::protocol::check_sent_size(sent_size, file_size) {
        Err(e) => Err(abort_notifying(e)),
        Ok(()) => match ack.check(digest) {
            Err(e) => Err(abort_notifying(e)),
            Ok(()) => Ok(ChannelAction::Close),
        },
    }
}

/// Handles a failure of the sender once its transit advertisement is out:
/// a local failure is told to the peer; an error the peer reported is not
/// sent back.
pub fn sender_failed(error: TransferError) -> (r: Abort)
    ensures
        r.error == error,
        error is PeerError ==> r.notify is None,
        !(error is PeerError) ==> notifies(r),
{
    match error {
        TransferError::PeerError(reason) => Abort { error: TransferError::PeerError(reason), notify: None },
        _ => abort_notifying(error),
    }
}

/// Where a sender stands once its transit advertisement and offer are out.
#[derive(Debug, PartialEq)]
pub enum SenderPhase {
    /// Nothing sent yet; `offer` is what will be offered.
    Start(PeerMessage),
    /// This side's transit advertisement is being sent; the offer follows.
    AdvertSent(PeerMessage),
    /// The offer is being sent.
    OfferSent,
    AwaitTransit,
    AwaitAck(PeerTransit),
    Connecting,
    Transferring,
    Finished,
}

/// What happened since the sender's last action.
#[derive(Debug, PartialEq)]
pub enum SenderEvent {
    /// The transit connector is open with these abilities and hints.
    Opened { abilities: Json, hints: Json },
    /// The last message handed to the channel went out.
    Sent,
    /// A message arrived, with the rendering an error would carry.
    Received(PeerMessage, String),
    Connected,
    ConnectFailed(String),
    /// The data went out: `sent_size` bytes with digest `digest`, and the
    /// peer acknowledged with `ack`.
    Transferred { sent_size: u64, digest: String, ack: TransitAck },
    Failed(TransferError),
}

/// What the sender does next.
#[derive(Debug, PartialEq)]
pub enum SenderAction {
    /// Send this message on the channel.
    Send(PeerMessage),
    /// Receive the next message.
    Receive,
    /// Connect transit as the leader with the peer's abilities and hints.
    Connect(PeerTransit),
    /// Run the bulk transfer of the offered size.
    Transfer,
    Close,
    /// Stop: send the notification, if any, and return the error.
    GiveUp(Abort),
}

/// The sender's transition: `r` is the next phase and action on `event`
/// in `phase`, for an offer of `file_size` bytes.
pub open spec fn sender_transition(phase: SenderPhase, file_size: u64, event: SenderEvent, r: (SenderPhase, SenderAction)) -> bool {
    match (phase, event) {
        (SenderPhase::Start(offer), SenderEvent::Opened { abilities, hints }) =>
            r == (SenderPhase::AdvertSent(offer), SenderAction::Send(PeerMessage::Transit { abilities, hints })),
        (SenderPhase::AdvertSent(offer), SenderEvent::Sent) => r == (SenderPhase::OfferSent, SenderAction::Send(offer)),
        (SenderPhase::OfferSent, SenderEvent::Sent) => r == (SenderPhase::AwaitTransit, SenderAction::Receive),
        (SenderPhase::AwaitTransit, SenderEvent::Received(m, shown)) => match m {
            PeerMessage::Transit { abilities, hints } =>
                r == (SenderPhase::AwaitAck(PeerTransit { abilities, hints }), SenderAction::Receive),
            _ => r.0 == SenderPhase::Finished && (r.1 matches SenderAction::GiveUp(a)
                && transit_outcome(m, shown, Err(a))),
        },
        (SenderPhase::AwaitAck(t), SenderEvent::Received(m, shown)) => if ack_outcome(m, shown, Ok(())) {
            r == (SenderPhase::Connecting, SenderAction::Connect(t))
        } else {
            r.0 == SenderPhase::Finished && (r.1 matches SenderAction::GiveUp(a) && ack_outcome(m, shown, Err(a)))
        },
        (SenderPhase::Connecting, SenderEvent::Connected) => r == (SenderPhase::Transferring, SenderAction::Transfer),
        (SenderPhase::Transferring, SenderEvent::Transferred { sent_size, digest, ack }) =>
            if sent_size != file_size {
                r.0 == SenderPhase::Finished && (r.1 matches SenderAction::GiveUp(a)
                    && a.error == (TransferError::FileSize { sent_size, file_size }) && notifies(a))
            } else if ack.ack@ != "ok"@ {
                r.0 == SenderPhase::Finished && (r.1 matches SenderAction::GiveUp(a)
                    && a.error == TransferError::AckError && notifies(a))
            } else if ack.sha256@ != digest@ {
                r.0 == SenderPhase::Finished && (r.1 matches SenderAction::GiveUp(a)
                    && a.error == TransferError::Checksum && notifies(a))
            } else {
                r == (SenderPhase::Finished, SenderAction::Close)
            },
        (_, SenderEvent::ConnectFailed(reason)) => r.0 == SenderPhase::Finished && (r.1 matches SenderAction::GiveUp(a)
            && a.error == TransferError::TransitConnect(reason) && notifies(a)),
        (_, SenderEvent::Failed(e)) => r.0 == SenderPhase::Finished && (r.1 matches SenderAction::GiveUp(a)
            && a.error == e && (e is PeerError ==> a.notify is None) && (!(e is PeerError) ==> notifies(a))),
        (_, SenderEvent::Received(PeerMessage::Error(reason), _)) =>
            r == (SenderPhase::Finished, SenderAction::GiveUp(Abort { error: TransferError::PeerError(reason), notify: None })),
        _ => r.0 == SenderPhase::Finished && (r.1 matches SenderAction::GiveUp(a) && a.error is Protocol
            && notifies(a)),
    }
}

/// The sender's next phase and action on `event` in `phase`, for an offer
/// of `file_size` bytes. Transit is connected only after the peer's
/// advertisement and its "ok" acknowledgment, and only a transfer that
/// succeeds closes the channel.
pub fn sender_step(phase: SenderPhase, file_size: u64, event: SenderEvent) -> (r: (SenderPhase, SenderAction))
    ensures
        sender_transition(phase, file_size, event, r),
        r.1 is Connect ==> (phase is AwaitAck && (event matches SenderEvent::Received(
            PeerMessage::Answer(crate::messages::Answer::FileAck(s)),
            _,
        ) && s@ == "ok"@)),
        r.1 is Close ==> phase is Transferring,
{
    match (phase, event) {
        (SenderPhase::Start(offer), SenderEvent::Opened { abilities, hints }) =>
            (SenderPhase::AdvertSent(offer), SenderAction::Send(PeerMessage::Transit { abilities, hints })),
        (SenderPhase::AdvertSent(offer), SenderEvent::Sent) => (SenderPhase::OfferSent, SenderAction::Send(offer)),
        (SenderPhase::OfferSent, SenderEvent::Sent) => (SenderPhase::AwaitTransit, SenderAction::Receive),
        (SenderPhase::AwaitTransit, SenderEvent::Received(m, shown)) => match expect_transit(m, shown) {
            Ok(t) => (SenderPhase::AwaitAck(t), SenderAction::Receive),
            Err(a) => (SenderPhase::Finished, SenderAction::GiveUp(a)),
        },
        (SenderPhase::AwaitAck(t), SenderEvent::Received(m, shown)) => match expect_file_ack(m, shown) {
            Ok(()) => (SenderPhase::Connecting, SenderAction::Connect(t)),
            Err(a) => (SenderPhase::Finished, SenderAction::GiveUp(a)),
        },
        (SenderPhase::Connecting, SenderEvent::Connected) => (SenderPhase::Transferring, SenderAction::Transfer),
        (SenderPhase::Transferring, SenderEvent::Transferred { sent_size, digest, ack }) =>
            match finish_send(sent_size, file_size, &ack, &digest) {
                Ok(_) => (SenderPhase::Finished, SenderAction::Close),
                Err(a) => (SenderPhase::Finished, SenderAction::GiveUp(a)),
            },
        (_, SenderEvent::ConnectFailed(reason)) =>
            (SenderPhase::Finished, SenderAction::GiveUp(sender_failed(TransferError::TransitConnect(reason)))),
        (_, SenderEvent::Failed(e)) => (SenderPhase::Finished, SenderAction::GiveUp(sender_failed(e))),
        (_, SenderEvent::Received(PeerMessage::Error(reason), _)) =>
            (SenderPhase::Finished, SenderAction::GiveUp(Abort { error: TransferError::PeerError(reason), notify: None })),
        (_, _) => (
            SenderPhase::Finished,
            SenderAction::GiveUp(abort_notifying(TransferError::Protocol("event out of order".to_owned()))),
        ),
    }
}

/// A sender whose peer answers with an error, in whatever phase, stops with
/// that peer error and sends nothing back; as it is then finished, and only
/// a sender awaiting the acknowledgment connects, transit is never
/// connected after it.
pub proof fn lemma_sender_stops_on_peer_error(
    phase: SenderPhase,
    file_size: u64,
    reason: String,
    shown: String,
    r: (SenderPhase, SenderAction),
)
    requires
        sender_transition(phase, file_size, SenderEvent::Received(PeerMessage::Error(reason), shown), r),
    ensures
        r == (SenderPhase::Finished, SenderAction::GiveUp(
            Abort { error: TransferError::PeerError(reason), notify: None },
        )),
{
}

} // verus!
