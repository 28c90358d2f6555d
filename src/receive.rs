//! The receiving side: from the peer's offer to a pending decision, and
//! from that decision to the end of the transfer.
use vstd::prelude::*;
use crate::error::TransferError;
use crate::json::Json;
use crate::messages::{Offer, PeerMessage};
use crate::protocol::{
    Abort, ChannelAction, PeerTransit, abort_notifying, is_peer_error, is_unexpected, notifies,
    transit_outcome, unexpected,
};

verus! {

/// A single path component that names a file on every platform: not
/// empty, no separator or drive mark, not `.` or `..`.
pub open spec fn is_plain_name(name: Seq<char>) -> bool {
    &&& name.len() > 0
    &&& forall|i: int| 0 <= i < name.len() ==> name[i] != '/' && name[i] != '\\' && name[i] != ':'
    &&& name != seq!['.']
    &&& name != seq!['.', '.']
}

/// The position of the last `c` before position `n`, or -1.
pub open spec fn last_index_of(s: Seq<char>, c: char, n: int) -> int
    decreases n,
{
    if n <= 0 {
        -1
    } else if s[n - 1] == c {
        n - 1
    } else {
        last_index_of(s, c, n - 1)
    }
}

/// The file name without its extension: everything before the last `.`,
/// unless that dot is the first character or there is none.
pub open spec fn file_stem(name: Seq<char>) -> Seq<char> {
    let d = last_index_of(name, '.', name.len() as int);
    if d > 0 {
        name.subrange(0, d)
    } else {
        name
    }
}

/// The start of the last component of `path`: just after its last `/`.
pub open spec fn last_component_start(path: Seq<char>) -> int {
    last_index_of(path, '/', path.len() as int) + 1
}

/// A path whose last component names a file on every platform: no
/// character that is a separator or drive mark on some platform other than
/// `/`, and no leading `//`, which some platforms read as a network prefix.
pub open spec fn is_named_path(path: Seq<char>) -> bool {
    &&& forall|i: int| 0 <= i < path.len() ==> path[i] != '\\' && path[i] != ':'
    &&& !(path.len() >= 2 && path[0] == '/' && path[1] == '/')
    &&& is_plain_name(path.subrange(last_component_start(path), path.len() as int))
}

/// `path` with the extension of its last component set to `ext`: the
/// directory part unchanged, then the file stem, a `.` and `ext`.
pub open spec fn path_with_extension(path: Seq<char>, ext: Seq<char>) -> Seq<char> {
    let k = last_component_start(path);
    path.subrange(0, k) + file_stem(path.subrange(k, path.len() as int)) + seq!['.'] + ext
}

/// The extension of the archive a folder is sent as.
pub open spec fn archive_extension() -> Seq<char> {
    seq!['z', 'i', 'p']
}

/// The path a folder offered as `path` is received under: its last
/// component takes the archive extension.
pub open spec fn archive_path(path: Seq<char>) -> Seq<char> {
    path_with_extension(path, archive_extension())
}

/// A usable extension: not empty, and no path separator of any platform.
pub open spec fn is_extension(ext: Seq<char>) -> bool {
    &&& ext.len() > 0
    &&& forall|i: int| 0 <= i < ext.len() ==> ext[i] != '/' && ext[i] != '\\'
}

pub open spec fn ends_with_zip(path: Seq<char>) -> bool {
    &&& path.len() >= 4
    &&& path.subrange(path.len() - 4, path.len() as int) == seq!['.', 'z', 'i', 'p']
}

/// Relies on `std::path::PathBuf::set_extension`: a path whose file name
/// is `name` is cut after the file stem of `name` and gets `.` and `ext`.
/// It panics on an extension holding a separator, which `requires` leaves
/// out.
#[verifier::external_body]
pub(crate) fn set_extension(path: String, ext: &str) -> (r: String)
    requires
        is_extension(ext@),
    ensures
        is_named_path(path@) ==> r@ == path_with_extension(path@, ext@),
{
    let mut p = std::path::PathBuf::from(path);
    p.set_extension(ext);
    p.to_string_lossy().into_owned()
}

/// `path` with the archive extension, as a folder offered under it is
/// named.
pub fn to_archive_path(path: String) -> (r: String)
    ensures
        is_named_path(path@) ==> r@ == archive_path(path@),
{
    proof {
        reveal_strlit("zip");
        assert("zip"@ =~= archive_extension());
    }
    set_extension(path, "zip")
}

/// The name and size a valid offer announces.
///
/// An offer of a kind this implementation does not know is refused without
/// telling the peer, unlike the other refusals of this step.
pub open spec fn offer_outcome(msg: PeerMessage, shown: String, r: Result<(String, u64), Abort>) -> bool {
    match msg {
        PeerMessage::Offer(Offer::File { filename, filesize }) =>
            r == Ok::<(String, u64), Abort>((filename, filesize)),
        PeerMessage::Offer(Offer::Directory { dirname, zipsize, .. }) =>
            r matches Ok(p) && p.1 == zipsize && (is_named_path(dirname@) ==> p.0@ == archive_path(dirname@)),
        PeerMessage::Offer(Offer::Unsupported) =>
            r == Err::<(String, u64), Abort>(Abort { error: TransferError::UnsupportedOffer, notify: None }),
        PeerMessage::Error(reason) => r matches Err(a) && is_peer_error(a, reason),
        _ => r matches Err(a) && is_unexpected(a, "offer"@, shown),
    }
}

/// Handles the reply that must be the peer's offer, giving the name and
/// size to receive. A folder arrives archived: its name gets the archive
/// extension and its size is the archive's. `shown` is the rendering of
/// `msg` that an unexpected-message error carries.
pub fn expect_offer(msg: PeerMessage, shown: String) -> (r: Result<(String, u64), Abort>)
    ensures
        offer_outcome(msg, shown, r),
{
    match msg {
        PeerMessage::Offer(Offer::File { filename, filesize }) => Ok((filename, filesize)),
        PeerMessage::Offer(Offer::Directory { dirname, zipsize, .. }) =>
            Ok((to_archive_path(dirname), zipsize)),
        PeerMessage::Offer(Offer::Unsupported) =>
            Err(Abort { error: TransferError::UnsupportedOffer, notify: None }),
        PeerMessage::Error(reason) => Err(Abort { error: TransferError::PeerError(reason), notify: None }),
        _ => Err(unexpected("offer", shown)),
    }
}

/// A pending offer from the peer, to be consumed by `accept` or `reject`.
#[must_use]
#[derive(Debug, PartialEq)]
pub struct ReceiveRequest {
    /// The offered name. It comes from the peer unchecked and must be
    /// sanitized before it is used to build a path.
    pub filename: String,
    pub filesize: u64,
    /// The transit abilities the peer advertised.
    pub their_abilities: Json,
    /// The transit hints the peer advertised.
    pub their_hints: Json,
}

/// The work `accept` asks for: send `ack`, connect transit as the follower
/// with the peer's abilities and hints, then receive exactly `size` bytes.
#[derive(Debug, PartialEq)]
pub struct AcceptPlan {
    pub ack: PeerMessage,
    pub their_abilities: Json,
    pub their_hints: Json,
    pub size: u64,
}

impl ReceiveRequest {
    /// Builds the pending decision from the peer's transit advertisement
    /// and the reply that must be its offer.
    pub fn new(their_transit: PeerTransit, offer: PeerMessage, shown: String) -> (r: Result<ReceiveRequest, Abort>)
        ensures
            offer_outcome(offer, shown, match r {
                Ok(req) => Ok::<(String, u64), Abort>((req.filename, req.filesize)),
                Err(a) => Err::<(String, u64), Abort>(a),
            }),
            r matches Ok(req) ==> req.their_abilities == their_transit.abilities
                && req.their_hints == their_transit.hints,
    {
        match expect_offer(offer, shown) {
            Ok((filename, filesize)) => Ok(ReceiveRequest {
                filename,
                filesize,
                their_abilities: their_transit.abilities,
                their_hints: their_transit.hints,
            }),
            Err(a) => Err(a),
        }
    }

    /// Accepts the offer: acknowledge it, connect transit with what the
    /// peer advertised, and receive the offered size.
    pub fn accept(self) -> (r: AcceptPlan)
        ensures
            r.ack matches PeerMessage::Answer(crate::messages::Answer::FileAck(s)) && s@ == "ok"@,
            r.their_abilities == self.their_abilities,
            r.their_hints == self.their_hints,
            r.size == self.filesize,
    {
        AcceptPlan {
            ack: PeerMessage::file_ack("ok"),
            their_abilities: self.their_abilities,
            their_hints: self.their_hints,
            size: self.filesize,
        }
    }

    /// Rejects the offer: tell the peer, then close the channel. The close
    /// is owed whatever became of the send.
    pub fn reject(self) -> (r: Vec<ChannelAction>)
        ensures
            r@.len() == 2,
            r@[0] matches ChannelAction::Send(PeerMessage::Error(s)) && s@ == "transfer rejected"@,
            r@[1] == ChannelAction::Close,
    {
        let mut actions: Vec<ChannelAction> = Vec::new();
        actions.push(ChannelAction::Send(PeerMessage::error_message("transfer rejected")));
        actions.push(ChannelAction::Close);
        actions
    }
}

/// Handles a failure to connect transit after accepting: the peer is told.
pub fn transit_connect_failed(reason: String) -> (r: Abort)
    ensures
        r.error == TransferError::TransitConnect(reason),
        notifies(r),
{
    abort_notifying(TransferError::TransitConnect(reason))
}

/// Handles the result of receiving the data. On success the channel is
/// closed next. A failure of the transit connection is told to the peer in
/// its own words; any other failure is returned as is.
pub fn received(result: Result<(), TransferError>) -> (r: Result<ChannelAction, Abort>)
    ensures
        match result {
            Ok(()) => r == Ok::<ChannelAction, Abort>(ChannelAction::Close),
            Err(TransferError::Transit(reason)) => r matches Err(a)
                && a.error == TransferError::Transit(reason)
                && a.notify == Some(PeerMessage::Error(reason)),
            Err(e) => r == Err::<ChannelAction, Abort>(Abort { error: e, notify: None }),
        },
{
    match result {
        Ok(()) => Ok(ChannelAction::Close),
        Err(TransferError::Transit(reason)) => {
            let text = reason.clone();
            Err(Abort { error: TransferError::Transit(reason), notify: Some(PeerMessage::Error(text)) })
        },
        Err(e) => Err(Abort { error: e, notify: None }),
    }
}

/// Where a receiver stands before the peer's offer is settled.
#[derive(Debug, PartialEq)]
pub enum ReceiverPhase {
    Start,
    /// This side's transit advertisement is being sent.
    AdvertSent,
    AwaitTransit,
    AwaitOffer(PeerTransit),
    Finished,
}

/// What happened since the receiver's last action.
#[derive(Debug, PartialEq)]
pub enum ReceiverEvent {
    /// The transit connector is open with these abilities and hints.
    Opened { abilities: Json, hints: Json },
    /// The last message handed to the channel went out.
    Sent,
    /// A message arrived, with the rendering an error would carry.
    Received(PeerMessage, String),
    Failed(TransferError),
}

/// What the receiver does next.
#[derive(Debug, PartialEq)]
pub enum ReceiverAction {
    Send(PeerMessage),
    Receive,
    /// The offer is pending: hand it to the caller to accept or reject.
    Offered(ReceiveRequest),
    /// Stop: send the notification, if any, and return the error.
    GiveUp(Abort),
}

/// The receiver's transition: `r` is the next phase and action on `event`
/// in `phase`.
pub open spec fn receiver_transition(phase: ReceiverPhase, event: ReceiverEvent, r: (ReceiverPhase, ReceiverAction)) -> bool {
    match (phase, event) {
        (ReceiverPhase::Start, ReceiverEvent::Opened { abilities, hints }) =>
            r == (ReceiverPhase::AdvertSent, ReceiverAction::Send(PeerMessage::Transit { abilities, hints })),
        (ReceiverPhase::AdvertSent, ReceiverEvent::Sent) => r == (ReceiverPhase::AwaitTransit, ReceiverAction::Receive),
        (ReceiverPhase::AwaitTransit, ReceiverEvent::Received(m, shown)) => match m {
            PeerMessage::Transit { abilities, hints } =>
                r == (ReceiverPhase::AwaitOffer(PeerTransit { abilities, hints }), ReceiverAction::Receive),
            _ => r.0 == ReceiverPhase::Finished && (r.1 matches ReceiverAction::GiveUp(a)
                && transit_outcome(m, shown, Err(a))),
        },
        (ReceiverPhase::AwaitOffer(t), ReceiverEvent::Received(m, shown)) => r.0 == ReceiverPhase::Finished
            && match r.1 {
            ReceiverAction::Offered(req) => offer_outcome(m, shown, Ok((req.filename, req.filesize)))
                && req.their_abilities == t.abilities && req.their_hints == t.hints,
            ReceiverAction::GiveUp(a) => offer_outcome(m, shown, Err(a)),
            _ => false,
        },
        (_, ReceiverEvent::Failed(e)) => r == (ReceiverPhase::Finished, ReceiverAction::GiveUp(
            Abort { error: e, notify: None },
        )),
        _ => r.0 == ReceiverPhase::Finished && (r.1 matches ReceiverAction::GiveUp(a) && a.error is Protocol
            && notifies(a)),
    }
}

/// The receiver's next phase and action on `event` in `phase`: advertise
/// transit, take the peer's advertisement, then its offer.
pub fn receiver_step(phase: ReceiverPhase, event: ReceiverEvent) -> (r: (ReceiverPhase, ReceiverAction))
    ensures
        receiver_transition(phase, event, r),
{
    match (phase, event) {
        (ReceiverPhase::Start, ReceiverEvent::Opened { abilities, hints }) =>
            (ReceiverPhase::AdvertSent, ReceiverAction::Send(PeerMessage::Transit { abilities, hints })),
        (ReceiverPhase::AdvertSent, ReceiverEvent::Sent) => (ReceiverPhase::AwaitTransit, ReceiverAction::Receive),
        (ReceiverPhase::AwaitTransit, ReceiverEvent::Received(m, shown)) => match crate::protocol::expect_transit(m, shown) {
            Ok(t) => (ReceiverPhase::AwaitOffer(t), ReceiverAction::Receive),
            Err(a) => (ReceiverPhase::Finished, ReceiverAction::GiveUp(a)),
        },
        (ReceiverPhase::AwaitOffer(t), ReceiverEvent::Received(m, shown)) => match ReceiveRequest::new(t, m, shown) {
            Ok(req) => (ReceiverPhase::Finished, ReceiverAction::Offered(req)),
            Err(a) => (ReceiverPhase::Finished, ReceiverAction::GiveUp(a)),
        },
        (_, ReceiverEvent::Failed(e)) => (ReceiverPhase::Finished, ReceiverAction::GiveUp(Abort { error: e, notify: None })),
        (_, _) => (
            ReceiverPhase::Finished,
            ReceiverAction::GiveUp(abort_notifying(TransferError::Protocol("event out of order".to_owned()))),
        ),
    }
}

/// An offer becomes pending exactly when the first reply is the peer's
/// transit advertisement and the second a file or folder offer. Any other
/// message in either place, the peer's own error aside, is answered with an
/// unexpected-message abort that also tells the peer.
pub proof fn lemma_request_needs_transit_then_offer(
    first: PeerMessage,
    first_shown: String,
    second: PeerMessage,
    second_shown: String,
    transit: Result<PeerTransit, Abort>,
    offer: Result<(String, u64), Abort>,
)
    requires
        transit_outcome(first, first_shown, transit),
        offer_outcome(second, second_shown, offer),
    ensures
        (transit is Ok && offer is Ok) <==> (first is Transit && (second matches PeerMessage::Offer(o)
            && (o is File || o is Directory))),
        !(first is Transit) && !(first is Error) ==> (transit matches Err(a)
            && is_unexpected(a, "transit"@, first_shown)),
        !(second is Offer) && !(second is Error) ==> (offer matches Err(a)
            && is_unexpected(a, "offer"@, second_shown)),
{
}

/// Accepting a folder offer receives the archive's size, whatever the sizes
/// of the files in it add up to.
pub proof fn lemma_folder_receives_archive_size(
    dirname: String,
    mode: String,
    zipsize: u64,
    numbytes: u64,
    numfiles: u64,
    shown: String,
    offer: Result<(String, u64), Abort>,
)
    requires
        offer_outcome(
            PeerMessage::Offer(Offer::Directory { dirname, mode, zipsize, numbytes, numfiles }),
            shown,
            offer,
        ),
    ensures
        offer matches Ok(p) && p.1 == zipsize,
{
}

/// A folder offered under a path that names a file is received under a
/// name that ends in `.zip`, whatever extension it had.
pub proof fn lemma_folder_name_ends_with_zip(
    dirname: String,
    mode: String,
    zipsize: u64,
    numbytes: u64,
    numfiles: u64,
    shown: String,
    offer: Result<(String, u64), Abort>,
)
    requires
        is_named_path(dirname@),
        offer_outcome(
            PeerMessage::Offer(Offer::Directory { dirname, mode, zipsize, numbytes, numfiles }),
            shown,
            offer,
        ),
    ensures
        offer matches Ok(p) && ends_with_zip(p.0@),
{
    let r = archive_path(dirname@);
    assert(r.subrange(r.len() - 4, r.len() as int) =~= seq!['.', 'z', 'i', 'p']);
}

} // verus!
