use wormhole_transfer::ack::TransitAck;
use wormhole_transfer::error::TransferError;
use wormhole_transfer::json::Json;
use wormhole_transfer::messages::{Answer, Offer, PeerMessage};
use wormhole_transfer::protocol::{check_sent_size, expect_file_ack, expect_transit, Abort, ChannelAction, PeerTransit};
use wormhole_transfer::receive::{
    expect_offer, received, receiver_step, transit_connect_failed, ReceiveRequest, ReceiverAction, ReceiverEvent,
    ReceiverPhase,
};
use wormhole_transfer::send::{finish_send, offer_folder, sender_failed, sender_step, SenderAction, SenderEvent, SenderPhase};
use wormhole_transfer::version::{select_generation, AppVersion, ProtocolGeneration};

fn s(x: &str) -> String {
    x.to_string()
}

fn obj(entries: Vec<(&str, Json)>) -> Json {
    Json::Object(entries.into_iter().map(|(k, v)| (s(k), v)).collect())
}

fn abilities() -> Json {
    Json::Array(vec![obj(vec![("type", Json::Str(s("direct-tcp-v1")))])])
}

fn hints() -> Json {
    Json::Array(vec![obj(vec![
        ("type", Json::Str(s("relay-v1"))),
        ("hostname", Json::Str(s("relay.example"))),
        ("port", Json::Number(4001)),
    ])])
}

fn transit_msg() -> PeerMessage {
    PeerMessage::transit(abilities(), hints())
}

fn peer_transit() -> PeerTransit {
    PeerTransit { abilities: abilities(), hints: hints() }
}

fn shown(m: &PeerMessage) -> String {
    format!("{:?}", m)
}

fn transit_step(m: PeerMessage) -> Result<PeerTransit, Abort> {
    let d = shown(&m);
    expect_transit(m, d)
}

fn ack_step(m: PeerMessage) -> Result<(), Abort> {
    let d = shown(&m);
    expect_file_ack(m, d)
}

fn offer_step(m: PeerMessage) -> Result<(String, u64), Abort> {
    let d = shown(&m);
    expect_offer(m, d)
}

fn request(t: PeerTransit, m: PeerMessage) -> Result<ReceiveRequest, Abort> {
    let d = shown(&m);
    ReceiveRequest::new(t, m, d)
}

fn round_trip(m: PeerMessage) -> Result<PeerMessage, TransferError> {
    PeerMessage::decode(m.encode())
}

#[test]
fn test_transit_ack() {
    let f1 = TransitAck::new("ok", "deadbeaf");
    assert_eq!(f1.serialize(), "{\"ack\":\"ok\",\"sha256\":\"deadbeaf\"}");
}

#[test]
fn transit_ack_bytes_match_text() {
    let f1 = TransitAck::new("ok", "deadbeaf");
    assert_eq!(f1.serialize_vec(), b"{\"ack\":\"ok\",\"sha256\":\"deadbeaf\"}".to_vec());
}

#[test]
fn transit_ack_escapes_quotes() {
    let f1 = TransitAck::new("o\"k", "ab");
    assert_eq!(f1.serialize(), "{\"ack\":\"o\\\"k\",\"sha256\":\"ab\"}");
}

#[test]
fn transit_ack_check() {
    assert_eq!(TransitAck::new("ok", "abc").check(&s("abc")), Ok(()));
    assert_eq!(TransitAck::new("no", "abc").check(&s("abc")), Err(TransferError::AckError));
    assert_eq!(TransitAck::new("ok", "abd").check(&s("abc")), Err(TransferError::Checksum));
}

#[test]
fn round_trip_every_kind() {
    let cases = vec![
        PeerMessage::offer_file(s("a.txt"), 5),
        offer_folder(s("photos"), 100, 250, 3),
        PeerMessage::Offer(Offer::Unsupported),
        transit_msg(),
        PeerMessage::file_ack("ok"),
        PeerMessage::Answer(Answer::Unsupported),
        PeerMessage::error_message("transfer rejected"),
        PeerMessage::Unknown,
    ];
    for m in cases {
        let expected = round_trip_copy(&m);
        assert_eq!(round_trip(m), Ok(expected));
    }
}

fn round_trip_copy(m: &PeerMessage) -> PeerMessage {
    match m {
        PeerMessage::Offer(Offer::File { filename, filesize }) => PeerMessage::offer_file(filename.clone(), *filesize),
        PeerMessage::Offer(Offer::Directory { dirname, zipsize, numbytes, numfiles, .. }) => {
            offer_folder(dirname.clone(), *zipsize, *numbytes, *numfiles)
        },
        PeerMessage::Offer(Offer::Unsupported) => PeerMessage::Offer(Offer::Unsupported),
        PeerMessage::Transit { .. } => transit_msg(),
        PeerMessage::Answer(Answer::FileAck(x)) => PeerMessage::file_ack(x),
        PeerMessage::Answer(Answer::Unsupported) => PeerMessage::Answer(Answer::Unsupported),
        PeerMessage::Error(x) => PeerMessage::error_message(x),
        PeerMessage::Unknown => PeerMessage::Unknown,
    }
}

#[test]
fn encode_file_offer_shape() {
    let j = PeerMessage::offer_file(s("a.txt"), 5).encode();
    let expected = obj(vec![(
        "offer",
        obj(vec![("file", obj(vec![("filename", Json::Str(s("a.txt"))), ("filesize", Json::Number(5))]))]),
    )]);
    assert_eq!(j, expected);
}

#[test]
fn decode_ignores_extra_fields_and_unknown_kinds() {
    let j = obj(vec![(
        "offer",
        obj(vec![(
            "file",
            obj(vec![
                ("filesize", Json::Number(7)),
                ("extra", Json::Bool(true)),
                ("filename", Json::Str(s("b.bin"))),
            ]),
        )]),
    )]);
    assert_eq!(PeerMessage::decode(j), Ok(PeerMessage::offer_file(s("b.bin"), 7)));
    let j = obj(vec![("new-kind", Json::Null)]);
    assert_eq!(PeerMessage::decode(j), Ok(PeerMessage::Unknown));
    let j = obj(vec![("offer", obj(vec![("message", Json::Str(s("hi")))]))]);
    assert_eq!(PeerMessage::decode(j), Ok(PeerMessage::Offer(Offer::Unsupported)));
}

#[test]
fn decode_invalid_shapes_give_text_decode_error() {
    let invalid = vec![
        Json::Null,
        Json::Str(s("offer")),
        obj(vec![]),
        obj(vec![("error", Json::Null), ("offer", Json::Null)]),
        obj(vec![("error", Json::Number(3))]),
        obj(vec![("offer", obj(vec![("file", obj(vec![("filename", Json::Str(s("a")))]))]))]),
        obj(vec![("offer", obj(vec![("file", obj(vec![("filename", Json::Number(1)), ("filesize", Json::Number(1))]))]))]),
        obj(vec![("transit", obj(vec![("abilities-v1", Json::Null)]))]),
        obj(vec![("answer", obj(vec![("file_ack", Json::Number(1))]))]),
    ];
    for j in invalid {
        assert!(matches!(PeerMessage::decode(j), Err(TransferError::ProtocolJson(_))));
    }
}

#[test]
fn receiver_gets_request_after_transit_then_offer() {
    let t = transit_step(transit_msg()).unwrap();
    let req = request(t, PeerMessage::offer_file(s("a.txt"), 5)).unwrap();
    assert_eq!(req.filename, "a.txt");
    assert_eq!(req.filesize, 5);
    assert_eq!(req.their_hints, hints());
}

#[test]
fn receiver_rejects_offer_before_transit() {
    let r = transit_step(PeerMessage::offer_file(s("a.txt"), 5));
    let a = r.unwrap_err();
    let got = s("Offer(File { filename: \"a.txt\", filesize: 5 })");
    assert_eq!(a.error, TransferError::ProtocolUnexpectedMessage(s("transit"), got));
    assert_eq!(
        a.notify,
        Some(PeerMessage::error_message(
            "Unexpected message (protocol error): Expected 'transit', but got: Offer(File { filename: \"a.txt\", filesize: 5 })"
        ))
    );
}

#[test]
fn receiver_rejects_second_transit() {
    let r = request(peer_transit(), transit_msg());
    let a = r.unwrap_err();
    assert_eq!(a.error, TransferError::ProtocolUnexpectedMessage(s("offer"), shown(&transit_msg())));
    assert!(matches!(a.notify, Some(PeerMessage::Error(_))));
}

#[test]
fn receiver_peer_error_is_not_sent_back() {
    let a = transit_step(PeerMessage::error_message("boom")).unwrap_err();
    assert_eq!(a, Abort { error: TransferError::PeerError(s("boom")), notify: None });
    let a = offer_step(PeerMessage::error_message("boom")).unwrap_err();
    assert_eq!(a, Abort { error: TransferError::PeerError(s("boom")), notify: None });
}

#[test]
fn receiver_unsupported_offer() {
    let a = offer_step(PeerMessage::Offer(Offer::Unsupported)).unwrap_err();
    assert_eq!(a, Abort { error: TransferError::UnsupportedOffer, notify: None });
}

#[test]
fn sender_peer_error_reply() {
    let a = ack_step(PeerMessage::error_message("reason")).unwrap_err();
    assert_eq!(a, Abort { error: TransferError::PeerError(s("reason")), notify: None });
}

#[test]
fn sender_ack_handling() {
    assert_eq!(ack_step(PeerMessage::file_ack("ok")), Ok(()));
    let a = ack_step(PeerMessage::file_ack("nope")).unwrap_err();
    assert_eq!(
        a,
        Abort {
            error: TransferError::AckError,
            notify: Some(PeerMessage::error_message("Transfer was not acknowledged by peer"))
        }
    );
    let a = ack_step(PeerMessage::Unknown).unwrap_err();
    assert_eq!(a.error, TransferError::ProtocolUnexpectedMessage(s("answer"), s("Unknown")));
    assert!(a.notify.is_some());
}

#[test]
fn reject_sends_one_error_then_closes() {
    let req = request(peer_transit(), PeerMessage::offer_file(s("a.txt"), 5)).unwrap();
    let actions = req.reject();
    assert_eq!(
        actions,
        vec![ChannelAction::Send(PeerMessage::error_message("transfer rejected")), ChannelAction::Close]
    );
}

#[test]
fn accept_folder_uses_archive_size() {
    let req = request(peer_transit(), offer_folder(s("photos"), 100, 250, 3)).unwrap();
    assert_eq!(req.filename, "photos.zip");
    let plan = req.accept();
    assert_eq!(plan.size, 100);
    assert_eq!(plan.ack, PeerMessage::file_ack("ok"));
    assert_eq!(plan.their_abilities, abilities());
}

#[test]
fn folder_name_gets_archive_extension() {
    for (name, expected) in [("photos", "photos.zip"), ("photos.tar", "photos.zip"), ("a.b.c", "a.b.zip"), (".hidden", ".hidden.zip"), ("a.", "a.zip")] {
        let offer = PeerMessage::Offer(Offer::Directory { dirname: s(name), mode: s("zipfile/deflated"), zipsize: 9, numbytes: 1, numfiles: 1 });
        let (got, size) = offer_step(offer).unwrap();
        assert_eq!(got, expected);
        assert_eq!(size, 9);
    }
}

#[test]
fn file_transfer_scenario_succeeds() {
    // sender side
    let offer = PeerMessage::offer_file(s("a.txt"), 5);
    // receiver side
    let t = transit_step(transit_msg()).unwrap();
    let req = request(t, PeerMessage::decode(offer.encode()).unwrap()).unwrap();
    let plan = req.accept();
    assert_eq!(plan.size, 5);
    assert_eq!(received(Ok(())), Ok(ChannelAction::Close));
    // sender handles the replies
    assert!(transit_step(transit_msg()).is_ok());
    assert_eq!(ack_step(PeerMessage::decode(plan.ack.encode()).unwrap()), Ok(()));
    assert_eq!(check_sent_size(5, 5), Ok(()));
    let ack = TransitAck::new("ok", "cafe");
    assert_eq!(finish_send(5, 5, &ack, &s("cafe")), Ok(ChannelAction::Close));
}

#[test]
fn short_transfer_is_file_size_error() {
    assert_eq!(check_sent_size(4, 5), Err(TransferError::FileSize { sent_size: 4, file_size: 5 }));
    let a = finish_send(4, 5, &TransitAck::new("ok", "cafe"), &s("cafe")).unwrap_err();
    assert_eq!(a.error, TransferError::FileSize { sent_size: 4, file_size: 5 });
    assert!(matches!(a.notify, Some(PeerMessage::Error(_))));
    let a = finish_send(5, 5, &TransitAck::new("ok", "beef"), &s("cafe")).unwrap_err();
    assert_eq!(a.error, TransferError::Checksum);
    assert_eq!(
        TransferError::FileSize { sent_size: 4, file_size: 5 }.message(),
        "The file contained a different amount of bytes than advertized! Sent 4 bytes, but should have been 5"
    );
}

#[test]
fn transit_failures_notify_peer() {
    let a = transit_connect_failed(s("no route"));
    assert_eq!(a.error, TransferError::TransitConnect(s("no route")));
    assert_eq!(a.notify, Some(PeerMessage::error_message("Error while establishing transit connection")));
    let a = received(Err(TransferError::Transit(s("reset")))).unwrap_err();
    assert_eq!(a.notify, Some(PeerMessage::error_message("reset")));
    let a = received(Err(TransferError::Checksum)).unwrap_err();
    assert_eq!(a, Abort { error: TransferError::Checksum, notify: None });
}

#[test]
fn error_messages() {
    assert_eq!(TransferError::PeerError(s("x")).message(), "Something went wrong on the other side: x");
    assert_eq!(TransferError::FileSize { sent_size: 1234567890, file_size: 0 }.message(),
        "The file contained a different amount of bytes than advertized! Sent 1234567890 bytes, but should have been 0");
    assert_eq!(TransferError::Protocol(s("order")).message(), "Protocol error: order");
}

#[test]
fn generation_is_v1() {
    let ours = AppVersion::new();
    let peer = AppVersion::default();
    assert!(!peer.supports_v2());
    assert_eq!(select_generation(&ours, &peer), ProtocolGeneration::V1);
}

#[test]
fn sender_failures_notify_unless_from_peer() {
    let a = sender_failed(TransferError::FileSize { sent_size: 4, file_size: 5 });
    assert_eq!(a.error, TransferError::FileSize { sent_size: 4, file_size: 5 });
    assert_eq!(
        a.notify,
        Some(PeerMessage::error_message(
            "The file contained a different amount of bytes than advertized! Sent 4 bytes, but should have been 5"
        ))
    );
    let a = sender_failed(TransferError::PeerError(s("reason")));
    assert_eq!(a, Abort { error: TransferError::PeerError(s("reason")), notify: None });
}

#[test]
fn folder_offer_fields() {
    match offer_folder(s("docs"), 10, 20, 2) {
        PeerMessage::Offer(Offer::Directory { dirname, mode, zipsize, numbytes, numfiles }) => {
            assert_eq!((dirname.as_str(), mode.as_str(), zipsize, numbytes, numfiles), ("docs.zip", "zipfile/deflated", 10, 20, 2));
        },
        other => panic!("unexpected {:?}", other),
    }
}

#[test]
fn peer_version_tolerates_unknown_fields() {
    let j = obj(vec![("abilities", Json::Array(vec![Json::Str(s("transfer-v2"))]))]);
    assert_eq!(AppVersion::decode(&j), Ok(AppVersion::new()));
    assert_eq!(AppVersion::decode(&obj(vec![])), Ok(AppVersion::new()));
    assert!(matches!(AppVersion::decode(&Json::Str(s("v1"))), Err(TransferError::ProtocolJson(_))));
}

#[test]
fn folder_offer_advertises_archive_name() {
    for (name, expected) in [("photos", "photos.zip"), ("photos.tar", "photos.zip"), ("my.dir", "my.zip")] {
        match offer_folder(s(name), 1, 1, 1) {
            PeerMessage::Offer(Offer::Directory { dirname, .. }) => assert_eq!(dirname, expected),
            other => panic!("unexpected {:?}", other),
        }
    }
}

#[test]
fn decode_ignores_unknown_top_level_keys() {
    let body = obj(vec![("abilities-v1", abilities()), ("hints-v1", hints())]);
    let j = obj(vec![("side", Json::Str(s("x"))), ("transit", body), ("extra", Json::OtherNumber(s("-1.5")))]);
    assert_eq!(PeerMessage::decode(j), Ok(transit_msg()));
    let offer = obj(vec![("file", obj(vec![("filename", Json::Str(s("a.txt"))), ("filesize", Json::Number(5))]))]);
    let j = obj(vec![("offer", offer), ("later", Json::Null)]);
    assert_eq!(PeerMessage::decode(j), Ok(PeerMessage::offer_file(s("a.txt"), 5)));
    let j = obj(vec![("new-a", Json::Null), ("new-b", Json::Null)]);
    assert_eq!(PeerMessage::decode(j), Ok(PeerMessage::Unknown));
}

#[test]
fn folder_path_keeps_directory_part() {
    let offer = PeerMessage::Offer(Offer::Directory {
        dirname: s("albums/photos.tar"),
        mode: s("zipfile/deflated"),
        zipsize: 3,
        numbytes: 9,
        numfiles: 2,
    });
    assert_eq!(offer_step(offer), Ok((s("albums/photos.zip"), 3)));
}

#[test]
fn transit_ack_escapes_controls() {
    let f1 = TransitAck::new("a\nb\u{1}", "\\");
    assert_eq!(f1.serialize(), "{\"ack\":\"a\\nb\\u0001\",\"sha256\":\"\\\\\"}");
}

#[test]
fn app_version_encodes_as_empty_object() {
    let j = AppVersion::new().encode();
    assert_eq!(j, Json::Object(vec![]));
    assert_eq!(AppVersion::decode(&j), Ok(AppVersion::new()));
}

#[test]
fn sender_steps_through_a_file_transfer() {
    let ev = |m: PeerMessage| {
        let d = shown(&m);
        SenderEvent::Received(m, d)
    };
    let offer = PeerMessage::offer_file(s("a.txt"), 5);
    let (p, a) = sender_step(SenderPhase::Start(offer), 5, SenderEvent::Opened { abilities: abilities(), hints: hints() });
    assert_eq!(a, SenderAction::Send(transit_msg()));
    let (p, a) = sender_step(p, 5, SenderEvent::Sent);
    assert_eq!(a, SenderAction::Send(PeerMessage::offer_file(s("a.txt"), 5)));
    let (p, a) = sender_step(p, 5, SenderEvent::Sent);
    assert_eq!(a, SenderAction::Receive);
    let (p, a) = sender_step(p, 5, ev(transit_msg()));
    assert_eq!(a, SenderAction::Receive);
    let (p, a) = sender_step(p, 5, ev(PeerMessage::file_ack("ok")));
    assert_eq!(a, SenderAction::Connect(peer_transit()));
    let (p, a) = sender_step(p, 5, SenderEvent::Connected);
    assert_eq!(a, SenderAction::Transfer);
    let done = SenderEvent::Transferred { sent_size: 5, digest: s("cafe"), ack: TransitAck::new("ok", "cafe") };
    let (p, a) = sender_step(p, 5, done);
    assert_eq!((p, a), (SenderPhase::Finished, SenderAction::Close));
}

#[test]
fn sender_stops_on_peer_error_without_connecting() {
    let m = PeerMessage::error_message("reason");
    let d = shown(&m);
    let (p, a) = sender_step(SenderPhase::AwaitAck(peer_transit()), 5, SenderEvent::Received(m, d));
    assert_eq!(p, SenderPhase::Finished);
    assert_eq!(a, SenderAction::GiveUp(Abort { error: TransferError::PeerError(s("reason")), notify: None }));
}

#[test]
fn sender_short_transfer_gives_up_with_file_size() {
    let done = SenderEvent::Transferred { sent_size: 4, digest: s("cafe"), ack: TransitAck::new("ok", "cafe") };
    match sender_step(SenderPhase::Transferring, 5, done) {
        (SenderPhase::Finished, SenderAction::GiveUp(a)) => {
            assert_eq!(a.error, TransferError::FileSize { sent_size: 4, file_size: 5 });
            assert!(a.notify.is_some());
        },
        other => panic!("unexpected {:?}", other),
    }
}

#[test]
fn sender_local_failures_keep_their_error() {
    match sender_step(SenderPhase::AwaitAck(peer_transit()), 5, SenderEvent::Failed(TransferError::ProtocolJson(s("bad")))) {
        (SenderPhase::Finished, SenderAction::GiveUp(a)) => {
            assert_eq!(a.error, TransferError::ProtocolJson(s("bad")));
            assert_eq!(a.notify, Some(PeerMessage::error_message("Corrupt JSON message received")));
        },
        other => panic!("unexpected {:?}", other),
    }
    match sender_step(SenderPhase::Connecting, 5, SenderEvent::ConnectFailed(s("no route"))) {
        (SenderPhase::Finished, SenderAction::GiveUp(a)) => {
            assert_eq!(a.error, TransferError::TransitConnect(s("no route")));
            assert!(a.notify.is_some());
        },
        other => panic!("unexpected {:?}", other),
    }
    let done = SenderEvent::Transferred { sent_size: 5, digest: s("cafe"), ack: TransitAck::new("ok", "beef") };
    match sender_step(SenderPhase::Transferring, 5, done) {
        (SenderPhase::Finished, SenderAction::GiveUp(a)) => assert_eq!(a.error, TransferError::Checksum),
        other => panic!("unexpected {:?}", other),
    }
}

#[test]
fn folder_path_from_root_keeps_directory() {
    let (got, _) = offer_step(PeerMessage::Offer(Offer::Directory {
        dirname: s("/srv/share.tar"),
        mode: s("zipfile/deflated"),
        zipsize: 1,
        numbytes: 1,
        numfiles: 1,
    }))
    .unwrap();
    assert_eq!(got, "/srv/share.zip");
}

#[test]
fn receiver_steps_to_a_pending_offer() {
    let (p, a) = receiver_step(ReceiverPhase::Start, ReceiverEvent::Opened { abilities: abilities(), hints: hints() });
    assert_eq!(a, ReceiverAction::Send(transit_msg()));
    let (p, a) = receiver_step(p, ReceiverEvent::Sent);
    assert_eq!(a, ReceiverAction::Receive);
    let m = transit_msg();
    let d = shown(&m);
    let (p, a) = receiver_step(p, ReceiverEvent::Received(m, d));
    assert_eq!(a, ReceiverAction::Receive);
    let m = PeerMessage::offer_file(s("a.txt"), 5);
    let d = shown(&m);
    let (p, a) = receiver_step(p, ReceiverEvent::Received(m, d));
    assert_eq!(p, ReceiverPhase::Finished);
    match a {
        ReceiverAction::Offered(req) => assert_eq!((req.filename.as_str(), req.filesize), ("a.txt", 5)),
        other => panic!("unexpected {:?}", other),
    }
}

#[test]
fn receiver_offer_before_transit_gives_up_and_notifies() {
    let m = PeerMessage::offer_file(s("a.txt"), 5);
    let d = shown(&m);
    match receiver_step(ReceiverPhase::AwaitTransit, ReceiverEvent::Received(m, d.clone())) {
        (ReceiverPhase::Finished, ReceiverAction::GiveUp(a)) => {
            assert_eq!(a.error, TransferError::ProtocolUnexpectedMessage(s("transit"), d));
            assert!(matches!(a.notify, Some(PeerMessage::Error(_))));
        },
        other => panic!("unexpected {:?}", other),
    }
}
