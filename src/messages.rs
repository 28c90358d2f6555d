//! The messages exchanged over the encrypted channel, and their encoding as
//! structured values.
//!
//! Every message is an object with exactly one key naming its kind. A kind
//! this implementation does not know decodes to an "unknown" value instead
//! of failing, so newer peers stay compatible.
use vstd::prelude::*;
use crate::error::TransferError;
use crate::json::{Json, field, lemma_field_skip, take_field};

verus! {

/// A proposal to send data.
#[derive(Debug, PartialEq)]
pub enum Offer {
    File { filename: String, filesize: u64 },
    Directory { dirname: String, mode: String, zipsize: u64, numbytes: u64, numfiles: u64 },
    /// An offer kind not understood by this implementation.
    Unsupported,
}

/// The acknowledgment of an offer.
#[derive(Debug, PartialEq)]
pub enum Answer {
    FileAck(String),
    /// An answer kind not understood by this implementation.
    Unsupported,
}

/// Everything that can cross the encrypted channel.
#[derive(Debug, PartialEq)]
pub enum PeerMessage {
    Offer(Offer),
    /// A peer's transit abilities and connection hints, which only the
    /// transit layer interprets.
    Transit { abilities: Json, hints: Json },
    Answer(Answer),
    Error(String),
    /// A message kind not understood by this implementation.
    Unknown,
}

/// The single `(key, value)` entry of a one-key object.
pub open spec fn tagged(j: Json) -> Option<(Seq<char>, Json)> {
    match j {
        Json::Object(es) => if es@.len() == 1 {
            Some((es@[0].0@, es@[0].1))
        } else {
            None
        },
        _ => None,
    }
}

pub open spec fn str_field(fs: Seq<(String, Json)>, key: Seq<char>) -> Option<String> {
    match field(fs, key) {
        Some(Json::Str(s)) => Some(s),
        _ => None,
    }
}

pub open spec fn num_field(fs: Seq<(String, Json)>, key: Seq<char>) -> Option<u64> {
    match field(fs, key) {
        Some(Json::Number(n)) => Some(n),
        _ => None,
    }
}

pub open spec fn decode_offer(j: Json) -> Option<Offer> {
    match tagged(j) {
        None => None,
        Some((tag, Json::Object(fs))) => if tag == "file"@ {
            match (str_field(fs@, "filename"@), num_field(fs@, "filesize"@)) {
                (Some(filename), Some(filesize)) => Some(Offer::File { filename, filesize }),
                _ => None,
            }
        } else if tag == "directory"@ {
            match (
                str_field(fs@, "dirname"@),
                str_field(fs@, "mode"@),
                num_field(fs@, "zipsize"@),
                num_field(fs@, "numbytes"@),
                num_field(fs@, "numfiles"@),
            ) {
                (Some(dirname), Some(mode), Some(zipsize), Some(numbytes), Some(numfiles)) =>
                    Some(Offer::Directory { dirname, mode, zipsize, numbytes, numfiles }),
                _ => None,
            }
        } else {
            Some(Offer::Unsupported)
        },
        Some((tag, _)) => if tag == "file"@ || tag == "directory"@ {
            None
        } else {
            Some(Offer::Unsupported)
        },
    }
}

pub open spec fn decode_answer(j: Json) -> Option<Answer> {
    match tagged(j) {
        None => None,
        Some((tag, Json::Str(s))) => if tag == "file_ack"@ {
            Some(Answer::FileAck(s))
        } else {
            Some(Answer::Unsupported)
        },
        Some((tag, _)) => if tag == "file_ack"@ {
            None
        } else {
            Some(Answer::Unsupported)
        },
    }
}

/// The kinds of message this implementation understands.
pub open spec fn is_known_kind(k: Seq<char>) -> bool {
    k == "offer"@ || k == "transit"@ || k == "answer"@ || k == "error"@
}

/// The first entry whose key names a known kind, if any.
pub open spec fn known_entry(es: Seq<(String, Json)>) -> Option<(Seq<char>, Json)>
    decreases es.len(),
{
    if es.len() == 0 {
        None
    } else if is_known_kind(es[0].0@) {
        Some((es[0].0@, es[0].1))
    } else {
        known_entry(es.drop_first())
    }
}

/// The message of kind `tag` whose content is `body`.
pub open spec fn decode_kind(tag: Seq<char>, body: Json) -> Option<PeerMessage> {
    if tag == "offer"@ {
        match decode_offer(body) {
            Some(o) => Some(PeerMessage::Offer(o)),
            None => None,
        }
    } else if tag == "transit"@ {
        match body {
            Json::Object(fs) => match (field(fs@, "abilities-v1"@), field(fs@, "hints-v1"@)) {
                (Some(abilities), Some(hints)) => Some(PeerMessage::Transit { abilities, hints }),
                _ => None,
            },
            _ => None,
        }
    } else if tag == "answer"@ {
        match decode_answer(body) {
            Some(a) => Some(PeerMessage::Answer(a)),
            None => None,
        }
    } else {
        match body {
            Json::Str(s) => Some(PeerMessage::Error(s)),
            _ => None,
        }
    }
}

/// The message a structured value denotes, or `None` where its shape is
/// invalid. The first key that names a known kind decides; other keys are
/// ignored, and a non-empty object with no known key is `Unknown`.
pub open spec fn decode_spec(j: Json) -> Option<PeerMessage> {
    match j {
        Json::Object(es) => if es@.len() == 0 {
            None
        } else {
            match known_entry(es@) {
                Some((tag, body)) => decode_kind(tag, body),
                None => Some(PeerMessage::Unknown),
            }
        },
        _ => None,
    }
}

proof fn lemma_known_skip(es: Seq<(String, Json)>, i: int)
    requires
        0 <= i <= es.len(),
        forall|j: int| 0 <= j < i ==> !is_known_kind(#[trigger] es[j].0@),
    ensures
        known_entry(es) == known_entry(es.subrange(i, es.len() as int)),
    decreases i,
{
    if i == 0 {
        assert(es.subrange(0, es.len() as int) =~= es);
    } else {
        lemma_known_skip(es, i - 1);
        let rest = es.subrange(i - 1, es.len() as int);
        assert(rest.drop_first() =~= es.subrange(i, es.len() as int));
    }
}

/// `j` is a one-key object whose key is `key` and whose value is `value`.
pub open spec fn is_tagged(j: Json, key: Seq<char>, value: Json) -> bool {
    tagged(j) == Some((key, value))
}

/// `fs` are exactly the given keys, in order, with the given values.
pub open spec fn has_entries(fs: Seq<(String, Json)>, keys: Seq<Seq<char>>, values: Seq<Json>) -> bool {
    &&& fs.len() == keys.len() == values.len()
    &&& forall|i: int| 0 <= i < fs.len() ==> (#[trigger] fs[i]).0@ == keys[i] && fs[i].1 == values[i]
}

pub open spec fn encodes_offer(j: Json, o: Offer) -> bool {
    match o {
        Offer::File { filename, filesize } => match tagged(j) {
            Some((tag, Json::Object(fs))) => tag == "file"@ && has_entries(
                fs@,
                seq!["filename"@, "filesize"@],
                seq![Json::Str(filename), Json::Number(filesize)],
            ),
            _ => false,
        },
        Offer::Directory { dirname, mode, zipsize, numbytes, numfiles } => match tagged(j) {
            Some((tag, Json::Object(fs))) => tag == "directory"@ && has_entries(
                fs@,
                seq!["dirname"@, "mode"@, "zipsize"@, "numbytes"@, "numfiles"@],
                seq![
                    Json::Str(dirname),
                    Json::Str(mode),
                    Json::Number(zipsize),
                    Json::Number(numbytes),
                    Json::Number(numfiles),
                ],
            ),
            _ => false,
        },
        Offer::Unsupported => is_tagged(j, "unsupported"@, Json::Null),
    }
}

/// `j` is the canonical encoding of `m`.
pub open spec fn encodes(j: Json, m: PeerMessage) -> bool {
    match m {
        PeerMessage::Offer(o) => match tagged(j) {
            Some((tag, body)) => tag == "offer"@ && encodes_offer(body, o),
            None => false,
        },
        PeerMessage::Transit { abilities, hints } => match tagged(j) {
            Some((tag, Json::Object(fs))) => tag == "transit"@ && has_entries(
                fs@,
                seq!["abilities-v1"@, "hints-v1"@],
                seq![abilities, hints],
            ),
            _ => false,
        },
        PeerMessage::Answer(a) => match tagged(j) {
            Some((tag, body)) => tag == "answer"@ && match a {
                Answer::FileAck(s) => is_tagged(body, "file_ack"@, Json::Str(s)),
                Answer::Unsupported => is_tagged(body, "unsupported"@, Json::Null),
            },
            None => false,
        },
        PeerMessage::Error(s) => is_tagged(j, "error"@, Json::Str(s)),
        PeerMessage::Unknown => is_tagged(j, "unknown"@, Json::Null),
    }
}

proof fn lemma_entries_field(fs: Seq<(String, Json)>, keys: Seq<Seq<char>>, values: Seq<Json>, i: int)
    requires
        has_entries(fs, keys, values),
        0 <= i < fs.len(),
        forall|j: int| 0 <= j < i ==> keys[j] != keys[i],
    ensures
        field(fs, keys[i]) == Some(values[i]),
{
    assert forall|j: int| 0 <= j < i implies fs[j].0@ != keys[i] by {
        assert(fs[j].0@ == keys[j]);
    }
    lemma_field_skip(fs, keys[i], i);
    let tail = fs.subrange(i, fs.len() as int);
    assert(tail[0] == fs[i]);
}

/// Decoding the canonical encoding of a message gives that message back.
pub proof fn lemma_round_trip(m: PeerMessage, j: Json)
    requires
        encodes(j, m),
    ensures
        decode_spec(j) == Some(m),
{
    reveal_strlit("offer");
    reveal_strlit("transit");
    reveal_strlit("answer");
    reveal_strlit("error");
    reveal_strlit("file");
    reveal_strlit("directory");
    reveal_strlit("file_ack");
    reveal_strlit("filename");
    reveal_strlit("filesize");
    reveal_strlit("dirname");
    reveal_strlit("mode");
    reveal_strlit("zipsize");
    reveal_strlit("numbytes");
    reveal_strlit("numfiles");
    reveal_strlit("abilities-v1");
    reveal_strlit("hints-v1");
    reveal_strlit("unsupported");
    reveal_strlit("unknown");
    assert("offer"@.len() == 5 && "transit"@.len() == 7 && "answer"@.len() == 6);
    assert("file"@.len() == 4 && "directory"@.len() == 9 && "unsupported"@.len() == 11);
    assert("abilities-v1"@.len() == 12 && "hints-v1"@.len() == 8);
    assert("file_ack"@.len() == 8 && "unknown"@.len() == 7 && "error"@.len() == 5);
    assert("mode"@.len() == 4 && "numbytes"@.len() == 8 && "zipsize"@.len() == 7);
    assert("offer"@[0] != "error"@[0]);
    assert("unknown"@[0] != "transit"@[0]);
    assert("filename"@[4] != "filesize"@[4]);
    assert("dirname"@[0] != "zipsize"@[0]);
    assert("numbytes"@[3] != "numfiles"@[3]);
    let es = j->Object_0@;
    assert(es.drop_first().len() == 0);
    assert(known_entry(es.drop_first()) is None);
    match m {
        PeerMessage::Offer(o) => {
            let (_, body) = tagged(j)->0;
            match o {
                Offer::File { filename, filesize } => {
                    let (_, inner) = tagged(body)->0;
                    let fs = inner->Object_0@;
                    let keys = seq!["filename"@, "filesize"@];
                    let values = seq![Json::Str(filename), Json::Number(filesize)];
                    lemma_entries_field(fs, keys, values, 0);
                    lemma_entries_field(fs, keys, values, 1);
                },
                Offer::Directory { dirname, mode, zipsize, numbytes, numfiles } => {
                    let (_, inner) = tagged(body)->0;
                    let fs = inner->Object_0@;
                    let keys = seq!["dirname"@, "mode"@, "zipsize"@, "numbytes"@, "numfiles"@];
                    let values = seq![
                        Json::Str(dirname),
                        Json::Str(mode),
                        Json::Number(zipsize),
                        Json::Number(numbytes),
                        Json::Number(numfiles),
                    ];
                    lemma_entries_field(fs, keys, values, 0);
                    lemma_entries_field(fs, keys, values, 1);
                    lemma_entries_field(fs, keys, values, 2);
                    lemma_entries_field(fs, keys, values, 3);
                    lemma_entries_field(fs, keys, values, 4);
                },
                Offer::Unsupported => {},
            }
        },
        PeerMessage::Transit { abilities, hints } => {
            let (_, inner) = tagged(j)->0;
            let fs = inner->Object_0@;
            let keys = seq!["abilities-v1"@, "hints-v1"@];
            let values = seq![abilities, hints];
            lemma_entries_field(fs, keys, values, 0);
            lemma_entries_field(fs, keys, values, 1);
        },
        _ => {},
    }
}

fn key_is(k: &String, lit: &str) -> (r: bool)
    ensures
        r == (k@ == lit@),
{
    *k == lit.to_owned()
}

/// Splits a one-key object into its key and value.
fn untag(j: Json) -> (r: Option<(String, Json)>)
    ensures
        match tagged(j) {
            Some((k, v)) => r matches Some(p) && p.0@ == k && p.1 == v,
            None => r is None,
        },
{
    match j {
        Json::Object(mut es) => if es.len() == 1 {
            es.pop()
        } else {
            None
        },
        _ => None,
    }
}

/// A one-key object holding `value` under `key`.
fn tag(key: &str, value: Json) -> (r: Json)
    ensures
        tagged(r) == Some((key@, value)),
{
    let mut es: Vec<(String, Json)> = Vec::new();
    es.push((key.to_owned(), value));
    Json::Object(es)
}

fn take_str(fs: &mut Vec<(String, Json)>, key: &str) -> (r: Option<String>)
    ensures
        r == str_field(old(fs)@, key@),
        forall|k: Seq<char>| k != key@ ==> field(final(fs)@, k) == field(old(fs)@, k),
{
    match take_field(fs, &key.to_owned()) {
        Some(Json::Str(s)) => Some(s),
        _ => None,
    }
}

fn take_num(fs: &mut Vec<(String, Json)>, key: &str) -> (r: Option<u64>)
    ensures
        r == num_field(old(fs)@, key@),
        forall|k: Seq<char>| k != key@ ==> field(final(fs)@, k) == field(old(fs)@, k),
{
    match take_field(fs, &key.to_owned()) {
        Some(Json::Number(n)) => Some(n),
        _ => None,
    }
}

fn decode_offer_value(j: Json) -> (r: Option<Offer>)
    ensures
        r == decode_offer(j),
{
    proof {
        reveal_strlit("filename");
        reveal_strlit("filesize");
        reveal_strlit("dirname");
        reveal_strlit("mode");
        reveal_strlit("zipsize");
        reveal_strlit("numbytes");
        reveal_strlit("numfiles");
        assert("filename"@[4] != "filesize"@[4]);
        assert("dirname"@[0] != "zipsize"@[0]);
        assert("numbytes"@[3] != "numfiles"@[3]);
        assert("mode"@.len() == 4 && "numbytes"@.len() == 8 && "zipsize"@.len() == 7);
    }
    match untag(j) {
        None => None,
        Some((tag, body)) => {
            let is_file = key_is(&tag, "file");
            let is_dir = key_is(&tag, "directory");
            match body {
                Json::Object(mut fs) => {
                    if is_file {
                        let filename = take_str(&mut fs, "filename");
                        let filesize = take_num(&mut fs, "filesize");
                        match (filename, filesize) {
                            (Some(filename), Some(filesize)) => Some(Offer::File { filename, filesize }),
                            _ => None,
                        }
                    } else if is_dir {
                        let dirname = take_str(&mut fs, "dirname");
                        let mode = take_str(&mut fs, "mode");
                        let zipsize = take_num(&mut fs, "zipsize");
                        let numbytes = take_num(&mut fs, "numbytes");
                        let numfiles = take_num(&mut fs, "numfiles");
                        match (dirname, mode, zipsize, numbytes, numfiles) {
                            (Some(dirname), Some(mode), Some(zipsize), Some(numbytes), Some(numfiles)) =>
                                Some(Offer::Directory { dirname, mode, zipsize, numbytes, numfiles }),
                            _ => None,
                        }
                    } else {
                        Some(Offer::Unsupported)
                    }
                },
                _ => if is_file || is_dir {
                    None
                } else {
                    Some(Offer::Unsupported)
                },
            }
        },
    }
}

fn decode_answer_value(j: Json) -> (r: Option<Answer>)
    ensures
        r == decode_answer(j),
{
    match untag(j) {
        None => None,
        Some((tag, body)) => {
            let is_ack = key_is(&tag, "file_ack");
            match body {
                Json::Str(s) => if is_ack {
                    Some(Answer::FileAck(s))
                } else {
                    Some(Answer::Unsupported)
                },
                _ => if is_ack {
                    None
                } else {
                    Some(Answer::Unsupported)
                },
            }
        },
    }
}

fn is_known(k: &String) -> (r: bool)
    ensures
        r == is_known_kind(k@),
{
    key_is(k, "offer") || key_is(k, "transit") || key_is(k, "answer") || key_is(k, "error")
}

/// Takes out the first entry whose key names a known kind.
fn take_known(entries: Vec<(String, Json)>) -> (r: Option<(String, Json)>)
    ensures
        match known_entry(entries@) {
            Some((k, v)) => r matches Some(p) && p.0@ == k && p.1 == v,
            None => r is None,
        },
{
    let mut es = entries;
    let ghost orig = es@;
    let mut i: usize = 0;
    while i < es.len()
        invariant
            es@ == orig,
            orig == entries@,
            0 <= i <= es.len(),
            forall|j: int| 0 <= j < i ==> !is_known_kind(#[trigger] es@[j].0@),
        decreases es.len() - i,
    {
        if is_known(&es[i].0) {
            proof {
                lemma_known_skip(orig, i as int);
                let tail = orig.subrange(i as int, orig.len() as int);
                assert(tail[0] == orig[i as int]);
            }
            return Some(es.swap_remove(i));
        }
        i = i + 1;
    }
    proof {
        lemma_known_skip(orig, i as int);
    }
    None
}

impl PeerMessage {
    /// Decodes a structured value into a message. A value of invalid shape
    /// gives the text-decode error; an unknown kind gives `Unknown`.
    pub fn decode(j: Json) -> (r: Result<PeerMessage, TransferError>)
        ensures
            match decode_spec(j) {
                Some(m) => r == Ok::<PeerMessage, TransferError>(m),
                None => r matches Err(TransferError::ProtocolJson(_)),
            },
    {
        proof {
            reveal_strlit("abilities-v1");
            reveal_strlit("hints-v1");
            assert("abilities-v1"@.len() == 12 && "hints-v1"@.len() == 8);
        }
        let decoded = match j {
            Json::Object(es) => if es.len() == 0 {
                None
            } else {
                match take_known(es) {
                    None => Some(PeerMessage::Unknown),
                    Some((tag, body)) => if key_is(&tag, "offer") {
                        match decode_offer_value(body) {
                            Some(o) => Some(PeerMessage::Offer(o)),
                            None => None,
                        }
                    } else if key_is(&tag, "transit") {
                        match body {
                            Json::Object(mut fs) => {
                                let abilities = take_field(&mut fs, &"abilities-v1".to_owned());
                                let hints = take_field(&mut fs, &"hints-v1".to_owned());
                                match (abilities, hints) {
                                    (Some(abilities), Some(hints)) => Some(PeerMessage::Transit { abilities, hints }),
                                    _ => None,
                                }
                            },
                            _ => None,
                        }
                    } else if key_is(&tag, "answer") {
                        match decode_answer_value(body) {
                            Some(a) => Some(PeerMessage::Answer(a)),
                            None => None,
                        }
                    } else {
                        match body {
                            Json::Str(s) => Some(PeerMessage::Error(s)),
                            _ => None,
                        }
                    },
                }
            },
            _ => None,
        };
        match decoded {
            Some(m) => Ok(m),
            None => Err(TransferError::ProtocolJson("invalid message shape".to_owned())),
        }
    }
}

fn pair(k1: &str, v1: Json, k2: &str, v2: Json) -> (r: Vec<(String, Json)>)
    ensures
        has_entries(r@, seq![k1@, k2@], seq![v1, v2]),
{
    let mut fs: Vec<(String, Json)> = Vec::new();
    fs.push((k1.to_owned(), v1));
    fs.push((k2.to_owned(), v2));
    fs
}

fn encode_offer(o: Offer) -> (r: Json)
    ensures
        encodes_offer(r, o),
{
    match o {
        Offer::File { filename, filesize } => {
            let fs = pair("filename", Json::Str(filename), "filesize", Json::Number(filesize));
            tag("file", Json::Object(fs))
        },
        Offer::Directory { dirname, mode, zipsize, numbytes, numfiles } => {
            let ghost values = seq![
                Json::Str(dirname),
                Json::Str(mode),
                Json::Number(zipsize),
                Json::Number(numbytes),
                Json::Number(numfiles),
            ];
            let mut fs: Vec<(String, Json)> = Vec::new();
            fs.push(("dirname".to_owned(), Json::Str(dirname)));
            fs.push(("mode".to_owned(), Json::Str(mode)));
            fs.push(("zipsize".to_owned(), Json::Number(zipsize)));
            fs.push(("numbytes".to_owned(), Json::Number(numbytes)));
            fs.push(("numfiles".to_owned(), Json::Number(numfiles)));
            assert(has_entries(
                fs@,
                seq!["dirname"@, "mode"@, "zipsize"@, "numbytes"@, "numfiles"@],
                values,
            ));
            tag("directory", Json::Object(fs))
        },
        Offer::Unsupported => tag("unsupported", Json::Null),
    }
}

impl PeerMessage {
    /// Encodes this message as a structured value.
    pub fn encode(self) -> (r: Json)
        ensures
            encodes(r, self),
    {
        match self {
            PeerMessage::Offer(o) => tag("offer", encode_offer(o)),
            PeerMessage::Transit { abilities, hints } => {
                let fs = pair("abilities-v1", abilities, "hints-v1", hints);
                tag("transit", Json::Object(fs))
            },
            PeerMessage::Answer(a) => {
                let body = match a {
                    Answer::FileAck(s) => tag("file_ack", Json::Str(s)),
                    Answer::Unsupported => tag("unsupported", Json::Null),
                };
                tag("answer", body)
            },
            PeerMessage::Error(s) => tag("error", Json::Str(s)),
            PeerMessage::Unknown => tag("unknown", Json::Null),
        }
    }

    /// The advertisement of this side's transit abilities and hints.
    pub fn transit(abilities: Json, hints: Json) -> (r: PeerMessage)
        ensures
            r == (PeerMessage::Transit { abilities, hints }),
    {
        PeerMessage::Transit { abilities, hints }
    }

    /// An offer of one file.
    pub fn offer_file(filename: String, filesize: u64) -> (r: PeerMessage)
        ensures
            r == PeerMessage::Offer(Offer::File { filename, filesize }),
    {
        PeerMessage::Offer(Offer::File { filename, filesize })
    }

    /// The acknowledgment of a file offer.
    pub fn file_ack(msg: &str) -> (r: PeerMessage)
        ensures
            r matches PeerMessage::Answer(Answer::FileAck(s)) && s@ == msg@,
    {
        PeerMessage::Answer(Answer::FileAck(msg.to_owned()))
    }

    /// A protocol-abort notification carrying `msg`.
    pub fn error_message(msg: &str) -> (r: PeerMessage)
        ensures
            r matches PeerMessage::Error(s) && s@ == msg@,
    {
        PeerMessage::Error(msg.to_owned())
    }
}

} // verus!
