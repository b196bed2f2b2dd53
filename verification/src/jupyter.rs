//! The signed Jupyter wire format used to ask a standard kernel to shut
//! down over its control channel: connection checks, message framing and
//! signing, and the checks on the reply.
use vstd::prelude::*;
use vstd::utf8::{encode_utf8, valid_utf8};

pub use crate::hex::decode_key;
use crate::hex::{
    decode_hex_bytes, decoded_key, hex_ascii, hex_decode_result, hex_encode, utf8_error_text,
    utf8_text,
};
use crate::json::{
    flag_object_bytes, json_compact, json_compact_text, json_flag_object, json_str_member,
    json_string_member, json_string_object, member_view, members_view, string_object_bytes,
    text_result_view,
};
use crate::signing::{hmac_sha256, hmac_sha256_tag, hmac_sha256_verify};
use crate::text::{decimal, push_decimal, push_str, str_equal};

pub use crate::hex::decode_hex;

verus! {

/// The part of a kernel's connection file that the control channel needs.
#[derive(Debug, Clone)]
pub struct JupyterConnection {
    pub control_port: u16,
    pub ip: String,
    pub transport: String,
    pub key: String,
    pub signature_scheme: String,
}

/// The address a connection file without `ip` listens on.
pub fn default_ip() -> (s: String)
    ensures
        s@ == "127.0.0.1"@,
{
    "127.0.0.1".to_owned()
}

/// The transport of a connection file without `transport`.
pub fn default_transport() -> (s: String)
    ensures
        s@ == "tcp"@,
{
    "tcp".to_owned()
}

/// The signature scheme of a connection file without `signature_scheme`.
pub fn default_signature_scheme() -> (s: String)
    ensures
        s@ == "hmac-sha256"@,
{
    "hmac-sha256".to_owned()
}

/// Where to send a shutdown request, and the key that signs it.
#[derive(Debug, Clone)]
pub struct ShutdownTarget {
    pub endpoint: String,
    pub key: Vec<u8>,
}

/// The ZeroMQ endpoint of a connection's control channel.
pub open spec fn control_endpoint(c: JupyterConnection) -> Seq<char> {
    "tcp://"@ + c.ip@ + ":"@ + decimal(c.control_port as nat)
}

/// What a connection allows: only HMAC-SHA-256 signatures over TCP.
pub open spec fn shutdown_target(c: JupyterConnection) -> Result<(Seq<char>, Seq<u8>), Seq<char>> {
    if c.signature_scheme@ != "hmac-sha256"@ {
        Err("unsupported Jupyter signature scheme: "@ + c.signature_scheme@)
    } else if c.transport@ != "tcp"@ {
        Err("unsupported Jupyter transport: "@ + c.transport@)
    } else {
        Ok((control_endpoint(c), decoded_key(encode_utf8(c.key@))))
    }
}

/// Checks a connection before a shutdown request and gives the control
/// endpoint and the decoded signing key.
pub fn prepare_shutdown(connection: &JupyterConnection) -> (r: Result<ShutdownTarget, String>)
    ensures
        match shutdown_target(*connection) {
            Ok((endpoint, key)) => r matches Ok(t) && t.endpoint@ == endpoint && t.key@ == key,
            Err(message) => r matches Err(e) && e@ == message,
        },
{
    if !str_equal(connection.signature_scheme.as_str(), "hmac-sha256") {
        let mut error = "unsupported Jupyter signature scheme: ".to_owned();
        push_str(&mut error, connection.signature_scheme.as_str());
        return Err(error);
    }
    if !str_equal(connection.transport.as_str(), "tcp") {
        let mut error = "unsupported Jupyter transport: ".to_owned();
        push_str(&mut error, connection.transport.as_str());
        return Err(error);
    }
    let mut endpoint = "tcp://".to_owned();
    push_str(&mut endpoint, connection.ip.as_str());
    push_str(&mut endpoint, ":");
    push_decimal(&mut endpoint, connection.control_port as u128);
    let key = match decode_key(connection.key.as_str()) {
        Ok(key) => key,
        Err(error) => {
            return Err(error);
        },
    };
    Ok(ShutdownTarget { endpoint, key })
}

/// The message id of a request: the process id and the time in
/// nanoseconds after the Unix epoch.
pub open spec fn message_id_text(pid: nat, nanos: nat) -> Seq<char> {
    "multirepl-"@ + decimal(pid) + "-"@ + decimal(nanos)
}

/// Writes the id of a request sent by process `pid` at `nanos`.
pub fn message_id(pid: u32, nanos: u128) -> (s: String)
    ensures
        s@ == message_id_text(pid as nat, nanos as nat),
{
    let mut s = "multirepl-".to_owned();
    push_decimal(&mut s, pid as u128);
    push_str(&mut s, "-");
    push_decimal(&mut s, nanos);
    s
}

/// The frame that separates routing identities from a signed message.
pub open spec fn delimiter() -> Seq<u8> {
    seq![60u8, 73u8, 68u8, 83u8, 124u8, 77u8, 83u8, 71u8, 62u8]
}

fn delimiter_frame() -> (d: Vec<u8>)
    ensures
        d@ == delimiter(),
{
    let d: Vec<u8> = vec![60u8, 73u8, 68u8, 83u8, 124u8, 77u8, 83u8, 71u8, 62u8];
    assert(d@ =~= delimiter());
    d
}

/// The signature frame of a message whose four parts concatenate to
/// `signed`: empty without a key, else the lowercase hexadecimal HMAC.
pub open spec fn signature_frame(key: Seq<u8>, signed: Seq<u8>) -> Seq<u8> {
    if key.len() == 0 {
        seq![]
    } else {
        hex_ascii(hmac_sha256_tag(key, signed))
    }
}

/// The frames of a signed message: delimiter, signature, header, parent
/// header, metadata and content.
pub open spec fn message_frames(
    header: Seq<u8>,
    parent: Seq<u8>,
    metadata: Seq<u8>,
    content: Seq<u8>,
    key: Seq<u8>,
) -> Seq<Seq<u8>> {
    seq![
        delimiter(),
        signature_frame(key, header + parent + metadata + content),
        header,
        parent,
        metadata,
        content,
    ]
}

/// Byte frames seen through `deep_view` are their views.
proof fn lemma_frames_deep_view(frames: Vec<Vec<u8>>)
    ensures
        frames.deep_view().len() == frames@.len(),
        forall|i: int| 0 <= i < frames@.len() ==> #[trigger] frames.deep_view()[i] == frames@[i]@,
{
    assert forall|i: int| 0 <= i < frames@.len() implies #[trigger] frames.deep_view()[i]
        == frames@[i]@ by {
        assert(frames@[i].deep_view() =~= frames@[i]@);
    }
}

fn append_bytes(out: &mut Vec<u8>, bytes: &[u8])
    ensures
        final(out)@ == old(out)@ + bytes@,
{
    let ghost before = old(out)@;
    out.extend_from_slice(bytes);
    assert(out@ =~= before + bytes@);
}

/// Frames and signs a message whose parts are already JSON bytes.
pub fn serialize_message(
    header: &[u8],
    parent: &[u8],
    metadata: &[u8],
    content: &[u8],
    key: &[u8],
) -> (r: Result<Vec<Vec<u8>>, String>)
    ensures
        r matches Ok(frames) && frames.deep_view() == message_frames(
            header@,
            parent@,
            metadata@,
            content@,
            key@,
        ),
{
    let signature = if key.len() == 0 {
        Vec::new()
    } else {
        let mut signed: Vec<u8> = Vec::new();
        append_bytes(&mut signed, header);
        append_bytes(&mut signed, parent);
        append_bytes(&mut signed, metadata);
        append_bytes(&mut signed, content);
        let tag = match hmac_sha256(key, signed.as_slice()) {
            Ok(tag) => tag,
            Err(error) => {
                return Err(error);
            },
        };
        hex_encode(tag.as_slice())
    };
    let mut frames: Vec<Vec<u8>> = Vec::new();
    frames.push(delimiter_frame());
    frames.push(signature);
    frames.push(vstd::slice::slice_to_vec(header));
    frames.push(vstd::slice::slice_to_vec(parent));
    frames.push(vstd::slice::slice_to_vec(metadata));
    frames.push(vstd::slice::slice_to_vec(content));
    proof {
        lemma_frames_deep_view(frames);
    }
    assert(frames.deep_view() =~= message_frames(header@, parent@, metadata@, content@, key@));
    Ok(frames)
}

/// The members of the header of a shutdown request with id `id`.
pub open spec fn shutdown_header_members(id: Seq<char>) -> Seq<(Seq<char>, Seq<char>)> {
    seq![
        ("msg_id"@, id),
        ("msg_type"@, "shutdown_request"@),
        ("username"@, "multirepl"@),
        ("session"@, id),
        ("date"@, "1970-01-01T00:00:00Z"@),
        ("version"@, "5.4"@),
    ]
}

/// The frames of a shutdown request with id `id` signed under `key`: its
/// header, an empty parent header and metadata, and the content
/// `{"restart": false}`.
pub open spec fn shutdown_request_frames(id: Seq<char>, key: Seq<u8>) -> Seq<Seq<u8>> {
    message_frames(
        json_string_object(shutdown_header_members(id)),
        json_string_object(seq![]),
        json_string_object(seq![]),
        json_flag_object("restart"@, false),
        key,
    )
}

/// The signed frames of a request that asks a kernel to shut down without
/// restarting.
pub fn shutdown_request(message_id: &str, key: &[u8]) -> (r: Result<Vec<Vec<u8>>, String>)
    ensures
        r matches Ok(frames) && frames.deep_view() == shutdown_request_frames(message_id@, key@),
{
    let members: Vec<(String, String)> = vec![
        ("msg_id".to_owned(), message_id.to_owned()),
        ("msg_type".to_owned(), "shutdown_request".to_owned()),
        ("username".to_owned(), "multirepl".to_owned()),
        ("session".to_owned(), message_id.to_owned()),
        ("date".to_owned(), "1970-01-01T00:00:00Z".to_owned()),
        ("version".to_owned(), "5.4".to_owned()),
    ];
    assert(members_view(members@) =~= shutdown_header_members(message_id@));
    let header = match string_object_bytes(&members) {
        Ok(bytes) => bytes,
        Err(e) => {
            return Err(e);
        },
    };
    let no_members: Vec<(String, String)> = Vec::new();
    assert(members_view(no_members@) =~= Seq::<(Seq<char>, Seq<char>)>::empty());
    let empty = match string_object_bytes(&no_members) {
        Ok(bytes) => bytes,
        Err(e) => {
            return Err(e);
        },
    };
    let content = match flag_object_bytes("restart", false) {
        Ok(bytes) => bytes,
        Err(e) => {
            return Err(e);
        },
    };
    serialize_message(header.as_slice(), empty.as_slice(), empty.as_slice(), content.as_slice(), key)
}

/// The index of the first frame at or after `i` that is the delimiter.
pub open spec fn delimiter_from(frames: Seq<Seq<u8>>, i: int) -> Option<int>
    decreases frames.len() - i,
{
    if i < 0 || i >= frames.len() {
        None
    } else if frames[i] == delimiter() {
        Some(i)
    } else {
        delimiter_from(frames, i + 1)
    }
}

/// What the checks on a reply give: its parent header and content frames,
/// or the first failure. With a key, the signature frame must be UTF-8
/// hexadecimal text of the HMAC of the next four frames.
pub open spec fn reply_outcome(frames: Seq<Seq<u8>>, key: Seq<u8>) -> Result<
    (Seq<u8>, Seq<u8>),
    Seq<char>,
> {
    match delimiter_from(frames, 0) {
        None => Err("Jupyter reply is missing delimiter"@),
        Some(d) => {
            let body = frames.subrange(d + 1, frames.len() as int);
            if body.len() < 5 {
                Err("Jupyter reply is malformed"@)
            } else if key.len() == 0 {
                Ok((body[2], body[4]))
            } else if !valid_utf8(body[0]) {
                Err("invalid Jupyter signature encoding: "@ + utf8_error_text(body[0]))
            } else {
                match hex_decode_result(body[0]) {
                    Err(message) => Err(message),
                    Ok(supplied) => if supplied == hmac_sha256_tag(
                        key,
                        body[1] + body[2] + body[3] + body[4],
                    ) {
                        Ok((body[2], body[4]))
                    } else {
                        Err("invalid Jupyter reply signature"@)
                    },
                }
            }
        },
    }
}

/// The parent header and content frames of a checked reply.
#[derive(Debug, Clone)]
pub struct ReplyFrames {
    pub parent: Vec<u8>,
    pub content: Vec<u8>,
}

fn bytes_equal(a: &[u8], b: &[u8]) -> (r: bool)
    ensures
        r == (a@ == b@),
{
    if a.len() != b.len() {
        return false;
    }
    let mut i: usize = 0;
    while i < a.len()
        invariant
            a@.len() == b@.len(),
            i <= a@.len(),
            forall|j: int| 0 <= j < i ==> a@[j] == b@[j],
        decreases a@.len() - i,
    {
        if a[i] != b[i] {
            return false;
        }
        i = i + 1;
    }
    assert(a@ =~= b@);
    true
}

/// Finds the delimiter in a reply, checks its shape and, with a key, its
/// signature; gives the parent header and content frames.
pub fn reply_frames(frames: &Vec<Vec<u8>>, key: &[u8]) -> (r: Result<ReplyFrames, String>)
    ensures
        match reply_outcome(frames.deep_view(), key@) {
            Ok((parent, content)) => r matches Ok(f) && f.parent@ == parent && f.content@
                == content,
            Err(message) => r matches Err(e) && e@ == message,
        },
{
    let ghost view = frames.deep_view();
    proof {
        lemma_frames_deep_view(*frames);
    }
    let delimiter = delimiter_frame();
    let mut d: usize = 0;
    while d < frames.len()
        invariant
            view == frames.deep_view(),
            delimiter@ == crate::jupyter::delimiter(),
            d <= frames.len(),
            delimiter_from(view, 0) == delimiter_from(view, d as int),
            view.len() == frames@.len(),
            forall|i: int| 0 <= i < frames@.len() ==> #[trigger] view[i] == frames@[i]@,
        ensures
            d <= frames.len(),
            delimiter_from(view, 0) == delimiter_from(view, d as int),
            d < frames.len() ==> view[d as int] == crate::jupyter::delimiter(),
        decreases frames.len() - d,
    {
        if bytes_equal(frames[d].as_slice(), delimiter.as_slice()) {
            break;
        }
        d = d + 1;
    }
    if d == frames.len() {
        return Err("Jupyter reply is missing delimiter".to_owned());
    }
    let ghost body = view.subrange(d + 1, view.len() as int);
    if frames.len() - (d + 1) < 5 {
        return Err("Jupyter reply is malformed".to_owned());
    }
    assert(body[0] == frames[d + 1]@);
    assert(body[1] == frames[d + 2]@);
    assert(body[2] == frames[d + 3]@);
    assert(body[3] == frames[d + 4]@);
    assert(body[4] == frames[d + 5]@);
    if key.len() != 0 {
        match utf8_text(frames[d + 1].as_slice()) {
            Ok(_) => {},
            Err(error) => {
                let mut message = "invalid Jupyter signature encoding: ".to_owned();
                push_str(&mut message, error.as_str());
                return Err(message);
            },
        }
        let supplied = match decode_hex_bytes(frames[d + 1].as_slice()) {
            Ok(supplied) => supplied,
            Err(error) => {
                return Err(error);
            },
        };
        let mut signed: Vec<u8> = Vec::new();
        append_bytes(&mut signed, frames[d + 2].as_slice());
        append_bytes(&mut signed, frames[d + 3].as_slice());
        append_bytes(&mut signed, frames[d + 4].as_slice());
        append_bytes(&mut signed, frames[d + 5].as_slice());
        let valid = match hmac_sha256_verify(key, signed.as_slice(), supplied.as_slice()) {
            Ok(valid) => valid,
            Err(error) => {
                return Err(error);
            },
        };
        if !valid {
            return Err("invalid Jupyter reply signature".to_owned());
        }
    }
    Ok(
        ReplyFrames {
            parent: vstd::slice::slice_to_vec(frames[d + 3].as_slice()),
            content: vstd::slice::slice_to_vec(frames[d + 5].as_slice()),
        },
    )
}

/// The check on a reply's parent header: its `msg_id` must be the id of the
/// request.
pub fn check_reply_parent(parent_message_id: Option<&str>, expected: &str) -> (r: Result<(), String>)
    ensures
        r is Ok <==> (parent_message_id matches Some(id) && id@ == expected@),
        r matches Err(e) ==> e@ == "Jupyter shutdown reply has the wrong parent message"@,
{
    match parent_message_id {
        Some(id) => {
            if str_equal(id, expected) {
                return Ok(());
            }
        },
        None => {},
    }
    Err("Jupyter shutdown reply has the wrong parent message".to_owned())
}

/// The check on a reply's content: a `status` text other than `ok` fails,
/// with the content in the message.
pub fn check_reply_status(status: Option<&str>, content_text: &str) -> (r: Result<(), String>)
    ensures
        r is Err <==> (status matches Some(s) && s@ != "ok"@),
        r matches Err(e) ==> e@ == "Jupyter shutdown failed: "@ + content_text@,
{
    match status {
        Some(s) => {
            if !str_equal(s, "ok") {
                let mut message = "Jupyter shutdown failed: ".to_owned();
                push_str(&mut message, content_text);
                return Err(message);
            }
        },
        None => {},
    }
    Ok(())
}


/// The verdict on the JSON of a reply's parent header and content, from
/// the `msg_id` member of the parent header, the `status` member of the
/// content and the content's compact text: the parent must name the request
/// `expected`, and a `status` text other than `ok` fails with the content.
pub open spec fn reply_json_verdict(
    parent_id: Result<Option<Seq<char>>, Seq<char>>,
    expected: Seq<char>,
    status: Result<Option<Seq<char>>, Seq<char>>,
    content_text: Result<Seq<char>, Seq<char>>,
) -> Result<(), Seq<char>> {
    match parent_id {
        Err(e) => Err("invalid Jupyter parent header: "@ + e),
        Ok(id) => if !(id matches Some(i) && i == expected) {
            Err("Jupyter shutdown reply has the wrong parent message"@)
        } else {
            match status {
                Err(e) => Err("invalid Jupyter reply content: "@ + e),
                Ok(Some(s)) => if s != "ok"@ {
                    match content_text {
                        Ok(t) => Err("Jupyter shutdown failed: "@ + t),
                        Err(e) => Err("invalid Jupyter reply content: "@ + e),
                    }
                } else {
                    Ok(())
                },
                Ok(None) => Ok(()),
            }
        },
    }
}

/// What the checks on a shutdown reply give: the frame checks, then the
/// checks on the JSON of the parent header and content.
pub open spec fn reply_validation(frames: Seq<Seq<u8>>, expected: Seq<char>, key: Seq<u8>) -> Result<
    (),
    Seq<char>,
> {
    match reply_outcome(frames, key) {
        Err(message) => Err(message),
        Ok((parent, content)) => reply_json_verdict(
            json_str_member(parent, "msg_id"@),
            expected,
            json_str_member(content, "status"@),
            json_compact(content),
        ),
    }
}

/// A result without a value seen through its error's view.
pub open spec fn unit_result_view(r: Result<(), String>) -> Result<(), Seq<char>> {
    match r {
        Ok(()) => Ok(()),
        Err(e) => Err(e@),
    }
}

/// The verdict on a reply's JSON, from what reading the parent's `msg_id`,
/// the content's `status` and the content's compact text gave.
pub fn check_reply_json(
    parent_id: Result<Option<String>, String>,
    expected: &str,
    status: Result<Option<String>, String>,
    content_text: Result<String, String>,
) -> (r: Result<(), String>)
    ensures
        unit_result_view(r) == reply_json_verdict(
            member_view(parent_id),
            expected@,
            member_view(status),
            text_result_view(content_text),
        ),
{
    let id = match parent_id {
        Ok(id) => id,
        Err(e) => {
            let mut message = "invalid Jupyter parent header: ".to_owned();
            push_str(&mut message, e.as_str());
            return Err(message);
        },
    };
    let supplied = match &id {
        Some(i) => Some(i.as_str()),
        None => None,
    };
    match check_reply_parent(supplied, expected) {
        Ok(()) => {},
        Err(e) => {
            return Err(e);
        },
    }
    let status = match status {
        Ok(status) => status,
        Err(e) => {
            let mut message = "invalid Jupyter reply content: ".to_owned();
            push_str(&mut message, e.as_str());
            return Err(message);
        },
    };
    match status {
        Some(s) => {
            if str_equal(s.as_str(), "ok") {
                Ok(())
            } else {
                match content_text {
                    Ok(t) => check_reply_status(Some(s.as_str()), t.as_str()),
                    Err(e) => {
                        let mut message = "invalid Jupyter reply content: ".to_owned();
                        push_str(&mut message, e.as_str());
                        Err(message)
                    },
                }
            }
        },
        None => Ok(()),
    }
}

/// Checks a shutdown reply: its frames, its signature under `key`, that its
/// parent header names the request `parent_message_id`, and that its
/// content reports no failing `status`.
pub fn validate_reply(frames: &Vec<Vec<u8>>, parent_message_id: &str, key: &[u8]) -> (r: Result<
    (),
    String,
>)
    ensures
        unit_result_view(r) == reply_validation(frames.deep_view(), parent_message_id@, key@),
{
    let reply = match reply_frames(frames, key) {
        Ok(reply) => reply,
        Err(e) => {
            return Err(e);
        },
    };
    let parent_id = json_string_member(reply.parent.as_slice(), "msg_id");
    let status = json_string_member(reply.content.as_slice(), "status");
    let needs_text = match &status {
        Ok(Some(s)) => !str_equal(s.as_str(), "ok"),
        _ => false,
    };
    let content_text = if needs_text {
        json_compact_text(reply.content.as_slice())
    } else {
        Ok(String::new())
    };
    check_reply_json(parent_id, parent_message_id, status, content_text)
}

proof fn lemma_ascii_is_utf8(s: Seq<u8>)
    requires
        forall|i: int| 0 <= i < s.len() ==> #[trigger] s[i] < 128,
    ensures
        valid_utf8(s),
    decreases s.len(),
{
    if s.len() > 0 {
        let t = vstd::utf8::pop_first_scalar(s);
        assert(t =~= s.subrange(1, s.len() as int));
        assert forall|i: int| 0 <= i < t.len() implies #[trigger] t[i] < 128 by {
            assert(t[i] == s[i + 1]);
        }
        lemma_ascii_is_utf8(t);
    }
}

/// Routing identities that are not the delimiter are skipped when the
/// delimiter is looked for.
proof fn lemma_delimiter_after_identities(ids: Seq<Seq<u8>>, frames: Seq<Seq<u8>>, i: int)
    requires
        0 <= i <= ids.len(),
        forall|k: int| 0 <= k < ids.len() ==> ids[k] != delimiter(),
    ensures
        delimiter_from(ids + frames, i) == delimiter_from(ids + frames, ids.len() as int),
    decreases ids.len() - i,
{
    if i < ids.len() {
        assert((ids + frames)[i] == ids[i]);
        lemma_delimiter_after_identities(ids, frames, i + 1);
    }
}

/// A message framed and signed under a key, behind any routing identities
/// that are not the delimiter, passes every frame check on a reply under
/// the same key, and the checks give back its parent header and content.
pub proof fn lemma_signed_message_passes_reply_checks(
    ids: Seq<Seq<u8>>,
    header: Seq<u8>,
    parent: Seq<u8>,
    metadata: Seq<u8>,
    content: Seq<u8>,
    key: Seq<u8>,
)
    requires
        forall|k: int| 0 <= k < ids.len() ==> ids[k] != delimiter(),
    ensures
        reply_outcome(ids + message_frames(header, parent, metadata, content, key), key) == Ok::<
            (Seq<u8>, Seq<u8>),
            Seq<char>,
        >((parent, content)),
{
    let message = message_frames(header, parent, metadata, content, key);
    let frames = ids + message;
    let signed = header + parent + metadata + content;
    let signature = signature_frame(key, signed);
    lemma_delimiter_after_identities(ids, message, 0);
    assert(frames[ids.len() as int] == delimiter());
    assert(delimiter_from(frames, ids.len() as int) == Some(ids.len() as int));
    let d = ids.len() as int;
    let body = frames.subrange(d + 1, frames.len() as int);
    assert(body =~= seq![signature, header, parent, metadata, content]);
    assert(body[1] + body[2] + body[3] + body[4] == signed);
    if key.len() != 0 {
        let tag = hmac_sha256_tag(key, signed);
        crate::hex::lemma_hex_round_trip(tag);
        assert forall|i: int| 0 <= i < signature.len() implies #[trigger] signature[i] < 128 by {
            let b = tag[i / 2];
            assert(b / 16 < 16 && b % 16 < 16);
        }
        lemma_ascii_is_utf8(signature);
    }
}

/// A shutdown reply framed and signed under the key, behind any routing
/// identities that are not the delimiter, is accepted when its parent
/// header's `msg_id` is the request's id and its content's `status` is
/// absent, not a string, or `ok`.
pub proof fn lemma_signed_reply_is_accepted(
    ids: Seq<Seq<u8>>,
    header: Seq<u8>,
    parent: Seq<u8>,
    metadata: Seq<u8>,
    content: Seq<u8>,
    key: Seq<u8>,
    expected: Seq<char>,
)
    requires
        forall|k: int| 0 <= k < ids.len() ==> ids[k] != delimiter(),
        json_str_member(parent, "msg_id"@) == Ok::<Option<Seq<char>>, Seq<char>>(Some(expected)),
        json_str_member(content, "status"@) matches Ok(status) && (status matches Some(s) ==> s
            == "ok"@),
    ensures
        reply_validation(ids + message_frames(header, parent, metadata, content, key), expected, key)
            == Ok::<(), Seq<char>>(()),
{
    lemma_signed_message_passes_reply_checks(ids, header, parent, metadata, content, key);
}

} // verus!
