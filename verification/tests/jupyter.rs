use replmux_runtime_cli::jupyter::{
    check_reply_parent, check_reply_status, decode_hex, decode_key, default_ip,
    default_signature_scheme, default_transport, message_id, prepare_shutdown, reply_frames,
    serialize_message, shutdown_request, validate_reply, JupyterConnection,
};

#[test]
fn decodes_hex_and_text_keys() {
    assert_eq!(decode_key("616263").unwrap(), b"abc");
    assert_eq!(decode_key("not-hex").unwrap(), b"not-hex");
}

#[test]
fn decodes_keys_of_every_form() {
    assert_eq!(decode_key("").unwrap(), Vec::<u8>::new());
    assert_eq!(decode_key("abc").unwrap(), b"abc");
    assert_eq!(decode_key("0aFF").unwrap(), vec![0x0a, 0xff]);
}

#[test]
fn decode_hex_reports_each_failure() {
    assert_eq!(decode_hex("abc"), Err("hex value has an odd length".to_owned()));
    assert_eq!(decode_hex("zz"), Err("invalid digit found in string".to_owned()));
    assert_eq!(decode_hex("+f"), Ok(vec![15]));
    assert_eq!(decode_hex("0a1"), Err("hex value has an odd length".to_owned()));
    // A pair that splits a multi-byte character is not UTF-8.
    let error = decode_hex("a\u{20ac}").unwrap_err();
    assert_eq!(error, std::str::from_utf8(&[b'a', 0xe2]).unwrap_err().to_string());
}

fn connection(scheme: &str, transport: &str, key: &str) -> JupyterConnection {
    JupyterConnection {
        control_port: 50123,
        ip: default_ip(),
        transport: transport.to_owned(),
        key: key.to_owned(),
        signature_scheme: scheme.to_owned(),
    }
}

#[test]
fn connection_defaults_are_local_tcp_with_hmac() {
    assert_eq!(default_ip(), "127.0.0.1");
    assert_eq!(default_transport(), "tcp");
    assert_eq!(default_signature_scheme(), "hmac-sha256");
}

#[test]
fn shutdown_targets_the_control_port_and_refuses_other_schemes() {
    let target = prepare_shutdown(&connection("hmac-sha256", "tcp", "616263")).unwrap();
    assert_eq!(target.endpoint, "tcp://127.0.0.1:50123");
    assert_eq!(target.key, b"abc");
    assert_eq!(
        prepare_shutdown(&connection("hmac-md5", "tcp", "")).err(),
        Some("unsupported Jupyter signature scheme: hmac-md5".to_owned())
    );
    assert_eq!(
        prepare_shutdown(&connection("hmac-sha256", "ipc", "")).err(),
        Some("unsupported Jupyter transport: ipc".to_owned())
    );
}

#[test]
fn message_ids_name_the_process_and_time() {
    assert_eq!(message_id(42, 1_700_000_000_123), "multirepl-42-1700000000123");
    assert_eq!(message_id(0, 0), "multirepl-0-0");
}

#[test]
fn signed_message_matches_reference_hmac() {
    // HMAC-SHA-256 of "abc" under the key "key".
    let frames = serialize_message(b"a", b"b", b"", b"c", b"key").unwrap();
    assert_eq!(frames.len(), 6);
    assert_eq!(frames[0], b"<IDS|MSG>");
    assert_eq!(
        String::from_utf8(frames[1].clone()).unwrap(),
        "9c196e32dc0175f86f4b1cb89289d6619de6bee699e4c378e68309ed97a1a6ab"
    );
    let unsigned = serialize_message(b"h", b"p", b"m", b"c", b"").unwrap();
    assert!(unsigned[1].is_empty());
}

#[test]
fn reply_of_own_message_passes_the_checks() {
    let key = b"secret";
    let frames = serialize_message(b"{}", b"{\"msg_id\":\"x\"}", b"{}", b"{\"status\":\"ok\"}", key)
        .unwrap();
    let mut routed = vec![b"identity".to_vec()];
    routed.extend(frames);
    let reply = reply_frames(&routed, key).unwrap();
    assert_eq!(reply.parent, b"{\"msg_id\":\"x\"}");
    assert_eq!(reply.content, b"{\"status\":\"ok\"}");
}

#[test]
fn tampered_or_short_replies_are_refused() {
    let key = b"secret";
    let mut frames = serialize_message(b"{}", b"{}", b"{}", b"{}", key).unwrap();
    frames[5] = b"{\"status\":\"error\"}".to_vec();
    assert_eq!(
        reply_frames(&frames, key).err(),
        Some("invalid Jupyter reply signature".to_owned())
    );
    assert_eq!(
        reply_frames(&frames[..5].to_vec(), key).err(),
        Some("Jupyter reply is malformed".to_owned())
    );
    assert_eq!(
        reply_frames(&frames[1..].to_vec(), key).err(),
        Some("Jupyter reply is missing delimiter".to_owned())
    );
    let mut bad_encoding = serialize_message(b"{}", b"{}", b"{}", b"{}", key).unwrap();
    bad_encoding[1] = vec![0xff, 0xfe];
    let error = reply_frames(&bad_encoding, key).unwrap_err();
    assert!(error.starts_with("invalid Jupyter signature encoding: "));
    // Without a key the signature is not looked at.
    assert!(reply_frames(&bad_encoding, b"").is_ok());
}

#[test]
fn reply_checks_compare_parent_and_status() {
    assert!(check_reply_parent(Some("id-1"), "id-1").is_ok());
    assert_eq!(
        check_reply_parent(Some("id-2"), "id-1"),
        Err("Jupyter shutdown reply has the wrong parent message".to_owned())
    );
    assert!(check_reply_parent(None, "id-1").is_err());
    assert!(check_reply_status(Some("ok"), "{}").is_ok());
    assert!(check_reply_status(None, "{}").is_ok());
    assert_eq!(
        check_reply_status(Some("error"), "{\"status\":\"error\"}"),
        Err("Jupyter shutdown failed: {\"status\":\"error\"}".to_owned())
    );
}

#[test]
fn signed_shutdown_reply_is_accepted_behind_identities() {
    let key = b"secret";
    let frames = serialize_message(
        b"{}",
        b"{\"msg_id\":\"req-1\"}",
        b"{}",
        b"{\"status\":\"ok\",\"restart\":false}",
        key,
    )
    .unwrap();
    let mut routed = vec![b"identity".to_vec()];
    routed.extend(frames);
    assert_eq!(validate_reply(&routed, "req-1", key), Ok(()));
    let no_status = serialize_message(b"{}", b"{\"msg_id\":\"req-1\"}", b"{}", b"{}", key).unwrap();
    assert_eq!(validate_reply(&no_status, "req-1", key), Ok(()));
}

#[test]
fn shutdown_replies_with_wrong_parent_or_failed_status_are_refused() {
    let key = b"secret";
    let other = serialize_message(b"{}", b"{\"msg_id\":\"req-2\"}", b"{}", b"{}", key).unwrap();
    assert_eq!(
        validate_reply(&other, "req-1", key),
        Err("Jupyter shutdown reply has the wrong parent message".to_owned())
    );
    let failed = serialize_message(
        b"{}",
        b"{\"msg_id\":\"req-1\"}",
        b"{}",
        b"{ \"status\" : \"error\" }",
        key,
    )
    .unwrap();
    assert_eq!(
        validate_reply(&failed, "req-1", key),
        Err("Jupyter shutdown failed: {\"status\":\"error\"}".to_owned())
    );
    let broken_parent = serialize_message(b"{}", b"not json", b"{}", b"{}", key).unwrap();
    assert!(validate_reply(&broken_parent, "req-1", key)
        .unwrap_err()
        .starts_with("invalid Jupyter parent header: "));
    let broken_content =
        serialize_message(b"{}", b"{\"msg_id\":\"req-1\"}", b"{}", b"{", key).unwrap();
    assert!(validate_reply(&broken_content, "req-1", key)
        .unwrap_err()
        .starts_with("invalid Jupyter reply content: "));
    let unsigned = serialize_message(b"{}", b"{\"msg_id\":\"req-1\"}", b"{}", b"{}", b"").unwrap();
    assert_eq!(
        validate_reply(&unsigned, "req-1", key),
        Err("invalid Jupyter reply signature".to_owned())
    );
}

#[test]
fn shutdown_request_carries_the_standard_header() {
    let frames = shutdown_request("multirepl-1-2", b"").unwrap();
    assert_eq!(frames.len(), 6);
    assert_eq!(frames[0], b"<IDS|MSG>");
    assert!(frames[1].is_empty());
    let header: serde_json::Value = serde_json::from_slice(&frames[2]).unwrap();
    assert_eq!(header["msg_id"], "multirepl-1-2");
    assert_eq!(header["session"], "multirepl-1-2");
    assert_eq!(header["msg_type"], "shutdown_request");
    assert_eq!(header["username"], "multirepl");
    assert_eq!(header["date"], "1970-01-01T00:00:00Z");
    assert_eq!(header["version"], "5.4");
    assert_eq!(frames[3], b"{}");
    assert_eq!(frames[4], b"{}");
    assert_eq!(frames[5], b"{\"restart\":false}");
    let signed = shutdown_request("multirepl-1-2", b"key").unwrap();
    assert_eq!(signed[1].len(), 64);
    assert_eq!(
        validate_reply(&signed, "multirepl-1-2", b"key"),
        Err("Jupyter shutdown reply has the wrong parent message".to_owned())
    );
}
