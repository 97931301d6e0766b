use mozim::error::{ErrorKind, MozimError};
use mozim::framing::{decode_payload, encode_frame, frame_length};
use mozim::reply::{decode_error, encode_error, encode_result, MozimResult};
use mozim::status::{decode_status, encode_status, DhcpState, DhcpStatus};

#[test]
fn status_encodes_exactly() {
    let s = DhcpStatus { iface_name: "eth0".to_string(), state: DhcpState::Requesting };
    assert_eq!(encode_status(&s), r#"{"iface_name":"eth0","state":"Requesting"}"#);
    let s = DhcpStatus::stopped("wlan0");
    assert_eq!(encode_status(&s), r#"{"iface_name":"wlan0","state":"Stopped"}"#);
}

#[test]
fn status_name_is_escaped() {
    let s = DhcpStatus { iface_name: "a\"b\\c\n".to_string(), state: DhcpState::Stopped };
    assert_eq!(encode_status(&s), r#"{"iface_name":"a\"b\\c\n","state":"Stopped"}"#);
}

#[test]
fn status_round_trip() {
    for name in ["eth0", "", "a\"b\\c\n\t", "ünï €", "x\u{1}y"] {
        for state in [DhcpState::Requesting, DhcpState::Stopped] {
            let s = DhcpStatus { iface_name: name.to_string(), state };
            let back = decode_status(&encode_status(&s)).unwrap();
            assert_eq!(back.iface_name, name);
            assert_eq!(back.state, state);
        }
    }
}

#[test]
fn status_decode_reads_escapes() {
    let s = decode_status(r#"{"iface_name":"eth0","state":"Requesting"}"#).unwrap();
    assert_eq!(s.iface_name, "eth0");
}

#[test]
fn status_decode_rejects_malformed() {
    for t in ["", "{}", r#"{"iface_name":"eth0","state":"Running"}"#, r#"{"iface_name":eth0,"state":"Stopped"}"#] {
        let e = decode_status(t).unwrap_err();
        assert_eq!(e.kind, ErrorKind::MozimBug);
    }
}

#[test]
fn error_encodes_exactly() {
    let e = MozimError::bug("boom".to_string());
    assert_eq!(encode_error(&e), r#"{"kind":"mozim_bug","msg":"boom"}"#);
    let e = MozimError::invalid_ipc_command("x".to_string());
    assert_eq!(encode_error(&e), r#"{"kind":"invalid_ipc_command","msg":"x"}"#);
    let e = MozimError::ipc_error("say \"hi\"".to_string());
    assert_eq!(encode_error(&e), r#"{"kind":"ipc_error","msg":"say \"hi\""}"#);
}

#[test]
fn error_round_trip() {
    let kinds = [ErrorKind::IpcError, ErrorKind::InvalidIpcCommand, ErrorKind::MozimBug];
    for kind in kinds {
        for msg in ["", "plain", "q\"uote\\ and\nnewline", "ωmega"] {
            let e = MozimError { kind, msg: msg.to_string() };
            let back = decode_error(&encode_error(&e)).unwrap();
            assert_eq!(back.kind, kind);
            assert_eq!(back.msg, msg);
        }
    }
}

#[test]
fn error_decode_rejects_unknown_kind() {
    let e = decode_error(r#"{"kind":"other","msg":"x"}"#).unwrap_err();
    assert_eq!(e.kind, ErrorKind::MozimBug);
}

#[test]
fn result_holds_one_field() {
    let d = MozimResult::data("pong".to_string());
    assert!(d.error.is_none());
    assert_eq!(d.data.as_deref(), Some("pong"));
    assert_eq!(encode_result(&d), r#"{"data":"pong"}"#);
    let e = MozimResult::error(MozimError::bug("m".to_string()));
    assert!(e.data.is_none());
    assert_eq!(encode_result(&e), r#"{"error":{"kind":"mozim_bug","msg":"m"}}"#);
}

#[test]
fn frame_prefixes_big_endian_length() {
    assert_eq!(encode_frame("ping"), vec![0, 0, 0, 4, b'p', b'i', b'n', b'g']);
    assert_eq!(encode_frame(""), vec![0, 0, 0, 0]);
    let long = "x".repeat(300);
    let f = encode_frame(&long);
    assert_eq!(&f[..4], &[0, 0, 1, 44]);
    assert_eq!(f.len(), 304);
    assert_eq!(encode_frame("é"), vec![0, 0, 0, 2, 0xc3, 0xa9]);
}

#[test]
fn frame_length_reads_prefix() {
    assert_eq!(frame_length([0, 0, 1, 44]), 300);
    assert_eq!(frame_length([1, 2, 3, 4]), 0x01020304);
    assert_eq!(frame_length([255, 255, 255, 255]), u32::MAX);
}

#[test]
fn payload_must_be_utf8() {
    assert_eq!(decode_payload(vec![b'o', b'k']).unwrap(), "ok");
    assert_eq!(decode_payload(vec![0xc3, 0xa9]).unwrap(), "é");
    let e = decode_payload(vec![0xff, 0xfe]).unwrap_err();
    assert_eq!(e.kind, ErrorKind::IpcError);
    assert_eq!(e.msg, String::from_utf8(vec![0xff, 0xfe]).unwrap_err().to_string());
    assert_eq!(e.msg, "invalid utf-8 sequence of 1 bytes from index 0");
}

#[test]
fn control_characters_escape_in_lowercase_hex() {
    let s = DhcpStatus { iface_name: "a\u{1f}\u{8}\u{c}\r\tb\u{7f}".to_string(), state: DhcpState::Stopped };
    assert_eq!(
        encode_status(&s),
        "{\"iface_name\":\"a\\u001f\\b\\f\\r\\tb\u{7f}\",\"state\":\"Stopped\"}"
    );
}

#[test]
fn frame_reads_back_as_its_text() {
    for text in ["", "ping", "start eth0", "ünï €"] {
        let f = encode_frame(text);
        let n = frame_length([f[0], f[1], f[2], f[3]]) as usize;
        assert_eq!(n, f.len() - 4);
        assert_eq!(decode_payload(f[4..].to_vec()).unwrap(), text);
    }
}
