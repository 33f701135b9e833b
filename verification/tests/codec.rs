//! Exact wire layouts of the frame codec, and heartbeat recognition.
use simplenet::{
    decode_client_frame, decode_server_frame, encode_client_frame, encode_server_frame,
    heartbeat_ping, heartbeat_pong, is_heartbeat, ClientFrame, ServerFrame,
};

#[test]
fn client_msg_layout() {
    let bytes = encode_client_frame(&ClientFrame::Msg(vec![0x07, 0x08]));
    assert_eq!(bytes, vec![1, 0x07, 0x08]);
}

#[test]
fn client_request_layout() {
    let bytes = encode_client_frame(&ClientFrame::Request(vec![0x01], 1));
    assert_eq!(bytes, vec![2, 1, 0, 0, 0, 0, 0, 0, 0, 0x01]);
}

#[test]
fn server_frame_layouts() {
    let resp = encode_server_frame(&ServerFrame::Response(vec![0x02], 1));
    assert_eq!(resp, vec![3, 1, 0, 0, 0, 0, 0, 0, 0, 0x02]);
    let ack = encode_server_frame(&ServerFrame::Ack(258));
    assert_eq!(ack, vec![4, 2, 1, 0, 0, 0, 0, 0, 0]);
    let reject = encode_server_frame(&ServerFrame::Reject(7));
    assert_eq!(reject, vec![5, 7, 0, 0, 0, 0, 0, 0, 0]);
}

#[test]
fn client_codec_round_trips() {
    let frames = vec![
        ClientFrame::Msg(vec![]),
        ClientFrame::Msg(vec![0xff, 0x00, 0x41]),
        ClientFrame::Request(vec![], 1),
        ClientFrame::Request(vec![9, 9, 9], u64::MAX),
    ];
    for f in frames {
        let bytes = encode_client_frame(&f);
        assert_eq!(decode_client_frame(&bytes), Some(f));
    }
}

#[test]
fn server_codec_round_trips() {
    let frames = vec![
        ServerFrame::Msg(vec![0x10]),
        ServerFrame::Response(vec![0x02, 0x03], 42),
        ServerFrame::Ack(u64::MAX),
        ServerFrame::Reject(0),
    ];
    for f in frames {
        let bytes = encode_server_frame(&f);
        assert_eq!(decode_server_frame(&bytes), Some(f));
    }
}

#[test]
fn malformed_bytes_decode_to_none() {
    assert_eq!(decode_client_frame(&[]), None);
    assert_eq!(decode_client_frame(&[0]), None);
    assert_eq!(decode_client_frame(&[9, 1, 2]), None);
    // A request tag with a truncated id.
    assert_eq!(decode_client_frame(&[2, 1, 2, 3]), None);
    assert_eq!(decode_server_frame(&[]), None);
    // An ack must carry exactly the id.
    assert_eq!(decode_server_frame(&[4, 1, 2, 3, 4, 5, 6, 7, 8, 9]), None);
    // Server tags are not valid client tags.
    assert_eq!(decode_client_frame(&[3, 1, 0, 0, 0, 0, 0, 0, 0]), None);
}

#[test]
fn heartbeat_probe_is_answered_with_the_reply() {
    assert_eq!(simplenet::heartbeat_reply(b"ping"), Some(b"pong".to_vec()));
    // The reply itself, and anything else, draws no answer.
    assert_eq!(simplenet::heartbeat_reply(b"pong"), None);
    assert_eq!(simplenet::heartbeat_reply(b"hello"), None);
    assert_eq!(simplenet::heartbeat_reply(b""), None);
}

#[test]
fn heartbeat_sentinel_is_recognised() {
    assert_eq!(heartbeat_ping(), b"ping".to_vec());
    assert_eq!(heartbeat_pong(), b"pong".to_vec());
    assert!(is_heartbeat(b"ping"));
    assert!(is_heartbeat(b"pong"));
    assert!(!is_heartbeat(b"pin"));
    assert!(!is_heartbeat(b"pings"));
    assert!(!is_heartbeat(b"PING"));
    assert!(!is_heartbeat(b""));
}
