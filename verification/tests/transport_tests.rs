use desktop_widget_rs::transport::{
    decode_frame, decode_frame_at, encode_frame, frame_length, split_frames, ClientLink,
    LinkAction, LinkEvent, ServerAction, ServerEvent, ServerLink, HEADER_LEN, RETRY_MS,
};

#[test]
fn a_frame_is_the_length_then_the_payload() {
    let frame = encode_frame(&vec![7, 9]).unwrap();
    assert_eq!(frame, vec![2, 0, 0, 0, 7, 9]);
    assert_eq!(HEADER_LEN, 4);
}

#[test]
fn the_length_is_little_endian() {
    let payload = vec![0xabu8; 0x0102_03];
    let frame = encode_frame(&payload).unwrap();
    assert_eq!(&frame[..4], &[0x03, 0x02, 0x01, 0x00]);
    assert_eq!(&frame[..4], &(payload.len() as u32).to_le_bytes());
    assert_eq!(frame.len(), 4 + payload.len());
    assert_eq!(&frame[4..], &payload[..]);
}

#[test]
fn an_empty_payload_is_a_frame_of_four_bytes() {
    let frame = encode_frame(&vec![]).unwrap();
    assert_eq!(frame, vec![0, 0, 0, 0]);
    let (payload, consumed) = decode_frame(&frame).unwrap();
    assert!(payload.is_empty());
    assert_eq!(consumed, 4);
}

#[test]
fn header_values() {
    assert_eq!(frame_length(&[0, 0, 0, 0]), 0);
    assert_eq!(frame_length(&[1, 0, 0, 0]), 1);
    assert_eq!(frame_length(&[0, 1, 0, 0]), 256);
    assert_eq!(frame_length(&[0x78, 0x56, 0x34, 0x12]), 0x1234_5678);
    assert_eq!(frame_length(&[255, 255, 255, 255]), u32::MAX);
}

#[test]
fn what_was_framed_is_what_is_read() {
    let payload: Vec<u8> = (0..=255u8).collect();
    let mut stream = encode_frame(&payload).unwrap();
    stream.extend_from_slice(&[1, 2, 3]);
    let (read, consumed) = decode_frame(&stream).unwrap();
    assert_eq!(read, payload);
    assert_eq!(consumed, 4 + 256);
}

#[test]
fn a_frame_cut_short_is_not_read() {
    let frame = encode_frame(&vec![1, 2, 3, 4, 5]).unwrap();
    for cut in 0..frame.len() {
        assert!(decode_frame(&frame[..cut].to_vec()).is_none(), "cut at {}", cut);
    }
    assert!(decode_frame(&frame).is_some());
}

#[test]
fn a_frame_in_the_middle_of_the_bytes() {
    let mut stream = vec![9, 9, 9];
    stream.extend(encode_frame(&vec![5, 6]).unwrap());
    let (payload, consumed) = decode_frame_at(&stream, 3).unwrap();
    assert_eq!(payload, vec![5, 6]);
    assert_eq!(consumed, 6);
    assert!(decode_frame_at(&stream, stream.len()).is_none());
}

#[test]
fn frames_come_out_in_the_order_they_went_in() {
    let payloads: Vec<Vec<u8>> = vec![vec![1], vec![], vec![2, 3, 4], vec![5, 6]];
    let mut stream = Vec::new();
    for p in &payloads {
        stream.extend(encode_frame(p).unwrap());
    }
    let whole = stream.len();
    stream.extend_from_slice(&[10, 0, 0, 0, 1, 2]);
    let (read, consumed) = split_frames(&stream);
    assert_eq!(read, payloads);
    assert_eq!(consumed, whole);
}

#[test]
fn nothing_is_split_off_too_few_bytes() {
    let (read, consumed) = split_frames(&vec![]);
    assert!(read.is_empty());
    assert_eq!(consumed, 0);
    let (read, consumed) = split_frames(&vec![3, 0, 0]);
    assert!(read.is_empty());
    assert_eq!(consumed, 0);
}

#[test]
fn the_client_starts_by_connecting() {
    assert_eq!(ClientLink::start(), (ClientLink::Connecting, LinkAction::Connect));
}

#[test]
fn a_failed_attempt_is_retried_after_one_second() {
    let (mut link, _) = ClientLink::start();
    let action = link.step(LinkEvent::ConnectFailed { now: 5_000 });
    assert_eq!(RETRY_MS, 1_000);
    assert_eq!(action, LinkAction::WaitUntil { until: 6_000 });
    assert_eq!(link, ClientLink::Waiting { retry_at: 6_000 });
    assert_eq!(link.step(LinkEvent::Timer { now: 5_999 }), LinkAction::WaitUntil { until: 6_000 });
    assert_eq!(link, ClientLink::Waiting { retry_at: 6_000 });
    assert_eq!(link.step(LinkEvent::Timer { now: 6_000 }), LinkAction::Connect);
    assert_eq!(link, ClientLink::Connecting);
}

#[test]
fn the_client_retries_as_often_as_it_fails() {
    let (mut link, _) = ClientLink::start();
    let mut now = 0;
    for _ in 0..50 {
        assert_eq!(
            link.step(LinkEvent::ConnectFailed { now }),
            LinkAction::WaitUntil { until: now + 1_000 }
        );
        now += 1_000;
        assert_eq!(link.step(LinkEvent::Timer { now }), LinkAction::Connect);
    }
    assert_eq!(link.step(LinkEvent::ConnectSucceeded), LinkAction::AnnounceConnected);
    assert_eq!(link, ClientLink::Connected);
}

#[test]
fn a_broken_connection_is_announced_and_retried() {
    let mut link = ClientLink::Connected;
    let action = link.step(LinkEvent::StreamFailed { now: 100 });
    assert_eq!(action, LinkAction::AnnounceDisconnected { until: 1_100 });
    assert_eq!(link, ClientLink::Waiting { retry_at: 1_100 });
    assert_eq!(link.step(LinkEvent::Timer { now: 2_000 }), LinkAction::Connect);
    assert_eq!(link.step(LinkEvent::ConnectSucceeded), LinkAction::AnnounceConnected);
}

#[test]
fn events_out_of_place_do_nothing() {
    let mut link = ClientLink::Connected;
    assert_eq!(link.step(LinkEvent::ConnectSucceeded), LinkAction::Nothing);
    assert_eq!(link.step(LinkEvent::Timer { now: 1 }), LinkAction::Nothing);
    assert_eq!(link.step(LinkEvent::ConnectFailed { now: 1 }), LinkAction::Nothing);
    assert_eq!(link, ClientLink::Connected);
    let mut waiting = ClientLink::Waiting { retry_at: 10 };
    assert_eq!(waiting.step(LinkEvent::StreamFailed { now: 1 }), LinkAction::Nothing);
    assert_eq!(waiting.step(LinkEvent::ConnectSucceeded), LinkAction::Nothing);
    assert_eq!(waiting, ClientLink::Waiting { retry_at: 10 });
}

#[test]
fn the_retry_time_does_not_wrap() {
    let mut link = ClientLink::Connecting;
    let action = link.step(LinkEvent::ConnectFailed { now: u64::MAX - 5 });
    assert_eq!(action, LinkAction::WaitUntil { until: u64::MAX });
}

#[test]
fn the_host_serves_one_session_at_a_time() {
    let mut link = ServerLink::start();
    assert_eq!(link, ServerLink::Listening);
    assert_eq!(link.step(ServerEvent::Accepted), ServerAction::Serve);
    assert_eq!(link, ServerLink::Serving);
    assert_eq!(link.step(ServerEvent::Accepted), ServerAction::Refuse);
    assert_eq!(link, ServerLink::Serving);
    assert_eq!(link.step(ServerEvent::StreamFailed), ServerAction::AnnounceDisconnected);
    assert_eq!(link, ServerLink::Listening);
    assert_eq!(link.step(ServerEvent::StreamFailed), ServerAction::Nothing);
    assert_eq!(link.step(ServerEvent::Accepted), ServerAction::Serve);
}
