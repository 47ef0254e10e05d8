use ecast::input_handler::InputHandler;
use ecast::sink::drain_closed;
use ecast::topic::{RecvOutcome, Topic};

#[test]
fn it_works() {
    let result = ecast::add(2, 2);
    assert_eq!(result, 4);
}

#[test]
fn basic_construction() {
    let input: Vec<u8> = b"test\ntest\ntest".to_vec();
    let records = ecast::lines::split_into_lines(&input);
    let mut input_handler = InputHandler::new_connect();
    let mut receivers = Vec::new();
    for _ in 0..10 {
        let receiver = input_handler.subscribe().unwrap();
        receivers.push(receiver);
    }
    for record in records {
        input_handler.on_line(record);
    }
    input_handler.on_stream_end();
    for receiver in receivers.iter_mut() {
        let line = receiver.recv(input_handler.topic_ref());
        assert!(matches!(line, RecvOutcome::Line(l) if l == b"test\n".to_vec()));
        let line = receiver.recv(input_handler.topic_ref());
        assert!(matches!(line, RecvOutcome::Line(l) if l == b"test\n".to_vec()));
        let line = receiver.recv(input_handler.topic_ref());
        assert!(matches!(line, RecvOutcome::Line(l) if l == b"test".to_vec()));
        let line = receiver.recv(input_handler.topic_ref());
        assert!(matches!(line, RecvOutcome::Closed));
    }
}

#[test]
fn consumers_see_publish_order() {
    let mut topic = Topic::new(16);
    let mut first = topic.subscribe();
    let mut second = topic.subscribe();
    topic.publish(b"one\n".to_vec());
    topic.publish(b"two\n".to_vec());
    topic.publish(b"three\n".to_vec());
    for cursor in [&mut first, &mut second] {
        let got = cursor.recv(&topic);
        assert!(matches!(got, RecvOutcome::Line(l) if l == b"one\n".to_vec()));
        let got = cursor.recv(&topic);
        assert!(matches!(got, RecvOutcome::Line(l) if l == b"two\n".to_vec()));
        let got = cursor.recv(&topic);
        assert!(matches!(got, RecvOutcome::Line(l) if l == b"three\n".to_vec()));
        let got = cursor.recv(&topic);
        assert!(matches!(got, RecvOutcome::Pending));
    }
}

#[test]
fn slow_consumer_lags_then_resumes_at_oldest() {
    let mut topic = Topic::new(2);
    let mut cursor = topic.subscribe();
    // four publishes against a window of two: the publisher is never held up
    topic.publish(b"a\n".to_vec());
    topic.publish(b"b\n".to_vec());
    topic.publish(b"c\n".to_vec());
    topic.publish(b"d\n".to_vec());
    let got = cursor.recv(&topic);
    assert!(matches!(got, RecvOutcome::Lagged));
    // the retry resumes with the oldest line still retained
    let got = cursor.recv(&topic);
    assert!(matches!(got, RecvOutcome::Line(l) if l == b"c\n".to_vec()));
    let got = cursor.recv(&topic);
    assert!(matches!(got, RecvOutcome::Line(l) if l == b"d\n".to_vec()));
}

#[test]
fn late_subscriber_never_sees_evicted_lines() {
    let mut topic = Topic::new(2);
    topic.publish(b"gone1\n".to_vec());
    topic.publish(b"gone2\n".to_vec());
    topic.publish(b"gone3\n".to_vec());
    let mut cursor = topic.subscribe();
    // nothing published before attachment is replayed, evicted or retained
    let got = cursor.recv(&topic);
    assert!(matches!(got, RecvOutcome::Pending));
    topic.publish(b"fresh\n".to_vec());
    let got = cursor.recv(&topic);
    assert!(matches!(got, RecvOutcome::Line(l) if l == b"fresh\n".to_vec()));
}

#[test]
fn close_terminates_every_consumer() {
    let mut topic = Topic::new(4);
    let mut first = topic.subscribe();
    topic.publish(b"x\n".to_vec());
    let mut second = topic.subscribe();
    topic.close();
    let got = first.recv(&topic);
    assert!(matches!(got, RecvOutcome::Line(l) if l == b"x\n".to_vec()));
    let got = first.recv(&topic);
    assert!(matches!(got, RecvOutcome::Closed));
    let got = second.recv(&topic);
    assert!(matches!(got, RecvOutcome::Closed));
    // terminal: it stays Closed on every further poll
    let got = second.recv(&topic);
    assert!(matches!(got, RecvOutcome::Closed));
}

#[test]
fn file_and_console_sinks_get_exact_bytes() {
    let input: Vec<u8> = b"a\nb\nc".to_vec();
    let records = ecast::lines::split_into_lines(&input);
    assert_eq!(records.len(), 3);
    assert_eq!(records[0], b"a\n".to_vec());
    assert_eq!(records[1], b"b\n".to_vec());
    assert_eq!(records[2], b"c".to_vec());
    let mut topic = Topic::new(16);
    let mut file_cursor = topic.subscribe();
    let mut console_cursor = topic.subscribe();
    for record in records {
        topic.publish(record);
    }
    topic.close();
    let mut file_bytes: Vec<u8> = Vec::new();
    let mut console_bytes: Vec<u8> = Vec::new();
    drain_closed(&mut file_cursor, &topic, &mut file_bytes);
    drain_closed(&mut console_cursor, &topic, &mut console_bytes);
    assert_eq!(file_bytes, b"a\nb\nc".to_vec());
    assert_eq!(console_bytes, b"a\nb\nc".to_vec());
}

#[test]
fn clients_see_only_lines_after_they_connect() {
    let mut topic = Topic::new(16);
    let mut early_client = topic.subscribe();
    topic.publish(b"a\n".to_vec());
    let mut late_client = topic.subscribe();
    topic.publish(b"b\n".to_vec());
    topic.close();
    let mut early_bytes: Vec<u8> = Vec::new();
    let mut late_bytes: Vec<u8> = Vec::new();
    drain_closed(&mut early_client, &topic, &mut early_bytes);
    drain_closed(&mut late_client, &topic, &mut late_bytes);
    assert_eq!(early_bytes, b"a\nb\n".to_vec());
    assert_eq!(late_bytes, b"b\n".to_vec());
}

#[test]
fn draining_a_lagged_consumer_starts_at_the_oldest_retained_line() {
    let mut topic = Topic::new(2);
    let mut cursor = topic.subscribe();
    topic.publish(b"lost1\n".to_vec());
    topic.publish(b"lost2\n".to_vec());
    topic.publish(b"kept1\n".to_vec());
    topic.publish(b"kept2\n".to_vec());
    topic.close();
    let mut bytes: Vec<u8> = Vec::new();
    drain_closed(&mut cursor, &topic, &mut bytes);
    assert_eq!(bytes, b"kept1\nkept2\n".to_vec());
}

#[test]
fn publish_with_zero_subscribers_is_accepted() {
    let mut topic = Topic::new(2);
    topic.publish(b"nobody listens\n".to_vec());
    topic.publish(b"still fine\n".to_vec());
    topic.publish(b"evicting quietly\n".to_vec());
    assert_eq!(topic.published(), 3);
    assert_eq!(topic.capacity(), 2);
    assert!(!topic.closed_now());
}
