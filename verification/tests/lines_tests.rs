use ecast::lines::split_into_lines;
use ecast::sink::{forward_step, ForwardAction};
use ecast::topic::RecvOutcome;

#[test]
fn records_keep_their_terminators() {
    let records = split_into_lines(&b"a\nb\nc".to_vec());
    assert_eq!(records, vec![b"a\n".to_vec(), b"b\n".to_vec(), b"c".to_vec()]);
}

#[test]
fn empty_stream_has_no_records() {
    let records = split_into_lines(&Vec::new());
    assert_eq!(records.len(), 0);
}

#[test]
fn empty_lines_are_records_too() {
    let records = split_into_lines(&b"\n\n".to_vec());
    assert_eq!(records, vec![b"\n".to_vec(), b"\n".to_vec()]);
}

#[test]
fn unterminated_stream_is_one_record() {
    let records = split_into_lines(&b"abc".to_vec());
    assert_eq!(records, vec![b"abc".to_vec()]);
}

#[test]
fn splitting_preserves_every_byte() {
    let input = b"x\n\ny\nlast".to_vec();
    let records = split_into_lines(&input);
    let mut rebuilt: Vec<u8> = Vec::new();
    for record in records {
        rebuilt.extend(record);
    }
    assert_eq!(rebuilt, input);
}

#[test]
fn forwarding_decisions_match_the_outcome() {
    let action = forward_step(RecvOutcome::Line(b"z\n".to_vec()));
    assert!(matches!(action, ForwardAction::Write(w) if w == b"z\n".to_vec()));
    assert!(matches!(forward_step(RecvOutcome::Lagged), ForwardAction::PollAgain));
    assert!(matches!(forward_step(RecvOutcome::Pending), ForwardAction::WaitThenPoll));
    assert!(matches!(forward_step(RecvOutcome::Closed), ForwardAction::Exit));
}
