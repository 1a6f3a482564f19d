use http_engine::file_body::FileBody;
use http_engine::response::{Delivery, Outgoing, Payload, Response};
use http_engine::transfer::{Transmission, Turn, WireAction, WireEvent};

fn perform(turn: Turn) -> (WireAction, Transmission) {
    match turn {
        Turn::Perform(action, then) => (action, then),
        Turn::Report(report) => panic!("the transmission ended with {:?}", report),
    }
}

fn report(turn: Turn) -> Delivery {
    match turn {
        Turn::Report(report) => report,
        Turn::Perform(action, _) => panic!("the transmission asks for {:?}", action),
    }
}

#[test]
fn text_goes_out_in_as_many_writes_as_the_stream_needs() {
    let out = Response::new().try_send("hello world");
    let head = out.head.clone();
    let (action, t) = perform(Transmission::begin(out));
    assert!(matches!(action, WireAction::WriteAll(ref bytes) if bytes == head.as_bytes()));
    let mut written: Vec<u8> = Vec::new();
    let (mut action, mut t) = perform(t.advance(WireEvent::Done));
    let mut rounds = 0;
    loop {
        match action {
            WireAction::Write(bytes) => {
                let n = if rounds % 2 == 0 { 4.min(bytes.len()) } else { 0 };
                written.extend_from_slice(&bytes[..n]);
                rounds += 1;
                let next = perform(t.advance(WireEvent::Wrote(n)));
                action = next.0;
                t = next.1;
            }
            WireAction::Flush => break,
            other => panic!("unexpected {:?}", other),
        }
    }
    assert_eq!(written, b"hello world");
    assert!(matches!(report(t.advance(WireEvent::Done)), Delivery::Flushed));
}

#[test]
fn a_write_that_claims_too_much_ends_the_text() {
    let (_, t) = perform(Transmission::begin(Response::new().try_send("abc")));
    let (action, t) = perform(t.advance(WireEvent::Done));
    assert!(matches!(action, WireAction::Write(ref bytes) if bytes == b"abc"));
    let (action, t) = perform(t.advance(WireEvent::Wrote(0)));
    assert!(matches!(action, WireAction::Write(ref bytes) if bytes == b"abc"));
    let (action, _) = perform(t.advance(WireEvent::Wrote(50)));
    assert!(matches!(action, WireAction::Flush));
}

#[test]
fn empty_payload_and_empty_text_go_straight_to_the_flush() {
    let (_, t) = perform(Transmission::begin(Response::new().try_send_empty()));
    let (action, t) = perform(t.advance(WireEvent::Done));
    assert!(matches!(action, WireAction::Flush));
    assert!(matches!(report(t.advance(WireEvent::Failed("x".to_string()))), Delivery::FlushFailed));
    let (_, t) = perform(Transmission::begin(Response::new().try_send("")));
    let (action, _) = perform(t.advance(WireEvent::Done));
    assert!(matches!(action, WireAction::Flush));
}

#[test]
fn a_head_that_cannot_be_written_is_a_write_failure() {
    let (_, t) = perform(Transmission::begin(Response::new().try_send("abc")));
    assert!(matches!(
        report(t.advance(WireEvent::Failed("reset".to_string()))),
        Delivery::WriteFailed
    ));
}

#[test]
fn a_head_that_is_written_in_part_only_is_a_write_failure() {
    for taken in [0usize, 1, 5, 1000] {
        let (action, t) = perform(Transmission::begin(Response::new().try_send_empty()));
        assert!(matches!(action, WireAction::WriteAll(_)));
        assert!(matches!(report(t.advance(WireEvent::Wrote(taken))), Delivery::WriteFailed));
    }
    let mut res = Response::new();
    let (_, t) = perform(Transmission::begin(res.try_send_empty()));
    let delivery = report(t.advance(WireEvent::Wrote(3)));
    assert!(res.settle(delivery).is_err());
    assert!(!res.sent());
}

#[test]
fn a_text_that_cannot_be_written_is_a_body_failure() {
    let (_, t) = perform(Transmission::begin(Response::new().try_send("abc")));
    let (_, t) = perform(t.advance(WireEvent::Done));
    assert!(matches!(
        report(t.advance(WireEvent::Failed("broken pipe".to_string()))),
        Delivery::BodyFailed(why) if why == "broken pipe"
    ));
}

#[test]
fn a_file_is_streamed_unit_by_unit() {
    let out = Response::new().try_send(FileBody::new("/tmp/x.txt", Some(6)));
    let (_, t) = perform(Transmission::begin(out));
    let (action, t) = perform(t.advance(WireEvent::Done));
    assert!(matches!(action, WireAction::Open(ref path) if path == "/tmp/x.txt"));
    let (action, t) = perform(t.advance(WireEvent::Done));
    assert!(matches!(action, WireAction::ReadUnit));
    let (action, t) = perform(t.advance(WireEvent::Read(b"ab\n".to_vec())));
    assert!(matches!(action, WireAction::WriteAll(ref bytes) if bytes == b"ab\n"));
    let (action, t) = perform(t.advance(WireEvent::Done));
    assert!(matches!(action, WireAction::ReadUnit));
    let (action, t) = perform(t.advance(WireEvent::Read(b"cd".to_vec())));
    assert!(matches!(action, WireAction::WriteAll(ref bytes) if bytes == b"cd"));
    let (action, t) = perform(t.advance(WireEvent::Done));
    assert!(matches!(action, WireAction::ReadUnit));
    let (action, t) = perform(t.advance(WireEvent::Read(Vec::new())));
    assert!(matches!(action, WireAction::Flush));
    assert!(matches!(report(t.advance(WireEvent::Done)), Delivery::Flushed));
}

#[test]
fn a_file_that_cannot_be_opened_is_a_body_failure() {
    let out = Outgoing { head: "HTTP/1.1 200 Ok\r\n\r\n".to_string(), payload: Payload::File("/no/such".to_string()) };
    let (_, t) = perform(Transmission::begin(out));
    let (_, t) = perform(t.advance(WireEvent::Done));
    assert!(matches!(
        report(t.advance(WireEvent::Failed("No such file or directory (os error 2)".to_string()))),
        Delivery::BodyFailed(why)
            if why == "could not open file /no/such: No such file or directory (os error 2)"
    ));
}

#[test]
fn a_file_that_cannot_be_read_or_written_is_a_body_failure() {
    let start = || {
        let out = Response::new().try_send(FileBody::new("f.bin", None));
        let (_, t) = perform(Transmission::begin(out));
        let (_, t) = perform(t.advance(WireEvent::Done));
        perform(t.advance(WireEvent::Done)).1
    };
    assert!(matches!(
        report(start().advance(WireEvent::Failed("io".to_string()))),
        Delivery::BodyFailed(why) if why == "io"
    ));
    let (_, t) = perform(start().advance(WireEvent::Read(vec![1, 2])));
    assert!(matches!(
        report(t.advance(WireEvent::Failed("closed".to_string()))),
        Delivery::BodyFailed(why) if why == "closed"
    ));
}

#[test]
fn an_event_that_does_not_answer_the_action_counts_as_its_failure() {
    let (_, t) = perform(Transmission::begin(Response::new().try_send("abc")));
    assert!(matches!(report(t.advance(WireEvent::Read(vec![1]))), Delivery::WriteFailed));
    let (_, t) = perform(Transmission::begin(Response::new().try_send("abc")));
    let (_, t) = perform(t.advance(WireEvent::Done));
    assert!(matches!(
        report(t.advance(WireEvent::Read(vec![1]))),
        Delivery::BodyFailed(why) if why.is_empty()
    ));
}

#[test]
fn a_sent_file_response_is_recorded_as_sent() {
    let mut res = Response::new();
    let out = res.try_send(FileBody::new("a.json", Some(0)));
    let (_, t) = perform(Transmission::begin(out));
    let (_, t) = perform(t.advance(WireEvent::Done));
    let (_, t) = perform(t.advance(WireEvent::Done));
    let (_, t) = perform(t.advance(WireEvent::Read(Vec::new())));
    let delivery = report(t.advance(WireEvent::Done));
    assert!(res.settle(delivery).is_ok());
    assert!(res.sent());
}
