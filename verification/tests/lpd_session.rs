use baz_printing::lpd::errors::LPDPClientError;
use baz_printing::lpd::session::{LpdAction, LpdEvent, LpdExchange, LpdStep};

fn sent_bytes(a: &LpdAction) -> Vec<u8> {
    match a {
        LpdAction::Send(b) => b.clone(),
        other => panic!("expected a send, got {other:?}"),
    }
}

#[test]
fn print_remaining_jobs_sends_the_command_and_is_done() {
    let mut x = LpdExchange::print_remaining_jobs("lp");
    assert_eq!(sent_bytes(&x.current()), vec![1, b'l', b'p', b'\n']);
    assert!(matches!(x.on_event(LpdEvent::Sent), LpdAction::Done));
    assert!(matches!(x.current(), LpdAction::Done));
}

#[test]
fn a_successful_control_file_transfer_follows_its_plan() {
    let content = b"Hh\nPu\nJf\nldfA001h\n";
    let mut x = LpdExchange::printer_control_file(content, "cfA001h");
    let a = x.current();
    assert_eq!(sent_bytes(&a), b"\x0218 cfA001h\n".to_vec());
    assert!(matches!(x.on_event(LpdEvent::Sent), LpdAction::ReadAck));
    let a = x.on_event(LpdEvent::AckRead(1, 0));
    assert_eq!(sent_bytes(&a), content.to_vec());
    let a = x.on_event(LpdEvent::Sent);
    assert_eq!(sent_bytes(&a), vec![0]);
    assert!(matches!(x.on_event(LpdEvent::Sent), LpdAction::ReadAck));
    assert!(matches!(x.on_event(LpdEvent::AckRead(1, 0)), LpdAction::Done));
    assert!(matches!(x.on_event(LpdEvent::Sent), LpdAction::Done));
}

#[test]
fn a_data_file_transfer_announces_the_data_length() {
    let data = b"Hello from Python LPD client!";
    let x = LpdExchange::printer_data_file(data, "dfA001cookingpot");
    assert_eq!(sent_bytes(&x.current()), b"\x0329 dfA001cookingpot\n".to_vec());
}

#[test]
fn receive_job_and_abort() {
    let mut x = LpdExchange::receive_printer_job("q");
    assert_eq!(sent_bytes(&x.current()), vec![2, b'q', b'\n']);
    assert!(matches!(x.on_event(LpdEvent::Sent), LpdAction::ReadAck));
    assert!(matches!(x.on_event(LpdEvent::AckRead(1, 0)), LpdAction::Done));

    let mut x = LpdExchange::printer_abort_job();
    assert_eq!(sent_bytes(&x.current()), vec![1, b'\n']);
    assert!(matches!(x.on_event(LpdEvent::Sent), LpdAction::ReadAck));
    assert!(matches!(x.on_event(LpdEvent::AckRead(1, 0)), LpdAction::Done));
}

#[test]
fn a_failed_write_ends_the_exchange() {
    let mut x = LpdExchange::receive_printer_job("q");
    match x.on_event(LpdEvent::SendFailed("broken pipe".to_string())) {
        LpdAction::Fail(e) => assert_eq!(e, LPDPClientError::FailedWrite("broken pipe".to_string())),
        other => panic!("{other:?}"),
    }
    assert!(matches!(x.on_event(LpdEvent::Sent), LpdAction::Done));
    assert!(matches!(x.current(), LpdAction::Done));
}

#[test]
fn a_refused_ack_ends_the_exchange() {
    let mut x = LpdExchange::printer_abort_job();
    assert!(matches!(x.on_event(LpdEvent::Sent), LpdAction::ReadAck));
    match x.on_event(LpdEvent::AckRead(1, 1)) {
        LpdAction::Fail(e) => assert_eq!(
            e,
            LPDPClientError::NotAcknowledged("expected ACK 0x00, got 0x01".to_string())
        ),
        other => panic!("{other:?}"),
    }
    assert!(matches!(x.on_event(LpdEvent::AckRead(1, 0)), LpdAction::Done));
}

#[test]
fn a_short_read_or_failed_read_ends_the_exchange() {
    let mut x = LpdExchange::printer_abort_job();
    x.on_event(LpdEvent::Sent);
    match x.on_event(LpdEvent::AckRead(0, 0)) {
        LpdAction::Fail(e) => assert_eq!(
            e,
            LPDPClientError::NotAcknowledged("Expected a single ACK byte found 0".to_string())
        ),
        other => panic!("{other:?}"),
    }
    let mut x = LpdExchange::printer_abort_job();
    x.on_event(LpdEvent::Sent);
    match x.on_event(LpdEvent::ReadFailed("reset".to_string())) {
        LpdAction::Fail(e) => assert_eq!(e, LPDPClientError::FailedRead("reset".to_string())),
        other => panic!("{other:?}"),
    }
}

#[test]
fn an_event_that_does_not_answer_the_step_is_ignored() {
    let mut x = LpdExchange::printer_abort_job();
    let a = x.on_event(LpdEvent::AckRead(1, 0));
    assert_eq!(sent_bytes(&a), vec![1, b'\n']);
    let a = x.on_event(LpdEvent::ReadFailed("x".to_string()));
    assert_eq!(sent_bytes(&a), vec![1, b'\n']);
    assert!(matches!(x.on_event(LpdEvent::Sent), LpdAction::ReadAck));
    assert!(matches!(x.on_event(LpdEvent::Sent), LpdAction::ReadAck));
    assert!(matches!(x.on_event(LpdEvent::SendFailed("x".to_string())), LpdAction::ReadAck));
}

#[test]
fn an_empty_plan_is_done_at_once() {
    let mut x = LpdExchange::new(Vec::new());
    assert!(matches!(x.current(), LpdAction::Done));
    assert!(matches!(x.on_event(LpdEvent::Sent), LpdAction::Done));
    let mut x = LpdExchange::new(vec![LpdStep::AwaitAck]);
    assert!(matches!(x.current(), LpdAction::ReadAck));
    assert!(matches!(x.on_event(LpdEvent::AckRead(1, 0)), LpdAction::Done));
}

fn run_all_succeeding(mut x: LpdExchange) -> Vec<Vec<u8>> {
    let mut sent = Vec::new();
    let mut a = x.current();
    loop {
        let ev = match &a {
            LpdAction::Send(b) => {
                sent.push(b.clone());
                LpdEvent::Sent
            }
            LpdAction::ReadAck => LpdEvent::AckRead(1, 0),
            LpdAction::Done => return sent,
            LpdAction::Fail(e) => panic!("{e:?}"),
        };
        a = x.on_event(ev);
    }
}

#[test]
fn a_whole_job_opens_then_sends_control_then_data() {
    let x = LpdExchange::send_printer_job("q", b"Hh\n", "cfA001h", b"hello", "dfA001h");
    let sent = run_all_succeeding(x);
    assert_eq!(
        sent,
        vec![
            vec![2, b'q', b'\n'],
            b"\x023 cfA001h\n".to_vec(),
            b"Hh\n".to_vec(),
            vec![0],
            b"\x035 dfA001h\n".to_vec(),
            b"hello".to_vec(),
            vec![0],
        ]
    );
}

#[test]
fn an_abort_opens_the_job_then_aborts_it() {
    let sent = run_all_succeeding(LpdExchange::abort_printer_job("q"));
    assert_eq!(sent, vec![vec![2, b'q', b'\n'], vec![1, b'\n']]);
}

#[test]
fn nothing_is_sent_after_a_refused_ack_in_a_whole_job() {
    let mut x = LpdExchange::send_printer_job("q", b"c", "cf", b"d", "df");
    assert!(matches!(x.on_event(LpdEvent::Sent), LpdAction::ReadAck));
    assert!(matches!(x.on_event(LpdEvent::AckRead(1, 9)), LpdAction::Fail(_)));
    assert!(matches!(x.on_event(LpdEvent::Sent), LpdAction::Done));
    assert!(matches!(x.current(), LpdAction::Done));
}
