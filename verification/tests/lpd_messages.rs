use baz_printing::digits::{decimal, hex_byte, push_ascii};
use baz_printing::lpd::commands::{
    abort_job_message, build_control_file_content, build_control_file_name, build_data_file_name,
    check_ack, control_file_content, document_name, control_file_name, daemon_command_message, data_file_name,
    file_header_message,
};
use baz_printing::lpd::errors::LPDPClientError;
use baz_printing::lpd::utils::{DaemonCommand, ReceiveJobSubCommand};

#[test]
fn decimal_renders_digits() {
    assert_eq!(decimal(0), b"0".to_vec());
    assert_eq!(decimal(7), b"7".to_vec());
    assert_eq!(decimal(10), b"10".to_vec());
    assert_eq!(decimal(1234), b"1234".to_vec());
    assert_eq!(decimal(usize::MAX), usize::MAX.to_string().into_bytes());
}

#[test]
fn hex_byte_renders_two_upper_case_digits() {
    assert_eq!(hex_byte(0x00), b"00".to_vec());
    assert_eq!(hex_byte(0x0a), b"0A".to_vec());
    assert_eq!(hex_byte(0xff), b"FF".to_vec());
    assert_eq!(hex_byte(0x1f), format!("{:02X}", 0x1fu8).into_bytes());
}

#[test]
fn push_ascii_appends_characters() {
    let mut s = String::from("n=");
    push_ascii(&mut s, b"42");
    assert_eq!(s, "n=42");
}

#[test]
fn daemon_commands_are_code_queue_line_feed() {
    assert_eq!(DaemonCommand::PrintRemainingJobs.code(), 1);
    assert_eq!(DaemonCommand::ReceivePrinterJob.code(), 2);
    assert_eq!(DaemonCommand::SendQueueStateJobShort.code(), 3);
    assert_eq!(DaemonCommand::SendQueueStateJobLong.code(), 4);
    assert_eq!(DaemonCommand::RemoveJobs.code(), 5);
    assert_eq!(
        daemon_command_message(DaemonCommand::PrintRemainingJobs, "lp"),
        vec![1, b'l', b'p', b'\n']
    );
    assert_eq!(
        daemon_command_message(DaemonCommand::ReceivePrinterJob, "HP_Color_LaserJet_MFP_M283fdw"),
        [&[2u8][..], b"HP_Color_LaserJet_MFP_M283fdw", b"\n"].concat()
    );
    assert_eq!(daemon_command_message(DaemonCommand::RemoveJobs, ""), vec![5, b'\n']);
}

#[test]
fn daemon_command_queue_is_utf8() {
    assert_eq!(
        daemon_command_message(DaemonCommand::ReceivePrinterJob, "é"),
        vec![2, 0xc3, 0xa9, b'\n']
    );
}

#[test]
fn file_headers_announce_count_and_name() {
    assert_eq!(ReceiveJobSubCommand::Abort.code(), 1);
    assert_eq!(ReceiveJobSubCommand::ReceiveControlFile.code(), 2);
    assert_eq!(ReceiveJobSubCommand::ReceiveDataFile.code(), 3);
    let control = b"Hcookingpot\nPd1r3ct0r\nNdocument.txt\nldfA001cookingpot\n";
    assert_eq!(
        file_header_message(ReceiveJobSubCommand::ReceiveControlFile, control.len(), "cfA001cookingpot"),
        [&[2u8][..], control.len().to_string().as_bytes(), b" ", b"cfA001cookingpot", b"\n"].concat()
    );
    assert_eq!(
        file_header_message(ReceiveJobSubCommand::ReceiveDataFile, 29, "dfA001cookingpot"),
        b"\x0329 dfA001cookingpot\n".to_vec()
    );
    assert_eq!(
        file_header_message(ReceiveJobSubCommand::ReceiveDataFile, 0, "d"),
        b"\x030 d\n".to_vec()
    );
}

#[test]
fn abort_is_one_then_line_feed() {
    assert_eq!(abort_job_message(), vec![1, b'\n']);
}

#[test]
fn control_file_lists_host_user_job_and_data_file() {
    assert_eq!(
        control_file_content("cookingpot", "d1r3ct0r", "document.txt"),
        "Hcookingpot\nPd1r3ct0r\nJdocument.txt\nldfA001cookingpot\n"
    );
    assert_eq!(control_file_content("", "", ""), "H\nP\nJ\nldfA001\n");
    assert_eq!(control_file_name("cookingpot"), "cfA001cookingpot");
    assert_eq!(data_file_name("cookingpot"), "dfA001cookingpot");
}

#[test]
fn control_file_of_this_machine() {
    match build_control_file_content("report.pdf") {
        Ok(s) => {
            let host = whoami::hostname().unwrap();
            let user = whoami::username().unwrap();
            assert_eq!(s, format!("H{host}\nP{user}\nJreport.pdf\nldfA001{host}\n"));
        }
        Err(e) => assert!(matches!(e, LPDPClientError::SystemDetailsError(_))),
    }
    match build_control_file_name() {
        Ok(s) => assert_eq!(s, format!("cfA001{}", whoami::hostname().unwrap())),
        Err(e) => assert!(matches!(e, LPDPClientError::SystemDetailsError(_))),
    }
    match build_data_file_name() {
        Ok(s) => assert_eq!(s, format!("dfA001{}", whoami::hostname().unwrap())),
        Err(e) => assert!(matches!(e, LPDPClientError::SystemDetailsError(_))),
    }
}

#[test]
fn ack_is_a_single_zero_byte() {
    assert_eq!(check_ack(1, 0), Ok(()));
    assert_eq!(
        check_ack(0, 0),
        Err(LPDPClientError::NotAcknowledged("Expected a single ACK byte found 0".to_string()))
    );
    assert_eq!(
        check_ack(2, 0),
        Err(LPDPClientError::NotAcknowledged("Expected a single ACK byte found 2".to_string()))
    );
    assert_eq!(
        check_ack(1, 0x1f),
        Err(LPDPClientError::NotAcknowledged("expected ACK 0x00, got 0x1F".to_string()))
    );
    assert_eq!(
        check_ack(1, 0xa0),
        Err(LPDPClientError::NotAcknowledged("expected ACK 0x00, got 0xA0".to_string()))
    );
}

#[test]
fn decimal_reads_back_without_leading_zeros() {
    for n in [0usize, 1, 9, 10, 99, 100, 65535, 1 << 40] {
        let d = decimal(n);
        assert!(d.iter().all(|b| b.is_ascii_digit()));
        assert!(n == 0 || d[0] != b'0');
        assert_eq!(String::from_utf8(d).unwrap().parse::<usize>().unwrap(), n);
    }
}

#[test]
fn document_name_falls_back_to_document() {
    assert_eq!(document_name(Some("report.pdf")), "report.pdf");
    assert_eq!(document_name(None), "document");
}
