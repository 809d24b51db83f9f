//! The messages of the LPD protocol, the control file of a print job, and
//! the check of a daemon's acknowledgement.
use vstd::prelude::*;
use vstd::string::StringSliceAdditionalSpecFns;

use crate::bytes::append_bytes;
use crate::digits::{
    ascii_text, decimal, decimal_digits, hex_byte, hex_byte_digits, lemma_decimal_digits_are_digits,
    lemma_hex_byte_is_ascii, push_ascii,
};
use crate::lpd::errors::LPDPClientError;
use crate::lpd::utils::{DaemonCommand, ReceiveJobSubCommand};

verus! {

/// `code Operand LF`: a daemon command with its operand.
pub open spec fn daemon_command_bytes(cmd: DaemonCommand, operand: Seq<u8>) -> Seq<u8> {
    seq![cmd.wire_code()] + operand + seq![10u8]
}

/// `code Count SP Name LF`: the header of a control or data file, announcing
/// `count` bytes of content, the count written in decimal.
pub open spec fn file_header_bytes(sub: ReceiveJobSubCommand, count: nat, name: Seq<u8>) -> Seq<u8> {
    seq![sub.wire_code()] + decimal_digits(count) + seq![32u8] + name + seq![10u8]
}

/// `01 LF`: the subcommand that aborts the job being received.
pub open spec fn abort_job_bytes() -> Seq<u8> {
    seq![ReceiveJobSubCommand::Abort.wire_code(), 10u8]
}

/// The control file of a job: host, user, job name and the line that prints
/// the data file `dfA001<host>` as a plain file.
pub open spec fn control_file_text(host: Seq<char>, user: Seq<char>, file_name: Seq<char>) -> Seq<
    char,
> {
    "H"@ + host + "\n"@ + "P"@ + user + "\n"@ + "J"@ + file_name + "\n"@ + "ldfA001"@ + host + "\n"@
}

/// The name of the control file of job 001 from `host`.
pub open spec fn control_file_name_text(host: Seq<char>) -> Seq<char> {
    "cfA001"@ + host
}

/// The name of the data file of job 001 from `host`.
pub open spec fn data_file_name_text(host: Seq<char>) -> Seq<char> {
    "dfA001"@ + host
}

/// The message of a refused acknowledgement that was not one byte long.
pub open spec fn wrong_ack_length_text(count: nat) -> Seq<char> {
    "Expected a single ACK byte found "@ + ascii_text(decimal_digits(count))
}

/// The message of a refused acknowledgement byte.
pub open spec fn wrong_ack_byte_text(byte: u8) -> Seq<char> {
    "expected ACK 0x00, got 0x"@ + ascii_text(hex_byte_digits(byte))
}

/// The bytes of a daemon command on the queue `queue_name`.
pub fn daemon_command_message(cmd: DaemonCommand, queue_name: &str) -> (r: Vec<u8>)
    ensures
        r@ == daemon_command_bytes(cmd, queue_name.spec_bytes()),
{
    let mut v: Vec<u8> = Vec::new();
    v.push(cmd.code());
    append_bytes(&mut v, queue_name.as_bytes());
    v.push(10u8);
    v
}

/// The header that announces a control or data file of `count` bytes named
/// `name`.
pub fn file_header_message(sub: ReceiveJobSubCommand, count: usize, name: &str) -> (r: Vec<u8>)
    ensures
        r@ == file_header_bytes(sub, count as nat, name.spec_bytes()),
{
    let mut v: Vec<u8> = Vec::new();
    v.push(sub.code());
    let digits = decimal(count);
    append_bytes(&mut v, digits.as_slice());
    v.push(32u8);
    append_bytes(&mut v, name.as_bytes());
    v.push(10u8);
    v
}

/// The subcommand that aborts the job being received.
pub fn abort_job_message() -> (r: Vec<u8>)
    ensures
        r@ == abort_job_bytes(),
{
    let mut v: Vec<u8> = Vec::new();
    v.push(ReceiveJobSubCommand::Abort.code());
    v.push(10u8);
    assert(v@ =~= abort_job_bytes());
    v
}

/// The control file of a job sent from `host` by `user` for the document
/// `file_name`.
pub fn control_file_content(host: &str, user: &str, file_name: &str) -> (r: String)
    ensures
        r@ == control_file_text(host@, user@, file_name@),
{
    let mut s = String::from_str("H");
    s.append(host);
    s.append("\n");
    s.append("P");
    s.append(user);
    s.append("\n");
    s.append("J");
    s.append(file_name);
    s.append("\n");
    s.append("ldfA001");
    s.append(host);
    s.append("\n");
    s
}

/// The job name of a document: the final component of its path, or
/// `document` where the path has none (or it is not UTF-8).
pub fn document_name<'a>(file_name: Option<&'a str>) -> (r: &'a str)
    ensures
        r@ == match file_name {
            Some(n) => n@,
            None => "document"@,
        },
{
    match file_name {
        Some(n) => n,
        None => "document",
    }
}

/// The name of the control file of a job sent from `host`.
pub fn control_file_name(host: &str) -> (r: String)
    ensures
        r@ == control_file_name_text(host@),
{
    let mut s = String::from_str("cfA001");
    s.append(host);
    s
}

/// The name of the data file of a job sent from `host`.
pub fn data_file_name(host: &str) -> (r: String)
    ensures
        r@ == data_file_name_text(host@),
{
    let mut s = String::from_str("dfA001");
    s.append(host);
    s
}

#[verifier::external_type_specification]
#[verifier::external_body]
pub struct ExWhoamiError(whoami::Error);

/// The name of this machine.
///
/// Trusted: calls `whoami::hostname`, which asks the operating system; the
/// outcome depends on the machine, so nothing is stated of it.
#[verifier::external_body]
fn system_hostname() -> Result<String, whoami::Error> {
    whoami::hostname()
}

/// The name of the user running this program.
///
/// Trusted: calls `whoami::username`, which asks the operating system; the
/// outcome depends on the machine, so nothing is stated of it.
#[verifier::external_body]
fn system_username() -> Result<String, whoami::Error> {
    whoami::username()
}

/// The message of an error reported by `whoami`.
///
/// Trusted: calls `to_string` through `whoami::Error`'s `Display`; its text is
/// whoami's and is not stated.
#[verifier::external_body]
fn system_error_message(e: &whoami::Error) -> String {
    e.to_string()
}

/// The control file of a job for the document `file_name`, sent from this
/// machine by the user running this program.
pub fn build_control_file_content(file_name: &str) -> (r: Result<String, LPDPClientError>)
    ensures
        r matches Ok(s) ==> exists|host: Seq<char>, user: Seq<char>|
            s@ == control_file_text(host, user, file_name@),
        r matches Err(e) ==> e is SystemDetailsError,
{
    let host = match system_hostname() {
        Ok(h) => h,
        Err(e) => return Err(LPDPClientError::SystemDetailsError(system_error_message(&e))),
    };
    let user = match system_username() {
        Ok(u) => u,
        Err(e) => return Err(LPDPClientError::SystemDetailsError(system_error_message(&e))),
    };
    let s = control_file_content(host.as_str(), user.as_str(), file_name);
    assert(s@ == control_file_text(host@, user@, file_name@));
    Ok(s)
}

/// The name of the control file of a job sent from this machine.
pub fn build_control_file_name() -> (r: Result<String, LPDPClientError>)
    ensures
        r matches Ok(s) ==> exists|host: Seq<char>| s@ == control_file_name_text(host),
        r matches Err(e) ==> e is SystemDetailsError,
{
    match system_hostname() {
        Ok(h) => {
            let s = control_file_name(h.as_str());
            assert(s@ == control_file_name_text(h@));
            Ok(s)
        },
        Err(e) => Err(LPDPClientError::SystemDetailsError(system_error_message(&e))),
    }
}

/// The name of the data file of a job sent from this machine.
pub fn build_data_file_name() -> (r: Result<String, LPDPClientError>)
    ensures
        r matches Ok(s) ==> exists|host: Seq<char>| s@ == data_file_name_text(host),
        r matches Err(e) ==> e is SystemDetailsError,
{
    match system_hostname() {
        Ok(h) => {
            let s = data_file_name(h.as_str());
            assert(s@ == data_file_name_text(h@));
            Ok(s)
        },
        Err(e) => Err(LPDPClientError::SystemDetailsError(system_error_message(&e))),
    }
}

/// Checks what the daemon sent back for an acknowledgement: `count` bytes
/// were read, the first of them `byte`. Only a single zero byte acknowledges.
pub fn check_ack(count: usize, byte: u8) -> (r: Result<(), LPDPClientError>)
    ensures
        r is Ok <==> (count == 1 && byte == 0),
        count != 1 ==> (r matches Err(LPDPClientError::NotAcknowledged(m)) && m@
            == wrong_ack_length_text(count as nat)),
        count == 1 && byte != 0 ==> (r matches Err(LPDPClientError::NotAcknowledged(m)) && m@
            == wrong_ack_byte_text(byte)),
{
    if count != 1 {
        let mut m = String::from_str("Expected a single ACK byte found ");
        let digits = decimal(count);
        proof {
            lemma_decimal_digits_are_digits(count as nat);
        }
        push_ascii(&mut m, digits.as_slice());
        return Err(LPDPClientError::NotAcknowledged(m));
    }
    if byte != 0 {
        let mut m = String::from_str("expected ACK 0x00, got 0x");
        let digits = hex_byte(byte);
        proof {
            lemma_hex_byte_is_ascii(byte);
        }
        push_ascii(&mut m, digits.as_slice());
        return Err(LPDPClientError::NotAcknowledged(m));
    }
    Ok(())
}

/// The control file names the job's sender and prints, as a plain file
/// (`l` line), the data file that the job sends from the same host.
pub proof fn law_control_file_prints_the_data_file(
    host: Seq<char>,
    user: Seq<char>,
    file_name: Seq<char>,
)
    ensures
        control_file_text(host, user, file_name) == "H"@ + host + "\n"@ + "P"@ + user + "\n"@
            + "J"@ + file_name + "\n"@ + "l"@ + data_file_name_text(host) + "\n"@,
        control_file_name_text(host).drop_first() == data_file_name_text(host).drop_first(),
        control_file_name_text(host)[0] == 'c' && data_file_name_text(host)[0] == 'd',
{
    reveal_strlit("ldfA001");
    reveal_strlit("l");
    reveal_strlit("dfA001");
    reveal_strlit("cfA001");
    let a = "H"@ + host + "\n"@ + "P"@ + user + "\n"@ + "J"@ + file_name + "\n"@;
    assert("ldfA001"@ + host =~= "l"@ + ("dfA001"@ + host));
    assert(control_file_text(host, user, file_name) =~= a + ("ldfA001"@ + host) + "\n"@);
    assert(control_file_name_text(host).drop_first() =~= data_file_name_text(host).drop_first());
}

} // verus!
