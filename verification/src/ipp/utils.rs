//! The encoding of IPP operations (RFC 8010, section 3).
//!
//! An operation request or response is encoded as a 2-byte version-number,
//! a 2-byte operation-id (request) or status-code (response), a 4-byte
//! request-id, zero or more attribute groups, the 1-byte
//! end-of-attributes-tag, and optional data. All integers are big-endian.
use vstd::prelude::*;
use vstd::string::StringSliceAdditionalSpecFns;

use crate::bytes::append_bytes;
use crate::ipp::tags::ValueTags;

verus! {

/// The IPP version this client speaks: 1.1.
pub const SUPPORTED_VERSION: u16 = 0x0101;

/// The media type of IPP messages.
pub const IPP_CONTENT_TYPE: &'static str = "application/ipp";

/// The fixed header of an operation request.
#[derive(Debug, Clone, Copy, PartialEq, Eq, Structural)]
pub struct IPPOperationRequestBase {
    pub version: u16,
    pub operation_id: u16,
    pub request_id: u32,
}

/// The fixed header of an operation response.
#[derive(Debug, Clone, Copy, PartialEq, Eq, Structural)]
pub struct IPPOperationResponseBase {
    pub version: u16,
    pub status_code: u16,
    pub request_id: u32,
}

/// The operations that a printer object supports.
#[derive(Debug, Clone, Copy, PartialEq, Eq, Structural)]
pub enum PrinterOperations {
    PrintJob,
    PrintURI,
    ValidateJob,
    CreateJob,
    GetPrinterAttributes,
    GetJobs,
    PausePrinter,
    ResumePrinter,
    PurgeJobs,
}

/// The operations that a job object supports.
#[derive(Debug, Clone, Copy, PartialEq, Eq, Structural)]
pub enum JobOperations {
    SendDocument,
    SendURI,
    CancelJob,
    GetJobAttributes,
    HoldJob,
    ReleaseJob,
    RestartJob,
}

/// A 16-bit integer in big-endian byte order.
pub open spec fn be16(x: u16) -> Seq<u8> {
    seq![(x / 256) as u8, (x % 256) as u8]
}

/// A 32-bit integer in big-endian byte order.
pub open spec fn be32(x: u32) -> Seq<u8> {
    seq![(x / 0x1000000) as u8, (x / 0x10000 % 256) as u8, (x / 256 % 256) as u8, (x % 256) as u8]
}

/// The 16-bit integer whose big-endian bytes are `high`, `low`.
pub open spec fn u16_of(high: u8, low: u8) -> u16 {
    (high * 256 + low) as u16
}

/// The 32-bit integer whose big-endian halves are `high`, `low`.
pub open spec fn u32_of(high: u16, low: u16) -> u32 {
    (high * 0x10000 + low) as u32
}

/// Joins two bytes, `high` first, into a 16-bit integer.
pub fn pack_u8_to_u16(high: u8, low: u8) -> (r: u16)
    ensures
        r == high * 256 + low,
        r == u16_of(high, low),
{
    let r: u16 = ((high as u16) << 8) | (low as u16);
    assert(((high as u16) << 8) | (low as u16) == high * 256 + low) by (bit_vector);
    r
}

/// Joins two 16-bit integers, `high` first, into a 32-bit integer.
pub fn pack_u16_to_u32(high: u16, low: u16) -> (r: u32)
    ensures
        r == high * 0x10000 + low,
        r == u32_of(high, low),
{
    let r: u32 = ((high as u32) << 16) | (low as u32);
    assert(((high as u32) << 16) | (low as u32) == high * 0x10000 + low) by (bit_vector);
    r
}

/// Appends `x` in big-endian byte order.
fn push_be16(buf: &mut Vec<u8>, x: u16)
    ensures
        final(buf)@ == old(buf)@ + be16(x),
{
    buf.push((x / 256) as u8);
    buf.push((x % 256) as u8);
    assert(buf@ =~= old(buf)@ + be16(x));
}

/// Appends `x` in big-endian byte order.
fn push_be32(buf: &mut Vec<u8>, x: u32)
    ensures
        final(buf)@ == old(buf)@ + be32(x),
{
    buf.push((x / 0x1000000) as u8);
    buf.push((x / 0x10000 % 256) as u8);
    buf.push((x / 256 % 256) as u8);
    buf.push((x % 256) as u8);
    assert(buf@ =~= old(buf)@ + be32(x));
}

/// The encoding of an attribute with one value: the value tag, the name's
/// length (2 bytes), the name, the value's length (2 bytes), the value.
pub open spec fn attribute_bytes(tag: u8, name: Seq<u8>, value: Seq<u8>) -> Seq<u8> {
    seq![tag] + be16(name.len() as u16) + name + be16(value.len() as u16) + value
}

/// Encodes an attribute with one value: `value_tag`, then `name` and `value`
/// as UTF-8, each preceded by its length in bytes. Each length must fit its
/// 2-byte field.
pub fn pack_attribute_with_one_value(value_tag: ValueTags, name: &str, value: &str) -> (r: Vec<
    u8,
>)
    requires
        name.spec_bytes().len() <= 0xffff,
        value.spec_bytes().len() <= 0xffff,
    ensures
        r@ == attribute_bytes(value_tag.wire_code(), name.spec_bytes(), value.spec_bytes()),
{
    let mut buf: Vec<u8> = Vec::new();
    buf.push(value_tag.code());
    let name_bytes = name.as_bytes();
    push_be16(&mut buf, name_bytes.len() as u16);
    append_bytes(&mut buf, name_bytes);
    let value_bytes = value.as_bytes();
    push_be16(&mut buf, value_bytes.len() as u16);
    append_bytes(&mut buf, value_bytes);
    buf
}

/// The encoding of an operation request's header.
pub open spec fn request_header_bytes(req: IPPOperationRequestBase) -> Seq<u8> {
    be16(req.version) + be16(req.operation_id) + be32(req.request_id)
}

impl IPPOperationRequestBase {
    /// The header of a Print-Job request: version 1.1, the Print-Job
    /// operation, request-id 1.
    pub fn print_job() -> (r: Self)
        ensures
            r == (IPPOperationRequestBase {
                version: 0x0101,
                operation_id: OperationID::PrintJob.wire_code(),
                request_id: RequestID::PrintJob.wire_code(),
            }),
    {
        IPPOperationRequestBase {
            version: SUPPORTED_VERSION,
            operation_id: OperationID::PrintJob.code(),
            request_id: RequestID::PrintJob.code(),
        }
    }

    /// The header in its wire encoding: version, operation-id and
    /// request-id, big-endian.
    pub fn encode(&self) -> (r: Vec<u8>)
        ensures
            r@ == request_header_bytes(*self),
    {
        let mut buf: Vec<u8> = Vec::new();
        push_be16(&mut buf, self.version);
        push_be16(&mut buf, self.operation_id);
        push_be32(&mut buf, self.request_id);
        assert(buf@ =~= request_header_bytes(*self));
        buf
    }
}

/// Joining the big-endian bytes of a 16-bit integer gives it back.
pub proof fn law_u16_bytes_round_trip(x: u16)
    ensures
        u16_of(be16(x)[0], be16(x)[1]) == x,
{
    assert(x == (x / 256) * 256 + x % 256);
}

/// Joining the big-endian bytes of a 32-bit integer, pairwise and then the
/// halves, gives it back.
pub proof fn law_u32_bytes_round_trip(x: u32)
    ensures
        u32_of(u16_of(be32(x)[0], be32(x)[1]), u16_of(be32(x)[2], be32(x)[3])) == x,
{
    let b = be32(x);
    assert(u16_of(b[0], b[1]) == x / 0x10000) by {
        assert((x / 0x1000000) * 256 + (x / 0x10000 % 256) == x / 0x10000) by (nonlinear_arith);
    }
    assert(u16_of(b[2], b[3]) == x % 0x10000) by {
        assert((x / 256 % 256) * 256 + x % 256 == x % 0x10000) by (nonlinear_arith);
    }
    assert((x / 0x10000) * 0x10000 + x % 0x10000 == x) by (nonlinear_arith);
}

/// A request header is read back from its encoding with the pack functions:
/// bytes 0 and 1 give the version, 2 and 3 the operation-id, 4 to 7 the
/// request-id.
pub proof fn law_request_header_read_back(req: IPPOperationRequestBase)
    ensures
        request_header_bytes(req).len() == 8,
        u16_of(request_header_bytes(req)[0], request_header_bytes(req)[1]) == req.version,
        u16_of(request_header_bytes(req)[2], request_header_bytes(req)[3]) == req.operation_id,
        u32_of(
            u16_of(request_header_bytes(req)[4], request_header_bytes(req)[5]),
            u16_of(request_header_bytes(req)[6], request_header_bytes(req)[7]),
        ) == req.request_id,
{
    let b = request_header_bytes(req);
    law_u16_bytes_round_trip(req.version);
    law_u16_bytes_round_trip(req.operation_id);
    law_u32_bytes_round_trip(req.request_id);
    assert(b[0] == be16(req.version)[0] && b[1] == be16(req.version)[1]);
    assert(b[2] == be16(req.operation_id)[0] && b[3] == be16(req.operation_id)[1]);
    assert(b[4] == be32(req.request_id)[0] && b[5] == be32(req.request_id)[1]);
    assert(b[6] == be32(req.request_id)[2] && b[7] == be32(req.request_id)[3]);
}

/// The length fields of an encoded attribute read back, with the pack
/// functions, as the lengths of the name and the value; the name and the
/// value follow them.
pub proof fn law_attribute_lengths_read_back(tag: u8, name: Seq<u8>, value: Seq<u8>)
    requires
        name.len() <= 0xffff,
        value.len() <= 0xffff,
    ensures
        ({
            let b = attribute_bytes(tag, name, value);
            let u = name.len() as int;
            &&& b.len() == 5 + name.len() + value.len()
            &&& b[0] == tag
            &&& u16_of(b[1], b[2]) == name.len()
            &&& b.subrange(3, 3 + u) == name
            &&& u16_of(b[3 + u], b[4 + u]) == value.len()
            &&& b.subrange(5 + u, b.len() as int) == value
        }),
{
    let b = attribute_bytes(tag, name, value);
    let u = name.len() as int;
    law_u16_bytes_round_trip(name.len() as u16);
    law_u16_bytes_round_trip(value.len() as u16);
    assert(b.subrange(3, 3 + u) =~= name);
    assert(b.subrange(5 + u, b.len() as int) =~= value);
    assert(b[3 + u] == be16(value.len() as u16)[0]);
    assert(b[4 + u] == be16(value.len() as u16)[1]);
}

/// The operation-id of an IPP request.
#[derive(Debug, Clone, Copy, PartialEq, Eq, Structural)]
pub enum OperationID {
    PrintJob,
    PrintURI,
    ValidateJob,
    CreateJob,
    SendDocument,
    SendURI,
    CancelJob,
    GetJobAttributes,
    GetJobs,
    GetPrinterAttributes,
    HoldJob,
    ReleaseJob,
    RestartJob,
    PausePrinter,
    ResumePrinter,
    PurgeJobs,
}

impl OperationID {
    /// The operation-id on the wire.
    pub open spec fn wire_code(self) -> u16 {
        match self {
            OperationID::PrintJob => 0x0002,
            OperationID::PrintURI => 0x0003,
            OperationID::ValidateJob => 0x0004,
            OperationID::CreateJob => 0x0005,
            OperationID::SendDocument => 0x0006,
            OperationID::SendURI => 0x0007,
            OperationID::CancelJob => 0x0008,
            OperationID::GetJobAttributes => 0x0009,
            OperationID::GetJobs => 0x000a,
            OperationID::GetPrinterAttributes => 0x000b,
            OperationID::HoldJob => 0x000c,
            OperationID::ReleaseJob => 0x000d,
            OperationID::RestartJob => 0x000e,
            OperationID::PausePrinter => 0x0010,
            OperationID::ResumePrinter => 0x0011,
            OperationID::PurgeJobs => 0x0012,
        }
    }

    /// The operation-id on the wire.
    pub fn code(&self) -> (r: u16)
        ensures
            r == self.wire_code(),
    {
        match self {
            OperationID::PrintJob => 0x0002,
            OperationID::PrintURI => 0x0003,
            OperationID::ValidateJob => 0x0004,
            OperationID::CreateJob => 0x0005,
            OperationID::SendDocument => 0x0006,
            OperationID::SendURI => 0x0007,
            OperationID::CancelJob => 0x0008,
            OperationID::GetJobAttributes => 0x0009,
            OperationID::GetJobs => 0x000a,
            OperationID::GetPrinterAttributes => 0x000b,
            OperationID::HoldJob => 0x000c,
            OperationID::ReleaseJob => 0x000d,
            OperationID::RestartJob => 0x000e,
            OperationID::PausePrinter => 0x0010,
            OperationID::ResumePrinter => 0x0011,
            OperationID::PurgeJobs => 0x0012,
        }
    }
}

/// The request-ids this client gives its requests.
#[derive(Debug, Clone, Copy, PartialEq, Eq, Structural)]
pub enum RequestID {
    PrintJob,
    GetPrinterAttributes,
}

impl RequestID {
    /// The request-id on the wire.
    pub open spec fn wire_code(self) -> u32 {
        match self {
            RequestID::PrintJob => 0x00000001,
            RequestID::GetPrinterAttributes => 0x00000002,
        }
    }

    /// The request-id on the wire.
    pub fn code(&self) -> (r: u32)
        ensures
            r == self.wire_code(),
    {
        match self {
            RequestID::PrintJob => 0x00000001,
            RequestID::GetPrinterAttributes => 0x00000002,
        }
    }
}
} // verus!
