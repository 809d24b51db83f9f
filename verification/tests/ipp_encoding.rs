use baz_printing::ipp::status::ResponseStatusCode;
use baz_printing::ipp::tags::{AttributeGroupTags, ModelDocumentGroupAttributeTag, ValueTags};
use baz_printing::ipp::utils::{
    pack_attribute_with_one_value, pack_u16_to_u32, pack_u8_to_u16, IPPOperationRequestBase,
    OperationID, RequestID, IPP_CONTENT_TYPE, SUPPORTED_VERSION,
};

#[test]
fn pack_u8_to_u16_joins_high_then_low() {
    assert_eq!(pack_u8_to_u16(0x01, 0x02), 0x0102);
    assert_eq!(pack_u8_to_u16(0xff, 0x00), 0xff00);
    assert_eq!(pack_u8_to_u16(0, 0), 0);
    assert_eq!(pack_u8_to_u16(0xff, 0xff), u16::MAX);
}

#[test]
fn pack_u16_to_u32_joins_high_then_low() {
    assert_eq!(pack_u16_to_u32(0x0001, 0x0002), 0x0001_0002);
    assert_eq!(pack_u16_to_u32(0xdead, 0xbeef), 0xdead_beef);
    assert_eq!(pack_u16_to_u32(0xffff, 0xffff), u32::MAX);
}

#[test]
fn big_endian_bytes_read_back() {
    for x in [0u16, 1, 0x0101, 0x1234, 0xffff] {
        let b = x.to_be_bytes();
        assert_eq!(pack_u8_to_u16(b[0], b[1]), x);
    }
    for x in [0u32, 1, 0x0102_0304, u32::MAX] {
        let b = x.to_be_bytes();
        assert_eq!(pack_u16_to_u32(pack_u8_to_u16(b[0], b[1]), pack_u8_to_u16(b[2], b[3])), x);
    }
}

#[test]
fn print_job_header_is_version_operation_request_id() {
    let req = IPPOperationRequestBase::print_job();
    assert_eq!(req.version, SUPPORTED_VERSION);
    assert_eq!(req.version, 0x0101);
    assert_eq!(req.operation_id, OperationID::PrintJob.code());
    assert_eq!(req.request_id, RequestID::PrintJob.code());
    assert_eq!(req.encode(), vec![0x01, 0x01, 0x00, 0x02, 0x00, 0x00, 0x00, 0x01]);
    let other = IPPOperationRequestBase { version: 0x0200, operation_id: 0x000b, request_id: 0x0102_0304 };
    let b = other.encode();
    assert_eq!(b, vec![0x02, 0x00, 0x00, 0x0b, 0x01, 0x02, 0x03, 0x04]);
    assert_eq!(pack_u8_to_u16(b[0], b[1]), other.version);
    assert_eq!(pack_u8_to_u16(b[2], b[3]), other.operation_id);
    assert_eq!(pack_u16_to_u32(pack_u8_to_u16(b[4], b[5]), pack_u8_to_u16(b[6], b[7])), other.request_id);
    assert_eq!(IPP_CONTENT_TYPE, "application/ipp");
}

#[test]
fn operation_and_request_ids() {
    assert_eq!(OperationID::PrintJob.code(), 0x0002);
    assert_eq!(OperationID::GetJobs.code(), 0x000a);
    assert_eq!(OperationID::GetPrinterAttributes.code(), 0x000b);
    assert_eq!(OperationID::PausePrinter.code(), 0x0010);
    assert_eq!(OperationID::PurgeJobs.code(), 0x0012);
    assert_eq!(RequestID::GetPrinterAttributes.code(), 2);
}

#[test]
fn attribute_with_one_value_layout() {
    let b = pack_attribute_with_one_value(ValueTags::Keyword, "sides", "one-sided");
    assert_eq!(b, [&[0x44u8, 0x00, 0x05][..], b"sides", &[0x00, 0x09], b"one-sided"].concat());
    assert_eq!(pack_u8_to_u16(b[1], b[2]), 5);
    assert_eq!(pack_u8_to_u16(b[8], b[9]), 9);
    let b = pack_attribute_with_one_value(ValueTags::Charset, "attributes-charset", "utf-8");
    assert_eq!(b[0], 0x47);
    assert_eq!(b.len(), 1 + 2 + 18 + 2 + 5);
    let b = pack_attribute_with_one_value(ValueTags::NoValue, "", "");
    assert_eq!(b, vec![0x13, 0, 0, 0, 0]);
}

#[test]
fn attribute_lengths_are_utf8_bytes_up_to_the_field_limit() {
    let b = pack_attribute_with_one_value(ValueTags::TextWithoutLanguage, "n", "é");
    assert_eq!(b, vec![0x41, 0, 1, b'n', 0, 2, 0xc3, 0xa9]);
    let long = "a".repeat(65535);
    let b = pack_attribute_with_one_value(ValueTags::TextWithoutLanguage, &long, "v");
    assert_eq!(pack_u8_to_u16(b[1], b[2]), 65535);
    assert_eq!(b.len(), 1 + 2 + 65535 + 2 + 1);
    assert_eq!(pack_u8_to_u16(b[65538], b[65539]), 1);
}

#[test]
fn group_tags_decode_and_name() {
    for (b, t, n) in [
        (1u8, AttributeGroupTags::OperationAttributesTag, "operation-attributes-tag"),
        (2, AttributeGroupTags::JobAttributesTag, "job-attributes-tag"),
        (3, AttributeGroupTags::EndOfAttributesTag, "end-of-attributes-tag"),
        (4, AttributeGroupTags::PrinterAttributesTag, "printer-attributes-tag"),
        (5, AttributeGroupTags::UnsupportedAttributesTag, "unsupported-attributes-tag"),
        (6, AttributeGroupTags::FutureGroupTags, "future-group-tag"),
    ] {
        assert_eq!(AttributeGroupTags::try_from(b), Ok(t));
        assert_eq!(t.code(), b);
        assert_eq!(t.name(), n);
    }
    assert_eq!(AttributeGroupTags::try_from(0), Err("Unsupported tag."));
    assert_eq!(AttributeGroupTags::try_from(7), Err("Unsupported tag."));
    assert_eq!(AttributeGroupTags::try_from(0xff), Err("Unsupported tag."));
}

#[test]
fn model_group_names() {
    assert_eq!(ModelDocumentGroupAttributeTag::OperationAttributes.name(), "operations-attributes-tag");
    assert_eq!(ModelDocumentGroupAttributeTag::JobTemplateAttributes.name(), "job-attributes-tag");
    assert_eq!(ModelDocumentGroupAttributeTag::JobObjectAttributes.name(), "job-attributes-tag");
    assert_eq!(ModelDocumentGroupAttributeTag::UnsupportedAttributes.name(), "unsupported-attributes-tag");
}

#[test]
fn value_tags_decode() {
    assert_eq!(ValueTags::try_from(0x10), Ok(ValueTags::Unsupported));
    assert_eq!(ValueTags::try_from(0x11), Err("Unsupported value tag."));
    assert_eq!(ValueTags::try_from(0x13), Ok(ValueTags::NoValue));
    assert_eq!(ValueTags::try_from(0x21), Ok(ValueTags::Integer));
    assert_eq!(ValueTags::try_from(0x24), Ok(ValueTags::MoreUnassignedInteger));
    assert_eq!(ValueTags::try_from(0x2f), Ok(ValueTags::MoreUnassignedInteger));
    assert_eq!(ValueTags::try_from(0x34), Ok(ValueTags::BeginCollection));
    assert_eq!(ValueTags::try_from(0x3a), Ok(ValueTags::UnassignedOctetString));
    assert_eq!(ValueTags::try_from(0x44), Ok(ValueTags::Keyword));
    assert_eq!(ValueTags::try_from(0x45), Ok(ValueTags::URI));
    assert_eq!(ValueTags::try_from(0x4f), Ok(ValueTags::MoreUnassignedCharacterString));
    assert_eq!(ValueTags::try_from(0x50), Err("Unsupported value tag."));
    assert_eq!(ValueTags::try_from(0x00), Err("Unsupported value tag."));
    assert_eq!(ValueTags::try_from(0x0f), Err("Unsupported value tag."));
}

#[test]
fn value_tags_round_trip_except_range_ends() {
    let mut accepted = 0;
    for b in 0u8..=255 {
        if let Ok(t) = ValueTags::try_from(b) {
            accepted += 1;
            assert!(t.code() <= b);
            assert_eq!(ValueTags::try_from(t.code()), Ok(t));
        }
    }
    assert_eq!(accepted, 3 + (0x4f - 0x20 + 1));
    assert_eq!(ValueTags::MoreUnassignedIntegerLimit.code(), 0x2f);
    assert_eq!(ValueTags::try_from(ValueTags::UnassignedOctetStringLimit.code()), Ok(ValueTags::UnassignedOctetString));
    assert_eq!(ValueTags::MoreUnassignedCharacterStringLimit.code(), 0x4f);
}

#[test]
fn value_tag_names() {
    assert_eq!(ValueTags::NoValue.name(), "no-value");
    assert_eq!(ValueTags::OctetWithUnspecifiedFormat.name(), "octetString");
    assert_eq!(ValueTags::Datetime.name(), "dateTime");
    assert_eq!(ValueTags::BeginCollection.name(), "begCollection");
    assert_eq!(ValueTags::UnassignedOctetStringLimit.name(), "unassigned-octetString");
    assert_eq!(ValueTags::UnassignedCharacterString2.name(), "unassigned-character-string");
    assert_eq!(ValueTags::URIScheme.name(), "uriScheme");
    assert_eq!(ValueTags::MemberAttrName.name(), "memberAttrName");
}

#[test]
fn status_codes_decode_and_name() {
    assert_eq!(ResponseStatusCode::try_from(0x0000), Ok(ResponseStatusCode::SuccessfulOk));
    assert_eq!(ResponseStatusCode::try_from(0x0400), Ok(ResponseStatusCode::ClientErrorBadRequest));
    assert_eq!(ResponseStatusCode::try_from(0x0412), Ok(ResponseStatusCode::ClientErrorDocumentAccessError));
    assert_eq!(ResponseStatusCode::try_from(0x0509), Ok(ResponseStatusCode::ServerErrorMultipleDocumentJobsNotSupported));
    assert_eq!(ResponseStatusCode::try_from(0x0003), Err(0x0003));
    assert_eq!(ResponseStatusCode::try_from(0x0413), Err(0x0413));
    assert_eq!(ResponseStatusCode::try_from(0x0600), Err(0x0600));
    assert_eq!(ResponseStatusCode::SuccessfulOk.name(), "successful-ok");
    assert_eq!(ResponseStatusCode::SuccessfulOkIgnoredOrSubstituted.name(), "successful-ok-ignored-or-substituted-attributes");
    assert_eq!(ResponseStatusCode::ServerErrorBusy.name(), "server-error-busy");
    assert_eq!(ResponseStatusCode::ServerErrorBusy.code(), 0x0507);
    let mut accepted = 0;
    for v in 0u16..=0x0fff {
        if let Ok(s) = ResponseStatusCode::try_from(v) {
            accepted += 1;
            assert_eq!(s.code(), v);
        }
    }
    assert_eq!(accepted, 32);
}
