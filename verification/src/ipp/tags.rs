//! The tags of the IPP encoding (RFC 8010, section 3.5): delimiter tags that
//! open attribute groups, and value tags that give an attribute's syntax.
use vstd::prelude::*;

verus! {

/// The delimiter tags that open an attribute group or end the attributes.
#[derive(Debug, Clone, Copy, PartialEq, Eq, Structural)]
pub enum AttributeGroupTags {
    /// Operation attributes.
    OperationAttributesTag,
    /// Job attributes.
    JobAttributesTag,
    /// The end of the attributes: occurs exactly once in an operation, after the last group.
    EndOfAttributesTag,
    /// Printer attributes.
    PrinterAttributesTag,
    /// Unsupported attributes.
    UnsupportedAttributesTag,
    /// A group tag reserved for future use.
    FutureGroupTags,
}

impl AttributeGroupTags {
    /// The tag byte on the wire.
    pub open spec fn wire_code(self) -> u8 {
        match self {
            AttributeGroupTags::OperationAttributesTag => 0x01,
            AttributeGroupTags::JobAttributesTag => 0x02,
            AttributeGroupTags::EndOfAttributesTag => 0x03,
            AttributeGroupTags::PrinterAttributesTag => 0x04,
            AttributeGroupTags::UnsupportedAttributesTag => 0x05,
            AttributeGroupTags::FutureGroupTags => 0x06,
        }
    }

    /// The tag byte on the wire.
    pub fn code(&self) -> (r: u8)
        ensures
            r == self.wire_code(),
    {
        match self {
            AttributeGroupTags::OperationAttributesTag => 0x01,
            AttributeGroupTags::JobAttributesTag => 0x02,
            AttributeGroupTags::EndOfAttributesTag => 0x03,
            AttributeGroupTags::PrinterAttributesTag => 0x04,
            AttributeGroupTags::UnsupportedAttributesTag => 0x05,
            AttributeGroupTags::FutureGroupTags => 0x06,
        }
    }

    /// The group tag that a byte on the wire denotes, if any.
    pub open spec fn group_tag_of(value: u8) -> Option<AttributeGroupTags> {
        if value == 0x01 {
            Some(AttributeGroupTags::OperationAttributesTag)
        } else if value == 0x02 {
            Some(AttributeGroupTags::JobAttributesTag)
        } else if value == 0x03 {
            Some(AttributeGroupTags::EndOfAttributesTag)
        } else if value == 0x04 {
            Some(AttributeGroupTags::PrinterAttributesTag)
        } else if value == 0x05 {
            Some(AttributeGroupTags::UnsupportedAttributesTag)
        } else if value == 0x06 {
            Some(AttributeGroupTags::FutureGroupTags)
        } else {
            None
        }
    }

    /// Decodes a value from the wire; any other byte is refused.
    pub fn try_from(value: u8) -> (r: Result<AttributeGroupTags, &'static str>)
        ensures
            r is Ok <==> Self::group_tag_of(value) is Some,
            r matches Ok(t) ==> Self::group_tag_of(value) == Some(t),
            r matches Err(m) ==> m@ == "Unsupported tag."@,
    {
        match value {
            0x01 => Ok(AttributeGroupTags::OperationAttributesTag),
            0x02 => Ok(AttributeGroupTags::JobAttributesTag),
            0x03 => Ok(AttributeGroupTags::EndOfAttributesTag),
            0x04 => Ok(AttributeGroupTags::PrinterAttributesTag),
            0x05 => Ok(AttributeGroupTags::UnsupportedAttributesTag),
            0x06 => Ok(AttributeGroupTags::FutureGroupTags),
            _ => Err("Unsupported tag."),
        }
    }

    /// The tag's name.
    pub open spec fn display_name(self) -> Seq<char> {
        match self {
            AttributeGroupTags::OperationAttributesTag => "operation-attributes-tag"@,
            AttributeGroupTags::JobAttributesTag => "job-attributes-tag"@,
            AttributeGroupTags::EndOfAttributesTag => "end-of-attributes-tag"@,
            AttributeGroupTags::PrinterAttributesTag => "printer-attributes-tag"@,
            AttributeGroupTags::UnsupportedAttributesTag => "unsupported-attributes-tag"@,
            AttributeGroupTags::FutureGroupTags => "future-group-tag"@,
        }
    }

    /// The tag's name.
    pub fn name(&self) -> (r: &'static str)
        ensures
            r@ == self.display_name(),
    {
        match self {
            AttributeGroupTags::OperationAttributesTag => "operation-attributes-tag",
            AttributeGroupTags::JobAttributesTag => "job-attributes-tag",
            AttributeGroupTags::EndOfAttributesTag => "end-of-attributes-tag",
            AttributeGroupTags::PrinterAttributesTag => "printer-attributes-tag",
            AttributeGroupTags::UnsupportedAttributesTag => "unsupported-attributes-tag",
            AttributeGroupTags::FutureGroupTags => "future-group-tag",
        }
    }
}

/// The attribute groups of the IPP document model.
#[derive(Debug, Clone, Copy, PartialEq, Eq, Structural)]
pub enum ModelDocumentGroupAttributeTag {
    /// Operation attributes.
    OperationAttributes,
    /// Job template attributes.
    JobTemplateAttributes,
    /// Job object attributes.
    JobObjectAttributes,
    /// Unsupported attributes.
    UnsupportedAttributes,
}

impl ModelDocumentGroupAttributeTag {
    /// The name of the group's delimiter tag.
    pub open spec fn display_name(self) -> Seq<char> {
        match self {
            ModelDocumentGroupAttributeTag::OperationAttributes => "operations-attributes-tag"@,
            ModelDocumentGroupAttributeTag::JobTemplateAttributes => "job-attributes-tag"@,
            ModelDocumentGroupAttributeTag::JobObjectAttributes => "job-attributes-tag"@,
            ModelDocumentGroupAttributeTag::UnsupportedAttributes => "unsupported-attributes-tag"@,
        }
    }

    /// The name of the group's delimiter tag.
    pub fn name(&self) -> (r: &'static str)
        ensures
            r@ == self.display_name(),
    {
        match self {
            ModelDocumentGroupAttributeTag::OperationAttributes => "operations-attributes-tag",
            ModelDocumentGroupAttributeTag::JobTemplateAttributes => "job-attributes-tag",
            ModelDocumentGroupAttributeTag::JobObjectAttributes => "job-attributes-tag",
            ModelDocumentGroupAttributeTag::UnsupportedAttributes => "unsupported-attributes-tag",
        }
    }
}

/// The value tags: the syntax of an attribute's value.
#[derive(Debug, Clone, Copy, PartialEq, Eq, Structural)]
pub enum ValueTags {
    /// Out of band: the attribute is not supported.
    Unsupported,
    /// Out of band: the value is unknown.
    Unknown,
    /// Out of band: no value.
    NoValue,
    /// Integer type, unassigned.
    UnassignedInteger,
    /// A signed 32-bit integer.
    Integer,
    /// A boolean.
    Boolean,
    /// An enumerated value.
    Enum,
    /// Integer types 0x24 to 0x2f, unassigned.
    MoreUnassignedInteger,
    /// The last unassigned integer type, 0x2f.
    MoreUnassignedIntegerLimit,
    /// An octet string of unspecified format.
    OctetWithUnspecifiedFormat,
    /// A date and time.
    Datetime,
    /// A resolution.
    Resolution,
    /// A range of integers.
    RangeOfInteger,
    /// The start of a collection.
    BeginCollection,
    /// Text with a natural language.
    TextWithLanguage,
    /// A name with a natural language.
    NameWithLanguage,
    /// The end of a collection.
    EndCollection,
    /// Octet string types 0x38 to 0x3f, unassigned.
    UnassignedOctetString,
    /// The last unassigned octet string type, 0x3f.
    UnassignedOctetStringLimit,
    /// Character string type, unassigned.
    UnassignedCharacterString,
    /// Text.
    TextWithoutLanguage,
    /// A name.
    NameWithoutLanguage,
    /// Character string type 0x43, unassigned.
    UnassignedCharacterString2,
    /// A keyword.
    Keyword,
    /// A URI.
    URI,
    /// A URI scheme.
    URIScheme,
    /// A charset.
    Charset,
    /// A natural language.
    NaturalLanguage,
    /// A MIME media type.
    MimeMediaType,
    /// The name of a collection member.
    MemberAttrName,
    /// Character string types 0x4b to 0x4f, unassigned.
    MoreUnassignedCharacterString,
    /// The last unassigned character string type, 0x4f.
    MoreUnassignedCharacterStringLimit,
}

impl ValueTags {
    /// The tag byte on the wire.
    pub open spec fn wire_code(self) -> u8 {
        match self {
            ValueTags::Unsupported => 0x10,
            ValueTags::Unknown => 0x12,
            ValueTags::NoValue => 0x13,
            ValueTags::UnassignedInteger => 0x20,
            ValueTags::Integer => 0x21,
            ValueTags::Boolean => 0x22,
            ValueTags::Enum => 0x23,
            ValueTags::MoreUnassignedInteger => 0x24,
            ValueTags::MoreUnassignedIntegerLimit => 0x2f,
            ValueTags::OctetWithUnspecifiedFormat => 0x30,
            ValueTags::Datetime => 0x31,
            ValueTags::Resolution => 0x32,
            ValueTags::RangeOfInteger => 0x33,
            ValueTags::BeginCollection => 0x34,
            ValueTags::TextWithLanguage => 0x35,
            ValueTags::NameWithLanguage => 0x36,
            ValueTags::EndCollection => 0x37,
            ValueTags::UnassignedOctetString => 0x38,
            ValueTags::UnassignedOctetStringLimit => 0x3f,
            ValueTags::UnassignedCharacterString => 0x40,
            ValueTags::TextWithoutLanguage => 0x41,
            ValueTags::NameWithoutLanguage => 0x42,
            ValueTags::UnassignedCharacterString2 => 0x43,
            ValueTags::Keyword => 0x44,
            ValueTags::URI => 0x45,
            ValueTags::URIScheme => 0x46,
            ValueTags::Charset => 0x47,
            ValueTags::NaturalLanguage => 0x48,
            ValueTags::MimeMediaType => 0x49,
            ValueTags::MemberAttrName => 0x4a,
            ValueTags::MoreUnassignedCharacterString => 0x4b,
            ValueTags::MoreUnassignedCharacterStringLimit => 0x4f,
        }
    }

    /// The tag byte on the wire.
    pub fn code(&self) -> (r: u8)
        ensures
            r == self.wire_code(),
    {
        match self {
            ValueTags::Unsupported => 0x10,
            ValueTags::Unknown => 0x12,
            ValueTags::NoValue => 0x13,
            ValueTags::UnassignedInteger => 0x20,
            ValueTags::Integer => 0x21,
            ValueTags::Boolean => 0x22,
            ValueTags::Enum => 0x23,
            ValueTags::MoreUnassignedInteger => 0x24,
            ValueTags::MoreUnassignedIntegerLimit => 0x2f,
            ValueTags::OctetWithUnspecifiedFormat => 0x30,
            ValueTags::Datetime => 0x31,
            ValueTags::Resolution => 0x32,
            ValueTags::RangeOfInteger => 0x33,
            ValueTags::BeginCollection => 0x34,
            ValueTags::TextWithLanguage => 0x35,
            ValueTags::NameWithLanguage => 0x36,
            ValueTags::EndCollection => 0x37,
            ValueTags::UnassignedOctetString => 0x38,
            ValueTags::UnassignedOctetStringLimit => 0x3f,
            ValueTags::UnassignedCharacterString => 0x40,
            ValueTags::TextWithoutLanguage => 0x41,
            ValueTags::NameWithoutLanguage => 0x42,
            ValueTags::UnassignedCharacterString2 => 0x43,
            ValueTags::Keyword => 0x44,
            ValueTags::URI => 0x45,
            ValueTags::URIScheme => 0x46,
            ValueTags::Charset => 0x47,
            ValueTags::NaturalLanguage => 0x48,
            ValueTags::MimeMediaType => 0x49,
            ValueTags::MemberAttrName => 0x4a,
            ValueTags::MoreUnassignedCharacterString => 0x4b,
            ValueTags::MoreUnassignedCharacterStringLimit => 0x4f,
        }
    }

    /// The value tag that a byte on the wire denotes, if any.
    pub open spec fn value_tag_of(value: u8) -> Option<ValueTags> {
        if value == 0x10 {
            Some(ValueTags::Unsupported)
        } else if value == 0x12 {
            Some(ValueTags::Unknown)
        } else if value == 0x13 {
            Some(ValueTags::NoValue)
        } else if value == 0x20 {
            Some(ValueTags::UnassignedInteger)
        } else if value == 0x21 {
            Some(ValueTags::Integer)
        } else if value == 0x22 {
            Some(ValueTags::Boolean)
        } else if value == 0x23 {
            Some(ValueTags::Enum)
        } else if 0x24 <= value <= 0x2f {
            Some(ValueTags::MoreUnassignedInteger)
        } else if value == 0x30 {
            Some(ValueTags::OctetWithUnspecifiedFormat)
        } else if value == 0x31 {
            Some(ValueTags::Datetime)
        } else if value == 0x32 {
            Some(ValueTags::Resolution)
        } else if value == 0x33 {
            Some(ValueTags::RangeOfInteger)
        } else if value == 0x34 {
            Some(ValueTags::BeginCollection)
        } else if value == 0x35 {
            Some(ValueTags::TextWithLanguage)
        } else if value == 0x36 {
            Some(ValueTags::NameWithLanguage)
        } else if value == 0x37 {
            Some(ValueTags::EndCollection)
        } else if 0x38 <= value <= 0x3f {
            Some(ValueTags::UnassignedOctetString)
        } else if value == 0x40 {
            Some(ValueTags::UnassignedCharacterString)
        } else if value == 0x41 {
            Some(ValueTags::TextWithoutLanguage)
        } else if value == 0x42 {
            Some(ValueTags::NameWithoutLanguage)
        } else if value == 0x43 {
            Some(ValueTags::UnassignedCharacterString2)
        } else if value == 0x44 {
            Some(ValueTags::Keyword)
        } else if value == 0x45 {
            Some(ValueTags::URI)
        } else if value == 0x46 {
            Some(ValueTags::URIScheme)
        } else if value == 0x47 {
            Some(ValueTags::Charset)
        } else if value == 0x48 {
            Some(ValueTags::NaturalLanguage)
        } else if value == 0x49 {
            Some(ValueTags::MimeMediaType)
        } else if value == 0x4a {
            Some(ValueTags::MemberAttrName)
        } else if 0x4b <= value <= 0x4f {
            Some(ValueTags::MoreUnassignedCharacterString)
        } else {
            None
        }
    }

    /// Decodes a value from the wire; a byte of an unassigned range decodes to the range's first tag, and a byte outside the table is refused.
    pub fn try_from(value: u8) -> (r: Result<ValueTags, &'static str>)
        ensures
            r is Ok <==> Self::value_tag_of(value) is Some,
            r matches Ok(t) ==> Self::value_tag_of(value) == Some(t),
            r matches Err(m) ==> m@ == "Unsupported value tag."@,
    {
        match value {
            0x10 => Ok(ValueTags::Unsupported),
            0x12 => Ok(ValueTags::Unknown),
            0x13 => Ok(ValueTags::NoValue),
            0x20 => Ok(ValueTags::UnassignedInteger),
            0x21 => Ok(ValueTags::Integer),
            0x22 => Ok(ValueTags::Boolean),
            0x23 => Ok(ValueTags::Enum),
            0x24..=0x2f => Ok(ValueTags::MoreUnassignedInteger),
            0x30 => Ok(ValueTags::OctetWithUnspecifiedFormat),
            0x31 => Ok(ValueTags::Datetime),
            0x32 => Ok(ValueTags::Resolution),
            0x33 => Ok(ValueTags::RangeOfInteger),
            0x34 => Ok(ValueTags::BeginCollection),
            0x35 => Ok(ValueTags::TextWithLanguage),
            0x36 => Ok(ValueTags::NameWithLanguage),
            0x37 => Ok(ValueTags::EndCollection),
            0x38..=0x3f => Ok(ValueTags::UnassignedOctetString),
            0x40 => Ok(ValueTags::UnassignedCharacterString),
            0x41 => Ok(ValueTags::TextWithoutLanguage),
            0x42 => Ok(ValueTags::NameWithoutLanguage),
            0x43 => Ok(ValueTags::UnassignedCharacterString2),
            0x44 => Ok(ValueTags::Keyword),
            0x45 => Ok(ValueTags::URI),
            0x46 => Ok(ValueTags::URIScheme),
            0x47 => Ok(ValueTags::Charset),
            0x48 => Ok(ValueTags::NaturalLanguage),
            0x49 => Ok(ValueTags::MimeMediaType),
            0x4a => Ok(ValueTags::MemberAttrName),
            0x4b..=0x4f => Ok(ValueTags::MoreUnassignedCharacterString),
            _ => Err("Unsupported value tag."),
        }
    }

    /// The name of the tag's syntax.
    pub open spec fn display_name(self) -> Seq<char> {
        match self {
            ValueTags::Unsupported => "unsupported"@,
            ValueTags::Unknown => "unknown"@,
            ValueTags::NoValue => "no-value"@,
            ValueTags::UnassignedInteger => "unassigned-integer"@,
            ValueTags::Integer => "integer"@,
            ValueTags::Boolean => "boolean"@,
            ValueTags::Enum => "enum"@,
            ValueTags::MoreUnassignedInteger => "unassigned-integer"@,
            ValueTags::MoreUnassignedIntegerLimit => "unassigned-integer"@,
            ValueTags::OctetWithUnspecifiedFormat => "octetString"@,
            ValueTags::Datetime => "dateTime"@,
            ValueTags::Resolution => "resolution"@,
            ValueTags::RangeOfInteger => "rangeOfInteger"@,
            ValueTags::BeginCollection => "begCollection"@,
            ValueTags::TextWithLanguage => "textWithLanguage"@,
            ValueTags::NameWithLanguage => "nameWithLanguage"@,
            ValueTags::EndCollection => "endCollection"@,
            ValueTags::UnassignedOctetString => "unassigned-octetString"@,
            ValueTags::UnassignedOctetStringLimit => "unassigned-octetString"@,
            ValueTags::UnassignedCharacterString => "unassigned-character-string"@,
            ValueTags::TextWithoutLanguage => "textWithoutLanguage"@,
            ValueTags::NameWithoutLanguage => "nameWithoutLanguage"@,
            ValueTags::UnassignedCharacterString2 => "unassigned-character-string"@,
            ValueTags::Keyword => "keyword"@,
            ValueTags::URI => "uri"@,
            ValueTags::URIScheme => "uriScheme"@,
            ValueTags::Charset => "charset"@,
            ValueTags::NaturalLanguage => "naturalLanguage"@,
            ValueTags::MimeMediaType => "mimeMediaType"@,
            ValueTags::MemberAttrName => "memberAttrName"@,
            ValueTags::MoreUnassignedCharacterString => "unassigned-character-string"@,
            ValueTags::MoreUnassignedCharacterStringLimit => "unassigned-character-string"@,
        }
    }

    /// The name of the tag's syntax.
    pub fn name(&self) -> (r: &'static str)
        ensures
            r@ == self.display_name(),
    {
        match self {
            ValueTags::Unsupported => "unsupported",
            ValueTags::Unknown => "unknown",
            ValueTags::NoValue => "no-value",
            ValueTags::UnassignedInteger => "unassigned-integer",
            ValueTags::Integer => "integer",
            ValueTags::Boolean => "boolean",
            ValueTags::Enum => "enum",
            ValueTags::MoreUnassignedInteger => "unassigned-integer",
            ValueTags::MoreUnassignedIntegerLimit => "unassigned-integer",
            ValueTags::OctetWithUnspecifiedFormat => "octetString",
            ValueTags::Datetime => "dateTime",
            ValueTags::Resolution => "resolution",
            ValueTags::RangeOfInteger => "rangeOfInteger",
            ValueTags::BeginCollection => "begCollection",
            ValueTags::TextWithLanguage => "textWithLanguage",
            ValueTags::NameWithLanguage => "nameWithLanguage",
            ValueTags::EndCollection => "endCollection",
            ValueTags::UnassignedOctetString => "unassigned-octetString",
            ValueTags::UnassignedOctetStringLimit => "unassigned-octetString",
            ValueTags::UnassignedCharacterString => "unassigned-character-string",
            ValueTags::TextWithoutLanguage => "textWithoutLanguage",
            ValueTags::NameWithoutLanguage => "nameWithoutLanguage",
            ValueTags::UnassignedCharacterString2 => "unassigned-character-string",
            ValueTags::Keyword => "keyword",
            ValueTags::URI => "uri",
            ValueTags::URIScheme => "uriScheme",
            ValueTags::Charset => "charset",
            ValueTags::NaturalLanguage => "naturalLanguage",
            ValueTags::MimeMediaType => "mimeMediaType",
            ValueTags::MemberAttrName => "memberAttrName",
            ValueTags::MoreUnassignedCharacterString => "unassigned-character-string",
            ValueTags::MoreUnassignedCharacterStringLimit => "unassigned-character-string",
        }
    }
}

/// Decoding the byte of an attribute group tag gives the tag back.
pub proof fn law_group_tag_round_trip(t: AttributeGroupTags)
    ensures
        AttributeGroupTags::group_tag_of(t.wire_code()) == Some(t),
{
}

/// A decoded attribute group tag is encoded as the byte it was decoded from;
/// exactly the bytes 0x01 to 0x06 are group tags.
pub proof fn law_group_tag_decode_encode(value: u8)
    ensures
        AttributeGroupTags::group_tag_of(value) is Some <==> 1 <= value <= 6,
        AttributeGroupTags::group_tag_of(value) matches Some(t) ==> t.wire_code() == value,
{
}

/// Decoding the byte of a value tag gives the tag back, except for the three
/// tags that mark the last byte of an unassigned range, which decode to the
/// range's first tag.
pub proof fn law_value_tag_round_trip(t: ValueTags)
    ensures
        !(t is MoreUnassignedIntegerLimit || t is UnassignedOctetStringLimit
            || t is MoreUnassignedCharacterStringLimit) ==> ValueTags::value_tag_of(t.wire_code())
            == Some(t),
        t is MoreUnassignedIntegerLimit ==> ValueTags::value_tag_of(t.wire_code()) == Some(
            ValueTags::MoreUnassignedInteger,
        ),
        t is UnassignedOctetStringLimit ==> ValueTags::value_tag_of(t.wire_code()) == Some(
            ValueTags::UnassignedOctetString,
        ),
        t is MoreUnassignedCharacterStringLimit ==> ValueTags::value_tag_of(t.wire_code()) == Some(
            ValueTags::MoreUnassignedCharacterString,
        ),
{
}

/// Decoding is stable: a decoded tag, encoded and decoded again, is the same
/// tag, and it is encoded at or below the byte it was decoded from, with the
/// same name.
pub proof fn law_value_tag_decode_is_stable(value: u8)
    ensures
        ValueTags::value_tag_of(value) matches Some(t) ==> (ValueTags::value_tag_of(t.wire_code())
            == Some(t) && t.wire_code() <= value),
        ValueTags::value_tag_of(value) is Some <==> (value == 0x10 || value == 0x12 || value
            == 0x13 || 0x20 <= value <= 0x4f),
{
}

/// The length of each group tag's name.
spec fn group_tag_name_len(t: AttributeGroupTags) -> nat {
    match t {
        AttributeGroupTags::OperationAttributesTag => 24,
        AttributeGroupTags::JobAttributesTag => 18,
        AttributeGroupTags::EndOfAttributesTag => 21,
        AttributeGroupTags::PrinterAttributesTag => 22,
        AttributeGroupTags::UnsupportedAttributesTag => 26,
        AttributeGroupTags::FutureGroupTags => 16,
    }
}

proof fn lemma_group_tag_name(t: AttributeGroupTags)
    ensures
        t.display_name().len() == group_tag_name_len(t),
        t.display_name().len() >= 4,
        t.display_name().subrange(t.display_name().len() - 4, t.display_name().len() as int)
            == "-tag"@,
{
    reveal_strlit("operation-attributes-tag");
    reveal_strlit("job-attributes-tag");
    reveal_strlit("end-of-attributes-tag");
    reveal_strlit("printer-attributes-tag");
    reveal_strlit("unsupported-attributes-tag");
    reveal_strlit("future-group-tag");
    reveal_strlit("-tag");
    let n = t.display_name();
    assert(n.subrange(n.len() - 4, n.len() as int) =~= "-tag"@);
}

/// Distinct group tags have distinct names, and every name ends in `-tag`.
pub proof fn law_group_tag_names(t1: AttributeGroupTags, t2: AttributeGroupTags)
    ensures
        t1.wire_code() != t2.wire_code() ==> t1.display_name() != t2.display_name(),
        t1.display_name().len() >= 4,
        t1.display_name().subrange(t1.display_name().len() - 4, t1.display_name().len() as int)
            == "-tag"@,
{
    lemma_group_tag_name(t1);
    lemma_group_tag_name(t2);
}

/// Whether a name is that of an unassigned value tag.
pub open spec fn is_unassigned_name(n: Seq<char>) -> bool {
    n.len() >= 11 && n.subrange(0, 11) == "unassigned-"@
}

/// A key of an assigned value tag's name: its length and first character.
/// The keys of the assigned names are distinct.
spec fn value_tag_name_key(n: Seq<char>) -> (nat, char) {
    (n.len(), if n.len() > 0 { n[0] } else { ' ' })
}

/// The assigned value tag whose name has the given key.
spec fn value_tag_of_name_key(key: (nat, char)) -> Option<ValueTags> {
    if key == (11nat, 'u') {
        Some(ValueTags::Unsupported)
    } else if key == (7nat, 'u') {
        Some(ValueTags::Unknown)
    } else if key == (8nat, 'n') {
        Some(ValueTags::NoValue)
    } else if key == (7nat, 'i') {
        Some(ValueTags::Integer)
    } else if key == (7nat, 'b') {
        Some(ValueTags::Boolean)
    } else if key == (4nat, 'e') {
        Some(ValueTags::Enum)
    } else if key == (11nat, 'o') {
        Some(ValueTags::OctetWithUnspecifiedFormat)
    } else if key == (8nat, 'd') {
        Some(ValueTags::Datetime)
    } else if key == (10nat, 'r') {
        Some(ValueTags::Resolution)
    } else if key == (14nat, 'r') {
        Some(ValueTags::RangeOfInteger)
    } else if key == (13nat, 'b') {
        Some(ValueTags::BeginCollection)
    } else if key == (16nat, 't') {
        Some(ValueTags::TextWithLanguage)
    } else if key == (16nat, 'n') {
        Some(ValueTags::NameWithLanguage)
    } else if key == (13nat, 'e') {
        Some(ValueTags::EndCollection)
    } else if key == (19nat, 't') {
        Some(ValueTags::TextWithoutLanguage)
    } else if key == (19nat, 'n') {
        Some(ValueTags::NameWithoutLanguage)
    } else if key == (7nat, 'k') {
        Some(ValueTags::Keyword)
    } else if key == (3nat, 'u') {
        Some(ValueTags::URI)
    } else if key == (9nat, 'u') {
        Some(ValueTags::URIScheme)
    } else if key == (7nat, 'c') {
        Some(ValueTags::Charset)
    } else if key == (15nat, 'n') {
        Some(ValueTags::NaturalLanguage)
    } else if key == (13nat, 'm') {
        Some(ValueTags::MimeMediaType)
    } else if key == (14nat, 'm') {
        Some(ValueTags::MemberAttrName)
    } else {
        None
    }
}

proof fn lemma_value_tag_name_key(t: ValueTags)
    ensures
        is_unassigned_name(t.display_name()) || value_tag_of_name_key(
            value_tag_name_key(t.display_name()),
        ) == Some(t),
{
    reveal_strlit("begCollection");
    reveal_strlit("boolean");
    reveal_strlit("charset");
    reveal_strlit("dateTime");
    reveal_strlit("endCollection");
    reveal_strlit("enum");
    reveal_strlit("integer");
    reveal_strlit("keyword");
    reveal_strlit("memberAttrName");
    reveal_strlit("mimeMediaType");
    reveal_strlit("nameWithLanguage");
    reveal_strlit("nameWithoutLanguage");
    reveal_strlit("naturalLanguage");
    reveal_strlit("no-value");
    reveal_strlit("octetString");
    reveal_strlit("rangeOfInteger");
    reveal_strlit("resolution");
    reveal_strlit("textWithLanguage");
    reveal_strlit("textWithoutLanguage");
    reveal_strlit("unassigned-character-string");
    reveal_strlit("unassigned-integer");
    reveal_strlit("unassigned-octetString");
    reveal_strlit("unknown");
    reveal_strlit("unsupported");
    reveal_strlit("uri");
    reveal_strlit("uriScheme");
    reveal_strlit("unassigned-");
    let n = t.display_name();
    if n.len() >= 11 && n[0] == 'u' && n[1] == 'n' && n[2] == 'a' {
        assert(n.subrange(0, 11) =~= "unassigned-"@);
    }
}

/// Only the unassigned value tags share a name: two tags with distinct codes
/// and the same name are both named `unassigned-...`.
pub proof fn law_value_tag_names(t1: ValueTags, t2: ValueTags)
    ensures
        t1.wire_code() != t2.wire_code() && t1.display_name() == t2.display_name()
            ==> is_unassigned_name(t1.display_name()),
{
    lemma_value_tag_name_key(t1);
    lemma_value_tag_name_key(t2);
}

/// The registered syntax name of each value-tag byte (RFC 8010, section
/// 3.5.2); the unassigned ranges carry the name of their class.
pub open spec fn registered_value_tag_name(code: u8) -> Option<Seq<char>> {
    if code == 0x10 {
        Some("unsupported"@)
    } else if code == 0x12 {
        Some("unknown"@)
    } else if code == 0x13 {
        Some("no-value"@)
    } else if code == 0x20 {
        Some("unassigned-integer"@)
    } else if code == 0x21 {
        Some("integer"@)
    } else if code == 0x22 {
        Some("boolean"@)
    } else if code == 0x23 {
        Some("enum"@)
    } else if 0x24 <= code <= 0x2f {
        Some("unassigned-integer"@)
    } else if code == 0x30 {
        Some("octetString"@)
    } else if code == 0x31 {
        Some("dateTime"@)
    } else if code == 0x32 {
        Some("resolution"@)
    } else if code == 0x33 {
        Some("rangeOfInteger"@)
    } else if code == 0x34 {
        Some("begCollection"@)
    } else if code == 0x35 {
        Some("textWithLanguage"@)
    } else if code == 0x36 {
        Some("nameWithLanguage"@)
    } else if code == 0x37 {
        Some("endCollection"@)
    } else if 0x38 <= code <= 0x3f {
        Some("unassigned-octetString"@)
    } else if code == 0x40 {
        Some("unassigned-character-string"@)
    } else if code == 0x41 {
        Some("textWithoutLanguage"@)
    } else if code == 0x42 {
        Some("nameWithoutLanguage"@)
    } else if code == 0x43 {
        Some("unassigned-character-string"@)
    } else if code == 0x44 {
        Some("keyword"@)
    } else if code == 0x45 {
        Some("uri"@)
    } else if code == 0x46 {
        Some("uriScheme"@)
    } else if code == 0x47 {
        Some("charset"@)
    } else if code == 0x48 {
        Some("naturalLanguage"@)
    } else if code == 0x49 {
        Some("mimeMediaType"@)
    } else if code == 0x4a {
        Some("memberAttrName"@)
    } else if 0x4b <= code <= 0x4f {
        Some("unassigned-character-string"@)
    } else {
        None
    }
}

/// Each value tag is sent as a byte registered under its name, and a byte
/// decodes to a tag that carries the byte's registered name; the bytes that
/// decode are exactly the registered ones.
pub proof fn law_value_tag_codes_carry_registered_names(t: ValueTags, value: u8)
    ensures
        registered_value_tag_name(t.wire_code()) == Some(t.display_name()),
        ValueTags::value_tag_of(value) matches Some(u) ==> registered_value_tag_name(value) == Some(
            u.display_name(),
        ),
        ValueTags::value_tag_of(value) is Some <==> registered_value_tag_name(value) is Some,
{
}

/// The registered name of each delimiter tag (RFC 8010, section 3.5.1).
pub open spec fn registered_group_tag_name(code: u8) -> Option<Seq<char>> {
    if code == 0x01 {
        Some("operation-attributes-tag"@)
    } else if code == 0x02 {
        Some("job-attributes-tag"@)
    } else if code == 0x03 {
        Some("end-of-attributes-tag"@)
    } else if code == 0x04 {
        Some("printer-attributes-tag"@)
    } else if code == 0x05 {
        Some("unsupported-attributes-tag"@)
    } else if code == 0x06 {
        Some("future-group-tag"@)
    } else {
        None
    }
}

/// Each group tag is sent as the byte registered under its name, and a byte
/// decodes to the tag that carries the byte's registered name; the bytes
/// that decode are exactly the registered ones.
pub proof fn law_group_tag_codes_carry_registered_names(t: AttributeGroupTags, value: u8)
    ensures
        registered_group_tag_name(t.wire_code()) == Some(t.display_name()),
        AttributeGroupTags::group_tag_of(value) matches Some(u) ==> registered_group_tag_name(value)
            == Some(u.display_name()),
        AttributeGroupTags::group_tag_of(value) is Some <==> registered_group_tag_name(value) is Some,
{
}

} // verus!
