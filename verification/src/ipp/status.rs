//! The status codes of IPP responses (RFC 8011, appendix B).
//!
//! Status-code values range from 0x0000 to 0x7fff, divided into classes:
//! successful 0x0000 to 0x00ff, informational 0x0100 to 0x01ff, redirection
//! 0x0300 to 0x03ff, client error 0x0400 to 0x04ff and server error 0x0500 to
//! 0x05ff. The top half of each class's range is reserved for vendors;
//! 0x0600 to 0x7fff are reserved for future standards.
use vstd::prelude::*;

verus! {

/// The status of an IPP response.
#[derive(Debug, Clone, Copy, PartialEq, Eq, Structural)]
pub enum ResponseStatusCode {
    /// The request has succeeded, and no request attributes were substituted or
    /// ignored.
    SuccessfulOk,
    /// The request has succeeded, but some supplied (1) attributes were ignored
    /// or (2) unsupported values were substituted with supported values or were
    /// ignored in order to perform the operation without rejecting it.
    SuccessfulOkIgnoredOrSubstituted,
    /// The request has succeeded, but some supplied attribute values conflicted
    /// with the values of other supplied attributes.  Either (1) these
    /// conflicting values were substituted with (supported) values or (2) the
    /// attributes were removed in order to process the Job without rejecting it.
    SuccessfulOkConflictedAttributes,
    /// The request could not be understood by the IPP object due to malformed
    /// syntax (such as the value of a fixed-length attribute whose length does
    /// not match the prescribed length for that attribute
    ClientErrorBadRequest,
    /// The IPP object understood the request but is refusing to fulfill it.
    /// Additional authentication information or authorization credentials will
    /// not help, and the request SHOULD NOT be repeated.
    ClientErrorForbidden,
    /// The request requires user authentication.  The IPP Client can repeat the
    /// request with suitable authentication information.  If the request already
    /// included authentication information, then this status-code indicates that
    /// authorization has been refused for those credentials.
    ClientErrorNotAuthenticated,
    /// The requester is not authorized to perform the request.  Additional
    /// authentication information or authorization credentials will not help, and
    /// the request SHOULD NOT be repeated.
    ClientErrorNotAuthorized,
    /// The request is for something that cannot happen (e.g. canceling a Job that
    /// has already been canceled or aborted).
    ClientErrorNotPossible,
    /// The Client did not produce a request within the time that the IPP object
    /// was prepared to wait.
    ClientErrorTimeout,
    /// The IPP object has not found anything matching the request URI.  No
    /// indication is given of whether the condition is temporary or permanent.
    ClientErrorNotFound,
    /// The requested object is no longer available, and no forwarding address is
    /// known.  This condition is considered permanent.
    ClientErrorGone,
    /// The IPP object is refusing to process a request because the request entity
    /// is larger than the IPP object is willing or able to process.
    ClientErrorRequestEntityTooLarge,
    /// The IPP object is refusing to service the request because one or more
    /// Client-supplied attributes have a variable-length value that is longer
    /// than the maximum length specified for that attribute.
    ClientErrorRequestValueTooLong,
    /// The Document data is in a format, as specified in the "document-format"
    /// operation attribute, that is not supported by the Printer.
    ClientErrorDocumentFormatNotSupported,
    /// In a Job Creation request with "ipp-attribute-fidelity" set to 'true', the
    /// Printer does not support one or more attributes, attribute syntaxes, or
    /// attribute values supplied in the request.
    ClientErrorAttributesOrValuesNotSupported,
    /// The scheme of the Client-supplied URI in a Print-URI or a Send-URI
    /// operation is not supported.
    ClientErrorUriSchemeNotSupported,
    /// The IPP Printer does not support the charset supplied by the Client in the
    /// "attributes-charset" operation attribute.
    ClientErrorCharsetNotSupported,
    /// The request is rejected because some attribute values conflicted with the
    /// values of other attributes that this document does not permit to be
    /// substituted or ignored.
    ClientErrorConflictingAttributes,
    /// The Document data, as specified in the "compression" operation attribute,
    /// is compressed in a way that is not supported by the Printer.
    ClientErrorCompressionNotSupported,
    /// The Document data cannot be decompressed using the algorithm specified by
    /// the "compression" operation attribute.
    ClientErrorCompressionError,
    /// The Printer encountered an error in the Document data while interpreting
    /// it.
    ClientErrorDocumentFormatError,
    /// The Printer encountered an access error while attempting to validate the
    /// accessibility of, or access to, the Document data specified in the
    /// "document-uri" operation attribute of a Print-URI or Send-URI request.
    ClientErrorDocumentAccessError,
    /// The IPP object encountered an unexpected condition that prevented it from
    /// fulfilling the request.  Indicates that intervention by a knowledgeable
    /// human is probably required.
    ServerErrorInternalError,
    /// The IPP object does not support the functionality required to fulfill the
    /// request, e.g. it does not recognize the operation.
    ServerErrorOperationNotSupported,
    /// The IPP object is currently unable to handle the request due to temporary
    /// overloading or maintenance of the IPP object.
    ServerErrorServiceUnavailable,
    /// The IPP object does not support or refuses to support the IPP version
    /// supplied as the "version-number" operation parameter.
    ServerErrorVersionNotSupported,
    /// A Printer error, such as a paper jam, occurred while the IPP object
    /// processed a Print or Send operation.
    ServerErrorDeviceError,
    /// A temporary error such as a buffer-full write error, a memory overflow, or
    /// a disk-full condition occurred while the IPP Printer processed an
    /// operation.
    ServerErrorTemporaryError,
    /// The Printer is not currently accepting Jobs because the Administrator has
    /// set "printer-is-accepting-jobs" to 'false'.
    ServerErrorNotAcceptingJobs,
    /// The Printer is too busy processing Jobs and/or other requests.
    ServerErrorBusy,
    /// The Job has been canceled by an Operator or the system while the Client
    /// was transmitting the data to the IPP Printer.
    ServerErrorJobCanceled,
    /// The IPP object does not support multiple Documents per Job, and a Client
    /// attempted to supply Document data with a second Send-Document or Send-URI
    /// operation.
    ServerErrorMultipleDocumentJobsNotSupported,
}

impl ResponseStatusCode {
    /// The status code on the wire.
    pub open spec fn wire_code(self) -> u16 {
        match self {
            ResponseStatusCode::SuccessfulOk => 0x0000,
            ResponseStatusCode::SuccessfulOkIgnoredOrSubstituted => 0x0001,
            ResponseStatusCode::SuccessfulOkConflictedAttributes => 0x0002,
            ResponseStatusCode::ClientErrorBadRequest => 0x0400,
            ResponseStatusCode::ClientErrorForbidden => 0x0401,
            ResponseStatusCode::ClientErrorNotAuthenticated => 0x0402,
            ResponseStatusCode::ClientErrorNotAuthorized => 0x0403,
            ResponseStatusCode::ClientErrorNotPossible => 0x0404,
            ResponseStatusCode::ClientErrorTimeout => 0x0405,
            ResponseStatusCode::ClientErrorNotFound => 0x0406,
            ResponseStatusCode::ClientErrorGone => 0x0407,
            ResponseStatusCode::ClientErrorRequestEntityTooLarge => 0x0408,
            ResponseStatusCode::ClientErrorRequestValueTooLong => 0x0409,
            ResponseStatusCode::ClientErrorDocumentFormatNotSupported => 0x040a,
            ResponseStatusCode::ClientErrorAttributesOrValuesNotSupported => 0x040b,
            ResponseStatusCode::ClientErrorUriSchemeNotSupported => 0x040c,
            ResponseStatusCode::ClientErrorCharsetNotSupported => 0x040d,
            ResponseStatusCode::ClientErrorConflictingAttributes => 0x040e,
            ResponseStatusCode::ClientErrorCompressionNotSupported => 0x040f,
            ResponseStatusCode::ClientErrorCompressionError => 0x0410,
            ResponseStatusCode::ClientErrorDocumentFormatError => 0x0411,
            ResponseStatusCode::ClientErrorDocumentAccessError => 0x0412,
            ResponseStatusCode::ServerErrorInternalError => 0x0500,
            ResponseStatusCode::ServerErrorOperationNotSupported => 0x0501,
            ResponseStatusCode::ServerErrorServiceUnavailable => 0x0502,
            ResponseStatusCode::ServerErrorVersionNotSupported => 0x0503,
            ResponseStatusCode::ServerErrorDeviceError => 0x0504,
            ResponseStatusCode::ServerErrorTemporaryError => 0x0505,
            ResponseStatusCode::ServerErrorNotAcceptingJobs => 0x0506,
            ResponseStatusCode::ServerErrorBusy => 0x0507,
            ResponseStatusCode::ServerErrorJobCanceled => 0x0508,
            ResponseStatusCode::ServerErrorMultipleDocumentJobsNotSupported => 0x0509,
        }
    }

    /// The status code on the wire.
    pub fn code(&self) -> (r: u16)
        ensures
            r == self.wire_code(),
    {
        match self {
            ResponseStatusCode::SuccessfulOk => 0x0000,
            ResponseStatusCode::SuccessfulOkIgnoredOrSubstituted => 0x0001,
            ResponseStatusCode::SuccessfulOkConflictedAttributes => 0x0002,
            ResponseStatusCode::ClientErrorBadRequest => 0x0400,
            ResponseStatusCode::ClientErrorForbidden => 0x0401,
            ResponseStatusCode::ClientErrorNotAuthenticated => 0x0402,
            ResponseStatusCode::ClientErrorNotAuthorized => 0x0403,
            ResponseStatusCode::ClientErrorNotPossible => 0x0404,
            ResponseStatusCode::ClientErrorTimeout => 0x0405,
            ResponseStatusCode::ClientErrorNotFound => 0x0406,
            ResponseStatusCode::ClientErrorGone => 0x0407,
            ResponseStatusCode::ClientErrorRequestEntityTooLarge => 0x0408,
            ResponseStatusCode::ClientErrorRequestValueTooLong => 0x0409,
            ResponseStatusCode::ClientErrorDocumentFormatNotSupported => 0x040a,
            ResponseStatusCode::ClientErrorAttributesOrValuesNotSupported => 0x040b,
            ResponseStatusCode::ClientErrorUriSchemeNotSupported => 0x040c,
            ResponseStatusCode::ClientErrorCharsetNotSupported => 0x040d,
            ResponseStatusCode::ClientErrorConflictingAttributes => 0x040e,
            ResponseStatusCode::ClientErrorCompressionNotSupported => 0x040f,
            ResponseStatusCode::ClientErrorCompressionError => 0x0410,
            ResponseStatusCode::ClientErrorDocumentFormatError => 0x0411,
            ResponseStatusCode::ClientErrorDocumentAccessError => 0x0412,
            ResponseStatusCode::ServerErrorInternalError => 0x0500,
            ResponseStatusCode::ServerErrorOperationNotSupported => 0x0501,
            ResponseStatusCode::ServerErrorServiceUnavailable => 0x0502,
            ResponseStatusCode::ServerErrorVersionNotSupported => 0x0503,
            ResponseStatusCode::ServerErrorDeviceError => 0x0504,
            ResponseStatusCode::ServerErrorTemporaryError => 0x0505,
            ResponseStatusCode::ServerErrorNotAcceptingJobs => 0x0506,
            ResponseStatusCode::ServerErrorBusy => 0x0507,
            ResponseStatusCode::ServerErrorJobCanceled => 0x0508,
            ResponseStatusCode::ServerErrorMultipleDocumentJobsNotSupported => 0x0509,
        }
    }

    /// The status that a code on the wire denotes, if any.
    pub open spec fn status_of(value: u16) -> Option<ResponseStatusCode> {
        if value == 0x0000 {
            Some(ResponseStatusCode::SuccessfulOk)
        } else if value == 0x0001 {
            Some(ResponseStatusCode::SuccessfulOkIgnoredOrSubstituted)
        } else if value == 0x0002 {
            Some(ResponseStatusCode::SuccessfulOkConflictedAttributes)
        } else if value == 0x0400 {
            Some(ResponseStatusCode::ClientErrorBadRequest)
        } else if value == 0x0401 {
            Some(ResponseStatusCode::ClientErrorForbidden)
        } else if value == 0x0402 {
            Some(ResponseStatusCode::ClientErrorNotAuthenticated)
        } else if value == 0x0403 {
            Some(ResponseStatusCode::ClientErrorNotAuthorized)
        } else if value == 0x0404 {
            Some(ResponseStatusCode::ClientErrorNotPossible)
        } else if value == 0x0405 {
            Some(ResponseStatusCode::ClientErrorTimeout)
        } else if value == 0x0406 {
            Some(ResponseStatusCode::ClientErrorNotFound)
        } else if value == 0x0407 {
            Some(ResponseStatusCode::ClientErrorGone)
        } else if value == 0x0408 {
            Some(ResponseStatusCode::ClientErrorRequestEntityTooLarge)
        } else if value == 0x0409 {
            Some(ResponseStatusCode::ClientErrorRequestValueTooLong)
        } else if value == 0x040a {
            Some(ResponseStatusCode::ClientErrorDocumentFormatNotSupported)
        } else if value == 0x040b {
            Some(ResponseStatusCode::ClientErrorAttributesOrValuesNotSupported)
        } else if value == 0x040c {
            Some(ResponseStatusCode::ClientErrorUriSchemeNotSupported)
        } else if value == 0x040d {
            Some(ResponseStatusCode::ClientErrorCharsetNotSupported)
        } else if value == 0x040e {
            Some(ResponseStatusCode::ClientErrorConflictingAttributes)
        } else if value == 0x040f {
            Some(ResponseStatusCode::ClientErrorCompressionNotSupported)
        } else if value == 0x0410 {
            Some(ResponseStatusCode::ClientErrorCompressionError)
        } else if value == 0x0411 {
            Some(ResponseStatusCode::ClientErrorDocumentFormatError)
        } else if value == 0x0412 {
            Some(ResponseStatusCode::ClientErrorDocumentAccessError)
        } else if value == 0x0500 {
            Some(ResponseStatusCode::ServerErrorInternalError)
        } else if value == 0x0501 {
            Some(ResponseStatusCode::ServerErrorOperationNotSupported)
        } else if value == 0x0502 {
            Some(ResponseStatusCode::ServerErrorServiceUnavailable)
        } else if value == 0x0503 {
            Some(ResponseStatusCode::ServerErrorVersionNotSupported)
        } else if value == 0x0504 {
            Some(ResponseStatusCode::ServerErrorDeviceError)
        } else if value == 0x0505 {
            Some(ResponseStatusCode::ServerErrorTemporaryError)
        } else if value == 0x0506 {
            Some(ResponseStatusCode::ServerErrorNotAcceptingJobs)
        } else if value == 0x0507 {
            Some(ResponseStatusCode::ServerErrorBusy)
        } else if value == 0x0508 {
            Some(ResponseStatusCode::ServerErrorJobCanceled)
        } else if value == 0x0509 {
            Some(ResponseStatusCode::ServerErrorMultipleDocumentJobsNotSupported)
        } else {
            None
        }
    }

    /// Decodes a status code; a code outside the table is handed back as the
    /// error.
    pub fn try_from(value: u16) -> (r: Result<ResponseStatusCode, u16>)
        ensures
            r is Ok <==> Self::status_of(value) is Some,
            r matches Ok(t) ==> Self::status_of(value) == Some(t),
            r matches Err(v) ==> v == value,
    {
        match value {
            0x0000 => Ok(ResponseStatusCode::SuccessfulOk),
            0x0001 => Ok(ResponseStatusCode::SuccessfulOkIgnoredOrSubstituted),
            0x0002 => Ok(ResponseStatusCode::SuccessfulOkConflictedAttributes),
            0x0400 => Ok(ResponseStatusCode::ClientErrorBadRequest),
            0x0401 => Ok(ResponseStatusCode::ClientErrorForbidden),
            0x0402 => Ok(ResponseStatusCode::ClientErrorNotAuthenticated),
            0x0403 => Ok(ResponseStatusCode::ClientErrorNotAuthorized),
            0x0404 => Ok(ResponseStatusCode::ClientErrorNotPossible),
            0x0405 => Ok(ResponseStatusCode::ClientErrorTimeout),
            0x0406 => Ok(ResponseStatusCode::ClientErrorNotFound),
            0x0407 => Ok(ResponseStatusCode::ClientErrorGone),
            0x0408 => Ok(ResponseStatusCode::ClientErrorRequestEntityTooLarge),
            0x0409 => Ok(ResponseStatusCode::ClientErrorRequestValueTooLong),
            0x040a => Ok(ResponseStatusCode::ClientErrorDocumentFormatNotSupported),
            0x040b => Ok(ResponseStatusCode::ClientErrorAttributesOrValuesNotSupported),
            0x040c => Ok(ResponseStatusCode::ClientErrorUriSchemeNotSupported),
            0x040d => Ok(ResponseStatusCode::ClientErrorCharsetNotSupported),
            0x040e => Ok(ResponseStatusCode::ClientErrorConflictingAttributes),
            0x040f => Ok(ResponseStatusCode::ClientErrorCompressionNotSupported),
            0x0410 => Ok(ResponseStatusCode::ClientErrorCompressionError),
            0x0411 => Ok(ResponseStatusCode::ClientErrorDocumentFormatError),
            0x0412 => Ok(ResponseStatusCode::ClientErrorDocumentAccessError),
            0x0500 => Ok(ResponseStatusCode::ServerErrorInternalError),
            0x0501 => Ok(ResponseStatusCode::ServerErrorOperationNotSupported),
            0x0502 => Ok(ResponseStatusCode::ServerErrorServiceUnavailable),
            0x0503 => Ok(ResponseStatusCode::ServerErrorVersionNotSupported),
            0x0504 => Ok(ResponseStatusCode::ServerErrorDeviceError),
            0x0505 => Ok(ResponseStatusCode::ServerErrorTemporaryError),
            0x0506 => Ok(ResponseStatusCode::ServerErrorNotAcceptingJobs),
            0x0507 => Ok(ResponseStatusCode::ServerErrorBusy),
            0x0508 => Ok(ResponseStatusCode::ServerErrorJobCanceled),
            0x0509 => Ok(ResponseStatusCode::ServerErrorMultipleDocumentJobsNotSupported),
            other => Err(other),
        }
    }

    /// The status's name.
    pub open spec fn display_name(self) -> Seq<char> {
        match self {
            ResponseStatusCode::SuccessfulOk => "successful-ok"@,
            ResponseStatusCode::SuccessfulOkIgnoredOrSubstituted => "successful-ok-ignored-or-substituted-attributes"@,
            ResponseStatusCode::SuccessfulOkConflictedAttributes => "successful-ok-conflicting-attributes"@,
            ResponseStatusCode::ClientErrorBadRequest => "client-error-bad-request"@,
            ResponseStatusCode::ClientErrorForbidden => "client-error-forbidden"@,
            ResponseStatusCode::ClientErrorNotAuthenticated => "client-error-not-authenticated"@,
            ResponseStatusCode::ClientErrorNotAuthorized => "client-error-not-authorized"@,
            ResponseStatusCode::ClientErrorNotPossible => "client-error-not-possible"@,
            ResponseStatusCode::ClientErrorTimeout => "client-error-timeout"@,
            ResponseStatusCode::ClientErrorNotFound => "client-error-not-found"@,
            ResponseStatusCode::ClientErrorGone => "client-error-gone"@,
            ResponseStatusCode::ClientErrorRequestEntityTooLarge => "client-error-request-entity-too-large"@,
            ResponseStatusCode::ClientErrorRequestValueTooLong => "client-error-request-value-too-long"@,
            ResponseStatusCode::ClientErrorDocumentFormatNotSupported => "client-error-document-format-not-supported"@,
            ResponseStatusCode::ClientErrorAttributesOrValuesNotSupported => "client-error-attributes-or-values-not-supported"@,
            ResponseStatusCode::ClientErrorUriSchemeNotSupported => "client-error-uri-scheme-not-supported"@,
            ResponseStatusCode::ClientErrorCharsetNotSupported => "client-error-charset-not-supported"@,
            ResponseStatusCode::ClientErrorConflictingAttributes => "client-error-conflicting-attributes"@,
            ResponseStatusCode::ClientErrorCompressionNotSupported => "client-error-compression-not-supported"@,
            ResponseStatusCode::ClientErrorCompressionError => "client-error-compression-error"@,
            ResponseStatusCode::ClientErrorDocumentFormatError => "client-error-document-format-error"@,
            ResponseStatusCode::ClientErrorDocumentAccessError => "client-error-document-access-error"@,
            ResponseStatusCode::ServerErrorInternalError => "server-error-internal-error"@,
            ResponseStatusCode::ServerErrorOperationNotSupported => "server-error-operation-not-supported"@,
            ResponseStatusCode::ServerErrorServiceUnavailable => "server-error-service-unavailable"@,
            ResponseStatusCode::ServerErrorVersionNotSupported => "server-error-version-not-supported"@,
            ResponseStatusCode::ServerErrorDeviceError => "server-error-device-error"@,
            ResponseStatusCode::ServerErrorTemporaryError => "server-error-temporary-error"@,
            ResponseStatusCode::ServerErrorNotAcceptingJobs => "server-error-not-accepting-jobs"@,
            ResponseStatusCode::ServerErrorBusy => "server-error-busy"@,
            ResponseStatusCode::ServerErrorJobCanceled => "server-error-job-canceled"@,
            ResponseStatusCode::ServerErrorMultipleDocumentJobsNotSupported => "server-error-multiple-document-jobs-not-supported"@,
        }
    }

    /// The status's name.
    pub fn name(&self) -> (r: &'static str)
        ensures
            r@ == self.display_name(),
    {
        match self {
            ResponseStatusCode::SuccessfulOk => "successful-ok",
            ResponseStatusCode::SuccessfulOkIgnoredOrSubstituted => "successful-ok-ignored-or-substituted-attributes",
            ResponseStatusCode::SuccessfulOkConflictedAttributes => "successful-ok-conflicting-attributes",
            ResponseStatusCode::ClientErrorBadRequest => "client-error-bad-request",
            ResponseStatusCode::ClientErrorForbidden => "client-error-forbidden",
            ResponseStatusCode::ClientErrorNotAuthenticated => "client-error-not-authenticated",
            ResponseStatusCode::ClientErrorNotAuthorized => "client-error-not-authorized",
            ResponseStatusCode::ClientErrorNotPossible => "client-error-not-possible",
            ResponseStatusCode::ClientErrorTimeout => "client-error-timeout",
            ResponseStatusCode::ClientErrorNotFound => "client-error-not-found",
            ResponseStatusCode::ClientErrorGone => "client-error-gone",
            ResponseStatusCode::ClientErrorRequestEntityTooLarge => "client-error-request-entity-too-large",
            ResponseStatusCode::ClientErrorRequestValueTooLong => "client-error-request-value-too-long",
            ResponseStatusCode::ClientErrorDocumentFormatNotSupported => "client-error-document-format-not-supported",
            ResponseStatusCode::ClientErrorAttributesOrValuesNotSupported => "client-error-attributes-or-values-not-supported",
            ResponseStatusCode::ClientErrorUriSchemeNotSupported => "client-error-uri-scheme-not-supported",
            ResponseStatusCode::ClientErrorCharsetNotSupported => "client-error-charset-not-supported",
            ResponseStatusCode::ClientErrorConflictingAttributes => "client-error-conflicting-attributes",
            ResponseStatusCode::ClientErrorCompressionNotSupported => "client-error-compression-not-supported",
            ResponseStatusCode::ClientErrorCompressionError => "client-error-compression-error",
            ResponseStatusCode::ClientErrorDocumentFormatError => "client-error-document-format-error",
            ResponseStatusCode::ClientErrorDocumentAccessError => "client-error-document-access-error",
            ResponseStatusCode::ServerErrorInternalError => "server-error-internal-error",
            ResponseStatusCode::ServerErrorOperationNotSupported => "server-error-operation-not-supported",
            ResponseStatusCode::ServerErrorServiceUnavailable => "server-error-service-unavailable",
            ResponseStatusCode::ServerErrorVersionNotSupported => "server-error-version-not-supported",
            ResponseStatusCode::ServerErrorDeviceError => "server-error-device-error",
            ResponseStatusCode::ServerErrorTemporaryError => "server-error-temporary-error",
            ResponseStatusCode::ServerErrorNotAcceptingJobs => "server-error-not-accepting-jobs",
            ResponseStatusCode::ServerErrorBusy => "server-error-busy",
            ResponseStatusCode::ServerErrorJobCanceled => "server-error-job-canceled",
            ResponseStatusCode::ServerErrorMultipleDocumentJobsNotSupported => "server-error-multiple-document-jobs-not-supported",
        }
    }
}

/// Decoding the code of a status gives the status back.
pub proof fn law_status_round_trip(s: ResponseStatusCode)
    ensures
        ResponseStatusCode::status_of(s.wire_code()) == Some(s),
{
}

/// A decoded status is encoded as the code it was decoded from.
pub proof fn law_status_decode_encode(value: u16)
    ensures
        ResponseStatusCode::status_of(value) matches Some(s) ==> s.wire_code() == value,
{
}

/// The character at `i`, or a space past the end.
pub open spec fn char_or_space(s: Seq<char>, i: int) -> char {
    if 0 <= i < s.len() {
        s[i]
    } else {
        ' '
    }
}

/// A key of a status name: its length and two of its characters. The keys
/// of the names in the table are distinct.
spec fn status_name_key(n: Seq<char>) -> (nat, char, char) {
    (n.len(), char_or_space(n, 13), char_or_space(n, 22))
}

/// The status whose name has the given key.
spec fn status_of_name_key(key: (nat, char, char)) -> Option<ResponseStatusCode> {
    if key == (13nat, ' ', ' ') {
        Some(ResponseStatusCode::SuccessfulOk)
    } else if key == (47nat, '-', 'o') {
        Some(ResponseStatusCode::SuccessfulOkIgnoredOrSubstituted)
    } else if key == (36nat, '-', 'i') {
        Some(ResponseStatusCode::SuccessfulOkConflictedAttributes)
    } else if key == (24nat, 'b', 's') {
        Some(ResponseStatusCode::ClientErrorBadRequest)
    } else if key == (22nat, 'f', ' ') {
        Some(ResponseStatusCode::ClientErrorForbidden)
    } else if key == (30nat, 'n', 'n') {
        Some(ResponseStatusCode::ClientErrorNotAuthenticated)
    } else if key == (27nat, 'n', 'r') {
        Some(ResponseStatusCode::ClientErrorNotAuthorized)
    } else if key == (25nat, 'n', 'b') {
        Some(ResponseStatusCode::ClientErrorNotPossible)
    } else if key == (20nat, 't', ' ') {
        Some(ResponseStatusCode::ClientErrorTimeout)
    } else if key == (22nat, 'n', ' ') {
        Some(ResponseStatusCode::ClientErrorNotFound)
    } else if key == (17nat, 'g', ' ') {
        Some(ResponseStatusCode::ClientErrorGone)
    } else if key == (37nat, 'r', 'n') {
        Some(ResponseStatusCode::ClientErrorRequestEntityTooLarge)
    } else if key == (35nat, 'r', 'a') {
        Some(ResponseStatusCode::ClientErrorRequestValueTooLong)
    } else if key == (42nat, 'd', 'f') {
        Some(ResponseStatusCode::ClientErrorDocumentFormatNotSupported)
    } else if key == (47nat, 'a', 's') {
        Some(ResponseStatusCode::ClientErrorAttributesOrValuesNotSupported)
    } else if key == (37nat, 'u', 'e') {
        Some(ResponseStatusCode::ClientErrorUriSchemeNotSupported)
    } else if key == (34nat, 'c', 'o') {
        Some(ResponseStatusCode::ClientErrorCharsetNotSupported)
    } else if key == (35nat, 'c', 'n') {
        Some(ResponseStatusCode::ClientErrorConflictingAttributes)
    } else if key == (38nat, 'c', 'o') {
        Some(ResponseStatusCode::ClientErrorCompressionNotSupported)
    } else if key == (30nat, 'c', 'o') {
        Some(ResponseStatusCode::ClientErrorCompressionError)
    } else if key == (34nat, 'd', 'f') {
        Some(ResponseStatusCode::ClientErrorDocumentFormatError)
    } else if key == (34nat, 'd', 'a') {
        Some(ResponseStatusCode::ClientErrorDocumentAccessError)
    } else if key == (27nat, 'i', 'e') {
        Some(ResponseStatusCode::ServerErrorInternalError)
    } else if key == (36nat, 'o', '-') {
        Some(ResponseStatusCode::ServerErrorOperationNotSupported)
    } else if key == (32nat, 's', 'n') {
        Some(ResponseStatusCode::ServerErrorServiceUnavailable)
    } else if key == (34nat, 'v', 'o') {
        Some(ResponseStatusCode::ServerErrorVersionNotSupported)
    } else if key == (25nat, 'd', 'r') {
        Some(ResponseStatusCode::ServerErrorDeviceError)
    } else if key == (28nat, 't', '-') {
        Some(ResponseStatusCode::ServerErrorTemporaryError)
    } else if key == (31nat, 'n', 't') {
        Some(ResponseStatusCode::ServerErrorNotAcceptingJobs)
    } else if key == (17nat, 'b', ' ') {
        Some(ResponseStatusCode::ServerErrorBusy)
    } else if key == (25nat, 'j', 'l') {
        Some(ResponseStatusCode::ServerErrorJobCanceled)
    } else if key == (49nat, 'm', 'd') {
        Some(ResponseStatusCode::ServerErrorMultipleDocumentJobsNotSupported)
    } else {
        None
    }
}

proof fn lemma_status_name_key(s: ResponseStatusCode)
    ensures
        status_of_name_key(status_name_key(s.display_name())) == Some(s),
{
    reveal_strlit("successful-ok");
    reveal_strlit("successful-ok-ignored-or-substituted-attributes");
    reveal_strlit("successful-ok-conflicting-attributes");
    reveal_strlit("client-error-bad-request");
    reveal_strlit("client-error-forbidden");
    reveal_strlit("client-error-not-authenticated");
    reveal_strlit("client-error-not-authorized");
    reveal_strlit("client-error-not-possible");
    reveal_strlit("client-error-timeout");
    reveal_strlit("client-error-not-found");
    reveal_strlit("client-error-gone");
    reveal_strlit("client-error-request-entity-too-large");
    reveal_strlit("client-error-request-value-too-long");
    reveal_strlit("client-error-document-format-not-supported");
    reveal_strlit("client-error-attributes-or-values-not-supported");
    reveal_strlit("client-error-uri-scheme-not-supported");
    reveal_strlit("client-error-charset-not-supported");
    reveal_strlit("client-error-conflicting-attributes");
    reveal_strlit("client-error-compression-not-supported");
    reveal_strlit("client-error-compression-error");
    reveal_strlit("client-error-document-format-error");
    reveal_strlit("client-error-document-access-error");
    reveal_strlit("server-error-internal-error");
    reveal_strlit("server-error-operation-not-supported");
    reveal_strlit("server-error-service-unavailable");
    reveal_strlit("server-error-version-not-supported");
    reveal_strlit("server-error-device-error");
    reveal_strlit("server-error-temporary-error");
    reveal_strlit("server-error-not-accepting-jobs");
    reveal_strlit("server-error-busy");
    reveal_strlit("server-error-job-canceled");
    reveal_strlit("server-error-multiple-document-jobs-not-supported");
}

/// Distinct status codes have distinct names.
pub proof fn law_status_names_distinct(s1: ResponseStatusCode, s2: ResponseStatusCode)
    ensures
        s1.wire_code() != s2.wire_code() ==> s1.display_name() != s2.display_name(),
{
    lemma_status_name_key(s1);
    lemma_status_name_key(s2);
}

/// The registered name of each IPP status code (RFC 8011, appendix B).
pub open spec fn registered_status_name(code: u16) -> Option<Seq<char>> {
    if code == 0x0000 {
        Some("successful-ok"@)
    } else if code == 0x0001 {
        Some("successful-ok-ignored-or-substituted-attributes"@)
    } else if code == 0x0002 {
        Some("successful-ok-conflicting-attributes"@)
    } else if code == 0x0400 {
        Some("client-error-bad-request"@)
    } else if code == 0x0401 {
        Some("client-error-forbidden"@)
    } else if code == 0x0402 {
        Some("client-error-not-authenticated"@)
    } else if code == 0x0403 {
        Some("client-error-not-authorized"@)
    } else if code == 0x0404 {
        Some("client-error-not-possible"@)
    } else if code == 0x0405 {
        Some("client-error-timeout"@)
    } else if code == 0x0406 {
        Some("client-error-not-found"@)
    } else if code == 0x0407 {
        Some("client-error-gone"@)
    } else if code == 0x0408 {
        Some("client-error-request-entity-too-large"@)
    } else if code == 0x0409 {
        Some("client-error-request-value-too-long"@)
    } else if code == 0x040a {
        Some("client-error-document-format-not-supported"@)
    } else if code == 0x040b {
        Some("client-error-attributes-or-values-not-supported"@)
    } else if code == 0x040c {
        Some("client-error-uri-scheme-not-supported"@)
    } else if code == 0x040d {
        Some("client-error-charset-not-supported"@)
    } else if code == 0x040e {
        Some("client-error-conflicting-attributes"@)
    } else if code == 0x040f {
        Some("client-error-compression-not-supported"@)
    } else if code == 0x0410 {
        Some("client-error-compression-error"@)
    } else if code == 0x0411 {
        Some("client-error-document-format-error"@)
    } else if code == 0x0412 {
        Some("client-error-document-access-error"@)
    } else if code == 0x0500 {
        Some("server-error-internal-error"@)
    } else if code == 0x0501 {
        Some("server-error-operation-not-supported"@)
    } else if code == 0x0502 {
        Some("server-error-service-unavailable"@)
    } else if code == 0x0503 {
        Some("server-error-version-not-supported"@)
    } else if code == 0x0504 {
        Some("server-error-device-error"@)
    } else if code == 0x0505 {
        Some("server-error-temporary-error"@)
    } else if code == 0x0506 {
        Some("server-error-not-accepting-jobs"@)
    } else if code == 0x0507 {
        Some("server-error-busy"@)
    } else if code == 0x0508 {
        Some("server-error-job-canceled"@)
    } else if code == 0x0509 {
        Some("server-error-multiple-document-jobs-not-supported"@)
    } else {
        None
    }
}

/// Each status is sent as the code registered under its name, and a code
/// decodes to the status that carries the code's registered name; the codes
/// that decode are exactly the registered ones.
pub proof fn law_status_codes_carry_registered_names(s: ResponseStatusCode, value: u16)
    ensures
        registered_status_name(s.wire_code()) == Some(s.display_name()),
        ResponseStatusCode::status_of(value) matches Some(t) ==> registered_status_name(value)
            == Some(t.display_name()),
        ResponseStatusCode::status_of(value) is Some <==> registered_status_name(value) is Some,
{
}

} // verus!
