//! Error classes, classified provider errors, and the redaction of references.

use vstd::prelude::*;

use vstd::string::*;

use crate::text::{find_first, find_last, opt_view, str_eq};

verus! {

/// A class of provider error; each class has a wire name.
#[derive(Debug, Clone, Copy, PartialEq, Eq, Structural)]
pub enum ErrorClass {
    AuthenticationFailed,
    PermissionDenied,
    NotFound,
    InvalidReference,
    InvalidSecretPayload,
    Timeout,
    RateLimited,
    Network,
    ProviderUnavailable,
    Internal,
}

impl ErrorClass {
    /// The wire name of the class: the variant's own name.
    pub open spec fn wire_name(self) -> Seq<char> {
        match self {
            ErrorClass::AuthenticationFailed => "AuthenticationFailed"@,
            ErrorClass::PermissionDenied => "PermissionDenied"@,
            ErrorClass::NotFound => "NotFound"@,
            ErrorClass::InvalidReference => "InvalidReference"@,
            ErrorClass::InvalidSecretPayload => "InvalidSecretPayload"@,
            ErrorClass::Timeout => "Timeout"@,
            ErrorClass::RateLimited => "RateLimited"@,
            ErrorClass::Network => "Network"@,
            ErrorClass::ProviderUnavailable => "ProviderUnavailable"@,
            ErrorClass::Internal => "Internal"@,
        }
    }

    /// The wire name of the class.
    pub fn as_str(self) -> (r: &'static str)
        ensures
            r@ == self.wire_name(),
    {
        match self {
            ErrorClass::AuthenticationFailed => "AuthenticationFailed",
            ErrorClass::PermissionDenied => "PermissionDenied",
            ErrorClass::NotFound => "NotFound",
            ErrorClass::InvalidReference => "InvalidReference",
            ErrorClass::InvalidSecretPayload => "InvalidSecretPayload",
            ErrorClass::Timeout => "Timeout",
            ErrorClass::RateLimited => "RateLimited",
            ErrorClass::Network => "Network",
            ErrorClass::ProviderUnavailable => "ProviderUnavailable",
            ErrorClass::Internal => "Internal",
        }
    }
}

/// A classified provider error. Callers build its message from fixed texts and
/// names only; it must never hold a resolved value, a token or a credential.
#[derive(Debug)]
pub struct ProviderError {
    pub class: ErrorClass,
    pub message: String,
}

impl ProviderError {
    /// An error of class `class` with the message `message`.
    pub fn new(class: ErrorClass, message: &str) -> (r: ProviderError)
        ensures
            r.class == class,
            r.message@ == message@,
    {
        ProviderError { class, message: message.to_owned() }
    }

    /// An error of class `InvalidReference`.
    pub fn invalid_reference(message: &str) -> (r: ProviderError)
        ensures
            r.class == ErrorClass::InvalidReference,
            r.message@ == message@,
    {
        Self::new(ErrorClass::InvalidReference, message)
    }

    /// An error of class `InvalidSecretPayload`.
    pub fn invalid_payload(message: &str) -> (r: ProviderError)
        ensures
            r.class == ErrorClass::InvalidSecretPayload,
            r.message@ == message@,
    {
        Self::new(ErrorClass::InvalidSecretPayload, message)
    }

    /// An error of class `Internal`.
    pub fn internal(message: &str) -> (r: ProviderError)
        ensures
            r.class == ErrorClass::Internal,
            r.message@ == message@,
    {
        Self::new(ErrorClass::Internal, message)
    }
}

/// The class that an AWS error code stands for; codes that are not listed,
/// and the empty code, are `Internal`.
pub open spec fn code_class(code: Seq<char>) -> ErrorClass {
    if code == "ResourceNotFoundException"@ || code == "ParameterNotFound"@
        || code == "ParameterVersionNotFound"@ {
        ErrorClass::NotFound
    } else if code == "AccessDeniedException"@ || code == "UnauthorizedOperation"@
        || code == "AccessDenied"@ {
        ErrorClass::PermissionDenied
    } else if code == "UnrecognizedClientException"@ || code == "InvalidSignatureException"@
        || code == "ExpiredTokenException"@ || code == "IncompleteSignature"@ {
        ErrorClass::AuthenticationFailed
    } else if code == "ThrottlingException"@ || code == "Throttling"@
        || code == "TooManyRequestsException"@ || code == "RequestLimitExceeded"@
        || code == "SlowDown"@ {
        ErrorClass::RateLimited
    } else if code == "InvalidParameterException"@ || code == "InvalidRequestException"@
        || code == "ValidationException"@ {
        ErrorClass::InvalidReference
    } else if code == "InternalServiceError"@ || code == "InternalFailure"@
        || code == "InternalServerError"@ {
        ErrorClass::ProviderUnavailable
    } else {
        ErrorClass::Internal
    }
}

/// The class of an optional AWS error code: a missing code counts as the empty one.
pub open spec fn optional_code_class(code: Option<Seq<char>>) -> ErrorClass {
    match code {
        Some(c) => code_class(c),
        None => code_class(""@),
    }
}

/// Map an AWS error code onto a provider error class.
pub fn classify_code(code: Option<&str>) -> (r: ErrorClass)
    ensures
        r == optional_code_class(
            match code {
                Some(c) => Some(c@),
                None => None,
            },
        ),
{
    let c: &str = match code {
        Some(c) => c,
        None => "",
    };
    if str_eq(c, "ResourceNotFoundException") || str_eq(c, "ParameterNotFound")
        || str_eq(c, "ParameterVersionNotFound") {
        ErrorClass::NotFound
    } else if str_eq(c, "AccessDeniedException") || str_eq(c, "UnauthorizedOperation")
        || str_eq(c, "AccessDenied") {
        ErrorClass::PermissionDenied
    } else if str_eq(c, "UnrecognizedClientException") || str_eq(c, "InvalidSignatureException")
        || str_eq(c, "ExpiredTokenException") || str_eq(c, "IncompleteSignature") {
        ErrorClass::AuthenticationFailed
    } else if str_eq(c, "ThrottlingException") || str_eq(c, "Throttling")
        || str_eq(c, "TooManyRequestsException") || str_eq(c, "RequestLimitExceeded")
        || str_eq(c, "SlowDown") {
        ErrorClass::RateLimited
    } else if str_eq(c, "InvalidParameterException") || str_eq(c, "InvalidRequestException")
        || str_eq(c, "ValidationException") {
        ErrorClass::InvalidReference
    } else if str_eq(c, "InternalServiceError") || str_eq(c, "InternalFailure")
        || str_eq(c, "InternalServerError") {
        ErrorClass::ProviderUnavailable
    } else {
        ErrorClass::Internal
    }
}

/// A failure of an AWS SDK call, as far as the mapping onto error classes reads it.
#[derive(Debug)]
pub enum SdkFailure {
    /// The request timed out.
    Timeout,
    /// The request could not be dispatched; `timed_out` tells whether the cause was a timeout.
    Dispatch { timed_out: bool },
    /// The service answered with an error, which may carry an error code.
    Service { code: Option<String> },
    /// The response could not be read.
    Response,
    /// The request could not be built.
    Construction,
    /// Any other failure.
    Other,
}

/// The class that an SDK failure is reported under.
pub open spec fn sdk_failure_class(f: SdkFailure) -> ErrorClass {
    match f {
        SdkFailure::Timeout => ErrorClass::Timeout,
        SdkFailure::Dispatch { timed_out } => if timed_out {
            ErrorClass::Timeout
        } else {
            ErrorClass::Network
        },
        SdkFailure::Service { code } => match code {
            Some(c) => code_class(c@),
            None => code_class(""@),
        },
        SdkFailure::Response => ErrorClass::Network,
        SdkFailure::Construction => ErrorClass::Internal,
        SdkFailure::Other => ErrorClass::Internal,
    }
}

/// The message that an SDK failure is reported with.
pub open spec fn sdk_failure_message(f: SdkFailure) -> Seq<char> {
    match f {
        SdkFailure::Timeout => "request timed out"@,
        SdkFailure::Dispatch { timed_out } => if timed_out {
            "connection timed out"@
        } else {
            "network dispatch failure"@
        },
        SdkFailure::Service { code } => match code {
            Some(c) => "AWS error: "@ + c@,
            None => "AWS service error"@,
        },
        SdkFailure::Response => "invalid response from AWS"@,
        SdkFailure::Construction => "failed to construct AWS request"@,
        SdkFailure::Other => "unknown AWS SDK error"@,
    }
}

/// Map an AWS SDK failure onto a provider error: transport failures by their
/// kind, service errors by their error code.
pub fn map_sdk_error(err: &SdkFailure) -> (r: ProviderError)
    ensures
        r.class == sdk_failure_class(*err),
        r.message@ == sdk_failure_message(*err),
{
    match err {
        SdkFailure::Timeout => ProviderError::new(ErrorClass::Timeout, "request timed out"),
        SdkFailure::Dispatch { timed_out } => {
            if *timed_out {
                ProviderError::new(ErrorClass::Timeout, "connection timed out")
            } else {
                ProviderError::new(ErrorClass::Network, "network dispatch failure")
            }
        },
        SdkFailure::Service { code } => {
            let class = match code {
                Some(c) => classify_code(Some(c.as_str())),
                None => classify_code(None),
            };
            match code {
                Some(c) => {
                    let msg = "AWS error: ".to_owned().concat(c.as_str());
                    ProviderError { class, message: msg }
                },
                None => ProviderError::new(class, "AWS service error"),
            }
        },
        SdkFailure::Response => ProviderError::new(ErrorClass::Network, "invalid response from AWS"),
        SdkFailure::Construction => ProviderError::new(
            ErrorClass::Internal,
            "failed to construct AWS request",
        ),
        SdkFailure::Other => ProviderError::new(ErrorClass::Internal, "unknown AWS SDK error"),
    }
}

/// A reference with its final path segment redacted: a non-empty last path
/// segment is replaced by `[redacted]`; otherwise the text is kept.
pub open spec fn path_redaction(s: Seq<char>) -> Seq<char> {
    match s.index_of_last('/') {
        Some(j) => if j + 1 < s.len() {
            s.take(j) + "/[redacted]"@
        } else {
            s
        },
        None => s,
    }
}

/// The redacted form of a reference: the final path segment is redacted, and
/// with a fragment, the part before the first `#` has its final path segment
/// redacted and the fragment value is replaced by `#[redacted]`.
pub open spec fn redaction(s: Seq<char>) -> Seq<char> {
    match s.index_of_first('#') {
        Some(h) => path_redaction(s.take(h)) + "#[redacted]"@,
        None => path_redaction(s),
    }
}

/// `original` with its final path segment redacted.
fn redact_path(original: &str) -> (r: String)
    ensures
        r@ == path_redaction(original@),
{
    let n = original.unicode_len();
    match find_last(original, '/') {
        Some(j) => {
            if j + 1 < n {
                original.substring_char(0, j).to_owned().concat("/[redacted]")
            } else {
                original.to_owned()
            }
        },
        None => original.to_owned(),
    }
}

/// Conservatively redact a reference for inclusion in diagnostics: drop the
/// final path segment and any fragment value.
pub fn redact_reference(original: &str) -> (r: String)
    ensures
        r@ == redaction(original@),
{
    match find_first(original, '#') {
        Some(h) => {
            let base = original.substring_char(0, h);
            redact_path(base).concat("#[redacted]")
        },
        None => redact_path(original),
    }
}

/// Redacting the final path segment twice gives the same text as redacting it
/// once, and adds no `#`.
pub proof fn lemma_path_redaction_idempotent(s: Seq<char>)
    ensures
        path_redaction(path_redaction(s)) == path_redaction(s),
        !s.contains('#') ==> !path_redaction(s).contains('#'),
{
    reveal_strlit("/[redacted]");
    s.index_of_last_ensures('/');
    match s.index_of_last('/') {
        Some(j) => {
            if j + 1 < s.len() {
                let r = s.take(j) + "/[redacted]"@;
                assert(r.len() == j + 11);
                assert(r[j] == '/');
                r.index_of_last_ensures('/');
                let idx = r.index_of_last('/').unwrap();
                if idx > j {
                    assert(r[idx] == "/[redacted]"@[idx - j]);
                }
                assert(idx == j);
                assert(r.take(j) =~= s.take(j));
                if !s.contains('#') && r.contains('#') {
                    let k = choose|k: int| 0 <= k < r.len() && r[k] == '#';
                    if k < j {
                        assert(r[k] == s[k]);
                    } else {
                        assert(r[k] == "/[redacted]"@[k - j]);
                    }
                }
            }
        },
        None => {},
    }
}

/// Redaction is idempotent: redacting an already redacted reference changes
/// nothing.
pub proof fn lemma_redaction_idempotent(s: Seq<char>)
    ensures
        redaction(redaction(s)) == redaction(s),
{
    reveal_strlit("#[redacted]");
    s.index_of_first_ensures('#');
    match s.index_of_first('#') {
        Some(h) => {
            let b = s.take(h);
            assert(!b.contains('#')) by {
                if b.contains('#') {
                    let k = choose|k: int| 0 <= k < b.len() && b[k] == '#';
                    assert(s[k] == '#');
                }
            }
            lemma_path_redaction_idempotent(b);
            let p = path_redaction(b);
            let r = p + "#[redacted]"@;
            assert(r[p.len() as int] == '#');
            r.index_of_first_ensures('#');
            let idx = r.index_of_first('#').unwrap();
            if idx < p.len() {
                assert(r[idx] == p[idx]);
                assert(p.contains('#'));
            }
            assert(idx == p.len());
            assert(r.take(idx) =~= p);
            assert(redaction(r) == path_redaction(p) + "#[redacted]"@);
        },
        None => {
            lemma_path_redaction_idempotent(s);
            path_redaction(s).index_of_first_ensures('#');
        },
    }
}

/// Each class has a wire name of its own: two classes with the same wire name
/// are the same class.
pub proof fn lemma_wire_names_distinct(a: ErrorClass, b: ErrorClass)
    ensures
        a.wire_name() == b.wire_name() ==> a == b,
{
    reveal_strlit("AuthenticationFailed");
    reveal_strlit("PermissionDenied");
    reveal_strlit("NotFound");
    reveal_strlit("InvalidReference");
    reveal_strlit("InvalidSecretPayload");
    reveal_strlit("Timeout");
    reveal_strlit("RateLimited");
    reveal_strlit("Network");
    reveal_strlit("ProviderUnavailable");
    reveal_strlit("Internal");
    if a.wire_name() == b.wire_name() && a != b {
        let x = a.wire_name();
        let y = b.wire_name();
        assert(x.len() == y.len());
        assert(x[0] == y[0]);
        assert(x[1] == y[1]);
        assert(x[2] == y[2]);
        assert(x[3] == y[3]);
    }
}

/// A non-empty final path segment never survives redaction: for a reference
/// without `#` whose last `/` stands at `j` with text after it, the redaction
/// is the text up to that `/` followed by `/[redacted]`, whatever precedes it.
pub proof fn lemma_redaction_drops_final_segment(s: Seq<char>, j: int)
    requires
        0 <= j,
        j + 1 < s.len(),
        s[j] == '/',
        forall|k: int| j < k < s.len() ==> s[k] != '/',
        forall|k: int| 0 <= k < s.len() ==> s[k] != '#',
    ensures
        redaction(s) == s.take(j) + "/[redacted]"@,
{
    s.index_of_first_ensures('#');
    s.index_of_last_ensures('/');
    let idx = s.index_of_last('/').unwrap();
    assert(idx == j);
}

/// A reference without `#` that has no `/`, or ends in `/`, is kept as it is.
pub proof fn lemma_redaction_keeps_text_without_final_segment(s: Seq<char>)
    requires
        forall|k: int| 0 <= k < s.len() ==> s[k] != '#',
        (forall|k: int| 0 <= k < s.len() ==> s[k] != '/') || (s.len() > 0 && s[s.len() - 1]
            == '/'),
    ensures
        redaction(s) == s,
{
    s.index_of_first_ensures('#');
    s.index_of_last_ensures('/');
    if s.len() > 0 && s[s.len() - 1] == '/' {
        let idx = s.index_of_last('/').unwrap();
        assert(idx == s.len() - 1);
    }
}

/// With a fragment, whose first `#` stands at `h`, the fragment value is
/// dropped and the part before it is redacted on its own.
pub proof fn lemma_redaction_drops_fragment(s: Seq<char>, h: int)
    requires
        0 <= h < s.len(),
        s[h] == '#',
        forall|k: int| 0 <= k < h ==> s[k] != '#',
    ensures
        redaction(s) == redaction(s.take(h)) + "#[redacted]"@,
{
    s.index_of_first_ensures('#');
    let idx = s.index_of_first('#').unwrap();
    assert(idx == h);
    let b = s.take(h);
    b.index_of_first_ensures('#');
    if b.contains('#') {
        let k = choose|k: int| 0 <= k < b.len() && b[k] == '#';
        assert(s[k] == '#');
    }
}

/// A service failure is reported under exactly the class that the code
/// classifier gives its code (a missing code counting as the empty one), and
/// with a message naming that code.
pub proof fn lemma_service_failure_follows_code(code: Option<String>)
    ensures
        sdk_failure_class(SdkFailure::Service { code }) == optional_code_class(opt_view(code)),
        sdk_failure_message(SdkFailure::Service { code }) == match code {
            Some(c) => "AWS error: "@ + c@,
            None => "AWS service error"@,
        },
{
}

/// Every transport failure is reported under its own class: timeouts as
/// `Timeout`, other dispatch and response failures as `Network`, and failures
/// to build a request or of any other kind as `Internal`.
pub proof fn lemma_transport_failure_classes(timed_out: bool)
    ensures
        sdk_failure_class(SdkFailure::Timeout) == ErrorClass::Timeout,
        sdk_failure_class(SdkFailure::Dispatch { timed_out }) == if timed_out {
            ErrorClass::Timeout
        } else {
            ErrorClass::Network
        },
        sdk_failure_class(SdkFailure::Response) == ErrorClass::Network,
        sdk_failure_class(SdkFailure::Construction) == ErrorClass::Internal,
        sdk_failure_class(SdkFailure::Other) == ErrorClass::Internal,
{
}

/// The AWS error codes by class: missing resources, parameters or versions
/// are `NotFound`; access denials `PermissionDenied`; bad or expired
/// credentials and signatures `AuthenticationFailed`; throttling
/// `RateLimited`; invalid parameters or requests `InvalidReference`; internal
/// service faults `ProviderUnavailable`; any other code `Internal`.
pub proof fn lemma_code_classes(code: Seq<char>)
    ensures
        code == "ResourceNotFoundException"@ || code == "ParameterNotFound"@ || code == "ParameterVersionNotFound"@ ==> code_class(code) == ErrorClass::NotFound,
        code == "AccessDeniedException"@ || code == "UnauthorizedOperation"@ || code == "AccessDenied"@ ==> code_class(code) == ErrorClass::PermissionDenied,
        code == "UnrecognizedClientException"@ || code == "InvalidSignatureException"@ || code == "ExpiredTokenException"@ || code == "IncompleteSignature"@ ==> code_class(code) == ErrorClass::AuthenticationFailed,
        code == "ThrottlingException"@ || code == "Throttling"@ || code == "TooManyRequestsException"@ || code == "RequestLimitExceeded"@ || code == "SlowDown"@ ==> code_class(code) == ErrorClass::RateLimited,
        code == "InvalidParameterException"@ || code == "InvalidRequestException"@ || code == "ValidationException"@ ==> code_class(code) == ErrorClass::InvalidReference,
        code == "InternalServiceError"@ || code == "InternalFailure"@ || code == "InternalServerError"@ ==> code_class(code) == ErrorClass::ProviderUnavailable,
        code != "ResourceNotFoundException"@ && code != "ParameterNotFound"@ && code != "ParameterVersionNotFound"@ && code != "AccessDeniedException"@ && code != "UnauthorizedOperation"@ && code != "AccessDenied"@ && code != "UnrecognizedClientException"@ && code != "InvalidSignatureException"@ && code != "ExpiredTokenException"@ && code != "IncompleteSignature"@ && code != "ThrottlingException"@ && code != "Throttling"@ && code != "TooManyRequestsException"@ && code != "RequestLimitExceeded"@ && code != "SlowDown"@ && code != "InvalidParameterException"@ && code != "InvalidRequestException"@ && code != "ValidationException"@ && code != "InternalServiceError"@ && code != "InternalFailure"@ && code != "InternalServerError"@ ==> code_class(code) == ErrorClass::Internal,
{
    reveal_strlit("ResourceNotFoundException");
    reveal_strlit("ParameterNotFound");
    reveal_strlit("ParameterVersionNotFound");
    reveal_strlit("AccessDeniedException");
    reveal_strlit("UnauthorizedOperation");
    reveal_strlit("AccessDenied");
    reveal_strlit("UnrecognizedClientException");
    reveal_strlit("InvalidSignatureException");
    reveal_strlit("ExpiredTokenException");
    reveal_strlit("IncompleteSignature");
    reveal_strlit("ThrottlingException");
    reveal_strlit("Throttling");
    reveal_strlit("TooManyRequestsException");
    reveal_strlit("RequestLimitExceeded");
    reveal_strlit("SlowDown");
    reveal_strlit("InvalidParameterException");
    reveal_strlit("InvalidRequestException");
    reveal_strlit("ValidationException");
    reveal_strlit("InternalServiceError");
    reveal_strlit("InternalFailure");
    reveal_strlit("InternalServerError");
    if code == "AccessDeniedException"@ {
        assert("AccessDeniedException"@.len() != "ResourceNotFoundException"@.len());
        assert("AccessDeniedException"@.len() != "ParameterNotFound"@.len());
        assert("AccessDeniedException"@.len() != "ParameterVersionNotFound"@.len());
    }
    if code == "UnauthorizedOperation"@ {
        assert("UnauthorizedOperation"@.len() != "ResourceNotFoundException"@.len());
        assert("UnauthorizedOperation"@.len() != "ParameterNotFound"@.len());
        assert("UnauthorizedOperation"@.len() != "ParameterVersionNotFound"@.len());
    }
    if code == "AccessDenied"@ {
        assert("AccessDenied"@.len() != "ResourceNotFoundException"@.len());
        assert("AccessDenied"@.len() != "ParameterNotFound"@.len());
        assert("AccessDenied"@.len() != "ParameterVersionNotFound"@.len());
    }
    if code == "UnrecognizedClientException"@ {
        assert("UnrecognizedClientException"@.len() != "ResourceNotFoundException"@.len());
        assert("UnrecognizedClientException"@.len() != "ParameterNotFound"@.len());
        assert("UnrecognizedClientException"@.len() != "ParameterVersionNotFound"@.len());
        assert("UnrecognizedClientException"@.len() != "AccessDeniedException"@.len());
        assert("UnrecognizedClientException"@.len() != "UnauthorizedOperation"@.len());
        assert("UnrecognizedClientException"@.len() != "AccessDenied"@.len());
    }
    if code == "InvalidSignatureException"@ {
        assert("InvalidSignatureException"@[0] != "ResourceNotFoundException"@[0]);
        assert("InvalidSignatureException"@.len() != "ParameterNotFound"@.len());
        assert("InvalidSignatureException"@.len() != "ParameterVersionNotFound"@.len());
        assert("InvalidSignatureException"@.len() != "AccessDeniedException"@.len());
        assert("InvalidSignatureException"@.len() != "UnauthorizedOperation"@.len());
        assert("InvalidSignatureException"@.len() != "AccessDenied"@.len());
    }
    if code == "ExpiredTokenException"@ {
        assert("ExpiredTokenException"@.len() != "ResourceNotFoundException"@.len());
        assert("ExpiredTokenException"@.len() != "ParameterNotFound"@.len());
        assert("ExpiredTokenException"@.len() != "ParameterVersionNotFound"@.len());
        assert("ExpiredTokenException"@[0] != "AccessDeniedException"@[0]);
        assert("ExpiredTokenException"@[0] != "UnauthorizedOperation"@[0]);
        assert("ExpiredTokenException"@.len() != "AccessDenied"@.len());
    }
    if code == "IncompleteSignature"@ {
        assert("IncompleteSignature"@.len() != "ResourceNotFoundException"@.len());
        assert("IncompleteSignature"@.len() != "ParameterNotFound"@.len());
        assert("IncompleteSignature"@.len() != "ParameterVersionNotFound"@.len());
        assert("IncompleteSignature"@.len() != "AccessDeniedException"@.len());
        assert("IncompleteSignature"@.len() != "UnauthorizedOperation"@.len());
        assert("IncompleteSignature"@.len() != "AccessDenied"@.len());
    }
    if code == "ThrottlingException"@ {
        assert("ThrottlingException"@.len() != "ResourceNotFoundException"@.len());
        assert("ThrottlingException"@.len() != "ParameterNotFound"@.len());
        assert("ThrottlingException"@.len() != "ParameterVersionNotFound"@.len());
        assert("ThrottlingException"@.len() != "AccessDeniedException"@.len());
        assert("ThrottlingException"@.len() != "UnauthorizedOperation"@.len());
        assert("ThrottlingException"@.len() != "AccessDenied"@.len());
        assert("ThrottlingException"@.len() != "UnrecognizedClientException"@.len());
        assert("ThrottlingException"@.len() != "InvalidSignatureException"@.len());
        assert("ThrottlingException"@.len() != "ExpiredTokenException"@.len());
        assert("ThrottlingException"@[0] != "IncompleteSignature"@[0]);
    }
    if code == "Throttling"@ {
        assert("Throttling"@.len() != "ResourceNotFoundException"@.len());
        assert("Throttling"@.len() != "ParameterNotFound"@.len());
        assert("Throttling"@.len() != "ParameterVersionNotFound"@.len());
        assert("Throttling"@.len() != "AccessDeniedException"@.len());
        assert("Throttling"@.len() != "UnauthorizedOperation"@.len());
        assert("Throttling"@.len() != "AccessDenied"@.len());
        assert("Throttling"@.len() != "UnrecognizedClientException"@.len());
        assert("Throttling"@.len() != "InvalidSignatureException"@.len());
        assert("Throttling"@.len() != "ExpiredTokenException"@.len());
        assert("Throttling"@.len() != "IncompleteSignature"@.len());
    }
    if code == "TooManyRequestsException"@ {
        assert("TooManyRequestsException"@.len() != "ResourceNotFoundException"@.len());
        assert("TooManyRequestsException"@.len() != "ParameterNotFound"@.len());
        assert("TooManyRequestsException"@[0] != "ParameterVersionNotFound"@[0]);
        assert("TooManyRequestsException"@.len() != "AccessDeniedException"@.len());
        assert("TooManyRequestsException"@.len() != "UnauthorizedOperation"@.len());
        assert("TooManyRequestsException"@.len() != "AccessDenied"@.len());
        assert("TooManyRequestsException"@.len() != "UnrecognizedClientException"@.len());
        assert("TooManyRequestsException"@.len() != "InvalidSignatureException"@.len());
        assert("TooManyRequestsException"@.len() != "ExpiredTokenException"@.len());
        assert("TooManyRequestsException"@.len() != "IncompleteSignature"@.len());
    }
    if code == "RequestLimitExceeded"@ {
        assert("RequestLimitExceeded"@.len() != "ResourceNotFoundException"@.len());
        assert("RequestLimitExceeded"@.len() != "ParameterNotFound"@.len());
        assert("RequestLimitExceeded"@.len() != "ParameterVersionNotFound"@.len());
        assert("RequestLimitExceeded"@.len() != "AccessDeniedException"@.len());
        assert("RequestLimitExceeded"@.len() != "UnauthorizedOperation"@.len());
        assert("RequestLimitExceeded"@.len() != "AccessDenied"@.len());
        assert("RequestLimitExceeded"@.len() != "UnrecognizedClientException"@.len());
        assert("RequestLimitExceeded"@.len() != "InvalidSignatureException"@.len());
        assert("RequestLimitExceeded"@.len() != "ExpiredTokenException"@.len());
        assert("RequestLimitExceeded"@.len() != "IncompleteSignature"@.len());
    }
    if code == "SlowDown"@ {
        assert("SlowDown"@.len() != "ResourceNotFoundException"@.len());
        assert("SlowDown"@.len() != "ParameterNotFound"@.len());
        assert("SlowDown"@.len() != "ParameterVersionNotFound"@.len());
        assert("SlowDown"@.len() != "AccessDeniedException"@.len());
        assert("SlowDown"@.len() != "UnauthorizedOperation"@.len());
        assert("SlowDown"@.len() != "AccessDenied"@.len());
        assert("SlowDown"@.len() != "UnrecognizedClientException"@.len());
        assert("SlowDown"@.len() != "InvalidSignatureException"@.len());
        assert("SlowDown"@.len() != "ExpiredTokenException"@.len());
        assert("SlowDown"@.len() != "IncompleteSignature"@.len());
    }
    if code == "InvalidParameterException"@ {
        assert("InvalidParameterException"@[0] != "ResourceNotFoundException"@[0]);
        assert("InvalidParameterException"@.len() != "ParameterNotFound"@.len());
        assert("InvalidParameterException"@.len() != "ParameterVersionNotFound"@.len());
        assert("InvalidParameterException"@.len() != "AccessDeniedException"@.len());
        assert("InvalidParameterException"@.len() != "UnauthorizedOperation"@.len());
        assert("InvalidParameterException"@.len() != "AccessDenied"@.len());
        assert("InvalidParameterException"@.len() != "UnrecognizedClientException"@.len());
        assert("InvalidParameterException"@[7] != "InvalidSignatureException"@[7]);
        assert("InvalidParameterException"@.len() != "ExpiredTokenException"@.len());
        assert("InvalidParameterException"@.len() != "IncompleteSignature"@.len());
        assert("InvalidParameterException"@.len() != "ThrottlingException"@.len());
        assert("InvalidParameterException"@.len() != "Throttling"@.len());
        assert("InvalidParameterException"@.len() != "TooManyRequestsException"@.len());
        assert("InvalidParameterException"@.len() != "RequestLimitExceeded"@.len());
        assert("InvalidParameterException"@.len() != "SlowDown"@.len());
    }
    if code == "InvalidRequestException"@ {
        assert("InvalidRequestException"@.len() != "ResourceNotFoundException"@.len());
        assert("InvalidRequestException"@.len() != "ParameterNotFound"@.len());
        assert("InvalidRequestException"@.len() != "ParameterVersionNotFound"@.len());
        assert("InvalidRequestException"@.len() != "AccessDeniedException"@.len());
        assert("InvalidRequestException"@.len() != "UnauthorizedOperation"@.len());
        assert("InvalidRequestException"@.len() != "AccessDenied"@.len());
        assert("InvalidRequestException"@.len() != "UnrecognizedClientException"@.len());
        assert("InvalidRequestException"@.len() != "InvalidSignatureException"@.len());
        assert("InvalidRequestException"@.len() != "ExpiredTokenException"@.len());
        assert("InvalidRequestException"@.len() != "IncompleteSignature"@.len());
        assert("InvalidRequestException"@.len() != "ThrottlingException"@.len());
        assert("InvalidRequestException"@.len() != "Throttling"@.len());
        assert("InvalidRequestException"@.len() != "TooManyRequestsException"@.len());
        assert("InvalidRequestException"@.len() != "RequestLimitExceeded"@.len());
        assert("InvalidRequestException"@.len() != "SlowDown"@.len());
    }
    if code == "ValidationException"@ {
        assert("ValidationException"@.len() != "ResourceNotFoundException"@.len());
        assert("ValidationException"@.len() != "ParameterNotFound"@.len());
        assert("ValidationException"@.len() != "ParameterVersionNotFound"@.len());
        assert("ValidationException"@.len() != "AccessDeniedException"@.len());
        assert("ValidationException"@.len() != "UnauthorizedOperation"@.len());
        assert("ValidationException"@.len() != "AccessDenied"@.len());
        assert("ValidationException"@.len() != "UnrecognizedClientException"@.len());
        assert("ValidationException"@.len() != "InvalidSignatureException"@.len());
        assert("ValidationException"@.len() != "ExpiredTokenException"@.len());
        assert("ValidationException"@[0] != "IncompleteSignature"@[0]);
        assert("ValidationException"@[0] != "ThrottlingException"@[0]);
        assert("ValidationException"@.len() != "Throttling"@.len());
        assert("ValidationException"@.len() != "TooManyRequestsException"@.len());
        assert("ValidationException"@.len() != "RequestLimitExceeded"@.len());
        assert("ValidationException"@.len() != "SlowDown"@.len());
    }
    if code == "InternalServiceError"@ {
        assert("InternalServiceError"@.len() != "ResourceNotFoundException"@.len());
        assert("InternalServiceError"@.len() != "ParameterNotFound"@.len());
        assert("InternalServiceError"@.len() != "ParameterVersionNotFound"@.len());
        assert("InternalServiceError"@.len() != "AccessDeniedException"@.len());
        assert("InternalServiceError"@.len() != "UnauthorizedOperation"@.len());
        assert("InternalServiceError"@.len() != "AccessDenied"@.len());
        assert("InternalServiceError"@.len() != "UnrecognizedClientException"@.len());
        assert("InternalServiceError"@.len() != "InvalidSignatureException"@.len());
        assert("InternalServiceError"@.len() != "ExpiredTokenException"@.len());
        assert("InternalServiceError"@.len() != "IncompleteSignature"@.len());
        assert("InternalServiceError"@.len() != "ThrottlingException"@.len());
        assert("InternalServiceError"@.len() != "Throttling"@.len());
        assert("InternalServiceError"@.len() != "TooManyRequestsException"@.len());
        assert("InternalServiceError"@[0] != "RequestLimitExceeded"@[0]);
        assert("InternalServiceError"@.len() != "SlowDown"@.len());
        assert("InternalServiceError"@.len() != "InvalidParameterException"@.len());
        assert("InternalServiceError"@.len() != "InvalidRequestException"@.len());
        assert("InternalServiceError"@.len() != "ValidationException"@.len());
    }
    if code == "InternalFailure"@ {
        assert("InternalFailure"@.len() != "ResourceNotFoundException"@.len());
        assert("InternalFailure"@.len() != "ParameterNotFound"@.len());
        assert("InternalFailure"@.len() != "ParameterVersionNotFound"@.len());
        assert("InternalFailure"@.len() != "AccessDeniedException"@.len());
        assert("InternalFailure"@.len() != "UnauthorizedOperation"@.len());
        assert("InternalFailure"@.len() != "AccessDenied"@.len());
        assert("InternalFailure"@.len() != "UnrecognizedClientException"@.len());
        assert("InternalFailure"@.len() != "InvalidSignatureException"@.len());
        assert("InternalFailure"@.len() != "ExpiredTokenException"@.len());
        assert("InternalFailure"@.len() != "IncompleteSignature"@.len());
        assert("InternalFailure"@.len() != "ThrottlingException"@.len());
        assert("InternalFailure"@.len() != "Throttling"@.len());
        assert("InternalFailure"@.len() != "TooManyRequestsException"@.len());
        assert("InternalFailure"@.len() != "RequestLimitExceeded"@.len());
        assert("InternalFailure"@.len() != "SlowDown"@.len());
        assert("InternalFailure"@.len() != "InvalidParameterException"@.len());
        assert("InternalFailure"@.len() != "InvalidRequestException"@.len());
        assert("InternalFailure"@.len() != "ValidationException"@.len());
    }
    if code == "InternalServerError"@ {
        assert("InternalServerError"@.len() != "ResourceNotFoundException"@.len());
        assert("InternalServerError"@.len() != "ParameterNotFound"@.len());
        assert("InternalServerError"@.len() != "ParameterVersionNotFound"@.len());
        assert("InternalServerError"@.len() != "AccessDeniedException"@.len());
        assert("InternalServerError"@.len() != "UnauthorizedOperation"@.len());
        assert("InternalServerError"@.len() != "AccessDenied"@.len());
        assert("InternalServerError"@.len() != "UnrecognizedClientException"@.len());
        assert("InternalServerError"@.len() != "InvalidSignatureException"@.len());
        assert("InternalServerError"@.len() != "ExpiredTokenException"@.len());
        assert("InternalServerError"@[2] != "IncompleteSignature"@[2]);
        assert("InternalServerError"@[0] != "ThrottlingException"@[0]);
        assert("InternalServerError"@.len() != "Throttling"@.len());
        assert("InternalServerError"@.len() != "TooManyRequestsException"@.len());
        assert("InternalServerError"@.len() != "RequestLimitExceeded"@.len());
        assert("InternalServerError"@.len() != "SlowDown"@.len());
        assert("InternalServerError"@.len() != "InvalidParameterException"@.len());
        assert("InternalServerError"@.len() != "InvalidRequestException"@.len());
        assert("InternalServerError"@[0] != "ValidationException"@[0]);
    }
}

/// Every transport failure is reported with a message of its own kind.
pub proof fn lemma_transport_failure_messages(timed_out: bool)
    ensures
        sdk_failure_message(SdkFailure::Timeout) == "request timed out"@,
        sdk_failure_message(SdkFailure::Dispatch { timed_out }) == if timed_out {
            "connection timed out"@
        } else {
            "network dispatch failure"@
        },
        sdk_failure_message(SdkFailure::Response) == "invalid response from AWS"@,
        sdk_failure_message(SdkFailure::Construction) == "failed to construct AWS request"@,
        sdk_failure_message(SdkFailure::Other) == "unknown AWS SDK error"@,
{
}

} // verus!
