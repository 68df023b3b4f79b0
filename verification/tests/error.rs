use dotenv_cloud_provider_aws::error::{
    classify_code, map_sdk_error, redact_reference, ErrorClass, ProviderError, SdkFailure,
};

const ALL: [ErrorClass; 10] = [
    ErrorClass::AuthenticationFailed,
    ErrorClass::PermissionDenied,
    ErrorClass::NotFound,
    ErrorClass::InvalidReference,
    ErrorClass::InvalidSecretPayload,
    ErrorClass::Timeout,
    ErrorClass::RateLimited,
    ErrorClass::Network,
    ErrorClass::ProviderUnavailable,
    ErrorClass::Internal,
];

#[test]
fn wire_names_are_variant_names() {
    assert_eq!(ErrorClass::NotFound.as_str(), "NotFound");
    assert_eq!(ErrorClass::InvalidSecretPayload.as_str(), "InvalidSecretPayload");
    for c in ALL {
        assert_eq!(format!("{:?}", c), c.as_str());
    }
}

#[test]
fn wire_names_are_distinct() {
    for a in ALL {
        for b in ALL {
            assert_eq!(a.as_str() == b.as_str(), a == b);
        }
    }
}

#[test]
fn constructors_set_class_and_message() {
    let e = ProviderError::new(ErrorClass::Timeout, "slow");
    assert_eq!(e.class, ErrorClass::Timeout);
    assert_eq!(e.message, "slow");
    assert_eq!(ProviderError::invalid_reference("r").class, ErrorClass::InvalidReference);
    assert_eq!(ProviderError::invalid_payload("p").class, ErrorClass::InvalidSecretPayload);
    let i = ProviderError::internal("i");
    assert_eq!(i.class, ErrorClass::Internal);
    assert_eq!(i.message, "i");
}

#[test]
fn classifies_codes() {
    let cases = [
        ("ResourceNotFoundException", ErrorClass::NotFound),
        ("ParameterNotFound", ErrorClass::NotFound),
        ("ParameterVersionNotFound", ErrorClass::NotFound),
        ("AccessDeniedException", ErrorClass::PermissionDenied),
        ("UnauthorizedOperation", ErrorClass::PermissionDenied),
        ("AccessDenied", ErrorClass::PermissionDenied),
        ("UnrecognizedClientException", ErrorClass::AuthenticationFailed),
        ("InvalidSignatureException", ErrorClass::AuthenticationFailed),
        ("ExpiredTokenException", ErrorClass::AuthenticationFailed),
        ("IncompleteSignature", ErrorClass::AuthenticationFailed),
        ("ThrottlingException", ErrorClass::RateLimited),
        ("Throttling", ErrorClass::RateLimited),
        ("TooManyRequestsException", ErrorClass::RateLimited),
        ("RequestLimitExceeded", ErrorClass::RateLimited),
        ("SlowDown", ErrorClass::RateLimited),
        ("InvalidParameterException", ErrorClass::InvalidReference),
        ("InvalidRequestException", ErrorClass::InvalidReference),
        ("ValidationException", ErrorClass::InvalidReference),
        ("InternalServiceError", ErrorClass::ProviderUnavailable),
        ("InternalFailure", ErrorClass::ProviderUnavailable),
        ("InternalServerError", ErrorClass::ProviderUnavailable),
        ("SomethingElse", ErrorClass::Internal),
        ("notfound", ErrorClass::Internal),
        ("", ErrorClass::Internal),
    ];
    for (code, class) in cases {
        assert_eq!(classify_code(Some(code)), class, "{code}");
    }
    assert_eq!(classify_code(None), ErrorClass::Internal);
}

#[test]
fn maps_sdk_failures() {
    let e = map_sdk_error(&SdkFailure::Timeout);
    assert_eq!((e.class, e.message.as_str()), (ErrorClass::Timeout, "request timed out"));
    let e = map_sdk_error(&SdkFailure::Dispatch { timed_out: true });
    assert_eq!((e.class, e.message.as_str()), (ErrorClass::Timeout, "connection timed out"));
    let e = map_sdk_error(&SdkFailure::Dispatch { timed_out: false });
    assert_eq!((e.class, e.message.as_str()), (ErrorClass::Network, "network dispatch failure"));
    let e = map_sdk_error(&SdkFailure::Service { code: Some("AccessDeniedException".into()) });
    assert_eq!(
        (e.class, e.message.as_str()),
        (ErrorClass::PermissionDenied, "AWS error: AccessDeniedException")
    );
    let e = map_sdk_error(&SdkFailure::Service { code: Some("Weird".into()) });
    assert_eq!((e.class, e.message.as_str()), (ErrorClass::Internal, "AWS error: Weird"));
    let e = map_sdk_error(&SdkFailure::Service { code: None });
    assert_eq!((e.class, e.message.as_str()), (ErrorClass::Internal, "AWS service error"));
    let e = map_sdk_error(&SdkFailure::Response);
    assert_eq!((e.class, e.message.as_str()), (ErrorClass::Network, "invalid response from AWS"));
    let e = map_sdk_error(&SdkFailure::Construction);
    assert_eq!(
        (e.class, e.message.as_str()),
        (ErrorClass::Internal, "failed to construct AWS request")
    );
    let e = map_sdk_error(&SdkFailure::Other);
    assert_eq!((e.class, e.message.as_str()), (ErrorClass::Internal, "unknown AWS SDK error"));
}

#[test]
fn redacts_path_segment() {
    assert_eq!(redact_reference("aws-sm://prod/db/password"), "aws-sm://prod/db/[redacted]");
}

#[test]
fn redacts_fragment_and_path_segment() {
    assert_eq!(
        redact_reference("vault://kv/data/app#api_key"),
        "vault://kv/data/[redacted]#[redacted]"
    );
    assert_eq!(redact_reference("a#b#c"), "a#[redacted]");
    assert_eq!(redact_reference("a/b#"), "a/[redacted]#[redacted]");
    assert_eq!(redact_reference("a/b#c/d"), "a/[redacted]#[redacted]");
    assert_eq!(redact_reference("aws-sm://prod/#k"), "aws-sm://prod/#[redacted]");
}

#[test]
fn keeps_references_without_a_last_segment() {
    assert_eq!(redact_reference("noslash"), "noslash");
    assert_eq!(redact_reference("aws-sm://prod/"), "aws-sm://prod/");
    assert_eq!(redact_reference(""), "");
    assert_eq!(redact_reference("/x"), "/[redacted]");
}

#[test]
fn redaction_is_idempotent() {
    for s in [
        "aws-sm://prod/db/password",
        "vault://kv/data/app#api_key",
        "noslash",
        "a/",
        "#",
        "x/y#z/w",
        "ключ/значение",
    ] {
        let once = redact_reference(s);
        assert_eq!(redact_reference(&once), once);
    }
}
