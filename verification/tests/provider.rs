use dotenv_cloud_provider_aws::config::AwsConfig;
use dotenv_cloud_provider_aws::error::{ErrorClass, ProviderError};
use dotenv_cloud_provider_aws::protocol::Reference;
use dotenv_cloud_provider_aws::provider::{
    config_schema, parse_bool, resolve_backend, resolved_from_selection, secrets_manager_outcome,
    secrets_manager_request, ssm_outcome, ssm_request, Backend, FieldKind, SecretValue,
    SsmParameter,
};

fn reference(scheme: &str, authority: Option<&str>, path: &str, query: &[(&str, &str)]) -> Reference {
    let mut r = Reference {
        original: format!("{scheme}://..."),
        scheme: scheme.to_string(),
        authority: authority.map(String::from),
        path: path.to_string(),
        fragment: None,
        query: Vec::new(),
    };
    for (k, v) in query {
        r.insert_query(k.to_string(), v.to_string());
    }
    r
}

#[test]
fn routes_by_scheme() {
    assert_eq!(resolve_backend(&reference("aws-secrets", None, "/a", &[])).unwrap(), Backend::SecretsManager);
    assert_eq!(resolve_backend(&reference("aws-sm", None, "/a", &[])).unwrap(), Backend::SecretsManager);
    assert_eq!(resolve_backend(&reference("aws-ssm", None, "/a", &[])).unwrap(), Backend::ParameterStore);
    let e = resolve_backend(&reference("vault", None, "/a", &[])).unwrap_err();
    assert_eq!(e.class, ErrorClass::InvalidReference);
    assert_eq!(e.message, "unsupported scheme `vault`");
}

#[test]
fn secrets_manager_request_carries_versions() {
    let r = reference("aws-secrets", Some("prod"), "/db/password", &[("version_id", "abc"), ("version_stage", "AWSCURRENT")]);
    let q = secrets_manager_request(&r).unwrap();
    assert_eq!(q.secret_id, "prod/db/password");
    assert_eq!(q.version_id.as_deref(), Some("abc"));
    assert_eq!(q.version_stage.as_deref(), Some("AWSCURRENT"));
    let q = secrets_manager_request(&reference("aws-secrets", None, "/x", &[])).unwrap();
    assert_eq!(q.version_id, None);
    assert_eq!(q.version_stage, None);
    let e = secrets_manager_request(&reference("aws-secrets", None, "/", &[])).unwrap_err();
    assert_eq!(e.class, ErrorClass::InvalidReference);
}

#[test]
fn selection_outcomes() {
    let ok = resolved_from_selection(Ok("abc".into()), Some("v1".into())).unwrap();
    assert_eq!(ok.value, "abc");
    assert_eq!(ok.version.as_deref(), Some("v1"));
    let e = resolved_from_selection(
        Err(ProviderError::invalid_payload("field `k` not present in secret payload")),
        None,
    )
    .unwrap_err();
    assert_eq!(e.class, ErrorClass::InvalidSecretPayload);
    assert_eq!(e.message, "field `k` not present in secret payload");
    let e = resolved_from_selection(Err(ProviderError::new(ErrorClass::Internal, "odd")), None).unwrap_err();
    assert_eq!(e.class, ErrorClass::Internal);
    assert_eq!(e.message, "odd");
}

#[test]
fn secret_string_wins() {
    let r = reference("aws-secrets", None, "/x", &[]);
    let v = SecretValue {
        version_id: Some("ver".into()),
        selected_string: Some(Ok("plain".into())),
        secret_binary: Some(vec![1, 2, 3]),
    };
    let s = secrets_manager_outcome(&r, v).unwrap();
    assert_eq!(s.value, "plain");
    assert_eq!(s.version.as_deref(), Some("ver"));
}

#[test]
fn binary_secret_needs_base64_option() {
    let v = || SecretValue { version_id: None, selected_string: None, secret_binary: Some(b"hello".to_vec()) };
    let e = secrets_manager_outcome(&reference("aws-secrets", None, "/x", &[]), v()).unwrap_err();
    assert_eq!(e.class, ErrorClass::InvalidSecretPayload);
    assert_eq!(e.message, "secret is binary; add `?binary=base64` to encode it");
    let e = secrets_manager_outcome(&reference("aws-secrets", None, "/x", &[("binary", "hex")]), v()).unwrap_err();
    assert_eq!(e.class, ErrorClass::InvalidSecretPayload);
    let s = secrets_manager_outcome(&reference("aws-secrets", None, "/x", &[("binary", "BASE64")]), v()).unwrap();
    assert_eq!(s.value, "aGVsbG8=");
    let s = secrets_manager_outcome(
        &reference("aws-secrets", None, "/x", &[("binary", "base64")]),
        SecretValue { version_id: Some("7".into()), selected_string: None, secret_binary: Some(vec![0xff, 0x00]) },
    )
    .unwrap();
    assert_eq!(s.value, "/wA=");
    for (bytes, text) in [(&b""[..], ""), (b"f", "Zg=="), (b"fo", "Zm8="), (b"foo", "Zm9v"), (b"foobar", "Zm9vYmFy")] {
        let s = secrets_manager_outcome(
            &reference("aws-secrets", None, "/x", &[("binary", "base64")]),
            SecretValue { version_id: None, selected_string: None, secret_binary: Some(bytes.to_vec()) },
        )
        .unwrap();
        assert_eq!(s.value, text);
        assert_eq!(s.value.len(), 4 * ((bytes.len() + 2) / 3));
    }
    assert_eq!(s.version.as_deref(), Some("7"));
}

#[test]
fn secret_without_value_is_invalid() {
    let v = SecretValue { version_id: None, selected_string: None, secret_binary: None };
    let e = secrets_manager_outcome(&reference("aws-secrets", None, "/x", &[]), v).unwrap_err();
    assert_eq!(e.class, ErrorClass::InvalidSecretPayload);
    assert_eq!(e.message, "secret has no value");
}

#[test]
fn parses_flags() {
    for s in ["true", "TRUE", "True", "1", "yes", "YeS"] {
        assert_eq!(parse_bool(s), Some(true), "{s}");
    }
    for s in ["false", "FALSE", "0", "no", "No"] {
        assert_eq!(parse_bool(s), Some(false), "{s}");
    }
    for s in ["", "x", "truee", "y", "2", " true"] {
        assert_eq!(parse_bool(s), None, "{s}");
    }
}

#[test]
fn decryption_precedence() {
    let cfg_off = AwsConfig { ssm_with_decryption: Some(false), ..AwsConfig::default() };
    let none = AwsConfig::default();
    let r = reference("aws-ssm", None, "/prod/app/api_token", &[]);
    let q = ssm_request(&r, &none).unwrap();
    assert_eq!(q.name, "/prod/app/api_token");
    assert!(q.with_decryption);
    assert!(!ssm_request(&r, &cfg_off).unwrap().with_decryption);
    let r = reference("aws-ssm", None, "/p", &[("with_decryption", "TRUE")]);
    assert!(ssm_request(&r, &cfg_off).unwrap().with_decryption);
    let r = reference("aws-ssm", None, "/p", &[("with_decryption", "no")]);
    assert!(!ssm_request(&r, &none).unwrap().with_decryption);
    let r = reference("aws-ssm", None, "/p", &[("with_decryption", "maybe")]);
    assert!(!ssm_request(&r, &cfg_off).unwrap().with_decryption);
    assert!(ssm_request(&r, &none).unwrap().with_decryption);
    let e = ssm_request(&reference("aws-ssm", None, "/", &[]), &none).unwrap_err();
    assert_eq!(e.class, ErrorClass::InvalidReference);
    assert_eq!(e.message, "empty SSM parameter name");
}

#[test]
fn ssm_outcomes() {
    let e = ssm_outcome(None).unwrap_err();
    assert_eq!(e.class, ErrorClass::NotFound);
    assert_eq!(e.message, "parameter not found");
    let e = ssm_outcome(Some(SsmParameter { selected_value: None, version: 3 })).unwrap_err();
    assert_eq!(e.class, ErrorClass::InvalidSecretPayload);
    assert_eq!(e.message, "parameter has no value");
    let s = ssm_outcome(Some(SsmParameter { selected_value: Some(Ok("tok".into())), version: 42 })).unwrap();
    assert_eq!(s.value, "tok");
    assert_eq!(s.version.as_deref(), Some("42"));
    for n in [0i64, 7, 10, 1234567890, -1, -305, i64::MAX, i64::MIN] {
        let s = ssm_outcome(Some(SsmParameter { selected_value: Some(Ok("v".into())), version: n })).unwrap();
        assert_eq!(s.version, Some(n.to_string()));
    }
    let e = ssm_outcome(Some(SsmParameter {
        selected_value: Some(Err(ProviderError::invalid_payload("bad"))),
        version: 1,
    }))
    .unwrap_err();
    assert_eq!(e.class, ErrorClass::InvalidSecretPayload);
    assert_eq!(e.message, "bad");
}

#[test]
fn describes_configuration() {
    let s = config_schema();
    assert_eq!(s.len(), 4);
    let keys: Vec<&str> = s.iter().map(|f| f.key.as_str()).collect();
    assert_eq!(keys, ["region", "profile", "timeout_ms", "ssm.with_decryption"]);
    assert_eq!(s[0].label, "AWS region");
    assert_eq!(s[1].label, "AWS named credentials profile");
    assert_eq!(s[2].label, "Per-request timeout in milliseconds");
    assert_eq!(s[3].label, "Decrypt SSM SecureString parameters");
    assert_eq!(s[0].kind, FieldKind::String);
    assert_eq!(s[2].kind, FieldKind::Integer);
    assert_eq!(s[3].kind, FieldKind::Bool);
    assert_eq!(s[3].default.as_deref(), Some("true"));
    assert!(s.iter().all(|f| !f.required && !f.secret));
    assert!(s[..3].iter().all(|f| f.default.is_none()));
}
