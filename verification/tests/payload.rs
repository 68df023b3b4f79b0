use dotenv_cloud_provider_aws::error::ErrorClass;
use dotenv_cloud_provider_aws::payload::{secret_manager_id, ssm_parameter_name};
use dotenv_cloud_provider_aws::protocol::Reference;

fn reference(authority: Option<&str>, path: &str) -> Reference {
    Reference {
        original: "aws-secrets://...".into(),
        scheme: "aws-secrets".into(),
        authority: authority.map(String::from),
        path: path.to_string(),
        fragment: None,
        query: Vec::new(),
    }
}

#[test]
fn sm_id_from_authority_and_path() {
    assert_eq!(
        secret_manager_id(&reference(Some("prod"), "/db/password")).unwrap(),
        "prod/db/password"
    );
}

#[test]
fn sm_id_from_path_only() {
    assert_eq!(
        secret_manager_id(&reference(None, "/foo/bar")).unwrap(),
        "foo/bar"
    );
}

#[test]
fn ssm_name_triple_slash_is_absolute() {
    assert_eq!(
        ssm_parameter_name(&reference(None, "/prod/app/api_token")).unwrap(),
        "/prod/app/api_token"
    );
}

#[test]
fn ssm_name_double_slash_gets_leading_slash() {
    assert_eq!(
        ssm_parameter_name(&reference(Some("prod"), "/app")).unwrap(),
        "/prod/app"
    );
}

#[test]
fn sm_id_strips_every_leading_slash() {
    assert_eq!(secret_manager_id(&reference(None, "///a/b")).unwrap(), "a/b");
}

#[test]
fn sm_id_of_slashes_only_is_invalid() {
    for path in ["", "/", "///"] {
        let e = secret_manager_id(&reference(None, path)).unwrap_err();
        assert_eq!(e.class, ErrorClass::InvalidReference);
        assert_eq!(e.message, "empty Secrets Manager secret id");
    }
}

#[test]
fn ssm_name_of_empty_or_lone_slash_is_invalid() {
    for path in ["", "/"] {
        let e = ssm_parameter_name(&reference(None, path)).unwrap_err();
        assert_eq!(e.class, ErrorClass::InvalidReference);
        assert_eq!(e.message, "empty SSM parameter name");
    }
    assert_eq!(ssm_parameter_name(&reference(None, "//")).unwrap(), "//");
}

#[test]
fn names_keep_non_ascii_text() {
    assert_eq!(secret_manager_id(&reference(Some("pröd"), "/ключ")).unwrap(), "pröd/ключ");
    assert_eq!(ssm_parameter_name(&reference(Some("pröd"), "/ключ")).unwrap(), "/pröd/ключ");
}

#[test]
fn parameter_name_without_leading_slash_is_secret_id() {
    for (authority, path) in [(Some("prod"), "/db/pw"), (None, "/x"), (None, "//y/z"), (Some("a"), "")] {
        let r = reference(authority, path);
        let id = secret_manager_id(&r).unwrap();
        let name = ssm_parameter_name(&r).unwrap();
        assert_eq!(name.trim_start_matches('/'), id);
        assert!(name.starts_with('/'));
        assert!(!id.starts_with('/'));
    }
}
