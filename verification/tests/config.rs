use dotenv_cloud_provider_aws::config::AwsConfig;
use dotenv_cloud_provider_aws::json::{JsonNumber, JsonValue};

fn object(members: Vec<(&str, JsonValue)>) -> JsonValue {
    JsonValue::Object(members.into_iter().map(|(k, v)| (k.to_string(), v)).collect())
}

fn string(s: &str) -> JsonValue {
    JsonValue::String(s.to_string())
}

#[test]
fn parses_full_config() {
    let v = object(vec![
        ("region", string("us-east-1")),
        ("profile", string("dev")),
        ("timeout_ms", JsonValue::Number(JsonNumber::PosInt(2000))),
        ("ssm", object(vec![("with_decryption", JsonValue::Bool(false))])),
    ]);
    let c = AwsConfig::from_json(&v);
    assert_eq!(c.region.as_deref(), Some("us-east-1"));
    assert_eq!(c.profile.as_deref(), Some("dev"));
    assert_eq!(c.timeout_ms, Some(2000));
    assert_eq!(c.ssm_with_decryption, Some(false));
}

#[test]
fn empty_config_is_all_none() {
    assert_eq!(AwsConfig::from_json(&object(vec![])), AwsConfig::default());
}

#[test]
fn members_of_the_wrong_type_are_ignored() {
    let v = object(vec![
        ("region", JsonValue::Number(JsonNumber::PosInt(1))),
        ("profile", JsonValue::Null),
        ("timeout_ms", JsonValue::Number(JsonNumber::NegInt(-5))),
        ("ssm", object(vec![("with_decryption", string("true"))])),
    ]);
    assert_eq!(AwsConfig::from_json(&v), AwsConfig::default());
}

#[test]
fn float_timeout_is_ignored() {
    let v = object(vec![("timeout_ms", JsonValue::Number(JsonNumber::Float))]);
    assert_eq!(AwsConfig::from_json(&v).timeout_ms, None);
}

#[test]
fn non_object_config_is_all_none() {
    assert_eq!(AwsConfig::from_json(&JsonValue::Null), AwsConfig::default());
    assert_eq!(AwsConfig::from_json(&string("region")), AwsConfig::default());
    assert_eq!(
        AwsConfig::from_json(&JsonValue::Array(vec![string("us-east-1")])),
        AwsConfig::default()
    );
}

#[test]
fn unknown_members_are_ignored() {
    let v = object(vec![("other", string("x")), ("region", string("eu-west-1"))]);
    let c = AwsConfig::from_json(&v);
    assert_eq!(c.region.as_deref(), Some("eu-west-1"));
    assert_eq!(c.profile, None);
}

#[test]
fn json_get_finds_members() {
    let v = object(vec![("a", JsonValue::Bool(true)), ("b", string("x"))]);
    assert_eq!(v.get("a").and_then(|m| m.as_bool()), Some(true));
    assert_eq!(v.get("b").and_then(|m| m.as_str()), Some("x"));
    assert!(v.get("c").is_none());
    assert!(string("x").get("a").is_none());
    assert_eq!(JsonValue::Number(JsonNumber::PosInt(7)).as_u64(), Some(7));
    assert_eq!(JsonValue::Number(JsonNumber::NegInt(-7)).as_u64(), None);
}
