//! Provider configuration read from the `provider_config` object that the core
//! passes with each resolve request.

use vstd::prelude::*;

use crate::json::{JsonNumber, JsonValue};
use crate::text::opt_view;

verus! {

/// AWS provider configuration. All fields are optional; the AWS default
/// credential and region chain fills in anything not given here.
#[derive(Debug, Clone, PartialEq, Eq)]
pub struct AwsConfig {
    pub region: Option<String>,
    pub profile: Option<String>,
    pub timeout_ms: Option<u64>,
    /// Default `with_decryption` for SSM (true where unset).
    pub ssm_with_decryption: Option<bool>,
}

/// The text of the string member `key` of `value`.
pub open spec fn string_member(value: JsonValue, key: Seq<char>) -> Option<Seq<char>> {
    match value.member(key) {
        Some(m) => m.string_value(),
        None => None,
    }
}

/// The non-negative integer member `key` of `value`.
pub open spec fn u64_member(value: JsonValue, key: Seq<char>) -> Option<u64> {
    match value.member(key) {
        Some(m) => m.u64_value(),
        None => None,
    }
}

/// The boolean `with_decryption` inside the `ssm` member of `value`.
pub open spec fn ssm_decryption_member(value: JsonValue) -> Option<bool> {
    match value.member("ssm"@) {
        Some(ssm) => match ssm.member("with_decryption"@) {
            Some(w) => w.bool_value(),
            None => None,
        },
        None => None,
    }
}

impl AwsConfig {
    /// The configuration that `value` describes: `region` and `profile` from
    /// string members, `timeout_ms` from a non-negative integer member, and
    /// `ssm_with_decryption` from the boolean `ssm.with_decryption`; members of
    /// another type, and everything else, are ignored.
    pub open spec fn described_by(self, value: JsonValue) -> bool {
        &&& opt_view(self.region) == string_member(value, "region"@)
        &&& opt_view(self.profile) == string_member(value, "profile"@)
        &&& self.timeout_ms == u64_member(value, "timeout_ms"@)
        &&& self.ssm_with_decryption == ssm_decryption_member(value)
    }

    /// Parse from the JSON `provider_config` table.
    pub fn from_json(value: &JsonValue) -> (r: AwsConfig)
        ensures
            r.described_by(*value),
    {
        AwsConfig {
            region: string_field(value, "region"),
            profile: string_field(value, "profile"),
            timeout_ms: match value.get("timeout_ms") {
                Some(v) => v.as_u64(),
                None => None,
            },
            ssm_with_decryption: match value.get("ssm") {
                Some(ssm) => match ssm.get("with_decryption") {
                    Some(w) => w.as_bool(),
                    None => None,
                },
                None => None,
            },
        }
    }
}

impl Default for AwsConfig {
    fn default() -> (r: AwsConfig)
        ensures
            r.region is None,
            r.profile is None,
            r.timeout_ms is None,
            r.ssm_with_decryption is None,
    {
        AwsConfig { region: None, profile: None, timeout_ms: None, ssm_with_decryption: None }
    }
}

/// The string member `key` of `value`, copied.
fn string_field(value: &JsonValue, key: &str) -> (r: Option<String>)
    ensures
        opt_view(r) == string_member(*value, key@),
{
    match value.get(key) {
        Some(v) => match v.as_str() {
            Some(s) => Some(s.to_owned()),
            None => None,
        },
        None => None,
    }
}

/// The parsed configuration takes each setting from the member of that name,
/// value for value: a string `region` or `profile` gives that text, a
/// non-negative integer `timeout_ms` gives that number, and an `ssm` object
/// whose `with_decryption` is the boolean `b` gives `b`, for true as for false.
/// A missing member gives no setting.
pub proof fn lemma_from_json_takes_member_values(
    c: AwsConfig,
    value: JsonValue,
    text: String,
    n: u64,
    ssm: JsonValue,
    b: bool,
)
    requires
        c.described_by(value),
    ensures
        value.member("region"@) == Some(JsonValue::String(text)) ==> (c.region matches Some(r)
            && r@ == text@),
        value.member("profile"@) == Some(JsonValue::String(text)) ==> (c.profile matches Some(p)
            && p@ == text@),
        value.member("timeout_ms"@) == Some(JsonValue::Number(JsonNumber::PosInt(n))) ==> c.timeout_ms
            == Some(n),
        value.member("ssm"@) == Some(ssm) && ssm.member("with_decryption"@) == Some(
            JsonValue::Bool(b),
        ) ==> c.ssm_with_decryption == Some(b),
        value.member("region"@) is None ==> c.region is None,
        value.member("profile"@) is None ==> c.profile is None,
        value.member("timeout_ms"@) is None ==> c.timeout_ms is None,
        value.member("ssm"@) is None ==> c.ssm_with_decryption is None,
{
}

} // verus!
