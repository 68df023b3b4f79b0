//! The decisions around each AWS request: which service a reference goes to,
//! what is asked of it, and what its answer resolves to; and how the plugin
//! describes its configuration.

use vstd::prelude::*;
use vstd::string::*;
use base64::Engine;

use crate::config::AwsConfig;
use crate::error::{ErrorClass, ProviderError};
use crate::payload::{
    joined_name, parameter_name_of, secret_id_of, secret_manager_id, ssm_parameter_name,
};
use crate::protocol::Reference;
use crate::text::{
    ascii_lowercase, decimal, digits_value, eq_ignore_ascii_case, i64_to_decimal,
    lemma_decimal_reads_back, opt_view, str_eq,
};

verus! {

/// The value that a boolean flag such as `with_decryption=true` spells, read
/// after ASCII capitals are made small: `true`, `1`, `yes` and `false`, `0`,
/// `no`; anything else spells none. This is the whole rule of
/// `dotenv_cloud_provider_sdk::parse_bool` (`to_ascii_lowercase`, then a match
/// on these six spellings).
pub open spec fn flag_value(s: Seq<char>) -> Option<bool> {
    let l = ascii_lowercase(s);
    if l == "true"@ || l == "1"@ || l == "yes"@ {
        Some(true)
    } else if l == "false"@ || l == "0"@ || l == "no"@ {
        Some(false)
    } else {
        None
    }
}

/// The value that a boolean query or config flag spells, by the rule of the
/// protocol SDK's `parse_bool`.
pub fn parse_bool(s: &str) -> (r: Option<bool>)
    ensures
        r == flag_value(s@),
{
    proof {
        reveal_strlit("true");
        reveal_strlit("1");
        reveal_strlit("yes");
        reveal_strlit("false");
        reveal_strlit("0");
        reveal_strlit("no");
        assert(ascii_lowercase("true"@) =~= "true"@);
        assert(ascii_lowercase("1"@) =~= "1"@);
        assert(ascii_lowercase("yes"@) =~= "yes"@);
        assert(ascii_lowercase("false"@) =~= "false"@);
        assert(ascii_lowercase("0"@) =~= "0"@);
        assert(ascii_lowercase("no"@) =~= "no"@);
    }
    if eq_ignore_ascii_case(s, "true") || eq_ignore_ascii_case(s, "1") || eq_ignore_ascii_case(
        s,
        "yes",
    ) {
        Some(true)
    } else if eq_ignore_ascii_case(s, "false") || eq_ignore_ascii_case(s, "0")
        || eq_ignore_ascii_case(s, "no") {
        Some(false)
    } else {
        None
    }
}

/// The AWS service that resolves a reference.
#[derive(Debug, Clone, Copy, PartialEq, Eq, Structural)]
pub enum Backend {
    SecretsManager,
    ParameterStore,
}

/// The service for a scheme: `aws-secrets` (and its short form `aws-sm`) for
/// Secrets Manager, `aws-ssm` for the SSM Parameter Store.
pub open spec fn backend_of(scheme: Seq<char>) -> Option<Backend> {
    if scheme == "aws-secrets"@ || scheme == "aws-sm"@ {
        Some(Backend::SecretsManager)
    } else if scheme == "aws-ssm"@ {
        Some(Backend::ParameterStore)
    } else {
        None
    }
}

/// Dispatch by scheme.
pub fn resolve_backend(reference: &Reference) -> (r: Result<Backend, ProviderError>)
    ensures
        match r {
            Ok(b) => backend_of(reference.scheme@) == Some(b),
            Err(e) => backend_of(reference.scheme@) is None && e.class
                == ErrorClass::InvalidReference && e.message@ == "unsupported scheme `"@
                + reference.scheme@ + "`"@,
        },
{
    let scheme = reference.scheme.as_str();
    if str_eq(scheme, "aws-secrets") || str_eq(scheme, "aws-sm") {
        Ok(Backend::SecretsManager)
    } else if str_eq(scheme, "aws-ssm") {
        Ok(Backend::ParameterStore)
    } else {
        let message = "unsupported scheme `".to_owned().concat(scheme).concat("`");
        Err(ProviderError { class: ErrorClass::InvalidReference, message })
    }
}

/// A resolved secret value, with the version that the service reports.
#[derive(Debug)]
pub struct ResolvedSecret {
    pub value: String,
    pub version: Option<String>,
}

/// What a resolution comes to: the value and version, or the error's class and message.
pub type Outcome = Result<(Seq<char>, Option<Seq<char>>), (ErrorClass, Seq<char>)>;

/// The outcome that a result stands for.
pub open spec fn outcome_of(r: Result<ResolvedSecret, ProviderError>) -> Outcome {
    match r {
        Ok(s) => Ok((s.value@, opt_view(s.version))),
        Err(e) => Err((e.class, e.message@)),
    }
}

/// A field selection that gave a value resolves to it; one that failed
/// resolves to the selection's own error, class and message unchanged.
pub open spec fn selection_outcome(
    selection: Result<String, ProviderError>,
    version: Option<Seq<char>>,
) -> Outcome {
    match selection {
        Ok(v) => Ok((v@, version)),
        Err(e) => Err((e.class, e.message@)),
    }
}

/// The resolution of a secret text after the reference's `#fragment` field
/// selection: the selected text, or the selection's error handed on unchanged.
pub fn resolved_from_selection(
    selection: Result<String, ProviderError>,
    version: Option<String>,
) -> (r: Result<ResolvedSecret, ProviderError>)
    ensures
        outcome_of(r) == selection_outcome(selection, opt_view(version)),
{
    match selection {
        Ok(value) => Ok(ResolvedSecret { value, version }),
        Err(e) => Err(e),
    }
}

/// What `GetSecretValue` is asked for.
#[derive(Debug)]
pub struct SecretsManagerRequest {
    pub secret_id: String,
    pub version_id: Option<String>,
    pub version_stage: Option<String>,
}

/// The `GetSecretValue` request for a reference: the secret id, and the
/// `version_id` and `version_stage` query options.
pub fn secrets_manager_request(reference: &Reference) -> (r: Result<
    SecretsManagerRequest,
    ProviderError,
>)
    ensures
        match r {
            Ok(q) => secret_id_of(joined_name(*reference)) == Some(q.secret_id@) && opt_view(
                q.version_id,
            ) == reference.query_value("version_id"@) && opt_view(q.version_stage)
                == reference.query_value("version_stage"@),
            Err(e) => secret_id_of(joined_name(*reference)) is None && e.class
                == ErrorClass::InvalidReference && e.message@ == "empty Secrets Manager secret id"@,
        },
{
    let secret_id = secret_manager_id(reference)?;
    let version_id = match reference.query_get("version_id") {
        Some(v) => Some(v.clone()),
        None => None,
    };
    let version_stage = match reference.query_get("version_stage") {
        Some(v) => Some(v.clone()),
        None => None,
    };
    Ok(SecretsManagerRequest { secret_id, version_id, version_stage })
}

/// The answer of `GetSecretValue`, as far as the resolution reads it.
#[derive(Debug)]
pub struct SecretValue {
    /// The version id of the secret.
    pub version_id: Option<String>,
    /// Where the secret has a string: that string after the reference's
    /// `#fragment` field selection, or the error of the failed selection.
    pub selected_string: Option<Result<String, ProviderError>>,
    /// The secret's binary value.
    pub secret_binary: Option<Vec<u8>>,
}

/// The character of the 6-bit value `v` in the standard base64 alphabet:
/// `A`-`Z`, `a`-`z`, `0`-`9`, `+`, `/`.
pub open spec fn base64_char(v: u8) -> char {
    if v < 26 {
        (v + 65) as char
    } else if v < 52 {
        (v - 26 + 97) as char
    } else if v < 62 {
        (v - 52 + 48) as char
    } else if v == 62 {
        '+'
    } else {
        '/'
    }
}

/// The standard base64 encoding (RFC 4648) of `bytes`: each group of three
/// bytes becomes four characters of six bits each, most significant first;
/// a final group of one or two bytes is padded with `=` to four characters.
pub open spec fn base64_standard(bytes: Seq<u8>) -> Seq<char>
    decreases bytes.len(),
{
    if bytes.len() == 0 {
        Seq::empty()
    } else if bytes.len() == 1 {
        let b0 = bytes[0];
        seq![base64_char(b0 >> 2), base64_char((b0 & 3) << 4), '=', '=']
    } else if bytes.len() == 2 {
        let b0 = bytes[0];
        let b1 = bytes[1];
        seq![
            base64_char(b0 >> 2),
            base64_char(((b0 & 3) << 4) | (b1 >> 4)),
            base64_char((b1 & 15) << 2),
            '=',
        ]
    } else {
        let b0 = bytes[0];
        let b1 = bytes[1];
        let b2 = bytes[2];
        seq![
            base64_char(b0 >> 2),
            base64_char(((b0 & 3) << 4) | (b1 >> 4)),
            base64_char(((b1 & 15) << 2) | (b2 >> 6)),
            base64_char(b2 & 63),
        ] + base64_standard(bytes.skip(3))
    }
}

/// The base64 text of `n` bytes has four characters for each started group
/// of three bytes.
pub proof fn lemma_base64_length(bytes: Seq<u8>)
    ensures
        base64_standard(bytes).len() == 4 * ((bytes.len() + 2) / 3),
    decreases bytes.len(),
{
    if bytes.len() >= 3 {
        lemma_base64_length(bytes.skip(3));
    }
}

/// Calls `base64::engine::general_purpose::STANDARD.encode` (standard
/// alphabet, `=` padding); trusted to return the RFC 4648 base64 text of
/// exactly the given bytes.
#[verifier::external_body]
fn encode_base64(bytes: &[u8]) -> (r: String)
    ensures
        r@ == base64_standard(bytes@),
{
    base64::engine::general_purpose::STANDARD.encode(bytes)
}

/// Whether the reference asks for a binary secret as base64: its `binary`
/// query option is `base64`, in any ASCII case.
pub open spec fn wants_base64(reference: Reference) -> bool {
    match reference.query_value("binary"@) {
        Some(v) => ascii_lowercase(v) == ascii_lowercase("base64"@),
        None => false,
    }
}

/// What a Secrets Manager answer resolves to: its string after field
/// selection; else its binary value in base64, where the reference asks for
/// that; else an invalid payload.
pub open spec fn secrets_manager_outcome_of(reference: Reference, value: SecretValue) -> Outcome {
    let version = opt_view(value.version_id);
    match value.selected_string {
        Some(selection) => selection_outcome(selection, version),
        None => match value.secret_binary {
            Some(b) => if wants_base64(reference) {
                Ok((base64_standard(b@), version))
            } else {
                Err(
                    (
                        ErrorClass::InvalidSecretPayload,
                        "secret is binary; add `?binary=base64` to encode it"@,
                    ),
                )
            },
            None => Err((ErrorClass::InvalidSecretPayload, "secret has no value"@)),
        },
    }
}

/// Resolve a Secrets Manager answer for a reference.
pub fn secrets_manager_outcome(reference: &Reference, value: SecretValue) -> (r: Result<
    ResolvedSecret,
    ProviderError,
>)
    ensures
        outcome_of(r) == secrets_manager_outcome_of(*reference, value),
{
    let SecretValue { version_id, selected_string, secret_binary } = value;
    if let Some(selection) = selected_string {
        return resolved_from_selection(selection, version_id);
    }
    if let Some(blob) = secret_binary {
        // Binary secrets are only emitted when explicitly base64-encoded.
        let wants = match reference.query_get("binary") {
            Some(v) => eq_ignore_ascii_case(v.as_str(), "base64"),
            None => false,
        };
        if !wants {
            return Err(
                ProviderError::invalid_payload(
                    "secret is binary; add `?binary=base64` to encode it",
                ),
            );
        }
        let encoded = encode_base64(blob.as_slice());
        return resolved_from_selection(Ok(encoded), version_id);
    }
    Err(ProviderError::invalid_payload("secret has no value"))
}

/// What `GetParameter` is asked for.
#[derive(Debug)]
pub struct SsmRequest {
    pub name: String,
    pub with_decryption: bool,
}

/// Whether to decrypt: the reference's `with_decryption` flag where it spells
/// a value, else the configured default, else yes.
pub open spec fn decryption_wanted(reference: Reference, cfg: AwsConfig) -> bool {
    let from_query = match reference.query_value("with_decryption"@) {
        Some(v) => flag_value(v),
        None => None,
    };
    match from_query {
        Some(b) => b,
        None => match cfg.ssm_with_decryption {
            Some(b) => b,
            None => true,
        },
    }
}

/// The `GetParameter` request for a reference.
pub fn ssm_request(reference: &Reference, cfg: &AwsConfig) -> (r: Result<SsmRequest, ProviderError>)
    ensures
        match r {
            Ok(q) => parameter_name_of(joined_name(*reference)) == Some(q.name@)
                && q.with_decryption == decryption_wanted(*reference, *cfg),
            Err(e) => parameter_name_of(joined_name(*reference)) is None && e.class
                == ErrorClass::InvalidReference && e.message@ == "empty SSM parameter name"@,
        },
{
    let name = ssm_parameter_name(reference)?;
    // Precedence for with_decryption: URI query > provider config > default true.
    let from_query = match reference.query_get("with_decryption") {
        Some(v) => parse_bool(v.as_str()),
        None => None,
    };
    let with_decryption = match from_query {
        Some(b) => b,
        None => match cfg.ssm_with_decryption {
            Some(b) => b,
            None => true,
        },
    };
    Ok(SsmRequest { name, with_decryption })
}

/// The parameter in the answer of `GetParameter`, as far as the resolution reads it.
#[derive(Debug)]
pub struct SsmParameter {
    /// Where the parameter has a value: that value after the reference's
    /// `#fragment` field selection, or the error of the failed selection.
    pub selected_value: Option<Result<String, ProviderError>>,
    /// The parameter's version.
    pub version: i64,
}

/// What an SSM answer resolves to: not found without a parameter, an invalid
/// payload without a value, else the value after field selection, with the
/// parameter's version in decimal.
pub open spec fn ssm_outcome_of(parameter: Option<SsmParameter>) -> Outcome {
    match parameter {
        None => Err((ErrorClass::NotFound, "parameter not found"@)),
        Some(p) => match p.selected_value {
            None => Err((ErrorClass::InvalidSecretPayload, "parameter has no value"@)),
            Some(selection) => selection_outcome(selection, Some(decimal(p.version as int))),
        },
    }
}

/// Resolve the answer of `GetParameter`.
pub fn ssm_outcome(parameter: Option<SsmParameter>) -> (r: Result<ResolvedSecret, ProviderError>)
    ensures
        outcome_of(r) == ssm_outcome_of(parameter),
{
    let param = match parameter {
        Some(p) => p,
        None => return Err(ProviderError::new(ErrorClass::NotFound, "parameter not found")),
    };
    let version = i64_to_decimal(param.version);
    match param.selected_value {
        Some(selection) => resolved_from_selection(selection, Some(version)),
        None => Err(ProviderError::invalid_payload("parameter has no value")),
    }
}

/// The type of a configurable setting.
#[derive(Debug, Clone, Copy, PartialEq, Eq, Structural)]
pub enum FieldKind {
    String,
    Bool,
    Integer,
}

/// One configurable provider setting.
#[derive(Debug)]
pub struct ConfigField {
    /// The setting's key; a dotted key nests.
    pub key: String,
    /// The prompt shown for it.
    pub label: String,
    pub kind: FieldKind,
    /// Its default, as text.
    pub default: Option<String>,
    pub required: bool,
    pub secret: bool,
}

/// `f` is the optional, non-secret setting `key` with the given label, kind
/// and default.
pub open spec fn optional_field(
    f: ConfigField,
    key: Seq<char>,
    label: Seq<char>,
    kind: FieldKind,
    default: Option<Seq<char>>,
) -> bool {
    &&& f.key@ == key
    &&& f.label@ == label
    &&& f.kind == kind
    &&& opt_view(f.default) == default
    &&& !f.required
    &&& !f.secret
}

/// An optional, non-secret setting.
fn optional_setting(key: &str, label: &str, kind: FieldKind, default: Option<&str>) -> (r:
    ConfigField)
    ensures
        optional_field(
            r,
            key@,
            label@,
            kind,
            match default {
                Some(d) => Some(d@),
                None => None,
            },
        ),
{
    ConfigField {
        key: key.to_owned(),
        label: label.to_owned(),
        kind,
        default: match default {
            Some(d) => Some(d.to_owned()),
            None => None,
        },
        required: false,
        secret: false,
    }
}

/// The settings the provider can be configured with: region, profile, the
/// per-request timeout, and whether SSM decrypts (by default it does).
pub fn config_schema() -> (r: Vec<ConfigField>)
    ensures
        r@.len() == 4,
        optional_field(r@[0], "region"@, "AWS region"@, FieldKind::String, None),
        optional_field(r@[1], "profile"@, "AWS named credentials profile"@, FieldKind::String, None),
        optional_field(
            r@[2],
            "timeout_ms"@,
            "Per-request timeout in milliseconds"@,
            FieldKind::Integer,
            None,
        ),
        optional_field(
            r@[3],
            "ssm.with_decryption"@,
            "Decrypt SSM SecureString parameters"@,
            FieldKind::Bool,
            Some("true"@),
        ),
{
    let mut fields: Vec<ConfigField> = Vec::new();
    fields.push(optional_setting("region", "AWS region", FieldKind::String, None));
    fields.push(optional_setting("profile", "AWS named credentials profile", FieldKind::String, None));
    fields.push(
        optional_setting(
            "timeout_ms",
            "Per-request timeout in milliseconds",
            FieldKind::Integer,
            None,
        ),
    );
    fields.push(
        optional_setting(
            "ssm.with_decryption",
            "Decrypt SSM SecureString parameters",
            FieldKind::Bool,
            Some("true"),
        ),
    );
    fields
}

/// A binary secret is handed out only as base64 and only where the reference
/// asks for it: a Secrets Manager answer without a string resolves to a value
/// exactly where the reference's `binary` option is `base64`, and then to the
/// base64 text of the bytes.
pub proof fn lemma_binary_secret_needs_base64(reference: Reference, value: SecretValue)
    requires
        value.selected_string is None,
        value.secret_binary is Some,
    ensures
        secrets_manager_outcome_of(reference, value) is Ok <==> wants_base64(reference),
        secrets_manager_outcome_of(reference, value) matches Ok((v, _)) ==> v == base64_standard(
            value.secret_binary.unwrap()@,
        ),
{
}

/// Whether `c` belongs to the standard base64 alphabet (RFC 4648):
/// `A`-`Z`, `a`-`z`, `0`-`9`, `+` and `/`.
pub open spec fn in_base64_alphabet(c: char) -> bool {
    ||| 'A' <= c && c <= 'Z'
    ||| 'a' <= c && c <= 'z'
    ||| '0' <= c && c <= '9'
    ||| c == '+'
    ||| c == '/'
}

/// The 6-bit value that a character of the standard alphabet stands for:
/// `A`-`Z` are 0-25, `a`-`z` 26-51, `0`-`9` 52-61, `+` is 62 and `/` is 63.
pub open spec fn base64_digit_value(c: char) -> u8 {
    if 'A' <= c && c <= 'Z' {
        ((c as u32) - 65) as u8
    } else if 'a' <= c && c <= 'z' {
        ((c as u32) - 97 + 26) as u8
    } else if '0' <= c && c <= '9' {
        ((c as u32) - 48 + 52) as u8
    } else if c == '+' {
        62
    } else {
        63
    }
}

/// Standard base64 decoding (RFC 4648): each group of four characters gives
/// three bytes, a group ending in `=` two, a group ending in `==` one.
pub open spec fn base64_decode(s: Seq<char>) -> Seq<u8>
    decreases s.len(),
{
    if s.len() < 4 {
        Seq::empty()
    } else {
        let a = base64_digit_value(s[0]);
        let b = base64_digit_value(s[1]);
        let c = base64_digit_value(s[2]);
        let d = base64_digit_value(s[3]);
        let x0 = (a << 2) | (b >> 4);
        let x1 = (b << 4) | (c >> 2);
        let x2 = (c << 6) | d;
        if s[2] == '=' {
            seq![x0]
        } else if s[3] == '=' {
            seq![x0, x1]
        } else {
            seq![x0, x1, x2] + base64_decode(s.skip(4))
        }
    }
}

/// A 6-bit value is written as a character of the standard alphabet, which
/// stands for that value again.
proof fn lemma_base64_char_round_trip(v: u8)
    requires
        v < 64,
    ensures
        in_base64_alphabet(base64_char(v)),
        base64_char(v) != '=',
        base64_digit_value(base64_char(v)) == v,
{
}

/// Splitting three bytes into four 6-bit values and joining them again gives
/// the bytes back.
proof fn lemma_sextets_regroup(b0: u8, b1: u8, b2: u8)
    by (bit_vector)
    ensures
        b0 >> 2 < 64u8,
        ((b0 & 3) << 4) | (b1 >> 4) < 64u8,
        ((b1 & 15) << 2) | (b2 >> 6) < 64u8,
        b2 & 63 < 64u8,
        (b0 & 3) << 4 < 64u8,
        (b1 & 15) << 2 < 64u8,
        ((b0 >> 2) << 2) | ((((b0 & 3) << 4) | (b1 >> 4)) >> 4) == b0,
        ((((b0 & 3) << 4) | (b1 >> 4)) << 4) | ((((b1 & 15) << 2) | (b2 >> 6)) >> 2) == b1,
        ((((b1 & 15) << 2) | (b2 >> 6)) << 6) | (b2 & 63) == b2,
        ((b0 >> 2) << 2) | (((b0 & 3) << 4) >> 4) == b0,
        ((((b0 & 3) << 4) | (b1 >> 4)) << 4) | (((b1 & 15) << 2) >> 2) == b1,
{
}

/// The base64 text of any bytes uses only the standard alphabet and `=`, and
/// standard base64 decoding gives the bytes back.
pub proof fn lemma_base64_decodes_to_bytes(bytes: Seq<u8>)
    ensures
        forall|i: int|
            0 <= i < base64_standard(bytes).len() ==> in_base64_alphabet(
                #[trigger] base64_standard(bytes)[i],
            ) || base64_standard(bytes)[i] == '=',
        base64_decode(base64_standard(bytes)) == bytes,
    decreases bytes.len(),
{
    let out = base64_standard(bytes);
    if bytes.len() == 0 {
    } else if bytes.len() == 1 {
        let b0 = bytes[0];
        lemma_sextets_regroup(b0, 0, 0);
        lemma_base64_char_round_trip(b0 >> 2);
        lemma_base64_char_round_trip((b0 & 3) << 4);
        assert(base64_decode(out) =~= bytes);
    } else if bytes.len() == 2 {
        let b0 = bytes[0];
        let b1 = bytes[1];
        lemma_sextets_regroup(b0, b1, 0);
        lemma_base64_char_round_trip(b0 >> 2);
        lemma_base64_char_round_trip(((b0 & 3) << 4) | (b1 >> 4));
        lemma_base64_char_round_trip((b1 & 15) << 2);
        assert(base64_decode(out) =~= bytes);
    } else {
        let b0 = bytes[0];
        let b1 = bytes[1];
        let b2 = bytes[2];
        lemma_sextets_regroup(b0, b1, b2);
        lemma_base64_char_round_trip(b0 >> 2);
        lemma_base64_char_round_trip(((b0 & 3) << 4) | (b1 >> 4));
        lemma_base64_char_round_trip(((b1 & 15) << 2) | (b2 >> 6));
        lemma_base64_char_round_trip(b2 & 63);
        let rest = bytes.skip(3);
        lemma_base64_decodes_to_bytes(rest);
        let head = seq![
            base64_char(b0 >> 2),
            base64_char(((b0 & 3) << 4) | (b1 >> 4)),
            base64_char(((b1 & 15) << 2) | (b2 >> 6)),
            base64_char(b2 & 63),
        ];
        assert(out == head + base64_standard(rest));
        assert(out.skip(4) =~= base64_standard(rest));
        assert forall|i: int| 0 <= i < out.len() implies in_base64_alphabet(#[trigger] out[i])
            || out[i] == '=' by {
            if i >= 4 {
                assert(out[i] == base64_standard(rest)[i - 4]);
            }
        }
        assert(base64_decode(out) =~= seq![b0, b1, b2] + rest);
        assert(bytes =~= seq![b0, b1, b2] + rest);
    }
}

/// The URI query's `with_decryption` flag, where it spells a value, decides
/// the request alone, whatever the provider configuration says; only where the
/// query has no such flag, or one that spells nothing, does the configured
/// value apply, and without one decryption is on.
pub proof fn lemma_query_flag_decides_decryption(
    reference: Reference,
    cfg: AwsConfig,
    other: AwsConfig,
)
    ensures
        (reference.query_value("with_decryption"@) matches Some(v) && flag_value(v) is Some) ==> (
        decryption_wanted(reference, cfg) == flag_value(
            reference.query_value("with_decryption"@).unwrap(),
        ).unwrap() && decryption_wanted(reference, cfg) == decryption_wanted(reference, other)),
        (match reference.query_value("with_decryption"@) {
            Some(v) => flag_value(v) is None,
            None => true,
        }) ==> decryption_wanted(reference, cfg) == (match cfg.ssm_with_decryption {
            Some(c) => c,
            None => true,
        }),
{
}

/// Each spelling of a flag reads as its own value: `true`, `1`, `yes` as on
/// and `false`, `0`, `no` as off, in any ASCII case.
pub proof fn lemma_flag_spellings(s: Seq<char>)
    ensures
        ascii_lowercase(s) == "false"@ || ascii_lowercase(s) == "0"@ || ascii_lowercase(s)
            == "no"@ ==> flag_value(s) == Some(false),
        ascii_lowercase(s) == "true"@ || ascii_lowercase(s) == "1"@ || ascii_lowercase(s)
            == "yes"@ ==> flag_value(s) == Some(true),
        flag_value(s) is Some ==> (ascii_lowercase(s) == "true"@ || ascii_lowercase(s) == "1"@
            || ascii_lowercase(s) == "yes"@ || ascii_lowercase(s) == "false"@ || ascii_lowercase(s)
            == "0"@ || ascii_lowercase(s) == "no"@),
{
    reveal_strlit("true");
    reveal_strlit("1");
    reveal_strlit("yes");
    reveal_strlit("false");
    reveal_strlit("0");
    reveal_strlit("no");
    let l = ascii_lowercase(s);
    if l == "false"@ || l == "0"@ || l == "no"@ {
        assert(l.len() == 5 || l.len() == 1 || l.len() == 2);
        assert(l != "true"@ && l != "yes"@);
        assert(l != "1"@) by {
            if l == "1"@ {
                assert(l[0] == '1');
                assert(l == "0"@);
                assert(l[0] == '0');
            }
        }
    }
}

/// `aws-secrets` and its short form `aws-sm` go to Secrets Manager, `aws-ssm`
/// to the SSM Parameter Store, and every other scheme is refused.
pub proof fn lemma_scheme_routes(scheme: Seq<char>)
    ensures
        scheme == "aws-secrets"@ || scheme == "aws-sm"@ ==> backend_of(scheme) == Some(
            Backend::SecretsManager,
        ),
        scheme == "aws-ssm"@ ==> backend_of(scheme) == Some(Backend::ParameterStore),
        scheme != "aws-secrets"@ && scheme != "aws-sm"@ && scheme != "aws-ssm"@ ==> backend_of(
            scheme,
        ) is None,
{
    reveal_strlit("aws-secrets");
    reveal_strlit("aws-sm");
    reveal_strlit("aws-ssm");
    if scheme == "aws-ssm"@ {
        assert("aws-ssm"@.len() != "aws-secrets"@.len());
        assert("aws-ssm"@.len() != "aws-sm"@.len());
    }
}

/// A secret that has a string resolves to that string after field selection,
/// with the secret's version, or to the selection's error; a binary value
/// beside it plays no part.
pub proof fn lemma_string_secret_wins(reference: Reference, value: SecretValue)
    requires
        value.selected_string is Some,
    ensures
        secrets_manager_outcome_of(reference, value) == match value.selected_string.unwrap() {
            Ok(v) => Ok((v@, opt_view(value.version_id))),
            Err(e) => Err((e.class, e.message@)),
        },
{
}

/// A found parameter with a value resolves to that value after field
/// selection, with the parameter's version read back as its decimal text; a
/// failed selection gives the selection's error; a parameter without a value
/// is an invalid payload, and a missing parameter is `NotFound`.
pub proof fn lemma_ssm_outcome_cases(p: SsmParameter)
    ensures
        (match ssm_outcome_of(None) {
            Err((c, _)) => c == ErrorClass::NotFound,
            Ok(_) => false,
        }),
        p.selected_value is None ==> (match ssm_outcome_of(Some(p)) {
            Err((c, _)) => c == ErrorClass::InvalidSecretPayload,
            Ok(_) => false,
        }),
        (match p.selected_value {
            Some(Ok(v)) => match ssm_outcome_of(Some(p)) {
                Ok((value, Some(version))) => value == v@ && (p.version >= 0 ==> digits_value(
                    version,
                ) == p.version) && (p.version < 0 ==> version[0] == '-' && digits_value(
                    version.drop_first(),
                ) == -p.version),
                _ => false,
            },
            Some(Err(e)) => match ssm_outcome_of(Some(p)) {
                Err((c, m)) => c == e.class && m == e.message@,
                Ok(_) => false,
            },
            None => true,
        }),
{
    lemma_decimal_reads_back(p.version as int);
}

/// A reference asks for base64 exactly when its `binary` option, with ASCII
/// capitals made small, reads `base64`.
pub proof fn lemma_wants_base64_spelling(reference: Reference)
    ensures
        wants_base64(reference) <==> (match reference.query_value("binary"@) {
            Some(v) => ascii_lowercase(v) == "base64"@,
            None => false,
        }),
{
    reveal_strlit("base64");
    assert(ascii_lowercase("base64"@) =~= "base64"@);
}

} // verus!
