//! Wire protocol (v1) messages: newline-delimited JSON over stdin and stdout.
//! Requests carry a parsed secret reference; responses carry the handshake,
//! a resolved value, or a classified error.

use vstd::prelude::*;

use crate::entries::{entry_get, entry_insert, entry_lookup, names_distinct};
use crate::json::JsonValue;

verus! {

/// The protocol version this plugin speaks.
pub const PROTOCOL_VERSION: &'static str = "1";

/// The name under which the plugin introduces itself.
pub const PLUGIN_NAME: &'static str = "dotenv-cloud-provider-aws";

/// The version under which the plugin introduces itself.
pub const PLUGIN_VERSION: &'static str = "0.1.0";

/// A request from the core, told apart by its `type`.
#[derive(Debug)]
pub enum Request {
    Handshake { protocol_version: Option<String>, dotenv_cloud_version: Option<String> },
    Resolve(Box<ResolveRequest>),
}

/// A request to resolve one reference.
#[derive(Debug)]
pub struct ResolveRequest {
    pub request_id: String,
    pub profile: Option<String>,
    pub reference: Reference,
    pub provider_config: JsonValue,
}

/// A parsed secret reference. Its query options name each option once.
#[derive(Debug, Clone)]
pub struct Reference {
    pub original: String,
    pub scheme: String,
    pub authority: Option<String>,
    pub path: String,
    pub fragment: Option<String>,
    pub query: Vec<(String, String)>,
}

impl Reference {
    /// The value of the query option `key`.
    pub open spec fn query_value(self, key: Seq<char>) -> Option<Seq<char>> {
        match entry_lookup(self.query@, key) {
            Some(v) => Some(v@),
            None => None,
        }
    }

    /// No query option is named twice.
    pub open spec fn query_names_distinct(self) -> bool {
        names_distinct(self.query@)
    }

    /// The value of the query option `key`.
    pub fn query_get(&self, key: &str) -> (r: Option<&String>)
        ensures
            match r {
                Some(v) => self.query_value(key@) == Some(v@),
                None => self.query_value(key@) is None,
            },
    {
        entry_get(&self.query, key)
    }

    /// Set the query option `key` to `value`, replacing any value it had.
    pub fn insert_query(&mut self, key: String, value: String)
        ensures
            final(self).query_value(key@) == Some(value@),
            forall|k: Seq<char>|
                k != key@ ==> #[trigger] final(self).query_value(k) == old(self).query_value(k),
            old(self).query_names_distinct() ==> final(self).query_names_distinct(),
            final(self).original == old(self).original,
            final(self).scheme == old(self).scheme,
            final(self).authority == old(self).authority,
            final(self).path == old(self).path,
            final(self).fragment == old(self).fragment,
    {
        let ghost k0 = key@;
        let ghost v0 = value@;
        entry_insert(&mut self.query, key, value);
        assert forall|k: Seq<char>| k != k0 implies #[trigger] self.query_value(k)
            == old(self).query_value(k) by {
            assert(entry_lookup(self.query@, k) == entry_lookup(old(self).query@, k));
        }
    }
}

/// A response to the core, told apart by its `type`.
#[derive(Debug)]
#[allow(inconsistent_fields)]
pub enum Response {
    HandshakeResult { protocol_version: &'static str, plugin: PluginInfo },
    ResolveResult { request_id: String, value: String, metadata: Metadata },
    Error {
        request_id: Option<String>,
        class: String,
        message: String,
        reference: Option<String>,
    },
}

/// How the plugin introduces itself.
#[derive(Debug)]
pub struct PluginInfo {
    pub name: &'static str,
    pub version: &'static str,
    pub schemes: Vec<&'static str>,
}

/// Where a resolved value came from.
#[derive(Debug)]
pub struct Metadata {
    pub provider: String,
    pub version: Option<String>,
}

impl PluginInfo {
    /// The plugin's name, version and the two schemes it resolves:
    /// `aws-secrets` (Secrets Manager) and `aws-ssm` (SSM Parameter Store).
    pub open spec fn is_aws_plugin(self) -> bool {
        &&& self.name@ == PLUGIN_NAME@
        &&& self.version@ == PLUGIN_VERSION@
        &&& self.schemes@.len() == 2
        &&& self.schemes@[0]@ == "aws-secrets"@
        &&& self.schemes@[1]@ == "aws-ssm"@
    }
}

/// How this plugin introduces itself.
pub fn plugin_info() -> (r: PluginInfo)
    ensures
        r.is_aws_plugin(),
{
    let mut schemes: Vec<&'static str> = Vec::new();
    schemes.push("aws-secrets");
    schemes.push("aws-ssm");
    PluginInfo { name: PLUGIN_NAME, version: PLUGIN_VERSION, schemes }
}

impl Response {
    /// The answer to a handshake: the protocol version and the plugin's identity.
    pub fn handshake() -> (r: Response)
        ensures
            match r {
                Response::HandshakeResult { protocol_version, plugin } => protocol_version@
                    == PROTOCOL_VERSION@ && plugin.is_aws_plugin(),
                _ => false,
            },
    {
        Response::HandshakeResult { protocol_version: PROTOCOL_VERSION, plugin: plugin_info() }
    }
}

} // verus!
