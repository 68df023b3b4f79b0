use dotenv_cloud_provider_aws::protocol::{
    plugin_info, Reference, Response, PLUGIN_NAME, PLUGIN_VERSION, PROTOCOL_VERSION,
};

#[test]
fn handshake_reports_plugin() {
    match Response::handshake() {
        Response::HandshakeResult { protocol_version, plugin } => {
            assert_eq!(protocol_version, "1");
            assert_eq!(protocol_version, PROTOCOL_VERSION);
            assert_eq!(plugin.name, "dotenv-cloud-provider-aws");
            assert_eq!(plugin.name, PLUGIN_NAME);
            assert_eq!(plugin.version, PLUGIN_VERSION);
            assert_eq!(plugin.schemes, vec!["aws-secrets", "aws-ssm"]);
        }
        other => panic!("unexpected: {other:?}"),
    }
    assert_eq!(plugin_info().schemes, vec!["aws-secrets", "aws-ssm"]);
}

#[test]
fn query_reads_back_what_was_written() {
    let mut r = Reference {
        original: "aws-ssm:///p?with_decryption=true".into(),
        scheme: "aws-ssm".into(),
        authority: None,
        path: "/p".into(),
        fragment: None,
        query: Vec::new(),
    };
    assert!(r.query_get("with_decryption").is_none());
    r.insert_query("with_decryption".into(), "true".into());
    r.insert_query("binary".into(), "base64".into());
    assert_eq!(r.query_get("with_decryption").map(String::as_str), Some("true"));
    r.insert_query("with_decryption".into(), "false".into());
    assert_eq!(r.query_get("with_decryption").map(String::as_str), Some("false"));
    assert_eq!(r.query_get("binary").map(String::as_str), Some("base64"));
    assert_eq!(r.query.len(), 2);
    assert_eq!(r.path, "/p");
}
