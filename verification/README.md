# dotenv-cloud-provider-aws

The AWS provider plugin for `dotenv-cloud`: it resolves `aws-secrets://`
(Secrets Manager) and `aws-ssm://` (SSM Parameter Store) references.

- `src/` is the library, verified with Verus: error classes and their wire
  names, redaction of references, the mapping of AWS SDK failures onto error
  classes, the provider configuration, secret ids and parameter names, and the
  decisions around each AWS request (what is asked, what an answer resolves to).
- `app/` is the executable: the protocol loop of `dotenv-cloud-provider-sdk`,
  the AWS SDK calls, and conversions between their types and the library's.
- `tests/` exercises the library.
