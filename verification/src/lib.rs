//! Core logic of the AWS provider plugin for `dotenv-cloud`: error classes and
//! their wire names, the redaction of references, the mapping of AWS SDK
//! failures onto error classes, the reading of the provider configuration, the
//! naming of Secrets Manager secrets and SSM parameters, and the decisions that
//! surround each AWS request.

pub mod text;
pub mod error;
pub mod entries;
pub mod json;
pub mod config;
pub mod protocol;
pub mod payload;
pub mod provider;
