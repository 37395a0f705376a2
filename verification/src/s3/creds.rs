//! The configuration that the fetch runs under: credentials, bucket and
//! region, each handed in as it was looked up by the caller.

use vstd::prelude::*;
use vstd::string::StringExecFns;

verus! {

/// Name of the setting that holds the access key.
pub const AWS_ACCESS_KEY_ID: &'static str = "REDIRECTS_AWS_ACCESS_KEY_ID";

/// Name of the setting that holds the secret key.
pub const AWS_SECRET_ACCESS_KEY: &'static str = "REDIRECTS_AWS_SECRET_ACCESS_KEY";

/// Name of the setting that holds the bucket.
pub const S3_BUCKET: &'static str = "REDIRECTS_S3_BUCKET";

/// Name of the setting that holds the region.
pub const S3_REGION: &'static str = "REDIRECTS_S3_REGION";

/// The settings as they were looked up, one field per name; `None` where
/// the name was not set.
#[derive(Debug, Clone, PartialEq, Eq)]
pub struct Config {
    pub access_key_id: Option<String>,
    pub secret_access_key: Option<String>,
    pub bucket: Option<String>,
    pub region: Option<String>,
}

/// A setting that the fetch needs is absent.
#[derive(Debug, PartialEq, Eq)]
pub struct CredentialsError {
    pub message: String,
}

/// The key pair that signs the requests to the object store.
#[derive(Debug, PartialEq, Eq)]
pub struct Credentials {
    pub access_key_id: String,
    pub secret_access_key: String,
}

/// What a looked-up setting counts as: an empty value is as good as none.
pub open spec fn present(value: Option<String>) -> Option<Seq<char>> {
    match value {
        Some(text) => if text@.len() > 0 { Some(text@) } else { None },
        None => None,
    }
}

/// The text of the error for a missing setting named `var_name`.
pub open spec fn missing_env_text(var_name: Seq<char>) -> Seq<char> {
    "Need to set env var `"@ + var_name + "`"@
}

/// The bucket that `config` names, or the text of the error that reports
/// it missing.
pub open spec fn bucket_of(config: Config) -> Result<Seq<char>, Seq<char>> {
    match present(config.bucket) {
        Some(name) => Ok(name),
        None => Err(missing_env_text(S3_BUCKET@)),
    }
}

/// The key pair that `config` holds, as (access key, secret key), or the
/// text of the error that reports the first of the two that is missing.
pub open spec fn creds_of(config: Config) -> Result<(Seq<char>, Seq<char>), Seq<char>> {
    match present(config.access_key_id) {
        None => Err(missing_env_text(AWS_ACCESS_KEY_ID@)),
        Some(key) => match present(config.secret_access_key) {
            None => Err(missing_env_text(AWS_SECRET_ACCESS_KEY@)),
            Some(secret) => Ok((key, secret)),
        },
    }
}

/// The value of a setting as it was looked up, with an empty value treated
/// as absent.
pub fn get_env(value: &Option<String>) -> (res: Option<String>)
    ensures
        res.deep_view() == present(*value),
{
    match value {
        Some(text) => if text.as_str().is_empty() { None } else { Some(text.clone()) },
        None => None,
    }
}

/// The error that reports that the setting `var_name` is missing.
pub fn missing_env_err(var_name: &str) -> (err: CredentialsError)
    ensures
        err.message@ == missing_env_text(var_name@),
{
    let mut message = String::from_str("Need to set env var `");
    message.append(var_name);
    message.append("`");
    CredentialsError { message }
}

/// The bucket to fetch from, or the error that reports it missing.
pub fn bucket(config: &Config) -> (res: Result<String, CredentialsError>)
    ensures
        match bucket_of(*config) {
            Ok(name) => res matches Ok(found) && found@ == name,
            Err(text) => res matches Err(err) && err.message@ == text,
        },
{
    match get_env(&config.bucket) {
        Some(name) => Ok(name),
        None => Err(missing_env_err(S3_BUCKET)),
    }
}

/// The key pair to sign with, or the error that reports the first of its
/// two settings that is missing.
pub fn get_env_creds(config: &Config) -> (res: Result<Credentials, CredentialsError>)
    ensures
        match creds_of(*config) {
            Ok(pair) => res matches Ok(creds) && creds.access_key_id@ == pair.0
                && creds.secret_access_key@ == pair.1,
            Err(text) => res matches Err(err) && err.message@ == text,
        },
{
    let key = match get_env(&config.access_key_id) {
        Some(key) => key,
        None => return Err(missing_env_err(AWS_ACCESS_KEY_ID)),
    };

    let secret = match get_env(&config.secret_access_key) {
        Some(secret) => secret,
        None => return Err(missing_env_err(AWS_SECRET_ACCESS_KEY)),
    };

    Ok(Credentials { access_key_id: key, secret_access_key: secret })
}

/// The name of the region to fetch from, where one is set.
pub fn region(config: &Config) -> (res: Option<String>)
    ensures
        res.deep_view() == present(config.region),
{
    get_env(&config.region)
}

} // verus!
