//! What a caller hands over to configure a new provider: a JSON value, of
//! which the gateway reads a few members.

use serde_json::Value;
use vstd::prelude::*;

verus! {

#[verifier::external_type_specification]
#[verifier::external_body]
pub struct ExValue(serde_json::Value);

/// The member that the JSON object `config` holds under `key`. There is none
/// where `config` is no object, or has no member of that name.
pub uninterp spec fn json_member(config: Value, key: Seq<char>) -> Option<Value>;

/// The text of a JSON value in compact form.
pub uninterp spec fn json_text(value: Value) -> Seq<char>;

/// Calls `serde_json::Value::get` with a string index. It looks `key` up in
/// an object and returns `None` for any other value or a missing member;
/// the contract gives that result the name [`json_member`] and claims no
/// more than that equal arguments give equal results.
#[verifier::external_body]
fn member<'a>(config: &'a Value, key: &str) -> (r: Option<&'a Value>)
    ensures
        match r {
            Some(v) => json_member(*config, key@) == Some(*v),
            None => json_member(*config, key@) is None,
        },
{
    config.get(key)
}

/// Calls `to_string` on a `serde_json::Value`, which writes the value as
/// compact JSON through its `Display` impl. The contract gives the text the
/// name [`json_text`].
#[verifier::external_body]
fn compact_text(value: &Value) -> (r: String)
    ensures
        r@ == json_text(*value),
{
    value.to_string()
}

/// The compact JSON text of the member of `config` under `key`, where it has
/// one.
pub open spec fn member_text_of(config: Value, key: Seq<char>) -> Option<Seq<char>> {
    match json_member(config, key) {
        Some(v) => Some(json_text(v)),
        None => None,
    }
}

/// The view of a text that may be absent.
pub open spec fn text_of(text: Option<String>) -> Option<Seq<char>> {
    match text {
        Some(t) => Some(t@),
        None => None,
    }
}

/// Reads the member of `config` under `key` as compact JSON text. A member
/// that is a JSON string keeps its quotes.
pub fn member_text(config: &Value, key: &str) -> (r: Option<String>)
    ensures
        text_of(r) == member_text_of(*config, key@),
{
    match member(config, key) {
        Some(v) => Some(compact_text(v)),
        None => None,
    }
}

/// What it takes to reach a bucket of an object store.
#[derive(Debug, PartialEq, Eq)]
pub struct S3Params {
    pub bucket: String,
    pub region: String,
    pub endpoint: String,
    pub access_key: String,
    pub secret_key: String,
}

/// The five members of a configuration that describe a bucket, each as it
/// was found.
pub struct S3Members {
    pub bucket: Option<String>,
    pub region: Option<String>,
    pub endpoint: Option<String>,
    pub access_key: Option<String>,
    pub secret_key: Option<String>,
}

impl S3Members {
    /// Whether all five members are there.
    pub open spec fn complete(&self) -> bool {
        &&& self.bucket is Some
        &&& self.region is Some
        &&& self.endpoint is Some
        &&& self.access_key is Some
        &&& self.secret_key is Some
    }

    /// The members that `config` holds.
    pub open spec fn found_in(&self, config: Value) -> bool {
        &&& text_of(self.bucket) == member_text_of(config, "bucket"@)
        &&& text_of(self.region) == member_text_of(config, "region"@)
        &&& text_of(self.endpoint) == member_text_of(config, "endpoint"@)
        &&& text_of(self.access_key) == member_text_of(config, "access_key"@)
        &&& text_of(self.secret_key) == member_text_of(config, "secret_key"@)
    }

    /// Reads the five members out of `config`.
    pub fn read(config: &Value) -> (r: S3Members)
        ensures
            r.found_in(*config),
    {
        S3Members {
            bucket: member_text(config, "bucket"),
            region: member_text(config, "region"),
            endpoint: member_text(config, "endpoint"),
            access_key: member_text(config, "access_key"),
            secret_key: member_text(config, "secret_key"),
        }
    }

    /// The parameters that the members give, where none is missing.
    pub open spec fn params(self) -> Option<S3Params> {
        if self.complete() {
            Some(
                S3Params {
                    bucket: self.bucket->0,
                    region: self.region->0,
                    endpoint: self.endpoint->0,
                    access_key: self.access_key->0,
                    secret_key: self.secret_key->0,
                },
            )
        } else {
            None
        }
    }

    /// The parameters of the bucket, where no member is missing.
    pub fn into_params(self) -> (r: Option<S3Params>)
        ensures
            r == self.params(),
    {
        match (self.bucket, self.region, self.endpoint, self.access_key, self.secret_key) {
            (Some(bucket), Some(region), Some(endpoint), Some(access_key), Some(secret_key)) => {
                Some(S3Params { bucket, region, endpoint, access_key, secret_key })
            },
            _ => None,
        }
    }
}

} // verus!
