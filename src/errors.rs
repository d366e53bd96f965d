use vstd::prelude::*;

verus! {

/// The error of `reqwest`, carried through as an opaque cause.
#[verifier::external_type_specification]
#[verifier::external_body]
pub struct ExReqwestError(reqwest::Error);

/// Everything that can go wrong: a configuration value that is refused while
/// options are built, or a request that fails. The transport and decode kinds
/// both wrap the cause, since a failed request is not inspected further.
#[derive(Debug)]
pub enum TrendingError {
    /// A header name that is not a valid HTTP header name.
    HeaderName { name: String },
    /// A header value that holds a byte HTTP does not allow.
    HeaderValue { value: String },
    /// A proxy descriptor that cannot be read as a proxy url.
    Proxy { proxy: String, source: reqwest::Error },
    /// The transport could not be built from the options.
    ClientBuild { source: reqwest::Error },
    /// The request could not be sent or its response not received.
    Transport { source: reqwest::Error },
    /// The response body could not be decoded into the expected shape.
    Decode { source: reqwest::Error },
}

} // verus!
