use vstd::prelude::*;

verus! {

/// Relies on reqwest's HTTP client type, held opaque.
#[verifier::external_type_specification]
#[verifier::external_body]
pub struct ExClient(reqwest::Client);

/// Relies on reqwest's builder for a client, held opaque.
#[verifier::external_type_specification]
#[verifier::external_body]
pub struct ExClientBuilder(reqwest::ClientBuilder);

/// Relies on reqwest's error type (transport, TLS, decoding), held opaque.
#[verifier::external_type_specification]
#[verifier::external_body]
pub struct ExReqwestError(reqwest::Error);

/// Whether a client built from this builder accepts invalid TLS certificates.
pub uninterp spec fn builder_accepts_invalid_certs(b: reqwest::ClientBuilder) -> bool;

/// Whether a client built from this builder gets reqwest's own rustls
/// configuration, which follows the builder's certificate setting (and not one
/// handed in ready-made).
pub uninterp spec fn builder_uses_rustls(b: reqwest::ClientBuilder) -> bool;

/// Whether this client accepts invalid TLS certificates.
pub uninterp spec fn client_accepts_invalid_certs(c: reqwest::Client) -> bool;

/// Relies on `reqwest::Client::builder`: a builder with default settings.
pub assume_specification[ reqwest::Client::builder ]() -> reqwest::ClientBuilder;

/// Relies on `ClientBuilder::danger_accept_invalid_certs`: switches certificate
/// validation off when the flag is set.
pub assume_specification[ reqwest::ClientBuilder::danger_accept_invalid_certs ](
    self_: reqwest::ClientBuilder,
    accept_invalid_certs: bool,
) -> (r: reqwest::ClientBuilder)
    ensures
        builder_accepts_invalid_certs(r) == accept_invalid_certs,
;

/// Relies on `ClientBuilder::use_rustls_tls`: selects the rustls TLS backend
/// that reqwest configures itself, replacing any preconfigured one, and changes
/// nothing else.
pub assume_specification[ reqwest::ClientBuilder::use_rustls_tls ](
    self_: reqwest::ClientBuilder,
) -> (r: reqwest::ClientBuilder)
    ensures
        builder_accepts_invalid_certs(r) == builder_accepts_invalid_certs(self_),
        builder_uses_rustls(r),
;

/// Relies on `ClientBuilder::build`: the client, or the error that kept it from
/// being built. No network I/O takes place. With reqwest's own rustls
/// configuration, a client whose builder switched certificate validation off
/// verifies no certificate, and one whose builder left it on verifies them.
pub assume_specification[ reqwest::ClientBuilder::build ](
    self_: reqwest::ClientBuilder,
) -> (r: reqwest::Result<reqwest::Client>)
    ensures
        builder_uses_rustls(self_) ==> (r matches Ok(c) ==> client_accepts_invalid_certs(c)
            == builder_accepts_invalid_certs(self_)),
;

} // verus!
