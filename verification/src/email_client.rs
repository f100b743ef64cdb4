//! Notification client: turns a validated recipient, a subject and a
//! dual-format body into the one authenticated HTTP request that delivers a
//! notification through the provider's send endpoint.
//!
//! The client itself never performs the exchange; it prepares the request —
//! endpoint, method, headers, JSON body — and interprets the outcome. The
//! caller that owns the network boundary performs the POST with the
//! transport handle the client carries.

use crate::domain::ValidatedEmailAddress;
use crate::payload::{build_send_request, encode_send_request, payload_json};
use secrecy::ExposeSecret;
use vstd::prelude::*;
use vstd::string::*;

verus! {

/// Whether the provider base URL parses as an absolute URL and the fixed
/// send path joins onto it; a pure function of the base string.
pub uninterp spec fn send_endpoint_ok(base: Seq<char>) -> bool;

/// The serialization of the provider's send endpoint: the base URL with the
/// fixed send path joined onto it; a pure function of the base string.
pub uninterp spec fn send_endpoint_of(base: Seq<char>) -> Seq<char>;

/// Relies on reqwest::Url::parse and reqwest::Url::join (the url crate):
/// both are deterministic functions of their string arguments; `parse`
/// accepts exactly the absolute URLs, and `join` resolves the fixed send
/// path against the parsed base (it too can fail, on a cannot-be-a-base
/// URL; either failure folds into `None`). The result is the joined URL's
/// serialization, as `Url::as_str` returns it; the two names denote this
/// whole pipeline.
#[verifier::external_body]
fn resolve_send_endpoint(base: &str) -> (r: Option<String>)
    ensures
        r is Some <==> send_endpoint_ok(base@),
        r matches Some(e) ==> e@ == send_endpoint_of(base@),
{
    let url = match reqwest::Url::parse(base) {
        Ok(u) => u,
        Err(_) => return None,
    };
    match url.join("/v3/mail/send") {
        Ok(joined) => Some(joined.as_str().to_owned()),
        Err(_) => None,
    }
}

#[verifier::external_type_specification]
#[verifier::external_body]
pub struct ExClient(reqwest::Client);

/// Secret bearer token for the provider API, wrapped so the value resists
/// accidental disclosure: it has no string-like formatting, and reading it
/// is an intentional act. Opaque to Verus; it holds a secrecy::Secret, which
/// Verus cannot name because of the trait bound on its type parameter.
#[verifier::external_body]
pub struct SecretToken {
    inner: secrecy::Secret<String>,
}

/// The string a SecretToken holds: sealed in by `SecretToken::new`, read
/// back by its `expose`.
pub uninterp spec fn token_chars(t: SecretToken) -> Seq<char>;

impl SecretToken {
    /// Relies on secrecy::Secret::new: moves the string into the wrapper,
    /// which zeroizes it on drop.
    #[verifier::external_body]
    pub fn new(token: String) -> (r: SecretToken)
        ensures
            token_chars(r) == token@,
    {
        SecretToken { inner: secrecy::Secret::new(token) }
    }

    /// Relies on secrecy's ExposeSecret::expose_secret: the one intentional
    /// way to read the wrapped secret; it hands out a reference to the very
    /// string the wrapper was sealed over.
    #[verifier::external_body]
    fn expose(&self) -> (r: &String)
        ensures
            r@ == token_chars(*self),
    {
        self.inner.expose_secret()
    }
}

/// Relies on reqwest::ClientBuilder::build: constructs the reusable HTTP
/// transport. Whether it succeeds depends on the environment, so nothing is
/// assumed of the outcome.
#[verifier::external_body]
fn build_http_client() -> Option<reqwest::Client> {
    reqwest::Client::builder().build().ok()
}

/// Why a send failed: the transport could not complete the exchange, or the
/// provider answered with a status outside the 2xx range.
#[derive(Clone, Copy, Debug, PartialEq, Eq, Structural)]
pub enum DeliveryError {
    Transport,
    UnexpectedStatus(u16),
}

/// Everything that makes up the one outbound HTTP request of a send: where
/// to POST, the two headers, and the JSON body.
pub struct PreparedEmailRequest {
    pub url: String,
    pub method: String,
    pub authorization: String,
    pub content_type: String,
    pub body: String,
}

fn bearer_header_value(token: &str) -> (r: String)
    ensures
        r@ == "Bearer "@ + token@,
{
    let mut out = String::from_str("Bearer ");
    out.append(token);
    out
}

/// Long-lived handle to the email provider: the send endpoint resolved once
/// at construction, the authenticated sender address, the secret bearer
/// token, and the reusable HTTP transport.
pub struct EmailClient {
    http_client: reqwest::Client,
    endpoint: String,
    sender: ValidatedEmailAddress,
    authorization_token: SecretToken,
}

impl EmailClient {
    /// The serialization of the send endpoint this client POSTs to.
    pub closed spec fn endpoint_view(&self) -> Seq<char> {
        self.endpoint@
    }

    /// The configured, validated sender address.
    pub closed spec fn sender_view(&self) -> Seq<char> {
        self.sender@
    }

    /// The configured secret bearer token's string, named through the
    /// wrapper it stays sealed in.
    pub closed spec fn token_view(&self) -> Seq<char> {
        token_chars(self.authorization_token)
    }

    /// Construct a client for the provider behind `base_url`. Fails exactly
    /// when the base URL does not resolve to a send endpoint, or when the
    /// HTTP transport cannot be built.
    pub fn new(
        base_url: String,
        sender: ValidatedEmailAddress,
        authorization_token: SecretToken,
    ) -> (r: Result<EmailClient, String>)
        ensures
            r matches Ok(c) ==> c.endpoint_view() == send_endpoint_of(base_url@)
                && c.sender_view() == sender@ && c.token_view() == token_chars(
                authorization_token,
            ),
            r is Ok ==> send_endpoint_ok(base_url@),
            !send_endpoint_ok(base_url@) ==> r is Err,
            r matches Err(e) ==> e@ == (if send_endpoint_ok(base_url@) {
                "could not build the HTTP transport"@
            } else {
                "invalid base URL"@
            }),
    {
        let endpoint = match resolve_send_endpoint(base_url.as_str()) {
            Some(e) => e,
            None => {
                return Err(String::from_str("invalid base URL"));
            },
        };
        let http_client = match build_http_client() {
            Some(c) => c,
            None => {
                return Err(String::from_str("could not build the HTTP transport"));
            },
        };
        Ok(EmailClient { http_client, endpoint, sender, authorization_token })
    }

    /// The reusable HTTP transport, for the caller that performs the
    /// exchange.
    pub fn http_client(&self) -> &reqwest::Client {
        &self.http_client
    }

    /// Prepare the one outbound request of a send: POST to the resolved
    /// endpoint, `Authorization` built from the secret token, JSON content
    /// type, and the body pinned by `payload_json` — sender from the client,
    /// one recipient, plain text first, HTML second.
    pub fn prepare_send(
        &self,
        recipient: &ValidatedEmailAddress,
        subject: &str,
        html_content: &str,
        text_content: &str,
    ) -> (r: PreparedEmailRequest)
        ensures
            r.url@ == self.endpoint_view(),
            r.method@ == "POST"@,
            r.content_type@ == "application/json"@,
            r.body@ == payload_json(
                self.sender_view(),
                recipient@,
                subject@,
                text_content@,
                html_content@,
            ),
            r.authorization@ == "Bearer "@ + self.token_view(),
    {
        let request = build_send_request(
            self.sender.as_str(),
            recipient.as_str(),
            subject,
            text_content,
            html_content,
        );
        let body = encode_send_request(&request);
        let token = self.authorization_token.expose();
        let authorization = bearer_header_value(token.as_str());
        PreparedEmailRequest {
            url: self.endpoint.clone(),
            method: String::from_str("POST"),
            authorization,
            content_type: String::from_str("application/json"),
            body,
        }
    }
}

/// Interpret the outcome of the HTTP exchange of a send: `status` is the
/// response status when one arrived, `None` when the transport failed.
/// Success is exactly a status in the 2xx range; everything else is a
/// delivery error naming its cause.
pub fn classify_send_outcome(status: Option<u16>) -> (r: Result<(), DeliveryError>)
    ensures
        r is Ok <==> (status matches Some(s) && 200 <= s < 300),
        status is None ==> r == Err::<(), DeliveryError>(DeliveryError::Transport),
        (status matches Some(s) && !(200 <= s < 300)) ==> r == Err::<(), DeliveryError>(
            DeliveryError::UnexpectedStatus(status->0),
        ),
{
    match status {
        None => Err(DeliveryError::Transport),
        Some(s) => {
            if 200 <= s && s < 300 {
                Ok(())
            } else {
                Err(DeliveryError::UnexpectedStatus(s))
            }
        },
    }
}

} // verus!
