use vstd::prelude::*;

use crate::domain::SubscriberEmail;

verus! {

// ---------------------------------------------------------------------------
// Credential
// ---------------------------------------------------------------------------

/// The provider API key, held as an opaque secret. No conversion back
/// to a plain string exists except `expose_secret`, the explicit
/// accessor for the one authenticated call; the type offers no textual
/// representation, so the secret cannot leak into an error message.
pub struct ApiCredential {
    secret: String,
}

impl View for ApiCredential {
    type V = Seq<char>;

    closed spec fn view(&self) -> Seq<char> {
        self.secret@
    }
}

impl ApiCredential {
    /// Wraps a raw secret.
    pub fn new(secret: String) -> (r: ApiCredential)
        ensures
            r@ == secret@,
    {
        ApiCredential { secret }
    }

    /// Reveals the secret, for one authenticated call.
    pub fn expose_secret(&self) -> (r: &String)
        ensures
            r@ == self@,
    {
        &self.secret
    }
}

// ---------------------------------------------------------------------------
// Delivery
// ---------------------------------------------------------------------------

/// Why a confirmation email was not delivered.
#[derive(Clone, Copy, PartialEq, Eq, Structural, Debug)]
pub enum DeliveryError {
    /// The provider could not be reached at all.
    Transport,
    /// The provider did not answer within the configured timeout.
    Timeout,
    /// The provider answered with the carried non-2xx HTTP status.
    ProviderRejected(u16),
}

/// What one attempt against the provider's HTTP endpoint came back
/// with. The transport layer reports it; this module judges it.
#[derive(Clone, Copy, PartialEq, Eq, Structural, Debug)]
pub enum ProviderResponse {
    /// The provider answered with this HTTP status.
    Status(u16),
    /// Connection, DNS or TLS failure before any answer.
    TransportFailure,
    /// The configured timeout elapsed first.
    TimedOut,
}

/// One outbound email, fully assembled: the provider endpoint to post
/// it to, the message fields, and the timeout the transport must
/// enforce. The API credential travels separately.
pub struct EmailRequest {
    pub url: String,
    pub from: String,
    pub to: String,
    pub subject: String,
    pub html_body: String,
    pub text_body: String,
    pub timeout_ms: u64,
}

/// Assembles the one outbound request: it is posted to `{base}/messages`
/// and carries exactly the given fields.
pub fn build_email_request(
    base_url: &str,
    sender: &SubscriberEmail,
    recipient: &SubscriberEmail,
    subject: String,
    html_body: String,
    text_body: String,
    timeout_ms: u64,
) -> (r: EmailRequest)
    ensures
        r.url@ == base_url@ + "/messages"@,
        r.from@ == sender@,
        r.to@ == recipient@,
        r.subject@ == subject@,
        r.html_body@ == html_body@,
        r.text_body@ == text_body@,
        r.timeout_ms == timeout_ms,
{
    let url = base_url.to_owned().concat("/messages");
    EmailRequest {
        url,
        from: sender.as_ref().clone(),
        to: recipient.as_ref().clone(),
        subject,
        html_body,
        text_body,
        timeout_ms,
    }
}

/// Judges one provider response: a 2xx status is success, any other
/// status is `ProviderRejected` with that status, a transport failure
/// and an elapsed timeout map to their own errors. Nothing is retried.
pub fn delivery_result(response: ProviderResponse) -> (r: Result<(), DeliveryError>)
    ensures
        r == match response {
            ProviderResponse::Status(s) => if 200 <= s < 300 {
                Ok::<(), DeliveryError>(())
            } else {
                Err(DeliveryError::ProviderRejected(s))
            },
            ProviderResponse::TransportFailure => Err(DeliveryError::Transport),
            ProviderResponse::TimedOut => Err(DeliveryError::Timeout),
        },
{
    match response {
        ProviderResponse::Status(s) => {
            if 200 <= s && s < 300 {
                Ok(())
            } else {
                Err(DeliveryError::ProviderRejected(s))
            }
        },
        ProviderResponse::TransportFailure => Err(DeliveryError::Transport),
        ProviderResponse::TimedOut => Err(DeliveryError::Timeout),
    }
}

} // verus!
