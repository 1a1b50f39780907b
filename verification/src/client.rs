//! The client facade: one authentication mode, one endpoint, one timeout.
//!
//! The facade decides everything that does not touch the network: it
//! validates options, fetches the bearer token in token mode, builds the
//! wire request, and classifies the exchange's result. The embedding
//! program performs the exchange itself and feeds the result back as an
//! `ExchangeEvent`.

use vstd::prelude::*;
use crate::endpoint::Endpoint;
use crate::error::Error;
use crate::identity::CertificateIdentity;
use crate::payload::NotificationPayload;
use crate::request::{
    build, header_present, header_views, spec_built, spec_options_invalid, WireRequest,
};
use crate::response::{interpret, spec_outcome, Outcome};
use crate::signer::{get_token_post, SignedToken, Signer, SignerModel};

verus! {

/// The mutually exclusive authentication schemes: a client TLS
/// certificate presented in the handshake, or a signer supplying bearer
/// tokens.
pub enum AuthMode {
    /// Identity asserted by the TLS handshake; no bearer header.
    Certificate(CertificateIdentity),
    /// Identity asserted by a bearer token header; plain TLS.
    Token(Signer),
}

/// The signer's model in token mode.
pub open spec fn auth_signer(a: AuthMode) -> Option<SignerModel> {
    match a {
        AuthMode::Token(s) => Some(s@),
        AuthMode::Certificate(_) => None,
    }
}

/// What the embedding program observed when it performed the exchange.
pub enum ExchangeEvent {
    /// The gateway answered: the status, the response identifier header,
    /// and the body when one arrived.
    Responded { status: u16, apns_id: Option<String>, body: Option<Vec<u8>> },
    /// No response arrived within the deadline.
    TimedOut,
    /// The connection could not be established or broke down.
    ConnectionFailed,
}

/// A push client: endpoint, authentication mode and exchange deadline,
/// chosen once at construction.
pub struct Client {
    /// Which gateway the client talks to.
    pub endpoint: Endpoint,
    /// How the client authenticates.
    pub auth: AuthMode,
    /// The exchange deadline, in seconds.
    pub request_timeout_secs: u64,
}

/// Everything `prepare` promises. Contradictory options fail before
/// anything else, with the signer untouched. On valid options a
/// certificate-mode client always succeeds, building the request with no
/// bearer; a token-mode client succeeds exactly when the signer does,
/// attaching the token the signer returned.
pub open spec fn prepare_post(
    pre: Client,
    p: NotificationPayload,
    post: Client,
    r: Result<WireRequest, Error>,
) -> bool {
    &&& post.endpoint == pre.endpoint
    &&& post.request_timeout_secs == pre.request_timeout_secs
    &&& (auth_signer(post.auth) is Some <==> auth_signer(pre.auth) is Some)
    &&& if spec_options_invalid(p.options) {
        &&& r matches Err(e) && e matches Error::InvalidOptions(m) && m@
            == "topic is required for this push type"@
        &&& auth_signer(post.auth) == auth_signer(pre.auth)
    } else {
        match auth_signer(pre.auth) {
            None => {
                &&& auth_signer(post.auth) is None
                &&& r matches Ok(w) && spec_built(p, None, w)
            },
            Some(sm) => match r {
                Ok(w) => exists|now: u64, tok: SignedToken|
                    get_token_post(sm, now, auth_signer(post.auth).unwrap(), Ok(tok))
                        && spec_built(p, Some(tok.value@), w),
                Err(e) => {
                    &&& e == Error::SignerError
                    &&& exists|now: u64|
                        get_token_post(sm, now, auth_signer(post.auth).unwrap(), Err(e))
                },
            },
        }
    }
}

impl Client {
    /// A certificate-mode client for an endpoint, with a deadline in
    /// seconds.
    pub fn certificate(
        identity: CertificateIdentity,
        endpoint: Endpoint,
        request_timeout_secs: u64,
    ) -> (r: Client)
        ensures
            r.endpoint == endpoint,
            r.request_timeout_secs == request_timeout_secs,
            auth_signer(r.auth) is None,
    {
        Client { endpoint, auth: AuthMode::Certificate(identity), request_timeout_secs }
    }

    /// A token-mode client for an endpoint, with a deadline in seconds.
    pub fn token(signer: Signer, endpoint: Endpoint, request_timeout_secs: u64) -> (r: Client)
        ensures
            r.endpoint == endpoint,
            r.request_timeout_secs == request_timeout_secs,
            auth_signer(r.auth) == Some(signer@),
    {
        Client { endpoint, auth: AuthMode::Token(signer), request_timeout_secs }
    }

    /// Map a payload onto the wire request this client would send:
    /// validate the options, fetch the current bearer token in token
    /// mode, and build path, headers and body.
    pub fn prepare(&mut self, p: &NotificationPayload) -> (r: Result<WireRequest, Error>)
        ensures
            prepare_post(*old(self), *p, *final(self), r),
    {
        if p.options.apns_push_type.requires_topic() && p.options.apns_topic.is_none() {
            return Err(Error::InvalidOptions("topic is required for this push type".to_owned()));
        }
        match &mut self.auth {
            AuthMode::Certificate(_) => build(p, None),
            AuthMode::Token(signer) => {
                let now = crate::signer::now_epoch_secs();
                match signer.get_token_at(now) {
                    Ok(tok) => {
                        let r = build(p, Some(&tok.value));
                        proof {
                            let w = r.unwrap();
                            assert(get_token_post(
                                auth_signer(old(self).auth).unwrap(),
                                now,
                                auth_signer(self.auth).unwrap(),
                                Ok(tok),
                            ) && spec_built(*p, Some(tok.value@), w));
                        }
                        r
                    },
                    Err(e) => Err(e),
                }
            },
        }
    }

    /// Classify what the embedding program observed: an answer is
    /// interpreted into the typed outcome, a missed deadline is the
    /// timeout error carrying this client's deadline, and a broken
    /// connection is the connection error.
    pub fn conclude(&self, event: ExchangeEvent) -> (r: Result<Outcome, Error>)
        ensures
            match event {
                ExchangeEvent::Responded { status, apns_id, body } => r matches Ok(o)
                    && spec_outcome(
                    status,
                    match apns_id {
                        Some(s) => Some(s@),
                        None => None,
                    },
                    match body {
                        Some(b) => crate::response::parsed_error_body(b@),
                        None => None,
                    },
                    o,
                ),
                ExchangeEvent::TimedOut => r == Err::<Outcome, Error>(
                    Error::RequestTimeout(self.request_timeout_secs),
                ),
                ExchangeEvent::ConnectionFailed => r == Err::<Outcome, Error>(
                    Error::ConnectionError,
                ),
            },
    {
        match event {
            ExchangeEvent::Responded { status, apns_id, body } => Ok(
                interpret(status, apns_id.as_ref(), body.as_ref()),
            ),
            ExchangeEvent::TimedOut => Err(Error::RequestTimeout(self.request_timeout_secs)),
            ExchangeEvent::ConnectionFailed => Err(Error::ConnectionError),
        }
    }
}

/// The schemes stay mutually exclusive through the facade: a request a
/// certificate-mode client prepared never carries an authorization
/// header, and one a token-mode client prepared always does.
pub proof fn lemma_prepared_auth_exclusive(
    pre: Client,
    p: NotificationPayload,
    post: Client,
    w: WireRequest,
)
    requires
        prepare_post(pre, p, post, Ok(w)),
    ensures
        header_present(header_views(w.headers@), "authorization"@) <==> auth_signer(
            pre.auth,
        ) is Some,
{
    if auth_signer(pre.auth) is Some {
        let (now, tok): (u64, SignedToken) = choose|now: u64, tok: SignedToken|
            get_token_post(auth_signer(pre.auth).unwrap(), now, auth_signer(post.auth).unwrap(), Ok(tok))
                && spec_built(p, Some(tok.value@), w);
        crate::request::lemma_auth_header_exclusive(p.options, Some(tok.value@));
    } else {
        crate::request::lemma_auth_header_exclusive(p.options, None);
    }
}

} // verus!
