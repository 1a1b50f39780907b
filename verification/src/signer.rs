//! The token signer: produces and caches short-lived signed bearer tokens.

use vstd::prelude::*;
use vstd::utf8::encode_utf8;
use crate::b64::{b64url, b64url_encode};
use crate::error::Error;
use crate::text::{append_str, dec_str, json_str, push_char};

verus! {

/// How long a cached token is reused, in seconds: fifty-five minutes,
/// strictly under the gateway's sixty-minute rejection window.
pub const MAX_TOKEN_AGE_SECS: u64 = 3300;

/// A signing key pair held by the outside cryptography library.
#[verifier::external_type_specification]
#[verifier::external_body]
pub struct ExEcdsaKeyPair(ring::signature::EcdsaKeyPair);

/// The outside library's secure random source.
#[verifier::external_type_specification]
#[verifier::external_body]
pub struct ExSystemRandom(ring::rand::SystemRandom);

/// The outside library's key-rejection error.
#[verifier::external_type_specification]
#[verifier::external_body]
pub struct ExKeyRejected(ring::error::KeyRejected);

/// Relies on `ring::rand::SystemRandom::new`: constructs the process's
/// secure random source.
#[verifier::external_body]
fn new_system_random() -> ring::rand::SystemRandom {
    ring::rand::SystemRandom::new()
}

/// Relies on `ring::signature::EcdsaKeyPair::from_pkcs8` with the P-256 /
/// SHA-256 fixed-signature algorithm: parses an unencrypted PKCS#8 v1 EC
/// key, rejecting non-EC or malformed keys.
#[verifier::external_body]
fn ec_key_from_pkcs8(pkcs8: &Vec<u8>, rng: &ring::rand::SystemRandom) -> (r: Result<
    ring::signature::EcdsaKeyPair,
    ring::error::KeyRejected,
>) {
    ring::signature::EcdsaKeyPair::from_pkcs8(
        &ring::signature::ECDSA_P256_SHA256_FIXED_SIGNING,
        pkcs8.as_slice(),
        rng,
    )
}

/// Relies on `ring::signature::EcdsaKeyPair::sign`: an ECDSA P-256 /
/// SHA-256 signature over the message with a random nonce, so beyond the
/// fixed encoding's documented length (two 32-byte scalars) nothing is
/// stated of the bytes, which differ from call to call.
#[verifier::external_body]
fn es256_sign(
    key: &ring::signature::EcdsaKeyPair,
    rng: &ring::rand::SystemRandom,
    msg: &Vec<u8>,
) -> (r: Result<Vec<u8>, ()>)
    ensures
        r matches Ok(sig) ==> sig@.len() == 64,
{
    match key.sign(rng, msg.as_slice()) {
        Ok(sig) => Ok(sig.as_ref().to_vec()),
        Err(_) => Err(()),
    }
}

/// One issued bearer token: its opaque value and when it was signed, in
/// seconds since the epoch.
#[derive(Clone, Debug)]
pub struct SignedToken {
    /// The compact token text placed after `Bearer ` on the wire.
    pub value: String,
    /// When the token was signed, in seconds since the epoch.
    pub issued_at: u64,
}

impl SignedToken {
    /// An equal copy of the token.
    pub fn duplicate(&self) -> (r: SignedToken)
        ensures
            r.value@ == self.value@,
            r.issued_at == self.issued_at,
    {
        SignedToken { value: self.value.clone(), issued_at: self.issued_at }
    }
}

/// The token header JSON: the algorithm tag and the key identifier.
pub open spec fn header_json(kid: Seq<char>) -> Seq<char> {
    "{\"alg\":\"ES256\",\"kid\":"@ + json_str(kid) + seq!['}']
}

/// The token claims JSON: the issuer (team identifier) and the issuance
/// time in seconds since the epoch.
pub open spec fn claims_json(iss: Seq<char>, iat: u64) -> Seq<char> {
    "{\"iss\":"@ + json_str(iss) + ",\"iat\":"@ + dec_str(iat as nat) + seq!['}']
}

/// The part of the token that is signed: encoded header, dot, encoded
/// claims.
pub open spec fn signing_input(kid: Seq<char>, iss: Seq<char>, iat: u64) -> Seq<char> {
    b64url(encode_utf8(header_json(kid))) + seq!['.'] + b64url(encode_utf8(claims_json(iss, iat)))
}

/// A complete token: signing input, dot, encoded signature.
pub open spec fn token_value(kid: Seq<char>, iss: Seq<char>, iat: u64, sig: Seq<u8>) -> Seq<char> {
    signing_input(kid, iss, iat) + seq!['.'] + b64url(sig)
}

/// Whether a token issued at `issued_at` may still be reused at `now`.
pub open spec fn token_fresh(issued_at: u64, now: u64) -> bool {
    issued_at <= now < issued_at + MAX_TOKEN_AGE_SECS
}

/// Produces and caches signed bearer tokens for one key and team.
pub struct Signer {
    key_id: String,
    team_id: String,
    key: ring::signature::EcdsaKeyPair,
    rng: ring::rand::SystemRandom,
    cache: Option<SignedToken>,
}

/// What a signer looks like mathematically: its two identifiers and the
/// cached token's value and issuance time, when one is cached.
pub struct SignerModel {
    /// The key identifier placed in the token header.
    pub key_id: Seq<char>,
    /// The team identifier placed in the claims as the issuer.
    pub team_id: Seq<char>,
    /// The cached token, as value and issuance time.
    pub cache: Option<(Seq<char>, u64)>,
}

/// Everything `get_token_at` promises, stated over the signer before and
/// after the call: a fresh cached token is returned byte-identically with
/// the cache and identifiers untouched; otherwise a token signed now, in
/// the fixed compact form over this signer's identifiers, replaces the
/// cache wholesale; and a signing failure, which can only happen when no
/// fresh token was cached, leaves the cache exactly as it was.
pub open spec fn token_renewed(
    pre: SignerModel,
    now: u64,
    post: SignerModel,
    tok: SignedToken,
) -> bool {
    &&& tok.issued_at == now
    &&& (exists|sig: Seq<u8>|
        sig.len() == 64 && tok.value@ == token_value(pre.key_id, pre.team_id, now, sig))
    &&& post.cache == Some((tok.value@, now))
}

pub open spec fn token_reused(c: (Seq<char>, u64), post: SignerModel, tok: SignedToken) -> bool {
    &&& tok.value@ == c.0
    &&& tok.issued_at == c.1
    &&& post.cache == Some(c)
}

pub open spec fn get_token_post(
    pre: SignerModel,
    now: u64,
    post: SignerModel,
    r: Result<SignedToken, Error>,
) -> bool {
    &&& post.key_id == pre.key_id
    &&& post.team_id == pre.team_id
    &&& match r {
        Ok(tok) => match pre.cache {
            Some(c) => if token_fresh(c.1, now) {
                token_reused(c, post, tok)
            } else {
                token_renewed(pre, now, post, tok)
            },
            None => token_renewed(pre, now, post, tok),
        },
        Err(e) => {
            &&& e == Error::SignerError
            &&& post.cache == pre.cache
            &&& match pre.cache {
                Some(c) => !token_fresh(c.1, now),
                None => true,
            }
        },
    }
}

impl Signer {
    /// Construct a signer from the key and team identifiers and an
    /// unencrypted PKCS#8 EC private key. Fails with the key-rejection
    /// error when the outside library refuses the key; nothing else.
    pub fn new(key_id: String, team_id: String, pkcs8: &Vec<u8>) -> (r: Result<Signer, Error>)
        ensures
            r matches Ok(s) ==> {
                &&& s@.key_id == key_id@
                &&& s@.team_id == team_id@
                &&& s@.cache is None
            },
            r matches Err(e) ==> e == Error::UnexpectedKey,
    {
        let rng = new_system_random();
        match ec_key_from_pkcs8(pkcs8, &rng) {
            Ok(key) => Ok(Signer { key_id, team_id, key, rng, cache: None }),
            Err(_) => Err(Error::UnexpectedKey),
        }
    }

    /// The signer's mathematical model.
    pub closed spec fn view(&self) -> SignerModel {
        SignerModel {
            key_id: self.key_id@,
            team_id: self.team_id@,
            cache: match self.cache {
                Some(t) => Some((t.value@, t.issued_at)),
                None => None,
            },
        }
    }

    /// The key identifier this signer was built with.
    pub fn key_id(&self) -> (r: &String)
        ensures
            r@ == self@.key_id,
    {
        &self.key_id
    }

    /// The team identifier this signer was built with.
    pub fn team_id(&self) -> (r: &String)
        ensures
            r@ == self@.team_id,
    {
        &self.team_id
    }

    /// Build the signing input for a token issued now.
    fn build_signing_input(&self, now: u64) -> (r: String)
        ensures
            r@ == signing_input(self@.key_id, self@.team_id, now),
    {
        let mut header = "{\"alg\":\"ES256\",\"kid\":".to_owned();
        crate::text::append_json_str(&mut header, self.key_id.as_str());
        push_char(&mut header, '}');
        proof {
            assert(header@ =~= header_json(self.key_id@));
        }
        let mut claims = "{\"iss\":".to_owned();
        crate::text::append_json_str(&mut claims, self.team_id.as_str());
        append_str(&mut claims, ",\"iat\":");
        let iat = crate::text::u64_to_string(now);
        append_str(&mut claims, iat.as_str());
        push_char(&mut claims, '}');
        proof {
            assert(claims@ =~= claims_json(self.team_id@, now));
        }
        let hb = header.as_str().as_bytes_vec();
        let cb = claims.as_str().as_bytes_vec();
        let mut out = b64url_encode(&hb);
        push_char(&mut out, '.');
        let cenc = b64url_encode(&cb);
        append_str(&mut out, cenc.as_str());
        proof {
            assert(out@ =~= signing_input(self.key_id@, self.team_id@, now));
        }
        out
    }

    /// Return the cached token while it is fresh at `now`; otherwise sign
    /// a new one issued at `now` and replace the cache wholesale. A
    /// signing failure surfaces as the signer error and leaves the cached
    /// token untouched.
    pub fn get_token_at(&mut self, now: u64) -> (r: Result<SignedToken, Error>)
        ensures
            get_token_post(old(self)@, now, final(self)@, r),
    {
        if let Some(cached) = &self.cache {
            if cached.issued_at <= now && now - cached.issued_at < MAX_TOKEN_AGE_SECS {
                return Ok(cached.duplicate());
            }
        }
        let input = self.build_signing_input(now);
        let msg = input.as_str().as_bytes_vec();
        match es256_sign(&self.key, &self.rng, &msg) {
            Ok(sig) => {
                let mut value = input;
                push_char(&mut value, '.');
                let senc = b64url_encode(&sig);
                append_str(&mut value, senc.as_str());
                proof {
                    assert(value@ =~= token_value(self@.key_id, self@.team_id, now, sig@));
                }
                let tok = SignedToken { value, issued_at: now };
                let copy = tok.duplicate();
                self.cache = Some(copy);
                Ok(tok)
            },
            Err(_) => Err(Error::SignerError),
        }
    }
}

/// Relies on std's `SystemTime::now` and `duration_since`: the wall
/// clock's seconds since the Unix epoch, zero should the clock sit before
/// the epoch.
#[verifier::external_body]
pub fn now_epoch_secs() -> u64 {
    match std::time::SystemTime::now().duration_since(std::time::UNIX_EPOCH) {
        Ok(d) => d.as_secs(),
        Err(_) => 0,
    }
}

impl Signer {
    /// Return the cached token while the wall clock says it is fresh;
    /// otherwise sign and cache a new one.
    pub fn get_token(&mut self) -> (r: Result<SignedToken, Error>)
        ensures
            exists|now: u64| get_token_post(old(self)@, now, final(self)@, r),
    {
        let now = now_epoch_secs();
        let r = self.get_token_at(now);
        proof {
            assert(get_token_post(old(self)@, now, self@, r));
        }
        r
    }
}

/// While a prior token is fresh, every call returns its value
/// byte-identically and the observable issuance timestamp does not move:
/// no re-signing happens inside the reuse window.
pub proof fn lemma_fresh_token_reused(
    pre: SignerModel,
    now: u64,
    post: SignerModel,
    tok: SignedToken,
    value: Seq<char>,
    issued_at: u64,
)
    requires
        pre.cache == Some((value, issued_at)),
        token_fresh(issued_at, now),
        get_token_post(pre, now, post, Ok(tok)),
    ensures
        tok.value@ == value,
        tok.issued_at == issued_at,
        post.cache == Some((value, issued_at)),
{
}

/// Once the reuse window has elapsed, the next successful call returns a
/// token with a strictly later issuance timestamp.
pub proof fn lemma_stale_token_renewed(
    pre: SignerModel,
    now: u64,
    post: SignerModel,
    tok: SignedToken,
    value: Seq<char>,
    issued_at: u64,
)
    requires
        pre.cache == Some((value, issued_at)),
        now >= issued_at + MAX_TOKEN_AGE_SECS,
        get_token_post(pre, now, post, Ok(tok)),
    ensures
        tok.issued_at == now,
        tok.issued_at > issued_at,
        post.cache == Some((tok.value@, now)),
{
}

/// Across one renewal boundary, callers under the mutual-exclusion
/// discipline see a single coherent cache: any later successful call made
/// while the first call's token is still fresh returns that same token
/// value, so the boundary yields exactly one distinct token.
pub proof fn lemma_single_token_per_window(
    pre: SignerModel,
    mid: SignerModel,
    post: SignerModel,
    n1: u64,
    n2: u64,
    t1: SignedToken,
    t2: SignedToken,
)
    requires
        get_token_post(pre, n1, mid, Ok(t1)),
        get_token_post(mid, n2, post, Ok(t2)),
        token_fresh(t1.issued_at, n2),
    ensures
        t2.value@ == t1.value@,
        t2.issued_at == t1.issued_at,
{
}

/// After any successful call the cache holds exactly the token that was
/// returned.
pub proof fn lemma_cache_after_success(
    pre: SignerModel,
    now: u64,
    post: SignerModel,
    tok: SignedToken,
)
    requires
        get_token_post(pre, now, post, Ok(tok)),
    ensures
        post.cache == Some((tok.value@, tok.issued_at)),
{
}

/// The general single-cache guarantee: for any run of successful calls
/// whose times all fall inside the first returned token's reuse window,
/// every call returns that first token's value and issuance time — the
/// window yields exactly one distinct token, however many callers take
/// turns on the cache.
pub proof fn lemma_window_single_value(
    models: Seq<SignerModel>,
    nows: Seq<u64>,
    toks: Seq<SignedToken>,
    i: int,
)
    requires
        models.len() == toks.len() + 1,
        nows.len() == toks.len(),
        toks.len() >= 1,
        0 <= i < toks.len(),
        forall|j: int|
            0 <= j < toks.len() ==> get_token_post(
                models[j],
                nows[j],
                models[j + 1],
                Ok(#[trigger] toks[j]),
            ),
        forall|j: int| 0 <= j < toks.len() ==> token_fresh(toks[0].issued_at, #[trigger] nows[j]),
    ensures
        toks[i].value@ == toks[0].value@,
        toks[i].issued_at == toks[0].issued_at,
        models[i + 1].cache == Some((toks[0].value@, toks[0].issued_at)),
    decreases i,
{
    if i == 0 {
        lemma_cache_after_success(models[0], nows[0], models[1], toks[0]);
    } else {
        lemma_window_single_value(models, nows, toks, i - 1);
        lemma_cache_after_success(models[i], nows[i], models[i + 1], toks[i]);
    }
}

} // verus!
