//! The JWT credential lifecycle.
//!
//! The broker authenticates each session with a short-lived RS256
//! token whose claims are issued-at, expiry and the project as
//! audience.  The claims document is built here; signing it with the
//! device's private key is the one outside step.  A token is renewed
//! before it expires (inside a guard window) or after any disconnect.

use vstd::prelude::*;
use vstd::string::StringSliceAdditionalSpecFns;
use vstd::utf8::encode_utf8;

use crate::configfile::{spec_token_lifetime, AppConfig};
use crate::text::{push_dec_u64, push_json_escaped_str, push_str_bytes, spec_dec_bytes,
    spec_json_escaped};

verus! {

/// The token's header carries nothing of its own.
#[derive(Debug, Clone, Copy, PartialEq, Eq, Structural)]
pub struct JWTHeaders;

/// Why a token could not be issued.
#[derive(Debug, Clone, Copy, PartialEq, Eq, Structural)]
pub enum JwtError {
    /// The key did not sign the claims.
    Signing,
}

/// The claims document for issued-at `iat`, expiry `exp` and audience
/// `aud`.
pub open spec fn spec_claims_json(iat: nat, exp: nat, aud: Seq<char>) -> Seq<u8> {
    "{\"iat\":".spec_bytes() + spec_dec_bytes(iat) + ",\"exp\":".spec_bytes() + spec_dec_bytes(exp)
        + ",\"aud\":\"".spec_bytes() + spec_json_escaped(encode_utf8(aud)) + "\"}".spec_bytes()
}

/// What signing a claims document with a key yields: the serialized
/// RS256 token, or nothing where the key is unusable.  RS256 signing
/// is deterministic, so the value depends on the claims and the key
/// alone.
pub uninterp spec fn rs256_jwt_of(claims: Seq<u8>, key: Seq<u8>) -> Option<Seq<char>>;

/// Relies on frank_jwt::encode with RS256, which signs the claims
/// with the PEM key bytes; serde_json::from_slice only converts the
/// claims bytes into the value frank_jwt takes.
#[verifier::external_body]
fn sign_rs256(claims: &Vec<u8>, key: &Vec<u8>) -> (r: Result<String, JwtError>)
    ensures
        match r {
            Ok(t) => rs256_jwt_of(claims@, key@) == Some(t@),
            Err(e) => rs256_jwt_of(claims@, key@) is None && e == JwtError::Signing,
        },
{
    let payload: serde_json::Value = match serde_json::from_slice(claims) {
        Ok(v) => v,
        Err(_) => return Err(JwtError::Signing),
    };
    match frank_jwt::encode(serde_json::Value::Null, key, &payload, frank_jwt::Algorithm::RS256) {
        Ok(t) => Ok(t),
        Err(_) => Err(JwtError::Signing),
    }
}

/// The claims of one token.
#[derive(Debug, Clone)]
pub struct JWTPayload {
    pub iat: u64,
    pub exp: u64,
    pub aud: String,
}

impl JWTPayload {
    /// Claims issued at `now` for the given audience and lifetime.
    pub fn new(audience: &String, lifetime: &u64, now: u64) -> (r: JWTPayload)
        requires
            now + *lifetime <= u64::MAX,
        ensures
            r.iat == now,
            r.exp == now + *lifetime,
            r.aud@ == audience@,
    {
        JWTPayload { iat: now, exp: now + *lifetime, aud: audience.clone() }
    }

    /// The claims document.
    pub fn claims_json(&self) -> (r: Vec<u8>)
        ensures
            r@ == spec_claims_json(self.iat as nat, self.exp as nat, self.aud@),
    {
        let mut out: Vec<u8> = Vec::new();
        push_str_bytes(&mut out, "{\"iat\":");
        push_dec_u64(&mut out, self.iat);
        push_str_bytes(&mut out, ",\"exp\":");
        push_dec_u64(&mut out, self.exp);
        push_str_bytes(&mut out, ",\"aud\":\"");
        push_json_escaped_str(&mut out, self.aud.as_str());
        push_str_bytes(&mut out, "\"}");
        proof {
            assert(out@ =~= spec_claims_json(self.iat as nat, self.exp as nat, self.aud@));
        }
        out
    }
}

/// The credential factory: the claims in force, the signing key, and
/// what renewals are made of.
pub struct IotCoreAuthToken {
    pub headers: JWTHeaders,
    pub payload: JWTPayload,
    pub private_key: Vec<u8>,
    pub audience: String,
    pub lifetime: u64,
}

impl IotCoreAuthToken {
    /// A factory for the configured project, with claims issued at
    /// `now` and the private key's PEM bytes, which the caller read.
    pub fn build(appconfig: &AppConfig, private_key_pem: Vec<u8>, now: u64) -> (r:
        IotCoreAuthToken)
        requires
            now + spec_token_lifetime(&appconfig.identity) <= u64::MAX,
        ensures
            r.payload.iat == now,
            r.payload.exp == now + spec_token_lifetime(&appconfig.identity),
            r.payload.aud@ == appconfig.iotcore.project_id@,
            r.audience@ == appconfig.iotcore.project_id@,
            r.lifetime == spec_token_lifetime(&appconfig.identity),
            r.private_key@ == private_key_pem@,
    {
        let lifetime = appconfig.identity.token_lifetime();
        IotCoreAuthToken {
            headers: JWTHeaders,
            payload: JWTPayload::new(&appconfig.iotcore.project_id, &lifetime, now),
            private_key: private_key_pem,
            audience: appconfig.iotcore.project_id.clone(),
            lifetime,
        }
    }

    /// Signs the claims in force.
    pub fn issue_new(&self) -> (r: Result<String, JwtError>)
        ensures
            ({
                let claims = spec_claims_json(
                    self.payload.iat as nat,
                    self.payload.exp as nat,
                    self.payload.aud@,
                );
                match r {
                    Ok(t) => rs256_jwt_of(claims, self.private_key@) == Some(t@),
                    Err(e) => rs256_jwt_of(claims, self.private_key@) is None && e
                        == JwtError::Signing,
                }
            }),
    {
        let claims = self.payload.claims_json();
        sign_rs256(&claims, &self.private_key)
    }

    /// Replaces the claims with fresh ones issued at `now` and signs
    /// them.
    pub fn renew(&mut self, now: u64) -> (r: Result<String, JwtError>)
        requires
            now + old(self).lifetime <= u64::MAX,
        ensures
            final(self).payload.iat == now,
            final(self).payload.exp == now + old(self).lifetime,
            final(self).payload.aud@ == old(self).audience@,
            final(self).audience@ == old(self).audience@,
            final(self).lifetime == old(self).lifetime,
            final(self).private_key@ == old(self).private_key@,
            ({
                let claims = spec_claims_json(
                    now as nat,
                    (now + old(self).lifetime) as nat,
                    old(self).audience@,
                );
                match r {
                    Ok(t) => rs256_jwt_of(claims, old(self).private_key@) == Some(t@),
                    Err(e) => rs256_jwt_of(claims, old(self).private_key@) is None && e
                        == JwtError::Signing,
                }
            }),
    {
        self.payload = JWTPayload::new(&self.audience, &self.lifetime, now);
        self.issue_new()
    }

    /// Whether the claims in force outlive `now` by at least
    /// `threshold` seconds.
    pub fn is_valid(&self, threshold: u64, now: u64) -> (r: bool)
        ensures
            r == (now + threshold <= self.payload.exp),
    {
        self.payload.exp >= threshold && now <= self.payload.exp - threshold
    }
}

} // verus!
