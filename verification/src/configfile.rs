//! The static configuration: the device's identity and its IoT core
//! coordinates, as loaded at startup.
//!
//! Reading and parsing the YAML document is the caller's work; the
//! values land here.  The identity's key material is named by file
//! path; the caller reads each file and hands the text in, and the
//! base64 decoding of that text is done here.

use vstd::prelude::*;
use vstd::string::{StringExecFns, StringSliceAdditionalSpecFns};

verus! {

/// The token lifetime used when none is configured, in seconds.
pub const DEFAULT_TOKEN_LIFETIME_SECS: u64 = 3600;

/// Why key material could not be produced.
#[derive(Debug, Clone, Copy, PartialEq, Eq, Structural)]
pub enum PemError {
    /// The file's text was not available.
    Unreadable,
    /// The text did not decode as base64.
    Undecodable,
}

/// What base64 decoding yields for a text, or nothing where the text
/// is not valid base64.  The value depends on the text alone.
pub uninterp spec fn base64_decoded(s: Seq<char>) -> Option<Seq<u8>>;

/// Relies on base64::decode: the standard-alphabet decoding of the
/// text, which depends on the text alone.
#[verifier::external_body]
fn base64_decode_text(s: &str) -> (r: Result<Vec<u8>, PemError>)
    ensures
        match r {
            Ok(v) => base64_decoded(s@) == Some(v@),
            Err(e) => base64_decoded(s@) is None && e == PemError::Undecodable,
        },
{
    match base64::decode(s) {
        Ok(v) => Ok(v),
        Err(_) => Err(PemError::Undecodable),
    }
}

/// The device's identity: key file paths and the token lifetime.
#[derive(Debug, Clone)]
pub struct IdentityConfig {
    pub public_key: String,
    pub private_key: String,
    pub ca_certs: Option<String>,
    pub token_lifetime: Option<u64>,
}

/// The token lifetime a configured identity asks for, in seconds:
/// the configured value where one is set and positive, else the
/// default.
pub open spec fn spec_token_lifetime(c: &IdentityConfig) -> int {
    match c.token_lifetime {
        Some(t) => if t > 0 {
            t as int
        } else {
            DEFAULT_TOKEN_LIFETIME_SECS as int
        },
        None => DEFAULT_TOKEN_LIFETIME_SECS as int,
    }
}

impl IdentityConfig {
    /// The configured token lifetime clamped above zero, or an hour
    /// where none is set.
    pub fn token_lifetime(&self) -> (r: u64)
        ensures
            r == spec_token_lifetime(self),
            r > 0,
    {
        match self.token_lifetime {
            Some(t) => if t > 0 {
                t
            } else {
                DEFAULT_TOKEN_LIFETIME_SECS
            },
            None => DEFAULT_TOKEN_LIFETIME_SECS,
        }
    }

    /// The CA bundle as bytes: nothing where no bundle is configured,
    /// else the decoded text of the bundle file, which the caller
    /// read.
    pub fn ca_as_vec(&self, pem_text: Option<&str>) -> (r: Result<Option<Vec<u8>>, PemError>)
        ensures
            self.ca_certs is None ==> r == Ok::<Option<Vec<u8>>, PemError>(None),
            self.ca_certs is Some ==> match pem_text {
                None => r == Err::<Option<Vec<u8>>, PemError>(PemError::Unreadable),
                Some(t) => match r {
                    Ok(v) => (v matches Some(b) && base64_decoded(t@) == Some(b@)),
                    Err(e) => base64_decoded(t@) is None && e == PemError::Undecodable,
                },
            },
    {
        if self.ca_certs.is_none() {
            return Ok(None);
        }
        match pem_text {
            None => Err(PemError::Unreadable),
            Some(t) => match base64_decode_text(t) {
                Ok(v) => Ok(Some(v)),
                Err(e) => Err(e),
            },
        }
    }

    /// The public key as bytes: the decoded text of the key file.
    pub fn cert_as_vec(&self, pem_text: Option<&str>) -> (r: Result<Vec<u8>, PemError>)
        ensures
            match pem_text {
                None => r == Err::<Vec<u8>, PemError>(PemError::Unreadable),
                Some(t) => match r {
                    Ok(v) => base64_decoded(t@) == Some(v@),
                    Err(e) => base64_decoded(t@) is None && e == PemError::Undecodable,
                },
            },
    {
        match pem_text {
            None => Err(PemError::Unreadable),
            Some(t) => base64_decode_text(t),
        }
    }

    /// The private key as bytes: the decoded text of the key file.
    pub fn key_as_vec(&self, pem_text: Option<&str>) -> (r: Result<Vec<u8>, PemError>)
        ensures
            match pem_text {
                None => r == Err::<Vec<u8>, PemError>(PemError::Unreadable),
                Some(t) => match r {
                    Ok(v) => base64_decoded(t@) == Some(v@),
                    Err(e) => base64_decoded(t@) is None && e == PemError::Undecodable,
                },
            },
    {
        match pem_text {
            None => Err(PemError::Unreadable),
            Some(t) => base64_decode_text(t),
        }
    }
}

/// Where the gateway lives in the cloud service.
#[derive(Debug, Clone)]
pub struct IotCoreConfig {
    pub device_id: String,
    pub project_id: String,
    pub region: String,
    pub registry: String,
}

/// The fully qualified broker identity of a device.
pub open spec fn spec_client_id(c: &IotCoreConfig) -> Seq<char> {
    "projects/"@ + c.project_id@ + "/locations/"@ + c.region@ + "/registries/"@ + c.registry@
        + "/devices/"@ + c.device_id@
}

impl IotCoreConfig {
    /// The broker client id:
    /// projects/P/locations/R/registries/REG/devices/D.
    pub fn client_id(&self) -> (r: String)
        ensures
            r@ == spec_client_id(self),
    {
        let mut s = String::new();
        s.append("projects/");
        s.append(self.project_id.as_str());
        s.append("/locations/");
        s.append(self.region.as_str());
        s.append("/registries/");
        s.append(self.registry.as_str());
        s.append("/devices/");
        s.append(self.device_id.as_str());
        proof {
            assert(s@ =~= spec_client_id(self));
        }
        s
    }
}

/// The DNS TXT record names under which a domain publishes the
/// gateway's project, region and registry; a resolver looks these up
/// to assemble an IotCoreConfig when the YAML document names only a
/// domain.
pub fn dns_txt_record_names(domain: &str) -> (r: (String, String, String))
    ensures
        r.0@ == "_project_id."@ + domain@,
        r.1@ == "_region."@ + domain@,
        r.2@ == "_registry."@ + domain@,
{
    let mut project = String::new();
    project.append("_project_id.");
    project.append(domain);
    let mut region = String::new();
    region.append("_region.");
    region.append(domain);
    let mut registry = String::new();
    registry.append("_registry.");
    registry.append(domain);
    proof {
        assert(project@ =~= "_project_id."@ + domain@);
        assert(region@ =~= "_region."@ + domain@);
        assert(registry@ =~= "_registry."@ + domain@);
    }
    (project, region, registry)
}

/// The whole startup configuration.
#[derive(Debug, Clone)]
pub struct AppConfig {
    pub identity: IdentityConfig,
    pub iotcore: IotCoreConfig,
}

} // verus!
