//! What the host keeps on disk: its certificate and key, its name and the paired clients.
use crate::sunshine::crypto::{sha256, sha256_digest};
use crate::sunshine::hex::{encode_hex, hex_encode};
use crate::sunshine::pairing::{HostCredentials, PairedClient};
use crate::text::{
    append_decimal, decimal, is_space, joined, lemma_trim_start, owned, str_chars, string_of, trim,
    trim_end, trim_start, trimmed,
};
use crate::types::{AppError, SunshineConfig};
use rcgen::{CertificateParams, KeyPair, PKCS_RSA_SHA256};
use rustls::pki_types::pem::PemObject;
use rustls::pki_types::CertificateDer;
use vstd::prelude::*;
use vstd::slice::slice_subrange;
use vstd::string::StringExecFns;
use vstd::utf8::*;

verus! {

// ---------------------------------------------------------------- places

/// A name below a directory.
pub open spec fn path_below(dir: Seq<char>, name: Seq<char>) -> Seq<char> {
    if dir.len() == 0 || dir.last() == '/' {
        dir + name
    } else {
        dir + "/"@ + name
    }
}

/// Joins a directory and a relative name.
pub fn path_join(dir: &str, name: &str) -> (r: String)
    ensures
        r@ == path_below(dir@, name@),
{
    let chars = str_chars(dir);
    let mut out = owned(dir);
    if chars.len() > 0 && chars[chars.len() - 1] != '/' {
        out.append("/");
    }
    out.append(name);
    out
}

/// Where the host keeps its files.
#[derive(Debug, Clone)]
pub struct SunshinePaths {
    pub dir: String,
    pub cert: String,
    pub key: String,
    pub state: String,
}

impl SunshinePaths {
    /// The places below a data directory.
    pub fn new(data_dir: &str) -> (r: Self)
        ensures
            r.dir@ == path_below(data_dir@, "sunshine"@),
            r.cert@ == path_below(r.dir@, "cert.pem"@),
            r.key@ == path_below(r.dir@, "key.pem"@),
            r.state@ == path_below(r.dir@, "state.json"@),
    {
        let dir = path_join(data_dir, "sunshine");
        SunshinePaths {
            cert: path_join(dir.as_str(), "cert.pem"),
            key: path_join(dir.as_str(), "key.pem"),
            state: path_join(dir.as_str(), "state.json"),
            dir,
        }
    }
}

/// The text form of an address to listen at.
pub fn bind_address(bind: &str, port: u16) -> (r: String)
    ensures
        r@ == bind@ + ":"@ + decimal(port as nat),
{
    let mut out = owned(bind);
    out.append(":");
    append_decimal(&mut out, port as u64);
    out
}

// ---------------------------------------------------------------- the name

/// What the host keeps in its state file.
#[derive(Debug, Clone)]
pub struct SunshineStateFile {
    pub unique_id: String,
    pub clients: Vec<PairedClient>,
}

/// The name of the host: the one that is set, or one made from the machine's number or, where
/// that cannot be read, from the host name.
pub open spec fn host_id(config: SunshineConfig, machine_id: Option<String>) -> Seq<char> {
    if trim(config.unique_id@).len() > 0 {
        config.unique_id@
    } else {
        let seed = match machine_id {
            Some(text) => text@,
            None => config.hostname@,
        };
        encode_hex(sha256(encode_utf8(trim(seed))).take(8))
    }
}

fn is_blank(text: &str) -> (r: bool)
    ensures
        r == (trim(text@).len() == 0),
{
    let chars = str_chars(text);
    trimmed(chars.as_slice()).len() == 0
}

proof fn lemma_trim_len(s: Seq<char>)
    ensures
        trim(s).len() <= s.len(),
{
    lemma_trim_start(s);
    lemma_trim_end_len(trim_start(s));
}

proof fn lemma_trim_end_len(s: Seq<char>)
    ensures
        trim_end(s).len() <= s.len(),
    decreases s.len(),
{
    if s.len() > 0 && is_space(s.last()) {
        lemma_trim_end_len(s.drop_last());
    }
}

/// Gives the host its name, which is never empty.
pub fn derive_unique_id(config: &SunshineConfig, machine_id: Option<String>) -> (r: String)
    ensures
        r@ == host_id(*config, machine_id),
        r@.len() > 0,
        trim(config.unique_id@).len() == 0 ==> r@.len() == 16,
{
    proof {
        lemma_trim_len(config.unique_id@);
    }
    if !is_blank(config.unique_id.as_str()) {
        return config.unique_id.clone();
    }
    let seed = match machine_id {
        Some(text) => text,
        None => config.hostname.clone(),
    };
    let chars = str_chars(seed.as_str());
    let core = string_of(trimmed(chars.as_slice()));
    let digest = sha256_digest(core.as_str().as_bytes());
    let head = slice_subrange(digest.as_slice(), 0, 8);
    assert(head@ == digest@.take(8));
    hex_encode(head)
}

/// Completes what was read from the state file: a name that is blank is derived anew; without a
/// readable file the host starts with no clients.
pub fn load_state(
    stored: Option<SunshineStateFile>,
    config: &SunshineConfig,
    machine_id: Option<String>,
) -> (r: SunshineStateFile)
    ensures
        match stored {
            Some(state) => {
                &&& r.clients == state.clients
                &&& r.unique_id@ == (if trim(state.unique_id@).len() == 0 {
                    host_id(*config, machine_id)
                } else {
                    state.unique_id@
                })
            },
            None => r.clients@.len() == 0 && r.unique_id@ == host_id(*config, machine_id),
        },
{
    match stored {
        Some(state) => {
            if is_blank(state.unique_id.as_str()) {
                SunshineStateFile {
                    unique_id: derive_unique_id(config, machine_id),
                    clients: state.clients,
                }
            } else {
                state
            }
        },
        None => SunshineStateFile {
            unique_id: derive_unique_id(config, machine_id),
            clients: Vec::new(),
        },
    }
}

// ---------------------------------------------------------------- the certificate and the key

/// The key that a PEM text holds, in DER form.
pub uninterp spec fn pem_key(text: Seq<char>) -> Option<Seq<u8>>;

/// Calls `rcgen::KeyPair::from_pem` and takes the key's DER form with `serialize_der`; nothing
/// where the key cannot be read. The result depends on the text alone.
#[verifier::external_body]
fn key_from_pem(text: &str) -> (r: Option<Vec<u8>>)
    ensures
        match r {
            Some(der) => pem_key(text@) == Some(der@),
            None => pem_key(text@) is None,
        },
{
    match KeyPair::from_pem(text) {
        Ok(key) => Some(key.serialize_der()),
        Err(_) => None,
    }
}

/// The first certificate that a PEM text holds, in DER form.
pub uninterp spec fn pem_certificate(text: Seq<u8>) -> Option<Seq<u8>>;

/// Calls `CertificateDer::from_pem_slice` of `rustls::pki_types`; nothing where no certificate
/// can be read. The result depends on the bytes alone.
#[verifier::external_body]
fn cert_from_pem(text: &[u8]) -> (r: Option<Vec<u8>>)
    ensures
        match r {
            Some(der) => pem_certificate(text@) == Some(der@),
            None => pem_certificate(text@) is None,
        },
{
    match CertificateDer::from_pem_slice(text) {
        Ok(cert) => Some(cert.as_ref().to_vec()),
        Err(_) => None,
    }
}

/// Uses a certificate and a key that were stored, where both can be read.
pub fn stored_credentials(cert_pem: String, key_pem: &str) -> (r: Option<HostCredentials>)
    ensures
        match r {
            Some(c) => {
                &&& c.cert_pem == cert_pem
                &&& pem_certificate(encode_utf8(cert_pem@)) == Some(c.cert_der@)
                &&& pem_key(key_pem@) == Some(c.key_der@)
            },
            None => pem_key(key_pem@) is None || pem_certificate(encode_utf8(cert_pem@)) is None,
        },
{
    let key_der = match key_from_pem(key_pem) {
        Some(der) => der,
        None => {
            return None;
        },
    };
    match cert_from_pem(cert_pem.as_str().as_bytes()) {
        Some(cert_der) => Some(HostCredentials { cert_pem, cert_der, key_der }),
        None => None,
    }
}

/// Calls `rcgen::KeyPair::generate_for` for RSA keys and takes the key's forms with
/// `serialize_pem` and `serialize_der`: a fresh key in PEM and in DER form, or nothing where such
/// keys cannot be made. The PEM form holds the DER form. Which key it is rests on chance.
#[verifier::external_body]
fn new_rsa_key() -> (r: Option<(String, Vec<u8>)>)
    ensures
        match r {
            Some((pem, der)) => pem_key(pem@) == Some(der@),
            None => true,
        },
{
    match KeyPair::generate_for(&PKCS_RSA_SHA256) {
        Ok(key) => Some((key.serialize_pem(), key.serialize_der())),
        Err(_) => None,
    }
}

/// Calls `rcgen::KeyPair::generate` and takes the key's forms with `serialize_pem` and
/// `serialize_der`: a fresh key in PEM and in DER form, or the text of the failure. The PEM form
/// holds the DER form. Which key it is rests on chance.
#[verifier::external_body]
fn new_key() -> (r: Result<(String, Vec<u8>), String>)
    ensures
        match r {
            Ok((pem, der)) => pem_key(pem@) == Some(der@),
            Err(_) => true,
        },
{
    match KeyPair::generate() {
        Ok(key) => Ok((key.serialize_pem(), key.serialize_der())),
        Err(e) => Err(e.to_string()),
    }
}

/// Why a certificate could not be made.
#[derive(Debug)]
pub enum CertFailure {
    /// The subject cannot stand in a certificate.
    Subject(String),
    /// The certificate could not be signed.
    Signing(String),
}

/// Whether a certificate in DER form is one for a subject, with the public half of a private key
/// in DER form, signed with that key.
pub uninterp spec fn certifies(cert: Seq<u8>, subject: Seq<char>, key: Seq<u8>) -> bool;

/// Calls `rcgen::CertificateParams::new` for a subject and `self_signed` of the parameters, on
/// the key that `rcgen::KeyPair::try_from` reads from its DER form: the certificate in PEM and in
/// DER form, or the text of the failure. The certificate is one for the subject and the key, and
/// the PEM form holds the DER form. The parameters are refused exactly where the subject is not
/// ASCII. Which signature the certificate carries rests on chance.
#[verifier::external_body]
fn self_signed_cert(subject: &str, key_der: &[u8]) -> (r: Result<(String, Vec<u8>), CertFailure>)
    ensures
        match r {
            Ok((pem, der)) => certifies(der@, subject@, key_der@) && pem_certificate(
                encode_utf8(pem@),
            ) == Some(der@),
            Err(_) => true,
        },
        (r is Err && r->Err_0 is Subject) <==> !is_ascii_chars(subject@),
{
    let params = match CertificateParams::new(vec![subject.to_string()]) {
        Ok(params) => params,
        Err(e) => return Err(CertFailure::Subject(e.to_string())),
    };
    match KeyPair::try_from(key_der).and_then(|key| params.self_signed(&key)) {
        Ok(cert) => Ok((cert.pem(), cert.der().as_ref().to_vec())),
        Err(e) => Err(CertFailure::Signing(e.to_string())),
    }
}

/// A fresh certificate and key, with the PEM form of the key to be stored.
#[derive(Debug)]
pub struct NewCredentials {
    pub host: HostCredentials,
    pub key_pem: String,
}

/// The subject of a host's certificate.
pub const HOST_SUBJECT: &'static str = "Sunshine Gamestream Host";

/// Whether stored texts give back the credentials that they were made from, and the certificate
/// is the host's.
pub open spec fn stores(c: NewCredentials) -> bool {
    &&& certifies(c.host.cert_der@, HOST_SUBJECT@, c.host.key_der@)
    &&& pem_certificate(encode_utf8(c.host.cert_pem@)) == Some(c.host.cert_der@)
    &&& pem_key(c.key_pem@) == Some(c.host.key_der@)
}

/// Makes credentials out of a key and what became of its certificate.
pub fn signed_credentials(
    key_pem: String,
    key_der: Vec<u8>,
    signed: Result<(String, Vec<u8>), CertFailure>,
) -> (r: Result<NewCredentials, AppError>)
    ensures
        match signed {
            Ok((cert_pem, cert_der)) => r matches Ok(c) && c == (NewCredentials {
                host: HostCredentials { cert_pem, cert_der, key_der },
                key_pem,
            }),
            Err(CertFailure::Subject(text)) => r matches Err(e) && (e matches AppError::Internal(m)
                && m@ == "create cert params failed: "@ + text@),
            Err(CertFailure::Signing(text)) => r matches Err(e) && (e matches AppError::Internal(m)
                && m@ == "generate Sunshine cert failed: "@ + text@),
        },
{
    match signed {
        Ok((cert_pem, cert_der)) => Ok(
            NewCredentials { host: HostCredentials { cert_pem, cert_der, key_der }, key_pem },
        ),
        Err(CertFailure::Subject(text)) => Err(
            AppError::Internal(joined("create cert params failed: ", text.as_str())),
        ),
        Err(CertFailure::Signing(text)) => Err(
            AppError::Internal(joined("generate Sunshine cert failed: ", text.as_str())),
        ),
    }
}

/// Whether an error tells that the host's key or certificate could not be made.
pub open spec fn is_credential_failure(e: AppError) -> bool {
    e matches AppError::Internal(m) && ("generate Sunshine key failed: "@.is_prefix_of(m@)
        || "generate Sunshine cert failed: "@.is_prefix_of(m@))
}

/// What follows the attempt to make an RSA key.
#[derive(Debug)]
pub enum KeyStep {
    /// Use this key, in PEM and in DER form.
    Use(String, Vec<u8>),
    /// Make a key of the default kind.
    TryDefault,
}

/// Takes up what making an RSA key came to: such a key is used wherever there is one.
pub fn after_rsa_key(rsa: Option<(String, Vec<u8>)>) -> (r: KeyStep)
    ensures
        match rsa {
            Some((pem, der)) => r == KeyStep::Use(pem, der),
            None => r is TryDefault,
        },
{
    match rsa {
        Some((pem, der)) => KeyStep::Use(pem, der),
        None => KeyStep::TryDefault,
    }
}

/// Takes up what making a key of the default kind came to.
pub fn after_default_key(key: Result<(String, Vec<u8>), String>) -> (r: Result<
    (String, Vec<u8>),
    AppError,
>)
    ensures
        match key {
            Ok(k) => r == Ok::<(String, Vec<u8>), AppError>(k),
            Err(text) => r matches Err(AppError::Internal(m)) && m@
                == "generate Sunshine key failed: "@ + text@,
        },
{
    match key {
        Ok(k) => Ok(k),
        Err(text) => Err(
            AppError::Internal(joined("generate Sunshine key failed: ", text.as_str())),
        ),
    }
}

/// Makes the certificate and the key of a host: an RSA key, or one of the default kind where no
/// RSA key can be made. What is stored of them can be read back. Whether a key and a certificate
/// can be made rests with the calls that make them.
pub fn generate_host_credentials() -> (r: Result<NewCredentials, AppError>)
    ensures
        match r {
            Ok(c) => stores(c),
            Err(e) => is_credential_failure(e),
        },
{
    let (key_pem, key_der) = match after_rsa_key(new_rsa_key()) {
        KeyStep::Use(pem, der) => (pem, der),
        KeyStep::TryDefault => match after_default_key(new_key()) {
            Ok(key) => key,
            Err(e) => {
                return Err(e);
            },
        },
    };
    let signed = self_signed_cert(HOST_SUBJECT, key_der.as_slice());
    proof {
        reveal_strlit("Sunshine Gamestream Host");
    }
    signed_credentials(key_pem, key_der, signed)
}

/// The credentials of a host, with what is to be stored where they are fresh.
#[derive(Debug)]
pub enum Credentials {
    Stored(HostCredentials),
    Fresh(NewCredentials),
}

/// Uses the stored certificate and key where both can be read, and makes fresh ones otherwise.
pub fn ensure_host_credentials(stored: Option<(String, String)>) -> (r: Result<
    Credentials,
    AppError,
>)
    ensures
        match stored {
            Some((cert_pem, key_pem)) => if pem_key(key_pem@) is Some && pem_certificate(
                encode_utf8(cert_pem@),
            ) is Some {
                r matches Ok(Credentials::Stored(c)) && c.cert_pem == cert_pem && Some(c.cert_der@)
                    == pem_certificate(encode_utf8(cert_pem@)) && Some(c.key_der@) == pem_key(
                    key_pem@,
                )
            } else {
                match r {
                    Ok(Credentials::Fresh(c)) => stores(c),
                    Ok(Credentials::Stored(_)) => false,
                    Err(e) => is_credential_failure(e),
                }
            },
            None => match r {
                Ok(Credentials::Fresh(c)) => stores(c),
                Ok(Credentials::Stored(_)) => false,
                Err(e) => is_credential_failure(e),
            },
        },
{
    if let Some((cert_pem, key_pem)) = stored {
        if let Some(c) = stored_credentials(cert_pem, key_pem.as_str()) {
            return Ok(Credentials::Stored(c));
        }
    }
    match generate_host_credentials() {
        Ok(c) => Ok(Credentials::Fresh(c)),
        Err(e) => Err(e),
    }
}

// ---------------------------------------------------------------- laws

/// A name that is set is used as it is; otherwise a machine has the same name at every start,
/// made of the machine's number, or of the host's name where there is no number; white space
/// around either does not matter.
pub proof fn a_host_keeps_its_name(
    a: SunshineConfig,
    b: SunshineConfig,
    machine_id: Option<String>,
)
    ensures
        trim(a.unique_id@).len() > 0 ==> host_id(a, machine_id) == a.unique_id@,
        trim(a.unique_id@).len() == 0 && trim(b.unique_id@).len() == 0 && machine_id is Some
            ==> host_id(a, machine_id) == host_id(b, machine_id),
        trim(a.unique_id@).len() == 0 && trim(b.unique_id@).len() == 0 && a.hostname@
            == b.hostname@ ==> host_id(a, machine_id) == host_id(b, machine_id),
        trim(a.unique_id@).len() == 0 && machine_id is Some ==> host_id(a, machine_id) == encode_hex(
            sha256(encode_utf8(trim(machine_id->0@))).take(8),
        ),
        trim(a.unique_id@).len() == 0 && machine_id is None ==> host_id(a, machine_id) == encode_hex(
            sha256(encode_utf8(trim(a.hostname@))).take(8),
        ),
{
}

/// What was stored is kept: the clients as they are, and the name unless it is blank.
pub proof fn stored_state_is_kept(
    stored: SunshineStateFile,
    config: SunshineConfig,
    machine_id: Option<String>,
    r: SunshineStateFile,
    fresh: SunshineStateFile,
)
    requires
        call_ensures(load_state, (Some(stored), &config, machine_id), r),
        call_ensures(load_state, (None, &config, machine_id), fresh),
    ensures
        r.clients == stored.clients,
        trim(stored.unique_id@).len() > 0 ==> r.unique_id@ == stored.unique_id@,
        trim(stored.unique_id@).len() == 0 ==> r.unique_id@ == fresh.unique_id@,
        fresh.clients@.len() == 0,
        trim(config.unique_id@).len() > 0 ==> fresh.unique_id@ == config.unique_id@,
{
}

/// The host's files lie side by side in one directory of their own, each under its name.
pub proof fn files_lie_in_their_directory(data_dir: &str, r: SunshinePaths)
    requires
        call_ensures(SunshinePaths::new, (data_dir,), r),
    ensures
        r.dir@ == path_below(data_dir@, "sunshine"@),
        r.cert@ == r.dir@ + "/"@ + "cert.pem"@,
        r.key@ == r.dir@ + "/"@ + "key.pem"@,
        r.state@ == r.dir@ + "/"@ + "state.json"@,
{
    reveal_strlit("sunshine");
    assert("sunshine"@.last() == 'e');
    assert(r.dir@.last() == 'e');
}

/// Stored credentials are the host's: the stored texts give back the certificate and the key, and
/// the certificate is of the host's subject and of that key.
pub proof fn stored_credentials_are_the_hosts(c: NewCredentials)
    requires
        stores(c),
    ensures
        pem_certificate(encode_utf8(c.host.cert_pem@)) == Some(c.host.cert_der@),
        pem_key(c.key_pem@) == Some(c.host.key_der@),
        certifies(c.host.cert_der@, "Sunshine Gamestream Host"@, c.host.key_der@),
{
}

/// A failure to make credentials says which of the two failed.
pub proof fn a_failure_says_what_failed(e: AppError)
    requires
        is_credential_failure(e),
    ensures
        e matches AppError::Internal(m) && ("generate Sunshine key failed: "@.is_prefix_of(m@)
            || "generate Sunshine cert failed: "@.is_prefix_of(m@)),
{
}

} // verus!
