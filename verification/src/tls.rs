//! Loading TLS material: a certificate chain and one private key.
//!
//! The PEM text of the two files is parsed by the `rustls-pemfile` crate.
//! The key file is tried as PKCS#1 (RSA), then as PKCS#8, then as SEC1
//! (elliptic curve), and the first encoding that yields a key is taken.  The
//! `rustls` crate then makes its server configuration of the material.

use vstd::prelude::*;
use vstd::slice::slice_to_vec;

verus! {

/// The encoding that the private key was found in.
#[derive(Clone, Copy, Debug, PartialEq, Eq, Structural)]
pub enum KeyFormat {
    /// PKCS#1, the RSA-specific encoding.
    Rsa,
    /// PKCS#8, for keys of any algorithm.
    Pkcs8,
    /// SEC1, the encoding of elliptic-curve keys.
    Sec1,
}

/// The material was refused: no certificate, no key in any encoding, or a
/// key that cannot be used.
#[derive(Clone, Copy, Debug, PartialEq, Eq, Structural)]
pub struct InvalidMaterial;

/// A certificate chain, leaf first, and one private key, all DER-encoded.
/// The chain is never empty.
#[derive(Debug)]
pub struct TlsMaterial {
    chain: Vec<Vec<u8>>,
    key: Vec<u8>,
    format: KeyFormat,
}

/// TLS material as plain values.
pub struct Material {
    /// The DER bytes of each certificate, leaf first.
    pub chain: Seq<Seq<u8>>,
    /// The encoding that the key was found in.
    pub format: KeyFormat,
    /// The DER bytes of the key.
    pub key: Seq<u8>,
}

impl View for TlsMaterial {
    type V = Material;

    closed spec fn view(&self) -> Material {
        Material { chain: self.chain.deep_view(), format: self.format, key: self.key@ }
    }
}

/// The server configuration of `rustls`, as it is handed to a listener.
#[verifier::external_type_specification]
#[verifier::external_body]
pub struct ExServerConfig(rustls::ServerConfig);

/// The error of `rustls`.
#[verifier::external_type_specification]
#[verifier::external_body]
pub struct ExTlsError(rustls::Error);

/// Whether `rustls::ConfigBuilder::with_single_cert` makes a server
/// configuration of a chain and a key; its documentation says that it fails
/// if the key is invalid.
pub uninterp spec fn single_cert_accepted(chain: Seq<Seq<u8>>, key: Seq<u8>) -> bool;

/// What `rustls_pemfile::certs` yields for a PEM text, item by item: the
/// DER bytes of a certificate, or `None` for an item that is an error.
pub uninterp spec fn pem_certificates(pem: Seq<u8>) -> Seq<Option<Seq<u8>>>;

/// What `rustls_pemfile::rsa_private_keys` yields for a PEM text.
pub uninterp spec fn pem_rsa_keys(pem: Seq<u8>) -> Seq<Option<Seq<u8>>>;

/// What `rustls_pemfile::pkcs8_private_keys` yields for a PEM text.
pub uninterp spec fn pem_pkcs8_keys(pem: Seq<u8>) -> Seq<Option<Seq<u8>>>;

/// What `rustls_pemfile::ec_private_keys` yields for a PEM text.
pub uninterp spec fn pem_sec1_keys(pem: Seq<u8>) -> Seq<Option<Seq<u8>>>;

/// The items that were read without error, in order.
pub open spec fn readable(items: Seq<Option<Seq<u8>>>) -> Seq<Seq<u8>>
    decreases items.len(),
{
    if items.len() == 0 {
        Seq::empty()
    } else {
        let before = readable(items.drop_last());
        match items.last() {
            Some(der) => before.push(der),
            None => before,
        }
    }
}

/// The key that is taken: the first key of the first encoding, in the order
/// PKCS#1, PKCS#8, SEC1, that has any.
pub open spec fn first_key(rsa: Seq<Seq<u8>>, pkcs8: Seq<Seq<u8>>, sec1: Seq<Seq<u8>>) -> Option<
    (KeyFormat, Seq<u8>),
> {
    if rsa.len() > 0 {
        Some((KeyFormat::Rsa, rsa[0]))
    } else if pkcs8.len() > 0 {
        Some((KeyFormat::Pkcs8, pkcs8[0]))
    } else if sec1.len() > 0 {
        Some((KeyFormat::Sec1, sec1[0]))
    } else {
        None
    }
}

/// The material that the parsed items give: the chain of all certificates
/// and the key taken, or nothing where either is missing.
pub open spec fn material_of(
    certs: Seq<Option<Seq<u8>>>,
    rsa: Seq<Option<Seq<u8>>>,
    pkcs8: Seq<Option<Seq<u8>>>,
    sec1: Seq<Option<Seq<u8>>>,
) -> Option<Material> {
    match first_key(readable(rsa), readable(pkcs8), readable(sec1)) {
        Some((format, key)) => if readable(certs).len() > 0 {
            Some(Material { chain: readable(certs), format, key })
        } else {
            None
        },
        None => None,
    }
}

impl TlsMaterial {
    #[verifier::type_invariant]
    spec fn inv(&self) -> bool {
        self.chain@.len() > 0
    }

    /// The certificate chain, leaf first; it has at least one certificate.
    pub fn chain(&self) -> (r: &Vec<Vec<u8>>)
        ensures
            r.deep_view() == self@.chain,
            r@.len() > 0,
    {
        proof {
            use_type_invariant(self);
        }
        &self.chain
    }

    /// The private key.
    pub fn key(&self) -> (r: &Vec<u8>)
        ensures
            r@ == self@.key,
    {
        &self.key
    }

    /// The encoding that the key was found in.
    pub fn format(&self) -> (r: KeyFormat)
        ensures
            r == self@.format,
    {
        self.format
    }

    /// The server configuration for this material: safe defaults, no client
    /// authentication, this chain and key for every connection.  The
    /// material is invalid if `rustls` cannot use the key.
    pub fn server_config(&self) -> (r: Result<rustls::ServerConfig, InvalidMaterial>)
        ensures
            r is Ok <==> single_cert_accepted(self@.chain, self@.key),
    {
        match single_cert_config(&self.chain, &self.key) {
            Ok(config) => Ok(config),
            Err(_) => Err(InvalidMaterial),
        }
    }

    /// Builds the material from what the four parsers yielded.
    pub fn assemble(
        certs: Vec<Option<Vec<u8>>>,
        rsa: Vec<Option<Vec<u8>>>,
        pkcs8: Vec<Option<Vec<u8>>>,
        sec1: Vec<Option<Vec<u8>>>,
    ) -> (r: Result<TlsMaterial, InvalidMaterial>)
        ensures
            match r {
                Ok(m) => material_of(
                    certs.deep_view(),
                    rsa.deep_view(),
                    pkcs8.deep_view(),
                    sec1.deep_view(),
                ) == Some(m@),
                Err(_) => material_of(
                    certs.deep_view(),
                    rsa.deep_view(),
                    pkcs8.deep_view(),
                    sec1.deep_view(),
                ) is None,
            },
    {
        let chain = keep_readable(&certs);
        let rsa_keys = keep_readable(&rsa);
        if rsa_keys.len() > 0 {
            return Self::pair(chain, KeyFormat::Rsa, rsa_keys);
        }
        let pkcs8_keys = keep_readable(&pkcs8);
        if pkcs8_keys.len() > 0 {
            return Self::pair(chain, KeyFormat::Pkcs8, pkcs8_keys);
        }
        Self::pair(chain, KeyFormat::Sec1, keep_readable(&sec1))
    }

    /// Pairs the chain with the first of the keys.
    fn pair(chain: Vec<Vec<u8>>, format: KeyFormat, keys: Vec<Vec<u8>>) -> (r: Result<
        TlsMaterial,
        InvalidMaterial,
    >)
        ensures
            match r {
                Ok(m) => chain@.len() > 0 && keys@.len() > 0 && m@ == (Material {
                    chain: chain.deep_view(),
                    format,
                    key: keys.deep_view()[0],
                }),
                Err(_) => chain@.len() == 0 || keys@.len() == 0,
            },
    {
        if chain.len() == 0 || keys.len() == 0 {
            return Err(InvalidMaterial);
        }
        let ghost first = keys.deep_view()[0];
        let mut keys = keys;
        let key = keys.swap_remove(0);
        assert(key@ =~= first);
        Ok(TlsMaterial { chain, key, format })
    }
}

/// Loads TLS material from the PEM text of a certificate file and of a key
/// file.
///
/// The key file is read in each of the three encodings, and the key is
/// the first of the PKCS#1 keys, of the PKCS#8 keys if there is none, and of
/// the SEC1 keys if there is none either.  Loading fails if no certificate
/// or no key was found.
pub fn load(cert_pem: &[u8], key_pem: &[u8]) -> (r: Result<TlsMaterial, InvalidMaterial>)
    ensures
        match r {
            Ok(m) => material_of(
                pem_certificates(cert_pem@),
                pem_rsa_keys(key_pem@),
                pem_pkcs8_keys(key_pem@),
                pem_sec1_keys(key_pem@),
            ) == Some(m@),
            Err(_) => material_of(
                pem_certificates(cert_pem@),
                pem_rsa_keys(key_pem@),
                pem_pkcs8_keys(key_pem@),
                pem_sec1_keys(key_pem@),
            ) is None,
        },
{
    TlsMaterial::assemble(
        read_certificates(cert_pem),
        read_rsa_keys(key_pem),
        read_pkcs8_keys(key_pem),
        read_sec1_keys(key_pem),
    )
}

/// Loading succeeds exactly when there is a certificate and a key in at
/// least one encoding.  The material then holds every certificate, in order,
/// and the first key of the first encoding that has one: PKCS#1 before
/// PKCS#8 before SEC1.
pub proof fn material_needs_certificate_and_key(
    certs: Seq<Option<Seq<u8>>>,
    rsa: Seq<Option<Seq<u8>>>,
    pkcs8: Seq<Option<Seq<u8>>>,
    sec1: Seq<Option<Seq<u8>>>,
)
    ensures
        material_of(certs, rsa, pkcs8, sec1) is Some <==> readable(certs).len() > 0 && (readable(
            rsa,
        ).len() > 0 || readable(pkcs8).len() > 0 || readable(sec1).len() > 0),
        material_of(certs, rsa, pkcs8, sec1) matches Some(m) ==> {
            &&& m.chain == readable(certs)
            &&& m.chain.len() > 0
            &&& readable(rsa).len() > 0 ==> m.format == KeyFormat::Rsa && m.key == readable(rsa)[0]
            &&& readable(rsa).len() == 0 && readable(pkcs8).len() > 0 ==> m.format
                == KeyFormat::Pkcs8 && m.key == readable(pkcs8)[0]
            &&& readable(rsa).len() == 0 && readable(pkcs8).len() == 0 ==> m.format
                == KeyFormat::Sec1 && m.key == readable(sec1)[0]
        },
{
}

/// Keeps the items that were read without error, in order.
pub fn keep_readable(items: &Vec<Option<Vec<u8>>>) -> (kept: Vec<Vec<u8>>)
    ensures
        kept.deep_view() == readable(items.deep_view()),
{
    let mut kept: Vec<Vec<u8>> = Vec::new();
    let mut i: usize = 0;
    assert(items.deep_view().take(0) =~= Seq::<Option<Seq<u8>>>::empty());
    assert(kept.deep_view() =~= Seq::<Seq<u8>>::empty());
    while i < items.len()
        invariant
            i <= items@.len(),
            kept.deep_view() == readable(items.deep_view().take(i as int)),
        decreases items@.len() - i,
    {
        let ghost before = kept.deep_view();
        let ghost prefix = items.deep_view().take(i as int + 1);
        assert(prefix.drop_last() =~= items.deep_view().take(i as int));
        assert(prefix.last() == items@[i as int].deep_view());
        match &items[i] {
            Some(der) => {
                let copy = slice_to_vec(der.as_slice());
                assert(copy.deep_view() =~= der.deep_view());
                kept.push(copy);
                assert(kept.deep_view() =~= before.push(der.deep_view()));
            },
            None => {},
        }
        i = i + 1;
    }
    assert(items.deep_view().take(i as int) =~= items.deep_view());
    kept
}

/// Calls `rustls::ServerConfig::builder`, takes the safe defaults and no
/// client authentication, and calls `with_single_cert` with the chain and the
/// key.  Whether a configuration comes back depends on the chain and the key
/// alone, and is all that the contract speaks of.
#[verifier::external_body]
fn single_cert_config(chain: &Vec<Vec<u8>>, key: &Vec<u8>) -> (r: Result<
    rustls::ServerConfig,
    rustls::Error,
>)
    ensures
        r is Ok <==> single_cert_accepted(chain.deep_view(), key@),
{
    let certs = chain.iter().map(|der| rustls::Certificate(der.clone())).collect();
    rustls::ServerConfig::builder()
        .with_safe_defaults()
        .with_no_client_auth()
        .with_single_cert(certs, rustls::PrivateKey(key.clone()))
}

/// Calls `rustls_pemfile::certs` on the text and collects what it yields:
/// the DER bytes of each certificate, `None` for each item that is an error.
#[verifier::external_body]
fn read_certificates(pem: &[u8]) -> (items: Vec<Option<Vec<u8>>>)
    ensures
        items.deep_view() == pem_certificates(pem@),
{
    let mut reader = pem;
    rustls_pemfile::certs(&mut reader).map(|item| match item {
        Ok(der) => Some(der.to_vec()),
        Err(_) => None,
    }).collect()
}

/// Calls `rustls_pemfile::rsa_private_keys` on the text and collects what it
/// yields: the DER bytes of each PKCS#1 key, `None` for each error.
#[verifier::external_body]
fn read_rsa_keys(pem: &[u8]) -> (items: Vec<Option<Vec<u8>>>)
    ensures
        items.deep_view() == pem_rsa_keys(pem@),
{
    let mut reader = pem;
    rustls_pemfile::rsa_private_keys(&mut reader).map(|item| match item {
        Ok(key) => Some(key.secret_pkcs1_der().to_vec()),
        Err(_) => None,
    }).collect()
}

/// Calls `rustls_pemfile::pkcs8_private_keys` on the text and collects what
/// it yields: the DER bytes of each PKCS#8 key, `None` for each error.
#[verifier::external_body]
fn read_pkcs8_keys(pem: &[u8]) -> (items: Vec<Option<Vec<u8>>>)
    ensures
        items.deep_view() == pem_pkcs8_keys(pem@),
{
    let mut reader = pem;
    rustls_pemfile::pkcs8_private_keys(&mut reader).map(|item| match item {
        Ok(key) => Some(key.secret_pkcs8_der().to_vec()),
        Err(_) => None,
    }).collect()
}

/// Calls `rustls_pemfile::ec_private_keys` on the text and collects what it
/// yields: the DER bytes of each SEC1 key, `None` for each error.
#[verifier::external_body]
fn read_sec1_keys(pem: &[u8]) -> (items: Vec<Option<Vec<u8>>>)
    ensures
        items.deep_view() == pem_sec1_keys(pem@),
{
    let mut reader = pem;
    rustls_pemfile::ec_private_keys(&mut reader).map(|item| match item {
        Ok(key) => Some(key.secret_sec1_der().to_vec()),
        Err(_) => None,
    }).collect()
}

} // verus!
