//! The TLS client configuration of rustls, as the rest of the library sees it:
//! the trusted roots it holds and the ALPN protocols it offers.

use vstd::prelude::*;

verus! {

#[verifier::external_type_specification]
#[verifier::external_body]
pub struct ExClientConfig(rustls::ClientConfig);

/// A trust anchor as rustls keeps it: subject, subject public key info and
/// optional name constraints, each as DER bytes.
pub type AnchorModel = (Seq<u8>, Seq<u8>, Option<Seq<u8>>);

/// The trusted roots of a configuration, in the order they were added.
pub uninterp spec fn config_roots(c: rustls::ClientConfig) -> Seq<(Seq<u8>, Seq<u8>, Option<Seq<u8>>)>;

/// The ALPN protocols that a configuration offers, in order.
pub uninterp spec fn config_alpn(c: rustls::ClientConfig) -> Seq<Seq<u8>>;

/// Relies on rustls::ClientConfig::new: no root certificates and no ALPN
/// protocols.
#[verifier::external_body]
pub(crate) fn new_client_config() -> (r: rustls::ClientConfig)
    ensures
        config_roots(r) == Seq::<AnchorModel>::empty(),
        config_alpn(r) == Seq::<Seq<u8>>::empty(),
{
    rustls::ClientConfig::new()
}

#[verifier::external_type_specification]
pub struct ExCertificate(rustls::Certificate);

#[verifier::external_type_specification]
#[verifier::external_body]
pub struct ExWebpkiError(webpki::Error);

/// The trust anchor that webpki reads out of a DER certificate, or `None`
/// where the bytes do not parse as a certificate.
pub uninterp spec fn trust_anchor_of(der: Seq<u8>) -> Option<(Seq<u8>, Seq<u8>, Option<Seq<u8>>)>;

/// The roots after adding the certificate `der`: one more anchor at the end
/// where it parses, the same roots where it does not.
pub open spec fn roots_with(roots: Seq<AnchorModel>, der: Seq<u8>) -> Seq<AnchorModel> {
    match trust_anchor_of(der) {
        Some(a) => roots.push(a),
        None => roots,
    }
}

/// The ALPN identifier of HTTP/2, the bytes of "h2".
pub open spec fn h2_protocol() -> Seq<u8> {
    seq![104u8, 50u8]
}

/// Whether a list of ALPN protocols offers HTTP/2.
pub open spec fn offers_h2(alpn: Seq<Seq<u8>>) -> bool {
    alpn.contains(h2_protocol())
}

/// Relies on rustls::RootCertStore::add, which parses the certificate with
/// webpki::trust_anchor_util::cert_der_as_trust_anchor and, where that
/// succeeds, appends the anchor to the store's roots.
#[verifier::external_body]
pub(crate) fn add_root(c: &mut rustls::ClientConfig, ca: &rustls::Certificate) -> (r: Result<(), webpki::Error>)
    ensures
        r is Ok <==> trust_anchor_of(ca.0@) is Some,
        config_roots(*final(c)) == roots_with(config_roots(*old(c)), ca.0@),
        config_alpn(*final(c)) == config_alpn(*old(c)),
{
    c.root_store.add(ca)
}

/// Relies on the public field `alpn_protocols` of rustls::ClientConfig and on
/// `Vec::clone`: a copy of the ALPN protocols offered.
#[verifier::external_body]
pub(crate) fn alpn_protocols(c: &rustls::ClientConfig) -> (r: Vec<Vec<u8>>)
    ensures
        r.deep_view() == config_alpn(*c),
{
    c.alpn_protocols.clone()
}

/// Relies on the public field `alpn_protocols` of rustls::ClientConfig and on
/// `Vec::push`: the protocol is offered last.
#[verifier::external_body]
pub(crate) fn push_alpn(c: &mut rustls::ClientConfig, protocol: Vec<u8>)
    ensures
        config_alpn(*final(c)) == config_alpn(*old(c)).push(protocol@),
        config_roots(*final(c)) == config_roots(*old(c)),
{
    c.alpn_protocols.push(protocol)
}

/// Relies on the derived `Clone` of rustls::ClientConfig, which copies the
/// root store and the ALPN protocols field by field.
#[verifier::external_body]
pub(crate) fn clone_config(c: &rustls::ClientConfig) -> (r: rustls::ClientConfig)
    ensures
        config_roots(r) == config_roots(*c),
        config_alpn(r) == config_alpn(*c),
{
    c.clone()
}

/// The ALPN identifier of HTTP/2.
pub fn alpn_h2() -> (r: Vec<u8>)
    ensures
        r@ == h2_protocol(),
{
    let r = vec![104u8, 50u8];
    assert(r@ =~= h2_protocol());
    r
}

/// Whether one ALPN protocol is HTTP/2's.
fn is_h2(protocol: &Vec<u8>) -> (r: bool)
    ensures
        r == (protocol@ == h2_protocol()),
{
    if protocol.len() == 2 && protocol[0] == 104u8 && protocol[1] == 50u8 {
        assert(protocol@ =~= h2_protocol());
        true
    } else {
        false
    }
}

/// Whether the configuration offers HTTP/2 among its ALPN protocols.
pub fn has_h2(c: &rustls::ClientConfig) -> (r: bool)
    ensures
        r == offers_h2(config_alpn(*c)),
{
    let protocols = alpn_protocols(c);
    let mut i: usize = 0;
    while i < protocols.len()
        invariant
            i <= protocols.len(),
            protocols.deep_view() == config_alpn(*c),
            forall|j: int| 0 <= j < i ==> protocols.deep_view()[j] != h2_protocol(),
        decreases protocols.len() - i,
    {
        if is_h2(&protocols[i]) {
            assert(protocols.deep_view()[i as int] == h2_protocol());
            return true;
        }
        assert(protocols.deep_view()[i as int] == protocols@[i as int]@);
        i = i + 1;
    }
    false
}

/// Offers HTTP/2 in the configuration, appended last, unless it is offered
/// already. The roots are kept.
pub fn require_h2(c: &mut rustls::ClientConfig)
    ensures
        config_roots(*final(c)) == config_roots(*old(c)),
        config_alpn(*final(c)) == (if offers_h2(config_alpn(*old(c))) {
            config_alpn(*old(c))
        } else {
            config_alpn(*old(c)).push(h2_protocol())
        }),
        offers_h2(config_alpn(*final(c))),
{
    if !has_h2(c) {
        push_alpn(c, alpn_h2());
        assert(config_alpn(*c).last() == h2_protocol());
    }
}

} // verus!
