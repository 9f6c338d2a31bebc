//! The DNS-over-HTTPS client connection and the builder that stages its TLS
//! configuration.

use vstd::prelude::*;
use crate::address::SocketAddress;
use crate::error::ConfigError;
use crate::tls_config::{
    add_root, clone_config, config_alpn, config_roots, h2_protocol, new_client_config,
    offers_h2, require_h2, roots_with, trust_anchor_of, AnchorModel,
};

verus! {

/// The ALPN list that a connection attempt offers, given the one the
/// connection stores: HTTP/2 is appended where it is missing.
pub open spec fn alpn_for_https(alpn: Seq<Seq<u8>>) -> Seq<Seq<u8>> {
    if offers_h2(alpn) {
        alpn
    } else {
        alpn.push(h2_protocol())
    }
}

/// A DNS-over-HTTPS client connection: the name server, the name its
/// certificate must carry, and the TLS configuration that authenticates it.
/// The connector value is carried along only: the HTTPS stream builder of
/// trust-dns-https 0.20 takes no connector value, and picks the TCP stream
/// type by a type parameter when a connection attempt is made.
pub struct HttpsClientConnection<T> {
    name_server: SocketAddress,
    dns_name: String,
    client_config: rustls::ClientConfig,
    connector: T,
}

/// Stages the TLS configuration of an `HttpsClientConnection`.
pub struct HttpsClientConnectionBuilder<T> {
    client_config: rustls::ClientConfig,
    connector: T,
}

impl<T> HttpsClientConnectionBuilder<T> {
    /// The trusted roots staged so far, in the order they were added.
    pub closed spec fn roots(&self) -> Seq<AnchorModel> {
        config_roots(self.client_config)
    }

    /// The ALPN protocols staged so far.
    pub closed spec fn alpn(&self) -> Seq<Seq<u8>> {
        config_alpn(self.client_config)
    }

    /// The connector the connection will carry.
    pub closed spec fn spec_connector(&self) -> T {
        self.connector
    }

    /// A builder with an empty trust store and the given connector.
    pub fn new(connector: T) -> (r: HttpsClientConnectionBuilder<T>)
        ensures
            r.roots() == Seq::<AnchorModel>::empty(),
            r.alpn() == Seq::<Seq<u8>>::empty(),
            r.spec_connector() == connector,
    {
        HttpsClientConnectionBuilder { client_config: new_client_config(), connector }
    }

    /// A builder that starts from the given TLS configuration.
    pub fn with_client_config(client_config: rustls::ClientConfig, connector: T) -> (r: Self)
        ensures
            r.roots() == config_roots(client_config),
            r.alpn() == config_alpn(client_config),
            r.spec_connector() == connector,
    {
        HttpsClientConnectionBuilder { client_config, connector }
    }

    /// Trusts the certificate `ca` as a root for authenticating the server.
    /// Bytes that are not a DER certificate leave the builder as it was and
    /// give `ConfigError::BadCertificate`.
    pub fn add_ca(&mut self, ca: rustls::Certificate) -> (r: Result<(), ConfigError>)
        ensures
            r is Ok <==> trust_anchor_of(ca.0@) is Some,
            r is Err ==> r == Err::<(), ConfigError>(ConfigError::BadCertificate),
            final(self).roots() == roots_with(old(self).roots(), ca.0@),
            final(self).alpn() == old(self).alpn(),
            final(self).spec_connector() == old(self).spec_connector(),
    {
        match add_root(&mut self.client_config, &ca) {
            Ok(()) => Ok(()),
            Err(_) => Err(ConfigError::BadCertificate),
        }
    }

    /// Freezes the staged configuration, unchanged, into a connection to
    /// `name_server` that expects a certificate for `dns_name`.
    pub fn build(self, name_server: SocketAddress, dns_name: String) -> (r: HttpsClientConnection<T>)
        ensures
            r.spec_name_server() == name_server,
            r.spec_dns_name() == dns_name@,
            r.roots() == self.roots(),
            r.alpn() == self.alpn(),
            r.spec_connector() == self.spec_connector(),
    {
        HttpsClientConnection {
            name_server,
            dns_name,
            client_config: self.client_config,
            connector: self.connector,
        }
    }
}

impl<T: Default> Default for HttpsClientConnectionBuilder<T> {
    fn default() -> (r: Self)
        ensures
            r.roots() == Seq::<AnchorModel>::empty(),
            r.alpn() == Seq::<Seq<u8>>::empty(),
            call_ensures(T::default, (), r.spec_connector()),
    {
        HttpsClientConnectionBuilder { client_config: new_client_config(), connector: T::default() }
    }
}

impl<T> HttpsClientConnection<T> {
    /// The address of the name server.
    pub closed spec fn spec_name_server(&self) -> SocketAddress {
        self.name_server
    }

    /// The name that the server's certificate must carry.
    pub closed spec fn spec_dns_name(&self) -> Seq<char> {
        self.dns_name@
    }

    /// The trusted roots that authenticate the server.
    pub closed spec fn roots(&self) -> Seq<AnchorModel> {
        config_roots(self.client_config)
    }

    /// The ALPN protocols offered to the server.
    pub closed spec fn alpn(&self) -> Seq<Seq<u8>> {
        config_alpn(self.client_config)
    }

    /// The connector the connection carries.
    pub closed spec fn spec_connector(&self) -> T {
        self.connector
    }

    /// A builder with an empty trust store and a default connector.
    pub fn new() -> (r: HttpsClientConnectionBuilder<T>)
        where T: Default
        ensures
            r.roots() == Seq::<AnchorModel>::empty(),
            r.alpn() == Seq::<Seq<u8>>::empty(),
            call_ensures(T::default, (), r.spec_connector()),
    {
        HttpsClientConnectionBuilder::default()
    }

    /// A builder with an empty trust store and the given connector. The
    /// connector is carried, not used to connect: trust-dns-https 0.20 takes
    /// no connector value.
    pub fn with_connector(connector: T) -> (r: HttpsClientConnectionBuilder<T>)
        ensures
            r.roots() == Seq::<AnchorModel>::empty(),
            r.alpn() == Seq::<Seq<u8>>::empty(),
            r.spec_connector() == connector,
    {
        HttpsClientConnectionBuilder::new(connector)
    }

    /// The address of the name server.
    pub fn name_server(&self) -> (r: SocketAddress)
        ensures
            r == self.spec_name_server(),
    {
        self.name_server
    }

    /// The name that the server's certificate must carry.
    pub fn dns_name(&self) -> (r: &str)
        ensures
            r@ == self.spec_dns_name(),
    {
        self.dns_name.as_str()
    }

    /// The connector the connection carries.
    pub fn connector(&self) -> (r: &T)
        ensures
            *r == self.spec_connector(),
    {
        &self.connector
    }

    /// A fresh copy of the TLS configuration, for one connection attempt,
    /// which offers HTTP/2 over ALPN: appended last where the stored
    /// configuration lacks it. Attempts never share a configuration, so
    /// nothing one of them does reaches the connection's own.
    pub fn stream_config(&self) -> (r: rustls::ClientConfig)
        ensures
            config_roots(r) == self.roots(),
            config_alpn(r) == alpn_for_https(self.alpn()),
            offers_h2(config_alpn(r)),
    {
        let mut config = clone_config(&self.client_config);
        require_h2(&mut config);
        config
    }

    /// What one connection attempt needs: the name server, the name its
    /// certificate must carry, and a fresh copy of the TLS configuration,
    /// which offers HTTP/2 (see `stream_config`).
    pub fn stream_request(&self) -> (r: StreamRequest)
        ensures
            r.name_server == self.spec_name_server(),
            r.dns_name@ == self.spec_dns_name(),
            config_roots(r.client_config) == self.roots(),
            config_alpn(r.client_config) == alpn_for_https(self.alpn()),
            offers_h2(config_alpn(r.client_config)),
    {
        StreamRequest {
            name_server: self.name_server,
            dns_name: self.dns_name.clone(),
            client_config: self.stream_config(),
        }
    }
}

/// The inputs of one attempt to connect to a name server over HTTPS.
pub struct StreamRequest {
    pub name_server: SocketAddress,
    pub dns_name: String,
    pub client_config: rustls::ClientConfig,
}

impl<T: Clone> Clone for HttpsClientConnection<T> {
    /// A copy with the same server, name and configuration; the two share no
    /// state.
    fn clone(&self) -> (r: Self)
        ensures
            r.spec_name_server() == self.spec_name_server(),
            r.spec_dns_name() == self.spec_dns_name(),
            r.roots() == self.roots(),
            r.alpn() == self.alpn(),
            cloned(self.spec_connector(), r.spec_connector()),
    {
        HttpsClientConnection {
            name_server: self.name_server,
            dns_name: self.dns_name.clone(),
            client_config: clone_config(&self.client_config),
            connector: self.connector.clone(),
        }
    }
}

} // verus!
