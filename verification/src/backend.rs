//! Where the traffic of an instance goes.

use crate::net::{self, parse_socket, socket_text, SocketAddr};
use crate::text::{self, is_blank};
use vstd::prelude::*;

verus! {

/// An address and port of a pod.
#[derive(Clone, Copy, Debug, PartialEq, Eq, Structural)]
pub struct BackendAddress {
    socket: SocketAddr,
}

/// An address that nothing can listen on.
#[derive(Clone, Debug, PartialEq, Eq)]
pub struct InvalidBackendAddress {
    pub value: String,
}

impl View for BackendAddress {
    type V = SocketAddr;

    closed spec fn view(&self) -> SocketAddr {
        self.socket
    }
}

impl BackendAddress {
    /// An address with a port other than zero.
    pub fn new(socket: SocketAddr) -> (address: Result<BackendAddress, InvalidBackendAddress>)
        ensures
            match address {
                Ok(address) => socket.port != 0 && address@ == socket,
                Err(error) => socket.port == 0 && error.value@ == net::written_socket(socket),
            },
    {
        if socket.port == 0 {
            return Err(InvalidBackendAddress { value: socket_text(socket) });
        }
        Ok(BackendAddress { socket })
    }

    /// The address that a text writes.
    pub fn parse(value: &str) -> (address: Result<BackendAddress, InvalidBackendAddress>)
        ensures
            match address {
                Ok(address) => net::parsed_socket(value@) == Some(address@) && address@.port != 0,
                Err(error) => match net::parsed_socket(value@) {
                    Some(socket) => socket.port == 0 && error.value@ == net::written_socket(socket),
                    None => error.value@ == value@,
                },
            },
    {
        match parse_socket(value) {
            Some(socket) => BackendAddress::new(socket),
            None => Err(InvalidBackendAddress { value: value.to_owned() }),
        }
    }

    /// The address and the port.
    pub fn socket(&self) -> (socket: SocketAddr)
        ensures
            socket == self@,
    {
        self.socket
    }

    /// The address as it is written, in brackets where it is one of version six.
    pub fn to_text(&self) -> (written: String)
        ensures
            written@ == net::written_socket(self@),
    {
        socket_text(self.socket)
    }
}

/// The place that the traffic of an instance goes to: a URI, and the address of a
/// pod where one was seen.
#[derive(Clone, Debug, PartialEq, Eq)]
pub struct BackendEndpoint {
    uri: String,
    address: Option<BackendAddress>,
}

/// The mathematical model of a [`BackendEndpoint`].
#[verifier::ext_equal]
pub struct BackendEndpointView {
    pub uri: Seq<char>,
    pub address: Option<BackendAddress>,
}

impl View for BackendEndpoint {
    type V = BackendEndpointView;

    closed spec fn view(&self) -> BackendEndpointView {
        BackendEndpointView { uri: self.uri@, address: self.address }
    }
}

/// A URI that is blank.
#[derive(Clone, Debug, PartialEq, Eq)]
pub struct InvalidBackendEndpoint {
    pub uri: String,
}

impl BackendEndpoint {
    /// A place without the address of a pod.
    pub fn new(uri: &str) -> (endpoint: Result<BackendEndpoint, InvalidBackendEndpoint>)
        ensures
            match endpoint {
                Ok(endpoint) => !text::blank(uri@) && endpoint@ == (BackendEndpointView {
                    uri: uri@,
                    address: None,
                }),
                Err(error) => text::blank(uri@) && error.uri@ == uri@,
            },
    {
        if is_blank(uri) {
            return Err(InvalidBackendEndpoint { uri: uri.to_owned() });
        }
        Ok(BackendEndpoint { uri: uri.to_owned(), address: None })
    }

    /// A place with the address of a pod.
    pub fn with_address(uri: &str, address: BackendAddress) -> (endpoint: Result<
        BackendEndpoint,
        InvalidBackendEndpoint,
    >)
        ensures
            match endpoint {
                Ok(endpoint) => !text::blank(uri@) && endpoint@ == (BackendEndpointView {
                    uri: uri@,
                    address: Some(address),
                }),
                Err(error) => text::blank(uri@) && error.uri@ == uri@,
            },
    {
        if is_blank(uri) {
            return Err(InvalidBackendEndpoint { uri: uri.to_owned() });
        }
        Ok(BackendEndpoint { uri: uri.to_owned(), address: Some(address) })
    }

    /// The same place once more.
    pub fn duplicate(&self) -> (endpoint: BackendEndpoint)
        ensures
            endpoint@ == self@,
    {
        BackendEndpoint { uri: self.uri.clone(), address: self.address }
    }

    /// The URI.
    pub fn uri(&self) -> (uri: &str)
        ensures
            uri@ == self@.uri,
    {
        self.uri.as_str()
    }

    /// The address of a pod, where one was seen.
    pub fn address(&self) -> (address: Option<BackendAddress>)
        ensures
            address == self@.address,
    {
        self.address
    }
}

} // verus!
