//! What a transport is told when it is set up.

use vstd::prelude::*;

use crate::address::SocketAddress;

verus! {

/// The settings of one socket.
#[derive(Debug, Clone)]
pub struct Config {
    is_ipv6: bool,
    pub bind: Option<SocketAddress>,
    pub interface_index: Option<u32>,
    pub ttl: Option<u32>,
    pub fib: Option<u32>,
}

/// The settings of one socket, as values.
pub struct ConfigView {
    /// The family asked for where no address to bind to is given.
    pub ipv6: bool,
    pub bind: Option<SocketAddress>,
    pub interface_index: Option<u32>,
    pub ttl: Option<u32>,
    pub fib: Option<u32>,
}

impl ConfigView {
    /// The family of the socket: that of the address to bind to where there
    /// is one, else the one asked for.
    pub open spec fn is_ipv6(self) -> bool {
        match self.bind {
            Some(addr) => addr is V6,
            None => self.ipv6,
        }
    }
}

impl View for Config {
    type V = ConfigView;

    closed spec fn view(&self) -> ConfigView {
        ConfigView {
            ipv6: self.is_ipv6,
            bind: self.bind,
            interface_index: self.interface_index,
            ttl: self.ttl,
            fib: self.fib,
        }
    }
}

impl Config {
    /// Settings for an IPv4 socket, with nothing else set.
    pub fn new() -> (r: Self)
        ensures
            r@ == (ConfigView {
                ipv6: false,
                bind: None,
                interface_index: None,
                ttl: None,
                fib: None,
            }),
    {
        Config { is_ipv6: false, bind: None, interface_index: None, ttl: None, fib: None }
    }

    /// Settings for an IPv6 socket, with nothing else set.
    pub fn with_ipv6() -> (r: Self)
        ensures
            r@ == (ConfigView {
                ipv6: true,
                bind: None,
                interface_index: None,
                ttl: None,
                fib: None,
            }),
    {
        Config { is_ipv6: true, bind: None, interface_index: None, ttl: None, fib: None }
    }

    /// The family of the socket.
    pub fn is_ipv6(&self) -> (r: bool)
        ensures
            r == self@.is_ipv6(),
    {
        match self.bind {
            Some(addr) => addr.is_ipv6(),
            None => self.is_ipv6,
        }
    }

    /// The address that the socket is bound to.
    pub fn bind(self, bind: SocketAddress) -> (r: Self)
        ensures
            r@ == (ConfigView { bind: Some(bind), ..self@ }),
    {
        let mut config = self;
        config.bind = Some(bind);
        config
    }

    /// The interface that the socket is bound to, by its index. No
    /// interface has the index 0.
    pub fn interface_index(self, interface_index: u32) -> (r: Self)
        requires
            interface_index != 0,
        ensures
            r@ == (ConfigView { interface_index: Some(interface_index), ..self@ }),
    {
        let mut config = self;
        config.interface_index = Some(interface_index);
        config
    }

    /// The hop limit of what the socket sends.
    pub fn ttl(self, ttl: u32) -> (r: Self)
        ensures
            r@ == (ConfigView { ttl: Some(ttl), ..self@ }),
    {
        let mut config = self;
        config.ttl = Some(ttl);
        config
    }

    /// The routing table that the socket uses.
    pub fn fib(self, fib: u32) -> (r: Self)
        ensures
            r@ == (ConfigView { fib: Some(fib), ..self@ }),
    {
        let mut config = self;
        config.fib = Some(fib);
        config
    }
}

impl Default for Config {
    fn default() -> (r: Self)
        ensures
            r@ == (ConfigView {
                ipv6: false,
                bind: None,
                interface_index: None,
                ttl: None,
                fib: None,
            }),
    {
        Config::new()
    }
}

/// Which of the two settings is of the wrong family.
#[derive(Debug, Clone, Copy, PartialEq, Eq, Structural)]
pub enum ConfigError {
    /// The settings for the IPv4 socket are those of an IPv6 socket.
    V4ConfigInvalid,
    /// The settings for the IPv6 socket are those of an IPv4 socket.
    V6ConfigInvalid,
}

/// `config` bound to `addr` unless it is bound already.
pub open spec fn bound_by_default(config: ConfigView, addr: SocketAddress) -> ConfigView {
    match config.bind {
        Some(_) => config,
        None => ConfigView { bind: Some(addr), ..config },
    }
}

/// Checks the settings of the two sockets of a client, one for each family,
/// and binds each that is unbound to the unspecified address of its family.
/// The IPv4 settings are looked at first.
pub fn client_configs(v4_client_config: Config, v6_client_config: Config) -> (r: Result<
    (Config, Config),
    ConfigError,
>)
    ensures
        match r {
            Ok((v4, v6)) => {
                &&& !v4_client_config@.is_ipv6()
                &&& v6_client_config@.is_ipv6()
                &&& v4@ == bound_by_default(
                    v4_client_config@,
                    SocketAddress::V4 { ip: 0, port: 0 },
                )
                &&& v6@ == bound_by_default(
                    v6_client_config@,
                    SocketAddress::V6 { ip: 0, port: 0, flowinfo: 0, scope_id: 0 },
                )
            },
            Err(ConfigError::V4ConfigInvalid) => v4_client_config@.is_ipv6(),
            Err(ConfigError::V6ConfigInvalid) => !v4_client_config@.is_ipv6()
                && !v6_client_config@.is_ipv6(),
        },
{
    let mut v4_client_config = v4_client_config;
    let mut v6_client_config = v6_client_config;
    if v4_client_config.is_ipv6() {
        return Err(ConfigError::V4ConfigInvalid);
    }
    if v4_client_config.bind.is_none() {
        v4_client_config.bind = Some(SocketAddress::unspecified_v4());
    }
    if !v6_client_config.is_ipv6() {
        return Err(ConfigError::V6ConfigInvalid);
    }
    if v6_client_config.bind.is_none() {
        v6_client_config.bind = Some(SocketAddress::unspecified_v6());
    }
    Ok((v4_client_config, v6_client_config))
}

/// The error number with which a system says that it has no ICMPv6
/// datagram sockets.
pub const PROTOCOL_NOT_SUPPORTED: i32 = 93;

/// Why a transport could not be set up.
#[derive(Debug)]
pub enum AsyncClientWithConfigError {
    /// The system has no ICMPv6 datagram sockets.
    IcmpV6ProtocolNotSupported(std::io::Error),
    /// Anything else that went wrong.
    OtherIoError(std::io::Error),
}

/// Sorts the error that making a socket ended with. `raw_os_error` is the
/// error number that the system gave, if it gave one.
pub fn socket_error(is_ipv6: bool, raw_os_error: Option<i32>, err: std::io::Error) -> (r:
    AsyncClientWithConfigError)
    ensures
        r == if is_ipv6 && raw_os_error == Some(PROTOCOL_NOT_SUPPORTED) {
            AsyncClientWithConfigError::IcmpV6ProtocolNotSupported(err)
        } else {
            AsyncClientWithConfigError::OtherIoError(err)
        },
{
    match raw_os_error {
        Some(number) => {
            if is_ipv6 && number == PROTOCOL_NOT_SUPPORTED {
                AsyncClientWithConfigError::IcmpV6ProtocolNotSupported(err)
            } else {
                AsyncClientWithConfigError::OtherIoError(err)
            }
        },
        None => AsyncClientWithConfigError::OtherIoError(err),
    }
}

} // verus!
