//! Where to connect, and as whom.
use vstd::prelude::*;

verus! {

/// How the client proves who it is.
#[derive(Debug, Clone, Copy, PartialEq, Eq, Structural)]
pub enum Mechanism {
    /// SASL PLAIN: user name and password, each after a zero octet.
    Plain,
}

impl Mechanism {
    /// The name of the mechanism on the wire.
    pub open spec fn spec_name(self) -> Seq<char> {
        match self {
            Mechanism::Plain => "PLAIN"@,
        }
    }

    /// The name of the mechanism on the wire.
    pub fn as_str(&self) -> (r: &'static str)
        ensures
            r@ == self.spec_name(),
    {
        match self {
            Mechanism::Plain => "PLAIN",
        }
    }
}

/// All that a connection needs to know before it starts.
#[derive(Debug, Clone, Copy)]
pub struct ConnectionParameters<'a> {
    pub host: &'a str,
    pub port: u16,
    pub username: &'a str,
    pub password: &'a str,
    pub mechanism: Mechanism,
    pub virtual_host: &'a str,
}

/// Collects connection parameters one by one. Port, mechanism and virtual host have
/// defaults; host, user name and password must be given.
#[derive(Debug, Clone, Copy)]
pub struct ConnectionParametersBuilder<'a> {
    pub host: Option<&'a str>,
    pub port: u16,
    pub username: Option<&'a str>,
    pub password: Option<&'a str>,
    pub mechanism: Mechanism,
    pub virtual_host: &'a str,
}

impl<'a> ConnectionParametersBuilder<'a> {
    /// A builder with port 5672, the PLAIN mechanism and the virtual host `/`.
    pub fn builder() -> (r: Self)
        ensures
            r.host is None,
            r.port == 5672,
            r.username is None,
            r.password is None,
            r.mechanism == Mechanism::Plain,
            r.virtual_host@ == "/"@,
    {
        ConnectionParametersBuilder {
            host: None,
            port: 5672,
            username: None,
            password: None,
            mechanism: Mechanism::Plain,
            virtual_host: "/",
        }
    }

    /// Sets the host, and leaves the rest as it is.
    pub fn host(self, host: &'a str) -> (r: Self)
        ensures
            r == (ConnectionParametersBuilder { host: Some(host), ..self }),
    {
        ConnectionParametersBuilder { host: Some(host), ..self }
    }

    /// Sets the user name, and leaves the rest as it is.
    pub fn username(self, username: &'a str) -> (r: Self)
        ensures
            r == (ConnectionParametersBuilder { username: Some(username), ..self }),
    {
        ConnectionParametersBuilder { username: Some(username), ..self }
    }

    /// Sets the password, and leaves the rest as it is.
    pub fn password(self, password: &'a str) -> (r: Self)
        ensures
            r == (ConnectionParametersBuilder { password: Some(password), ..self }),
    {
        ConnectionParametersBuilder { password: Some(password), ..self }
    }

    /// Sets the virtual host, and leaves the rest as it is.
    pub fn virtual_host(self, virtual_host: &'a str) -> (r: Self)
        ensures
            r == (ConnectionParametersBuilder { virtual_host, ..self }),
    {
        ConnectionParametersBuilder { virtual_host, ..self }
    }

    /// Sets the port, and leaves the rest as it is.
    pub fn port(self, port: u16) -> (r: Self)
        ensures
            r == (ConnectionParametersBuilder { port, ..self }),
    {
        ConnectionParametersBuilder { port, ..self }
    }

    /// Whether host, user name and password have all been given.
    pub fn is_complete(&self) -> (r: bool)
        ensures
            r == (self.host is Some && self.username is Some && self.password is Some),
    {
        self.host.is_some() && self.username.is_some() && self.password.is_some()
    }

    /// The parameters that were collected.
    pub fn build(self) -> (r: ConnectionParameters<'a>)
        requires
            self.host is Some,
            self.username is Some,
            self.password is Some,
        ensures
            r.host == self.host->0,
            r.port == self.port,
            r.username == self.username->0,
            r.password == self.password->0,
            r.mechanism == self.mechanism,
            r.virtual_host == self.virtual_host,
    {
        ConnectionParameters {
            host: self.host.unwrap(),
            port: self.port,
            username: self.username.unwrap(),
            password: self.password.unwrap(),
            mechanism: self.mechanism,
            virtual_host: self.virtual_host,
        }
    }
}

} // verus!
