//! How the message queue is reached.

use vstd::prelude::*;

verus! {

/// The address of the queue and the account to use there.
#[derive(Debug, PartialEq, Eq)]
pub struct RedisConfiguration {
    host: String,
    port: u16,
    username: String,
    password: String,
}

impl RedisConfiguration {
    /// The host of the queue.
    pub closed spec fn spec_host(&self) -> Seq<char> {
        self.host@
    }

    /// The port of the queue.
    pub closed spec fn spec_port(&self) -> u16 {
        self.port
    }

    /// The account's name.
    pub closed spec fn spec_username(&self) -> Seq<char> {
        self.username@
    }

    /// The account's password.
    pub closed spec fn spec_password(&self) -> Seq<char> {
        self.password@
    }

    /// A configuration that holds the four values as they are given.
    pub fn new(host: String, port: u16, username: String, password: String) -> (configuration:
        RedisConfiguration)
        ensures
            configuration.spec_host() == host@,
            configuration.spec_port() == port,
            configuration.spec_username() == username@,
            configuration.spec_password() == password@,
    {
        Self { host, port, username, password }
    }

    /// The host of the queue.
    pub fn host(&self) -> (host: &String)
        ensures
            host@ == self.spec_host(),
    {
        &self.host
    }

    /// The port of the queue.
    pub fn port(&self) -> (port: u16)
        ensures
            port == self.spec_port(),
    {
        self.port
    }

    /// The account's name.
    pub fn username(&self) -> (username: &String)
        ensures
            username@ == self.spec_username(),
    {
        &self.username
    }

    /// The account's password.
    pub fn password(&self) -> (password: &String)
        ensures
            password@ == self.spec_password(),
    {
        &self.password
    }
}

} // verus!
