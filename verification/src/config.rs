//! What an operation is asked to do: the platform it runs on and the proxy
//! endpoint it is given.

use crate::text::{decimal, push_decimal};
use vstd::prelude::*;

verus! {

/// The operating systems that are told apart. The platform is fixed for the
/// lifetime of a process.
#[derive(Clone, Copy, Debug, PartialEq, Eq, Structural)]
pub enum Platform {
    Windows,
    MacOs,
    Unsupported,
}

/// The proxy endpoint of an `Enable`. Neither field is checked: the caller
/// answers for a host that is not empty and a port that is not zero.
#[derive(Clone, Debug, PartialEq, Eq)]
pub struct ProxyConfig {
    pub host: String,
    pub port: u16,
}

pub struct ProxyConfigView {
    pub host: Seq<char>,
    pub port: u16,
}

impl ProxyConfigView {
    /// The host is not empty and the port lies in 1..=65535.
    pub open spec fn is_valid(self) -> bool {
        self.host.len() > 0 && self.port >= 1
    }

    /// The endpoint as the operating system stores it: host, a colon, the
    /// port in decimal.
    pub open spec fn endpoint(self) -> Seq<char> {
        self.host + seq![':'] + decimal(self.port as nat)
    }
}

impl View for ProxyConfig {
    type V = ProxyConfigView;

    open spec fn view(&self) -> ProxyConfigView {
        ProxyConfigView { host: self.host@, port: self.port }
    }
}

impl ProxyConfig {
    pub fn new(host: String, port: u16) -> (config: ProxyConfig)
        ensures
            config@ == (ProxyConfigView { host: host@, port }),
    {
        ProxyConfig { host, port }
    }

    /// The text `host:port`.
    pub fn endpoint(&self) -> (text: String)
        ensures
            text@ == self@.endpoint(),
    {
        let mut text = self.host.clone();
        text.push(':');
        push_decimal(&mut text, self.port);
        text
    }
}

/// One of the two operations.
#[derive(Clone, Debug, PartialEq, Eq)]
pub enum ProxyRequest {
    Enable(ProxyConfig),
    Disable,
}

pub enum ProxyRequestView {
    Enable(ProxyConfigView),
    Disable,
}

impl View for ProxyRequest {
    type V = ProxyRequestView;

    open spec fn view(&self) -> ProxyRequestView {
        match self {
            ProxyRequest::Enable(config) => ProxyRequestView::Enable(config@),
            ProxyRequest::Disable => ProxyRequestView::Disable,
        }
    }
}

} // verus!
