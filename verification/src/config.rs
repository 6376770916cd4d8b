//! What the server is started with, and the address of a proxy.

use crate::error::ServerError;
use crate::number::{parse_decimal, read_decimal};
use crate::text::chars_of;
use crate::trusted::{found_texts, pattern_groups, regex_captures};
use vstd::prelude::*;
use vstd::string::StringExecFns;

verus! {

/// The settings of the server.
#[derive(Clone, Debug, PartialEq, Eq)]
pub struct Args {
    /// The address to listen on.
    pub ip: String,
    /// The port to listen on.
    pub port: String,
    /// The number of workers.
    pub threads: u8,
    /// The address of a proxy; empty where there is none.
    pub proxy: String,
}

impl Default for Args {
    /// The settings of a server that is started without arguments.
    fn default() -> (args: Args)
        ensures
            args.ip@ == "127.0.0.1"@,
            args.port@ == "8080"@,
            args.threads == 8,
            args.proxy@ == ""@,
    {
        Args {
            ip: String::from_str("127.0.0.1"),
            port: String::from_str("8080"),
            threads: 8,
            proxy: String::from_str(""),
        }
    }
}

impl Args {
    /// The address to bind the listener to: the ip, a colon and the port.
    pub fn bind_address(&self) -> (out: String)
        ensures
            out@ == self.ip@ + ":"@ + self.port@,
    {
        let mut out = String::from_str(self.ip.as_str());
        out.append(":");
        out.append(self.port.as_str());
        out
    }
}

/// The pattern of a proxy address; its two groups are the host and the
/// port.
pub open spec fn proxy_pattern() -> Seq<char> {
    "http://([^:/]+):?(\\d+)?"@
}

/// The text of the port in a match of the proxy pattern: its group 2, or
/// `80` where that took no part.
pub open spec fn port_text(groups: Seq<Option<Seq<char>>>) -> Seq<char> {
    if groups.len() >= 3 && groups[2] is Some {
        groups[2]->0
    } else {
        "80"@
    }
}

/// The host and the port of a proxy, given the match of the proxy pattern
/// on its address. An address without a match, or without a host in it, has
/// not the right format; the port must be a number that fits sixteen bits.
pub open spec fn proxy_target(found: Option<Seq<Option<Seq<char>>>>) -> Result<
    (Seq<char>, u16),
    ServerError,
> {
    match found {
        None => Err(ServerError::InvalidProxy),
        Some(groups) => if groups.len() >= 2 && groups[1] is Some {
            match parse_decimal(port_text(groups), u16::MAX as nat) {
                Some(port) => Ok((groups[1]->0, port as u16)),
                None => Err(ServerError::InvalidPort),
            }
        } else {
            Err(ServerError::InvalidProxy)
        },
    }
}

/// The host and the port of a proxy address.
pub open spec fn proxy_outcome(proxy: Seq<char>) -> Result<(Seq<char>, u16), ServerError> {
    match regex_captures(proxy_pattern(), proxy) {
        None => Err(ServerError::BadPattern),
        Some(found) => proxy_target(found),
    }
}

/// A host and a port as a mathematical value.
pub open spec fn target_view(r: Result<(String, u16), ServerError>) -> Result<
    (Seq<char>, u16),
    ServerError,
> {
    match r {
        Ok((host, port)) => Ok((host@, port)),
        Err(e) => Err(e),
    }
}

/// Reads the host and the port out of the match of the proxy pattern.
pub fn read_proxy_target(found: Option<Vec<Option<String>>>) -> (r: Result<
    (String, u16),
    ServerError,
>)
    ensures
        target_view(r) == proxy_target(found_texts(found)),
{
    let groups = match found {
        Some(groups) => groups,
        None => {
            return Err(ServerError::InvalidProxy);
        },
    };
    if groups.len() < 2 {
        return Err(ServerError::InvalidProxy);
    }
    let host = match &groups[1] {
        Some(host) => host.clone(),
        None => {
            return Err(ServerError::InvalidProxy);
        },
    };
    let mut port = chars_of("80");
    if groups.len() >= 3 {
        if let Some(text) = &groups[2] {
            port = chars_of(text.as_str());
        }
    }
    match read_decimal(&port, 65535) {
        Some(n) => Ok((host, n as u16)),
        None => Err(ServerError::InvalidPort),
    }
}

/// The host and the port that a proxy address of the shape
/// `http://host[:port]` names; the port is 80 where the address gives none.
pub fn extract_proxy_address(proxy: &str) -> (r: Result<(String, u16), ServerError>)
    ensures
        target_view(r) == proxy_outcome(proxy@),
{
    match pattern_groups("http://([^:/]+):?(\\d+)?", proxy) {
        Ok(found) => read_proxy_target(found),
        Err(_) => Err(ServerError::BadPattern),
    }
}

} // verus!
