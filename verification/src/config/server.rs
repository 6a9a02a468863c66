//! Where the server listens.

use crate::text::{parse_u16, unsigned_number};
use vstd::prelude::*;

verus! {

/// The port on which the server listens.
#[derive(Debug, Clone, Copy, PartialEq, Eq, Structural)]
pub struct ServerConfig {
    pub server_port: u16,
}

impl ServerConfig {
    /// A configuration with the given port.
    pub fn new(server_port: u16) -> (config: Self)
        ensures
            config == (ServerConfig { server_port }),
    {
        ServerConfig { server_port }
    }

    /// The configuration that the text of a port gives: the text must write
    /// a number from 0 to 65535.
    pub fn from_text(server_port: &str) -> (config: Option<Self>)
        ensures
            config == match unsigned_number(server_port@) {
                Some(n) => if n <= u16::MAX {
                    Some(ServerConfig { server_port: n as u16 })
                } else {
                    None
                },
                None => None,
            },
    {
        match parse_u16(server_port) {
            Some(server_port) => Some(ServerConfig { server_port }),
            None => None,
        }
    }
}

} // verus!
