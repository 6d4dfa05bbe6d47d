//! What a server is configured with.

use vstd::prelude::*;
use vstd::string::*;
use crate::data_layer::messages::DataError;
use crate::text::{decimal, decimal_digits};

verus! {

/// Server configuration, the same for every backend.
#[derive(Debug, Clone, PartialEq, Eq)]
pub struct ServerConfig {
    pub host: [u8; 4],
    pub port: u16,
    pub static_dir: String,
    pub open_browser: bool,
}

/// The address of a server as text: the four numbers of the host with dots
/// between, a colon and the port.
pub open spec fn url_text(host: [u8; 4], port: u16) -> Seq<char> {
    "http://"@ + decimal_digits(host[0] as nat) + "."@ + decimal_digits(host[1] as nat) + "."@
        + decimal_digits(host[2] as nat) + "."@ + decimal_digits(host[3] as nat) + ":"@
        + decimal_digits(port as nat)
}

/// The status that a reply of the worker is sent with: 200 for a response,
/// 404 for a project that is not found, 500 for every other error.
pub fn status_code(reply: &Result<Vec<u8>, DataError>) -> (status: u16)
    ensures
        status == match *reply {
            Ok(_) => 200u16,
            Err(DataError::ProjectNotFound(_)) => 404u16,
            Err(_) => 500u16,
        },
{
    match reply {
        Ok(_) => 200,
        Err(e) => if e.is_not_found() {
            404
        } else {
            500
        },
    }
}

/// What a caller is told of an error of the worker: that the project was
/// not found, or only that something went wrong inside.
pub fn error_message(e: &DataError) -> (s: String)
    ensures
        s@ == if *e is ProjectNotFound {
            "Project not found"@
        } else {
            "Internal server error"@
        },
{
    if e.is_not_found() {
        String::from_str("Project not found")
    } else {
        String::from_str("Internal server error")
    }
}

impl ServerConfig {
    /// A configuration with the given values.
    pub fn new(host: [u8; 4], port: u16, static_dir: String, open_browser: bool) -> (c:
        ServerConfig)
        ensures
            c == (ServerConfig { host, port, static_dir, open_browser }),
    {
        ServerConfig { host, port, static_dir, open_browser }
    }

    /// The address of the server.
    pub fn url(&self) -> (s: String)
        ensures
            s@ == url_text(self.host, self.port),
    {
        let mut s = String::from_str("http://");
        let a = decimal(self.host[0] as u128);
        s.append(a.as_str());
        s.append(".");
        let b = decimal(self.host[1] as u128);
        s.append(b.as_str());
        s.append(".");
        let c = decimal(self.host[2] as u128);
        s.append(c.as_str());
        s.append(".");
        let d = decimal(self.host[3] as u128);
        s.append(d.as_str());
        s.append(":");
        let p = decimal(self.port as u128);
        s.append(p.as_str());
        s
    }
}

} // verus!
