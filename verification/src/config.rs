//! Settings read once when the process starts.

use crate::text::{parse_u64, spec_parse_u64};
use vstd::prelude::*;
use vstd::string::*;
use vstd::utf8::encode_utf8;

verus! {

/// Settings of the control surface.
#[derive(Debug)]
pub struct Config {
    pub mongodb_uri: String,
    pub jwt_secret: String,
    pub rust_log: String,
    pub port: u16,
}

/// Port listened on when none is given or the one given cannot be read.
pub const DEFAULT_PORT: u16 = 3000u16;

/// The port that `text` asks for: its number, if it is one of at most 16
/// bits, and the default port otherwise.
pub open spec fn spec_port(text: Option<Seq<char>>) -> u16 {
    match text {
        Some(text) => match spec_parse_u64(text) {
            Some(port) => if port <= u16::MAX {
                port as u16
            } else {
                DEFAULT_PORT
            },
            None => DEFAULT_PORT,
        },
        None => DEFAULT_PORT,
    }
}

/// The text given, or `default` where none is.
pub open spec fn text_or(given: Option<String>, default: Seq<char>) -> Seq<char> {
    match given {
        Some(text) => text@,
        None => default,
    }
}

fn value_or(given: Option<String>, default: &str) -> (out: String)
    ensures
        out@ == text_or(given, default@),
{
    match given {
        Some(text) => text,
        None => default.to_owned(),
    }
}

impl Config {
    /// Settings from the values found in the environment, each with its
    /// default where it is missing.
    pub fn from_values(
        mongodb_uri: Option<String>,
        jwt_secret: Option<String>,
        rust_log: Option<String>,
        port: Option<String>,
    ) -> (out: Self)
        ensures
            out.mongodb_uri@ == text_or(mongodb_uri, "mongodb://localhost:27017"@),
            out.jwt_secret@ == text_or(jwt_secret, "your-secret-key-change-in-production"@),
            out.rust_log@ == text_or(rust_log, "info"@),
            out.port == spec_port(crate::text::opt_string_view(port)),
    {
        let port_number: u16 = match &port {
            Some(text) => match parse_u64(text.as_str()) {
                Some(number) => if number <= u16::MAX as u64 {
                    number as u16
                } else {
                    DEFAULT_PORT
                },
                None => DEFAULT_PORT,
            },
            None => DEFAULT_PORT,
        };
        Config {
            mongodb_uri: value_or(mongodb_uri, "mongodb://localhost:27017"),
            jwt_secret: value_or(jwt_secret, "your-secret-key-change-in-production"),
            rust_log: value_or(rust_log, "info"),
            port: port_number,
        }
    }

    /// Where the data store is reached.
    pub fn mongodb_connection_string(&self) -> (out: String)
        ensures
            out@ == self.mongodb_uri@,
    {
        self.mongodb_uri.clone()
    }

    /// The signing secret as bytes.
    pub fn jwt_secret_bytes(&self) -> (out: &[u8])
        ensures
            out@ == encode_utf8(self.jwt_secret@),
    {
        self.jwt_secret.as_str().as_bytes()
    }
}

} // verus!
