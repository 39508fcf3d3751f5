//! What the server decides once, when it starts: which backend it serves
//! from and where it listens.

use vstd::prelude::*;
use vstd::string::*;
use crate::text::same;

verus! {

/// The backend that the server serves from. It is chosen at startup and
/// never per request.
#[derive(Debug, Clone, Copy, PartialEq, Eq, Structural)]
pub enum Mode {
    /// Items in the key-value store.
    KeyValue,
    /// Rows in the relational store.
    Relational,
}

/// The backend that a word on the command line names.
pub open spec fn mode_named(word: Seq<char>) -> Option<Mode> {
    if word == "redis"@ {
        Some(Mode::KeyValue)
    } else if word == "sqlx"@ || word == "postgres"@ {
        Some(Mode::Relational)
    } else {
        None
    }
}

/// The port on which the server listens unless it is told another.
pub open spec fn default_port() -> Seq<char> {
    "3000"@
}

/// The address on which the server listens: every interface, on `port` or
/// on the default port.
pub open spec fn address_for(port: Option<Seq<char>>) -> Seq<char> {
    "0.0.0.0:"@ + (match port {
        Some(port) => port,
        None => default_port(),
    })
}

/// The backend that a word on the command line names, if it names one.
pub fn select_mode(word: &str) -> (r: Option<Mode>)
    ensures
        r == mode_named(word@),
{
    if same(word, "redis") {
        Some(Mode::KeyValue)
    } else if same(word, "sqlx") || same(word, "postgres") {
        Some(Mode::Relational)
    } else {
        None
    }
}

/// The address on which the server listens.
pub fn listen_address(port: Option<String>) -> (r: String)
    ensures
        r@ == address_for(port.deep_view()),
{
    let mut address = String::from_str("0.0.0.0:");
    match port {
        Some(port) => address.append(port.as_str()),
        None => address.append("3000"),
    }
    address
}

} // verus!
