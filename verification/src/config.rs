//! The settings of the service: where its database is and where it
//! listens, each with the value taken where none is given, and the fixed
//! limits of its surface.

use vstd::prelude::*;
use vstd::string::*;

verus! {

/// The largest JSON request body that is accepted, in bytes.
pub const JSON_LIMIT: usize = 50_000_000;

/// The seconds for which the answer to a cross-origin preflight may be kept.
pub const CORS_MAX_AGE: usize = 3600;

/// The database host where none is set.
pub open spec fn default_mongo_host() -> Seq<char> {
    "localhost"@
}

/// The database port where none is set.
pub open spec fn default_mongo_port() -> Seq<char> {
    "27017"@
}

/// The host the service listens on where none is set.
pub open spec fn default_app_host() -> Seq<char> {
    "localhost"@
}

/// The port the service listens on where none is set.
pub open spec fn default_app_port() -> Seq<char> {
    "8081"@
}

/// A setting's text: what was set, empty or not, or else the default.
pub open spec fn setting(value: Option<String>, default: Seq<char>) -> Seq<char> {
    match value {
        Some(text) => text@,
        None => default,
    }
}

/// The connection string of a database at `host` and `port`: one server,
/// reached directly.
pub open spec fn connection_uri(host: Seq<char>, port: Seq<char>) -> Seq<char> {
    "mongodb://"@ + host + ":"@ + port + "/?directConnection=true"@
}

/// The address of `host` and `port`, joined by a colon.
pub open spec fn socket_address(host: Seq<char>, port: Seq<char>) -> Seq<char> {
    host + ":"@ + port
}

/// What is set, or the default where nothing is.
fn or_default(value: Option<String>, default: &str) -> (text: String)
    ensures
        text@ == setting(value, default@),
{
    match value {
        Some(text) => text,
        None => String::from_str(default),
    }
}

/// The connection string of the database, from the host and the port that
/// are set. Each falls back on its own default, whatever the other is.
pub fn mongo_uri(host: Option<String>, port: Option<String>) -> (uri: String)
    ensures
        uri@ == connection_uri(
            setting(host, default_mongo_host()),
            setting(port, default_mongo_port()),
        ),
{
    let host = or_default(host, "localhost");
    let port = or_default(port, "27017");
    let mut uri = String::from_str("mongodb://");
    uri.append(host.as_str());
    uri.append(":");
    uri.append(port.as_str());
    uri.append("/?directConnection=true");
    uri
}

/// The address on which the service listens, from the host and the port
/// that are set. Each falls back on its own default, whatever the other is.
pub fn bind_address(host: Option<String>, port: Option<String>) -> (address: String)
    ensures
        address@ == socket_address(
            setting(host, default_app_host()),
            setting(port, default_app_port()),
        ),
{
    let host = or_default(host, "localhost");
    let port = or_default(port, "8081");
    let mut address = host;
    address.append(":");
    address.append(port.as_str());
    address
}

} // verus!
