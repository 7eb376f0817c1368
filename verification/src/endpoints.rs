//! Where on the relay each kind of request goes.

use crate::text::{decimal, decimal_text};
use crate::types::{Publish, RegisterResponse};
use vstd::prelude::*;

verus! {

/// A type of the relay's interface, with the path under which the relay
/// serves it.
pub trait Gettable {
    /// The path, without the leading slash.
    const API_ENDPOINT: &'static str;
}

impl Gettable for RegisterResponse {
    const API_ENDPOINT: &'static str = "register";
}

impl Gettable for Publish {
    const API_ENDPOINT: &'static str = "publish";
}

/// Registrations go to `/register`, publications to `/publish`.
pub proof fn lemma_endpoints()
    ensures
        RegisterResponse::API_ENDPOINT@ == "register"@,
        Publish::API_ENDPOINT@ == "publish"@,
{
}

/// A listing as the chat platform returns it.
#[derive(Clone, Debug, PartialEq, Eq)]
pub struct ListResult<T> {
    pub items: Vec<T>,
}

/// The address of `endpoint` on the relay at `host` and `port`.
pub open spec fn endpoint_url(host: Seq<char>, port: u16, endpoint: Seq<char>) -> Seq<char> {
    "http://"@ + host + ":"@ + decimal(port as nat) + "/"@ + endpoint
}

/// The address of `endpoint` on the relay at `host` and `port`.
pub fn endpoint_address(host: &str, port: u16, endpoint: &str) -> (url: String)
    ensures
        url@ == endpoint_url(host@, port, endpoint@),
{
    let mut url = String::from_str("http://");
    url.append(host);
    url.append(":");
    url.append(decimal_text(port).as_str());
    url.append("/");
    url.append(endpoint);
    url
}

} // verus!
