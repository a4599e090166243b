//! The requests that the bot sends to the server's API and the values that
//! come back, as plain data, and where each request is sent to.

use vstd::prelude::*;
use vstd::string::*;

pub mod following;
pub mod notes;

pub mod users;

verus! {

/// A request of the API: where it is posted to, and what comes back.
pub trait ApiRequest {
    /// The path of the endpoint, starting with `/api/`.
    const ENDPOINT: &'static str;

    /// What the server answers with.
    type Return;
}

/// The address of the endpoint at `path` on `host`.
pub open spec fn endpoint_address(host: Seq<char>, path: Seq<char>) -> Seq<char> {
    "https://"@ + host + path
}

/// Where the API of one server is reached, and with which credential.
#[derive(Debug, PartialEq, Eq)]
pub struct MisskeyClient {
    pub host: String,
    pub token: String,
}

impl MisskeyClient {
    /// A client for the server at `host`, which authorizes itself with
    /// `token`.
    pub fn new(host: &str, token: &str) -> (client: Self)
        ensures
            client.host@ == host@,
            client.token@ == token@,
    {
        MisskeyClient { host: host.to_owned(), token: token.to_owned() }
    }

    /// The address to which requests of type `Req` are posted.
    pub fn address_of<Req: ApiRequest>(&self) -> (address: String)
        ensures
            address@ == endpoint_address(self.host@, Req::ENDPOINT@),
    {
        let mut address = String::from_str("https://");
        address.append(self.host.as_str());
        address.append(Req::ENDPOINT);
        address
    }

    /// The address that answers with the account the credential belongs to.
    pub fn self_address(&self) -> (address: String)
        ensures
            address@ == endpoint_address(self.host@, "/api/i"@),
    {
        let mut address = String::from_str("https://");
        address.append(self.host.as_str());
        address.append("/api/i");
        address
    }
}

} // verus!
