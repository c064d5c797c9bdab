//! The provider through which a worker reaches its RPC server.

use ethers::providers::{Http, Provider};
use url::ParseError;
use vstd::prelude::*;

verus! {

/// A JSON-RPC client of the Ethereum client library.
#[verifier::external_type_specification]
#[verifier::external_body]
#[verifier::reject_recursive_types(P)]
pub struct ExProvider<P>(ethers::providers::Provider<P>);

/// The HTTP transport of the Ethereum client library.
#[verifier::external_type_specification]
#[verifier::external_body]
pub struct ExHttp(ethers::providers::Http);

/// Why a text is not the address of an RPC server.
#[derive(Clone, Copy, Debug, PartialEq, Eq, Structural)]
pub enum UrlError {
    EmptyHost,
    IdnaError,
    InvalidPort,
    InvalidIpv4Address,
    InvalidIpv6Address,
    InvalidDomainCharacter,
    RelativeUrlWithoutBase,
    Overflow,
    /// Any other error.
    Other,
}

/// The error with which the URL standard's parser rejects a text, if it rejects it.
pub uninterp spec fn rpc_url_error(text: Seq<char>) -> Option<UrlError>;

/// A provider for an RPC server, with the URL and the polling interval that it was made with.
#[derive(Debug)]
pub struct RpcProvider {
    client: Provider<Http>,
    url: String,
    interval_millis: Option<u64>,
}

impl RpcProvider {
    /// The URL that the provider was made for.
    pub closed spec fn url(self) -> Seq<char> {
        self.url@
    }

    /// The polling interval that was set, in milliseconds.
    pub closed spec fn interval_millis(self) -> Option<u64> {
        self.interval_millis
    }

    /// The client of the Ethereum client library.
    pub closed spec fn inner(self) -> Provider<Http> {
        self.client
    }

    /// Calls `Provider::<Http>::try_from`, which parses the URL `text` and builds a client for it.
    /// Trusted: it fails exactly on the texts that the URL parser rejects, with the parser's
    /// error, which depends on the text alone; and the client that it builds is one for that URL,
    /// with no polling interval of its own. A client is opaque, so that the URL is kept beside it.
    #[verifier::external_body]
    pub(crate) fn connect(text: &str) -> (made: Result<RpcProvider, UrlError>)
        ensures
            match made {
                Ok(provider) => {
                    &&& rpc_url_error(text@) is None
                    &&& provider.url() == text@
                    &&& provider.interval_millis() is None
                },
                Err(error) => rpc_url_error(text@) == Some(error),
            },
    {
        let url = text.to_string();
        match Provider::<Http>::try_from(text) {
            Ok(client) => Ok(RpcProvider { client, url, interval_millis: None }),
            Err(ParseError::EmptyHost) => Err(UrlError::EmptyHost),
            Err(ParseError::IdnaError) => Err(UrlError::IdnaError),
            Err(ParseError::InvalidPort) => Err(UrlError::InvalidPort),
            Err(ParseError::InvalidIpv4Address) => Err(UrlError::InvalidIpv4Address),
            Err(ParseError::InvalidIpv6Address) => Err(UrlError::InvalidIpv6Address),
            Err(ParseError::InvalidDomainCharacter) => Err(UrlError::InvalidDomainCharacter),
            Err(ParseError::RelativeUrlWithoutBase) => Err(UrlError::RelativeUrlWithoutBase),
            Err(ParseError::Overflow) => Err(UrlError::Overflow),
            Err(_) => Err(UrlError::Other),
        }
    }

    /// Calls `Provider::interval`, which sets the interval at which the provider polls. Trusted: it
    /// changes nothing else. A client is opaque, so that the interval is kept beside it.
    #[verifier::external_body]
    pub(crate) fn interval(self, millis: u64) -> (polling: RpcProvider)
        ensures
            polling.url() == self.url(),
            polling.interval_millis() == Some(millis),
    {
        let client = self.client.interval(std::time::Duration::from_millis(millis));
        RpcProvider { client, url: self.url, interval_millis: Some(millis) }
    }

    /// The client itself.
    pub fn client(&self) -> (client: &Provider<Http>)
        ensures
            *client == self.inner(),
    {
        &self.client
    }
}

} // verus!
