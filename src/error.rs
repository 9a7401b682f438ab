use vstd::prelude::*;

verus! {

/// Every way a logical request, or the construction of a client, can fail.
#[derive(Debug, Clone, Copy, PartialEq, Eq, Structural)]
pub enum ClientError {
    /// A configured endpoint URL could not be parsed.
    ConfigError,
    /// The token endpoint could not be reached or refused the exchange.
    ExchangeFailed,
    /// The token response did not say how long the token lives.
    MissingExpiry,
    /// The token's lifetime does not fit in the time representation.
    ExpiryOverflow,
    /// The protected endpoint kept answering `401` after every retry.
    AuthExhausted,
    /// The protected endpoint answered with a status other than `200` or `401`.
    UnsupportedStatus(u16),
    /// A request body could not be encoded or a response body decoded.
    SerializationError,
    /// The access token holds characters that an HTTP header cannot carry.
    InvalidHeader,
    /// The protected endpoint could not be reached.
    TransportError,
}

} // verus!
