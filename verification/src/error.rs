//! The failures that the bridge functions report, and the layers in which a
//! failed contract call arrives.

use crate::uint::RawChainInteger;
use vstd::prelude::*;

verus! {

/// The side-channel data of a JSON-RPC error response.
#[derive(Clone, Debug, PartialEq, Eq)]
pub enum RpcErrorData {
    /// The data is a JSON string.
    Text(String),
    /// The data is any other JSON value.
    Other,
}

/// A JSON-RPC application error, as the node answered it.
#[derive(Clone, Debug, PartialEq, Eq)]
pub struct JsonRpcError {
    /// The error code of the response.
    pub code: i64,
    /// The message of the response.
    pub message: String,
    /// The side-channel data of the response, where it has any.
    pub data: Option<RpcErrorData>,
}

/// A failure of the HTTP transport.
#[derive(Clone, Debug, PartialEq, Eq)]
pub enum HttpClientError {
    /// The node answered with a JSON-RPC error response.
    JsonRpcError(JsonRpcError),
    /// The request failed or the answer could not be read.
    Other(String),
}

/// A failed remote call. Each layer through which the failure passed wraps
/// the failure of the layer below it.
#[derive(Debug, PartialEq, Eq)]
pub enum TransportError {
    /// The signing and submission layer, around what it sent the call with.
    Middleware(Box<TransportError>),
    /// The provider layer, around the client it used.
    Provider(Box<TransportError>),
    /// The JSON-RPC client, around its transport.
    JsonRpcClient(Box<TransportError>),
    /// The HTTP transport, innermost.
    Http(HttpClientError),
    /// A failure of no known shape.
    Other(String),
}

/// The counter that a nonce was read from.
#[derive(Clone, Copy, Debug, PartialEq, Eq, Structural)]
pub enum NonceKind {
    /// The version of the validator set.
    Valset,
    /// The last batch of one token.
    TxBatch,
    /// The last logic call of one invalidation id.
    LogicCall,
    /// The last event.
    Event,
}

/// How a caller has to treat a failure.
#[derive(Clone, Copy, Debug, PartialEq, Eq, Structural)]
pub enum ErrorKind {
    /// The network or a node failed; the call may be tried again.
    TransientIo,
    /// A counter left the 64-bit range; the bridge has to halt.
    FatalInvariant,
    /// The two chains are configured for different bridges; the bridge has
    /// to halt.
    ConfigurationMismatch,
    /// A chain returned data that cannot be used.
    BadData,
}

/// A failure of one of the bridge functions.
#[derive(Debug, PartialEq, Eq)]
pub enum GravityError {
    /// A call to the bridge contract failed on its way.
    EthersContractError(TransportError),
    /// A query to the counterpart chain failed on its way.
    CosmosGrpcError(String),
    /// The counterpart chain answered without its parameters.
    CosmosBadResponse,
    /// The chain identifier does not fit in 64 bits.
    ChainIdOverflow(RawChainInteger),
    /// A call returned fewer bytes than one integer takes.
    InvalidCallReply(Vec<u8>),
    /// The bridge identifier held by the contract is not text.
    InvalidGravityIdText(Vec<u8>),
    /// The bridge identifiers of the two chains differ.
    GravityIdMismatch {
        /// The identifier that the counterpart chain is configured with.
        chain_id: String,
        /// The identifier that the contract holds, without its padding.
        contract_id: String,
    },
    /// A counter read from the contract does not fit in 64 bits.
    NonceOverflow(NonceKind, RawChainInteger),
    /// An invalidation id that is not 32 bytes long, with its length.
    InvalidInvalidationId(usize),
}

impl GravityError {
    /// The kind of a failure, which decides what the caller may do.
    pub open spec fn spec_kind(&self) -> ErrorKind {
        match self {
            GravityError::EthersContractError(_) => ErrorKind::TransientIo,
            GravityError::CosmosGrpcError(_) => ErrorKind::TransientIo,
            GravityError::CosmosBadResponse => ErrorKind::TransientIo,
            GravityError::ChainIdOverflow(_) => ErrorKind::BadData,
            GravityError::InvalidCallReply(_) => ErrorKind::BadData,
            GravityError::InvalidGravityIdText(_) => ErrorKind::BadData,
            GravityError::GravityIdMismatch { .. } => ErrorKind::ConfigurationMismatch,
            GravityError::NonceOverflow(_, _) => ErrorKind::FatalInvariant,
            GravityError::InvalidInvalidationId(_) => ErrorKind::BadData,
        }
    }

    /// The kind of a failure, which decides what the caller may do.
    #[verifier::when_used_as_spec(spec_kind)]
    pub fn kind(&self) -> (k: ErrorKind)
        ensures
            k == self.spec_kind(),
    {
        match self {
            GravityError::EthersContractError(_) => ErrorKind::TransientIo,
            GravityError::CosmosGrpcError(_) => ErrorKind::TransientIo,
            GravityError::CosmosBadResponse => ErrorKind::TransientIo,
            GravityError::ChainIdOverflow(_) => ErrorKind::BadData,
            GravityError::InvalidCallReply(_) => ErrorKind::BadData,
            GravityError::InvalidGravityIdText(_) => ErrorKind::BadData,
            GravityError::GravityIdMismatch { .. } => ErrorKind::ConfigurationMismatch,
            GravityError::NonceOverflow(_, _) => ErrorKind::FatalInvariant,
            GravityError::InvalidInvalidationId(_) => ErrorKind::BadData,
        }
    }
}

} // verus!
