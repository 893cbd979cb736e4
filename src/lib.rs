//! Server-side core of an off-chain data-retrieval gateway: function
//! selectors, a selector-keyed handler registry, request dispatch and the
//! normalisation of the two HTTP entry shapes.

pub mod abi;
pub mod dispatch;
pub mod errors;
pub mod gateway;
pub mod hexcodec;
pub mod selector;
pub mod server;
