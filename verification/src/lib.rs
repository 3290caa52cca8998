//! Intent execution for a multi-signature account: token paths, adapter
//! selection, transfer preparation and the bookkeeping around proposals.

pub mod adapters;
pub mod codecs;
pub mod execution;
pub mod keyed;
pub mod registry;
pub mod text;
pub mod types;
pub mod users;
