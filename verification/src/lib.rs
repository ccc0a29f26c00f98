//! Verified core of the CCDScan backend: the GraphQL resolvers' computations
//! for bakers and passive delegation, and the indexer's preparation of blocks
//! for the database.

pub mod commission;
pub mod connection;
pub mod baker;
pub mod decimal;
pub mod energy;
pub mod error;
pub mod indexer;
pub mod passive_delegation;
pub mod text;
pub mod transaction_type;
