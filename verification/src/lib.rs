//! Client-side model of an overlay network controller's configuration:
//! address pools, routes and filter rules, and the check that every
//! gateway of a route lies in a network that the configuration declares.

pub mod address;
pub mod error;
pub mod mode;
pub mod network;
pub mod pools;
pub mod prefix;
pub mod routes;
pub mod rules;

pub use address::IpAddress;
pub use error::ZTError;
pub use mode::AssignMode;
pub use network::RootInterface;
pub use pools::IpAssignmentPools;
pub use prefix::NetworkPrefix;
pub use routes::Routes;
pub use rules::{EtherType, Rules};
