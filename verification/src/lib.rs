//! A small ownership-preserving projection reference: `NodeDataRef` bundles a
//! strong, shared-ownership handle to a tree node together with access to one
//! typed sub-part of that node, so the node is guaranteed to stay alive for as
//! long as the projection does.

pub mod node;
pub mod node_data_ref;
