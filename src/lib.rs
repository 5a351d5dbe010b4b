//! Project lifecycle core of a multi-monitor projection backend: the active
//! project slot, the decisions of create / load / delete, orphan
//! reconciliation, and the path and naming rules of the storage tree.

pub mod listing;
pub mod pages;
pub mod paths;
pub mod records;
pub mod reconcile;
pub mod slot;
