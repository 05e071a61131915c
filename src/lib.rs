//! Dynamic DNS reconciliation: when the host's public address changes, store
//! the new address and move every DNS record that still points at the old one.
//!
//! `reconcile::Reconciler` makes the decisions of a run; the caller performs
//! the storage and network work that each returned action asks for.
pub mod address;
pub mod record;
pub mod reconcile;
pub mod laws;
