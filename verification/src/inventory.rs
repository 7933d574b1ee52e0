//! Inventory endpoints: listing, claiming, and bulk operations on an
//! org's devices.

pub mod inventory;
