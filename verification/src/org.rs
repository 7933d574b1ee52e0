//! Organization endpoints: settings, statistics, and CRUD on an org.

pub mod org;
