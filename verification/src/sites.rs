//! Site endpoints: stats, listing, and CRUD on a single site.

pub mod sites;
