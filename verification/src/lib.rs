//! A verified model of a persistence-export workflow for an embedded
//! single-file database: seed an in-memory store, verify the seeded rows,
//! export the live store to a fresh on-disk file, release the live handle,
//! then reopen the file and verify that the catalog and the rows survived
//! the round trip intact.
//!
//! The decision logic — which step comes next, whether an observation is
//! acceptable, how a failure is classified — is verified here. The actual
//! database engine, connection pool, and filesystem are outside services
//! that an unverified driver consults between steps.

pub mod laws;
pub mod rows;
pub mod sql;
pub mod workflow;
