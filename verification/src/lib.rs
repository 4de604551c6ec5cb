//! Request-processing core of a small web server: a unit-of-work middleware
//! that gives every request at most one database transaction whose fate
//! (commit or rollback) follows the response outcome, a lazy transaction
//! accessor with a single-slot ownership handoff, and an authentication
//! middleware that resolves sessions to principals with sliding expiry and a
//! consumption check.  The surrounding web framework, database driver and
//! identity provider are collaborators driven from unverified glue; the
//! decisions they carry out are made and proved here.

pub mod authmw;
pub mod cents;
pub mod cfg;
pub mod db;
pub mod errors;
pub mod oidc;
pub mod session;
pub mod txnmw;
pub mod utils;
