//! Searching the issues of a remote tracker for a literal term, under a hard
//! cap on the number of remote calls of one run.
//!
//! This crate holds every decision of such a run and performs no call itself:
//!
//! - [`budget`]: the request budget that gates every remote call;
//! - [`api`]: the client, the records, the queries, and the paginated fetcher
//!   that walks a collection page by page against the budget;
//! - [`text`]: case-insensitive matching of the term;
//! - [`search`]: the search over issues, which asks for an issue's comments
//!   only when its title and description did not match;
//! - [`run`]: what whole searches find and cost;
//! - [`cli`]: the inputs of a run and the rules on them;
//! - [`ui`]: the text of the report.
//!
//! The caller sends the requests that the fetcher asks for and hands back the
//! answers; fetcher and search say at each step what to do next.

pub mod api;
pub mod budget;
pub mod cli;
pub mod run;
pub mod search;
pub mod text;
pub mod ui;
