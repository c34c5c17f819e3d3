//! A small line-search library: given a query string and the full text of a
//! file, it returns the lines that contain the query, either literally or
//! after lowercasing both sides.
//!
//! The matcher is pure and fully specified: `search` and
//! `search_case_insensitive` return exactly the lines of the input, in order,
//! that satisfy the respective containment predicate. Argument handling is
//! resolved by `Config::new`; reading the file and printing the matches are
//! left to the surrounding program.

use vstd::prelude::*;

mod config;
mod contains;
mod laws;
mod lines;
mod lower;
mod search;

verus! {

pub use config::Config;
pub use contains::contains_at;
pub use contains::contains_seq;
pub use contains::contains_str;
pub use laws::lemma_case_insensitive_superset;
pub use laws::lemma_empty_query_matches_all;
pub use laws::lemma_results_are_lines;
pub use lines::spec_lines;
pub use lower::lower_of;
pub use search::line_matches;
pub use search::matching_lines;
pub use search::search;
pub use search::search_case_insensitive;
pub use search::search_ci_spec;
pub use search::search_mode_spec;
pub use search::search_spec;

} // verus!
