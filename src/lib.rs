//! Discovery of hidden HTTP resources, DNS names, virtual hosts and IIS 8.3
//! short names: the request generators, the response classifiers, the
//! result filters and the bookkeeping of the dispatch loop.
pub mod args;
pub mod dirbuster;
pub mod dispatch;
pub mod dnsbuster;
pub mod fetcher;
pub mod filter;
pub mod fuzz_results;
pub mod fuzzbuster;
pub mod product;
pub mod text;
pub mod tildebuster;
pub mod uri;
pub mod vhostbuster;
pub mod wordlist;
