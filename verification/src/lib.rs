//! Keeps DNS records at dynamic-DNS providers pointed at the caller's public
//! address.
//!
//! The library makes no HTTP call itself. Each decision it takes ends either
//! in a result or in a request for the caller to make; the caller makes it
//! and resumes with the reply. `updater::DDNSUpdater::run` starts a run over
//! all configured records, `updater::DDNSUpdater::update_domain` the update
//! of a single one.
//!
//! For each record the caller's address is asked for first, from an
//! address-echo service, and the provider is called with it. The reply of the
//! provider is read for its verdict. A record that fails, at whatever point,
//! has its failure recorded, and the run goes on with the next.

pub mod google;
pub mod http;
pub mod namecheap;
pub mod orchestrator;
pub mod outcome;
pub mod provider;
pub mod resolver;
pub mod splitter;
pub mod text;
pub mod update;
pub mod updater;
