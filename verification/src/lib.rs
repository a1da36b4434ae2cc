//! Keeps the `A` record of a domain pointed at the public IPv4 address of the
//! host that runs the synchronizer.
//!
//! The crate holds the decisions of one synchronization run and proves them:
//! the text form of IPv4 addresses, the choice of the zone and of the record,
//! the requests that go to the DNS provider, and the order in which all of it
//! happens. A driver performs the network calls that a [`sync::Action`] names
//! and hands each result back as a [`sync::Reply`]. What holds of every run,
//! whatever comes back, is stated and proved in [`run`].

pub mod address;
pub mod failure;
pub mod provider;
pub mod records;
pub mod run;
pub mod search;
pub mod sync;
pub mod text;
