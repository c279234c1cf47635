//! Request handling for a property-listing service, without the I/O.
//!
//! Every handler of the service is split into the decisions it takes and the
//! outside work those decisions call for. The decisions live here: which
//! request goes to the datastore, which reply answers which outcome, and, for
//! the creation of a listing with its photo gallery, which step follows which.
//! The caller performs the outside work and reports how it went.

pub mod create;
pub mod effects;
pub mod gallery;
pub mod listing;
pub mod part;
pub mod property;
pub mod reply;
pub mod store;
pub mod tags;
pub mod text;
pub mod upload;
