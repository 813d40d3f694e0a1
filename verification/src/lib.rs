//! A headless content-management core: user-defined collections (named
//! schemas), typed content entities stored under them, and the repository
//! and service operations that create, update, rename, delete, look up,
//! count and paginate those entities.
//!
//! Everything is specified against mathematical views of the data: each
//! executable model type has a ghost view, and every operation's contract
//! pins down the result and the new store state over those views.

use vstd::prelude::*;

pub mod field;
pub mod model;
pub mod collection_repository;
pub mod content_repository;
pub mod order;
pub mod service;

verus! {

/// The fixed page size of every pagination window.
pub const PER_PAGE: u64 = 10;

/// The error kinds that repository and service operations surface.
///
/// `NotFound`: the entity is absent under the given scope.
/// `Conflict`: a unique-identifier constraint would be violated.
/// `Validation`: a field descriptor failed conversion.
/// `ExternalServiceFailure`: an outside collaborator (the mailer) failed.
#[derive(Clone, Copy, Debug, PartialEq, Eq, Structural)]
pub enum Error {
    NotFound,
    Conflict,
    Validation,
    ExternalServiceFailure,
}

} // verus!
