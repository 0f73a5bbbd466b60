//! Why the store refused something.
use vstd::prelude::*;

use crate::models::error::DomainError;
use crate::models::workflow::WorkflowStateTag;

verus! {

/// Why the store refused something.
#[derive(Debug)]
pub enum StoreError {
    Database(String),
    EventSerialization(String),
    Domain(DomainError),
    /// The file was no longer in the expected state.
    StaleState { expected: WorkflowStateTag },
    /// The event may not happen in that state.
    InvalidTransition { from: WorkflowStateTag },
}

} // verus!
