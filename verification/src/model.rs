//! Plain-value records for what the remote service reports about a task:
//! each task carries a list of containers, and a container has an optional
//! name and an optional image reference. The caller that performs the remote
//! call converts the service's records into these before handing them over.

use vstd::prelude::*;

verus! {

/// One container of a task, as the describe operation reports it.
pub struct Container {
    /// The container's name, if the service reported one.
    pub name: Option<String>,
    /// The container's image reference (`repository[:tag]`), if reported.
    pub image: Option<String>,
}

/// One task record from the describe operation.
pub struct TaskDesc {
    /// The containers the record lists.
    pub containers: Vec<Container>,
}

} // verus!
