//! Why an activity was turned away.

use vstd::prelude::*;

verus! {

/// Every way in which building, verifying or applying an activity can fail.
/// None of them is retried.
#[derive(Clone, Copy, Debug, PartialEq, Eq, Structural)]
pub enum FederationError {
    /// Neither `to` nor `cc` names the public audience.
    AudienceMissing,
    /// The acting person is not known here.
    ActorUnresolvable,
    /// The acting person is banned from the instance or from the community.
    NotAMember,
    /// The acting person does not moderate the community, or does not
    /// administer the instance in whose name they act.
    NotAModerator,
    /// Two identifiers that must share a domain do not.
    DomainMismatch,
    /// An instance-wide ban would hit a person whose home is this instance.
    SelfBanOnHomeInstance,
    /// The audience names another community than the one acted in.
    CommunityMismatch,
    /// Too many nested resolutions.
    RecursionExceeded,
    /// No object or collection has the identifier.
    NotFound,
    /// A text that had to be an absolute URL is none.
    InvalidUrl,
    /// The activity was taken in before.
    Duplicate,
}

} // verus!
