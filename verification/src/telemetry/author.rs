//! What an application author declares about who is calling.

use vstd::prelude::*;

verus! {

/// Who the caller is, when the app knows and the attribution axis permits
/// it. Both parts are optional: an app may know a tenant without knowing a
/// person, or the reverse, and neither is ever inferred.
#[derive(Debug, Clone, Default, PartialEq, Eq)]
pub struct Identity {
    /// The `enduser.id` attribute: stable per person within the app's own
    /// namespace, never an email address or a login name.
    pub enduser_id: Option<String>,
    /// The tenant or organisation the caller acts for.
    pub tenant: Option<String>,
}

} // verus!
