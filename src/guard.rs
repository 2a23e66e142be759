use vstd::prelude::*;

use crate::paths::{descends, is_within};

verus! {

/// Why the sandbox check refused a candidate.
#[derive(Debug, Clone, Copy, PartialEq, Eq, Structural)]
pub enum GuardError {
    /// The configured root could not be canonicalized: a misconfiguration.
    Configuration,
    /// The candidate could not be canonicalized: it does not exist.
    NotFound,
    /// The candidate exists but lies outside the root.
    Traversal,
}

/// Checks a candidate against its root, both given as the filesystem
/// canonicalized them (`None` where canonicalization failed). Only a path
/// inside the root comes back.
pub fn guard(root: Option<String>, target: Option<String>) -> (r: Result<String, GuardError>)
    ensures
        root is None ==> r == Err::<String, GuardError>(GuardError::Configuration),
        root is Some && target is None ==> r == Err::<String, GuardError>(GuardError::NotFound),
        root is Some && target is Some && !descends(root->0@, target->0@) ==> r == Err::<
            String,
            GuardError,
        >(GuardError::Traversal),
        root is Some && target is Some && descends(root->0@, target->0@) ==> r is Ok && r->Ok_0@
            == target->0@,
{
    match root {
        None => Err(GuardError::Configuration),
        Some(root) => match target {
            None => Err(GuardError::NotFound),
            Some(target) => {
                if is_within(root.as_str(), target.as_str()) {
                    Ok(target)
                } else {
                    Err(GuardError::Traversal)
                }
            },
        },
    }
}

} // verus!
