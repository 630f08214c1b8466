//! Which game updates a subscriber receives.

use vstd::prelude::*;
use vstd::string::StringExecFns;

verus! {

/// Who subscribes: a Cognito user with its groups, or anyone else.
pub enum SubscriberIdentity {
    Cognito { groups: Option<Vec<String>> },
    Other,
}

/// Which updates a subscriber receives.
#[derive(Debug, Clone, Copy, PartialEq, Eq, Structural)]
pub enum UpdateFilter {
    /// Every update.
    All,
    /// Only the updates marked sampled.
    SampledOnly,
}

/// One of the groups is `Admins`.
pub open spec fn has_admins_group(groups: Seq<String>) -> bool {
    exists|i: int| 0 <= i < groups.len() && (#[trigger] groups[i])@ == "Admins"@
}

/// The subscriber is an admin: a Cognito user in the `Admins` group.
pub open spec fn spec_is_admin(identity: SubscriberIdentity) -> bool {
    match identity {
        SubscriberIdentity::Cognito { groups: Some(groups) } => has_admins_group(groups@),
        _ => false,
    }
}

/// Admins receive every update; other subscribers only the sampled ones.
pub fn update_filter(identity: &SubscriberIdentity) -> (r: UpdateFilter)
    ensures
        r == (if spec_is_admin(*identity) {
            UpdateFilter::All
        } else {
            UpdateFilter::SampledOnly
        }),
{
    let admins = String::from_str("Admins");
    match identity {
        SubscriberIdentity::Cognito { groups: Some(groups) } => {
            let mut i: usize = 0;
            while i < groups.len()
                invariant
                    i <= groups@.len(),
                    admins@ == "Admins"@,
                    *identity == (SubscriberIdentity::Cognito { groups: Some(*groups) }),
                    forall|t: int| 0 <= t < i ==> (#[trigger] groups@[t])@ != "Admins"@,
                decreases groups@.len() - i,
            {
                if groups[i] == admins {
                    assert((groups@[i as int])@ == "Admins"@);
                    assert(has_admins_group(groups@));
                    return UpdateFilter::All;
                }
                i += 1;
            }
            UpdateFilter::SampledOnly
        },
        _ => UpdateFilter::SampledOnly,
    }
}

} // verus!
