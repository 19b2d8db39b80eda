//! Device initialisation: picking a queue family whose capability flags
//! include the operation class the run needs. The driver enumeration itself
//! is outside work; this module holds the selection rule over the enumerated
//! flags.

use vstd::prelude::*;

verus! {

/// The capability flags a queue family advertises.
#[derive(Clone, Copy, Debug, PartialEq, Eq, Structural)]
pub struct QueueFlags {
    pub graphics: bool,
    pub compute: bool,
    pub transfer: bool,
}

/// The operation class a run requires of its queue.
#[derive(Clone, Copy, Debug, PartialEq, Eq, Structural)]
pub enum Capability {
    Graphics,
    Compute,
    Transfer,
}

/// Whether a family with flags `f` supports the capability `c`.
pub open spec fn family_supports(f: QueueFlags, c: Capability) -> bool {
    match c {
        Capability::Graphics => f.graphics,
        Capability::Compute => f.compute,
        Capability::Transfer => f.transfer,
    }
}

/// Whether any of the enumerated families supports `c`.
pub open spec fn some_family_supports(families: Seq<QueueFlags>, c: Capability) -> bool {
    exists|j: int| 0 <= j < families.len() && family_supports(families[j], c)
}

/// Picks the first queue family that supports the required capability,
/// as the enumeration order gives them; `None` exactly when no family
/// qualifies.
pub fn select_queue_family(families: &Vec<QueueFlags>, c: Capability) -> (r: Option<usize>)
    ensures
        match r {
            Some(i) => i < families@.len() && family_supports(families@[i as int], c) && forall|
                j: int,
            | 0 <= j < i ==> !family_supports(families@[j], c),
            None => !some_family_supports(families@, c),
        },
{
    let mut i: usize = 0;
    while i < families.len()
        invariant
            i <= families@.len(),
            forall|j: int| 0 <= j < i ==> !family_supports(families@[j], c),
        decreases families@.len() - i,
    {
        let f = families[i];
        let supported = match c {
            Capability::Graphics => f.graphics,
            Capability::Compute => f.compute,
            Capability::Transfer => f.transfer,
        };
        if supported {
            return Some(i);
        }
        i = i + 1;
    }
    None
}

} // verus!
