//! Choosing the physical device and the queue family that renders and
//! presents.

use vstd::prelude::*;

verus! {

/// `VK_QUEUE_GRAPHICS_BIT`.
pub const QUEUE_GRAPHICS: u32 = 1;

/// What a queue family offers: its queue flags, and whether it can present
/// to the surface.
#[derive(Clone, Copy, Debug, PartialEq, Eq, Structural)]
pub struct QueueFamily {
    pub queue_flags: u32,
    pub surface_support: bool,
}

/// A family that can both draw and present.
pub open spec fn family_suitable(f: QueueFamily) -> bool {
    f.queue_flags & QUEUE_GRAPHICS == QUEUE_GRAPHICS && f.surface_support
}

/// The index of the first family of `families` that can draw and present,
/// or `None` where no family can.
pub fn select_queue_family(families: &Vec<QueueFamily>) -> (r: Option<usize>)
    ensures
        r matches Some(i) ==> i < families@.len() && family_suitable(families@[i as int])
            && forall|j: int| 0 <= j < i ==> !family_suitable(#[trigger] families@[j]),
        r is None ==> forall|j: int|
            0 <= j < families@.len() ==> !family_suitable(#[trigger] families@[j]),
{
    let mut i: usize = 0;
    while i < families.len()
        invariant
            i <= families@.len(),
            forall|j: int| 0 <= j < i ==> !family_suitable(#[trigger] families@[j]),
        decreases families@.len() - i,
    {
        let f = families[i];
        if f.queue_flags & QUEUE_GRAPHICS == QUEUE_GRAPHICS && f.surface_support {
            return Some(i);
        }
        i = i + 1;
    }
    None
}

/// The first device that has a suitable queue family, given for each device
/// in order the family `select_queue_family` found on it: the device's index
/// and that family.
pub fn select_device(candidates: &Vec<Option<usize>>) -> (r: Option<(usize, usize)>)
    ensures
        r matches Some((d, q)) ==> d < candidates@.len() && candidates@[d as int] == Some(q)
            && forall|j: int| 0 <= j < d ==> #[trigger] candidates@[j] is None,
        r is None ==> forall|j: int| 0 <= j < candidates@.len() ==> #[trigger] candidates@[j] is None,
{
    let mut i: usize = 0;
    while i < candidates.len()
        invariant
            i <= candidates@.len(),
            forall|j: int| 0 <= j < i ==> #[trigger] candidates@[j] is None,
        decreases candidates@.len() - i,
    {
        if let Some(q) = candidates[i] {
            return Some((i, q));
        }
        i = i + 1;
    }
    None
}

} // verus!
