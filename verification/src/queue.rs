//! Queue-family resolution.
//!
//! Queue families arrive as plain records of what each family advertises; the
//! resolver picks one family for the graphics role and one for the transfer
//! role, or reports that the hardware does not meet the minimum requirements.

use vstd::prelude::*;
use crate::error::RendererError;

verus! {

/// What one queue family advertises, in index order as the device enumerates
/// them: how many queues it offers, its capability bits, and whether the
/// device reports presentation support for this family on the target surface.
#[derive(Clone, Copy, Debug, PartialEq, Eq, Structural)]
pub struct QueueFamilyInfo {
    pub queue_count: u32,
    pub graphics: bool,
    pub transfer: bool,
    pub present_support: bool,
}

/// The two resolved family indices. Both always hold a valid index: there is
/// no degraded mode without a graphics-and-present-capable family.
#[derive(Clone, Copy, Debug, PartialEq, Eq, Structural)]
pub struct QueueFamilyIndices {
    pub graphics: u32,
    pub transfer: u32,
}

/// A family can take the graphics role: it offers at least one queue, has the
/// graphics capability bit, and can present to the surface.
pub open spec fn graphics_eligible(f: QueueFamilyInfo) -> bool {
    f.queue_count > 0 && f.graphics && f.present_support
}

/// A family can take the transfer role: it offers at least one queue and has
/// the transfer capability bit.
pub open spec fn transfer_eligible(f: QueueFamilyInfo) -> bool {
    f.queue_count > 0 && f.transfer
}

/// A transfer-capable family without the graphics bit: a dedicated transfer
/// family, preferred for the transfer role.
pub open spec fn dedicated_transfer(f: QueueFamilyInfo) -> bool {
    transfer_eligible(f) && !f.graphics
}

/// Pick the queue families for the graphics and transfer roles.
///
/// The graphics role goes to the first eligible family in index order. The
/// transfer role prefers a dedicated transfer family — later dedicated
/// families overwrite earlier picks, so the last dedicated family wins — and
/// falls back to the first transfer-capable family when no dedicated one
/// exists. If either role cannot be filled, resolution fails with
/// `NoSuitableQueueFamily`; there is no partial result.
pub fn resolve_queue_families(families: &Vec<QueueFamilyInfo>) -> (r: Result<
    QueueFamilyIndices,
    RendererError,
>)
    requires
        families@.len() <= u32::MAX,
    ensures
        r is Ok <==> ((exists|i: int|
            0 <= i < families@.len() && graphics_eligible(families@[i])) && (exists|i: int|
            0 <= i < families@.len() && transfer_eligible(families@[i]))),
        r matches Ok(q) ==> {
            &&& q.graphics < families@.len()
            &&& graphics_eligible(families@[q.graphics as int])
            &&& forall|j: int| 0 <= j < q.graphics ==> !graphics_eligible(families@[j])
            &&& q.transfer < families@.len()
            &&& transfer_eligible(families@[q.transfer as int])
            &&& ((exists|j: int| 0 <= j < families@.len() && dedicated_transfer(families@[j]))
                ==> dedicated_transfer(families@[q.transfer as int]) && (forall|j: int|
                q.transfer < j < families@.len() ==> !dedicated_transfer(families@[j])))
            &&& (!(exists|j: int| 0 <= j < families@.len() && dedicated_transfer(families@[j]))
                ==> forall|j: int| 0 <= j < q.transfer ==> !transfer_eligible(families@[j]))
        },
        r is Err ==> r == Err::<QueueFamilyIndices, RendererError>(
            RendererError::NoSuitableQueueFamily,
        ),
{
    let mut graphics_found: Option<u32> = None;
    let mut transfer_found: Option<u32> = None;
    let mut index: usize = 0;
    while index < families.len()
        invariant
            index <= families@.len(),
            families@.len() <= u32::MAX,
            match graphics_found {
                None => forall|j: int| 0 <= j < index ==> !graphics_eligible(families@[j]),
                Some(g) => {
                    &&& g < index
                    &&& graphics_eligible(families@[g as int])
                    &&& forall|j: int| 0 <= j < g ==> !graphics_eligible(families@[j])
                },
            },
            match transfer_found {
                None => forall|j: int| 0 <= j < index ==> !transfer_eligible(families@[j]),
                Some(t) => {
                    &&& t < index
                    &&& transfer_eligible(families@[t as int])
                    &&& ((exists|j: int| 0 <= j < index && dedicated_transfer(families@[j]))
                        ==> dedicated_transfer(families@[t as int]) && (forall|j: int|
                        t < j < index ==> !dedicated_transfer(families@[j])))
                    &&& (!(exists|j: int| 0 <= j < index && dedicated_transfer(families@[j]))
                        ==> forall|j: int| 0 <= j < t ==> !transfer_eligible(families@[j]))
                },
            },
        decreases families@.len() - index,
    {
        let family = families[index];
        if family.queue_count > 0 {
            if family.graphics && family.present_support && graphics_found.is_none() {
                graphics_found = Some(index as u32);
            }
            if family.transfer && (transfer_found.is_none() || !family.graphics) {
                transfer_found = Some(index as u32);
            }
        }
        index = index + 1;
    }
    match (graphics_found, transfer_found) {
        (Some(graphics), Some(transfer)) => Ok(QueueFamilyIndices { graphics, transfer }),
        _ => Err(RendererError::NoSuitableQueueFamily),
    }
}

} // verus!
