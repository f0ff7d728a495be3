//! Physical-device selection.

use vstd::prelude::*;
use crate::error::RendererError;

verus! {

/// The kind a physical device reports itself as.
#[derive(Clone, Copy, Debug, PartialEq, Eq, Structural)]
pub enum DeviceKind {
    DiscreteGpu,
    IntegratedGpu,
    VirtualGpu,
    Cpu,
    Other,
}

/// Pick a physical device from the enumerated kinds, in enumeration order:
/// the first discrete GPU, or, when none is discrete, the first device of any
/// kind. An empty device list is a non-recoverable failure,
/// `NoSuitableDevice`.
pub fn select_device(kinds: &Vec<DeviceKind>) -> (r: Result<usize, RendererError>)
    ensures
        r is Ok <==> kinds@.len() > 0,
        r matches Ok(i) ==> {
            &&& i < kinds@.len()
            &&& ((exists|j: int| 0 <= j < kinds@.len() && kinds@[j] is DiscreteGpu)
                ==> kinds@[i as int] is DiscreteGpu && (forall|j: int|
                0 <= j < i ==> !(kinds@[j] is DiscreteGpu)))
            &&& (!(exists|j: int| 0 <= j < kinds@.len() && kinds@[j] is DiscreteGpu) ==> i == 0)
        },
        r is Err ==> r == Err::<usize, RendererError>(RendererError::NoSuitableDevice),
{
    let mut index: usize = 0;
    while index < kinds.len()
        invariant
            index <= kinds@.len(),
            forall|j: int| 0 <= j < index ==> !(kinds@[j] is DiscreteGpu),
        decreases kinds@.len() - index,
    {
        match kinds[index] {
            DeviceKind::DiscreteGpu => {
                return Ok(index);
            },
            _ => {},
        }
        index = index + 1;
    }
    if kinds.len() > 0 {
        Ok(0)
    } else {
        Err(RendererError::NoSuitableDevice)
    }
}

} // verus!
