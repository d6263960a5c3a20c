//! Choosing the physical device and queue family used for rendering.

use vstd::prelude::*;
use crate::error::RenderError;

verus! {

/// The `VK_QUEUE_GRAPHICS_BIT` flag of a queue family.
pub const QUEUE_GRAPHICS_BIT: u32 = 1;

/// Queue family `f` of device `d` supports graphics.
pub open spec fn is_graphics_family(devices: Seq<Vec<u32>>, d: int, f: int) -> bool {
    0 <= d < devices.len() && 0 <= f < devices[d]@.len() && devices[d]@[f] & QUEUE_GRAPHICS_BIT
        == QUEUE_GRAPHICS_BIT
}

/// Device `d` has some queue family that supports graphics.
pub open spec fn has_graphics_family(devices: Seq<Vec<u32>>, d: int) -> bool {
    exists|f: int| is_graphics_family(devices, d, f)
}

/// The index of the first graphics-capable queue family of `flags`, if any.
fn first_graphics_family(flags: &Vec<u32>) -> (r: Option<usize>)
    ensures
        match r {
            Some(f) => f < flags@.len() && flags@[f as int] & QUEUE_GRAPHICS_BIT
                == QUEUE_GRAPHICS_BIT && forall|g: int|
                0 <= g < f ==> #[trigger] flags@[g] & QUEUE_GRAPHICS_BIT != QUEUE_GRAPHICS_BIT,
            None => forall|g: int|
                0 <= g < flags@.len() ==> #[trigger] flags@[g] & QUEUE_GRAPHICS_BIT
                    != QUEUE_GRAPHICS_BIT,
        },
{
    let mut f: usize = 0;
    while f < flags.len()
        invariant
            f <= flags@.len(),
            forall|g: int|
                0 <= g < f ==> #[trigger] flags@[g] & QUEUE_GRAPHICS_BIT != QUEUE_GRAPHICS_BIT,
        decreases flags@.len() - f,
    {
        if flags[f] & QUEUE_GRAPHICS_BIT == QUEUE_GRAPHICS_BIT {
            return Some(f);
        }
        f = f + 1;
    }
    None
}

/// Pick the first physical device that exposes a graphics-capable queue
/// family, and its first such family.
///
/// `devices[d][f]` holds the queue flags of family `f` of physical device
/// `d`, in the order Vulkan enumerates them. Fails with
/// `NoPhysicalDevice` when there is no device, or when none has a graphics
/// queue family.
pub fn select_graphics_queue(devices: &Vec<Vec<u32>>) -> (r: Result<(usize, u32), RenderError>)
    requires
        forall|d: int| 0 <= d < devices@.len() ==> #[trigger] devices@[d]@.len() <= u32::MAX,
    ensures
        match r {
            Ok((d, f)) => {
                &&& is_graphics_family(devices@, d as int, f as int)
                &&& forall|e: int| 0 <= e < d ==> !has_graphics_family(devices@, e)
                &&& forall|g: int| 0 <= g < f ==> !is_graphics_family(devices@, d as int, g)
            },
            Err(e) => e == RenderError::NoPhysicalDevice && forall|d: int|
                0 <= d < devices@.len() ==> !has_graphics_family(devices@, d),
        },
{
    if devices.len() == 0 {
        return Err(RenderError::NoPhysicalDevice);
    }
    let mut d: usize = 0;
    while d < devices.len()
        invariant
            d <= devices@.len(),
            forall|i: int| 0 <= i < devices@.len() ==> #[trigger] devices@[i]@.len() <= u32::MAX,
            forall|e: int| 0 <= e < d ==> !has_graphics_family(devices@, e),
        decreases devices@.len() - d,
    {
        match first_graphics_family(&devices[d]) {
            Some(f) => {
                proof {
                    assert forall|g: int| 0 <= g < f implies !is_graphics_family(
                        devices@,
                        d as int,
                        g,
                    ) by {
                        assert(devices@[d as int]@[g] & QUEUE_GRAPHICS_BIT != QUEUE_GRAPHICS_BIT);
                    }
                }
                return Ok((d, f as u32));
            },
            None => {
                proof {
                    assert forall|g: int| !is_graphics_family(devices@, d as int, g) by {
                        if 0 <= g < devices@[d as int]@.len() {
                            assert(devices@[d as int]@[g] & QUEUE_GRAPHICS_BIT
                                != QUEUE_GRAPHICS_BIT);
                        }
                    }
                }
            },
        }
        d = d + 1;
    }
    Err(RenderError::NoPhysicalDevice)
}

} // verus!
