//! The point pipeline's instance buffer: its size and what an upload does.

use vstd::prelude::*;
use vstd::string::StringExecFns;
use crate::error::RenderError;
use crate::text::{decimal, push_decimal};

verus! {

/// The size in bytes of one point instance: a homogeneous position and an
/// RGBA color (16 bytes each), a radius and 12 bytes of padding.
pub const POINT_INSTANCE_BYTES: u64 = 48;

/// The size in bytes of the instance buffer allocated for `capacity`
/// instances: never zero, since Vulkan refuses empty buffers.
pub open spec fn instance_buffer_bytes_spec(capacity: u32) -> int {
    if capacity == 0 {
        1
    } else {
        POINT_INSTANCE_BYTES * capacity
    }
}

/// The size in bytes of the instance buffer allocated for `capacity`
/// point instances.
pub fn instance_buffer_bytes(capacity: u32) -> (n: u64)
    ensures
        n == instance_buffer_bytes_spec(capacity),
{
    let size = POINT_INSTANCE_BYTES * (capacity as u64);
    if size > 1 {
        size
    } else {
        1
    }
}

/// What uploading a slice of point instances does to the buffer.
#[derive(Debug, PartialEq, Eq, Structural)]
pub enum PointUpload {
    /// Nothing to copy: the buffer's instance count becomes zero.
    Empty,
    /// Copy `bytes` bytes; the buffer's instance count becomes `len`.
    Copy {
        /// Number of bytes to copy into the mapped buffer.
        bytes: u64,
        /// New instance count.
        len: u32,
    },
}

/// The message of the error returned when an upload exceeds the capacity.
pub open spec fn upload_overflow_message(count: nat, capacity: nat) -> Seq<char> {
    "point instance upload of "@ + decimal(count) + " exceeds capacity "@ + decimal(capacity)
}

/// Decide an upload of `count` instances into a buffer of `capacity`:
/// refused with `OutOfMemory` when `count` exceeds the capacity, empty when
/// `count` is zero, otherwise a copy of `48 * count` bytes.
pub fn plan_point_upload(count: usize, capacity: u32) -> (r: Result<PointUpload, RenderError>)
    ensures
        match r {
            Ok(PointUpload::Empty) => count == 0,
            Ok(PointUpload::Copy { bytes, len }) => 0 < count <= capacity && len == count && bytes
                == POINT_INSTANCE_BYTES * count,
            Err(e) => count > capacity && (e matches RenderError::OutOfMemory(m) && m@
                == upload_overflow_message(count as nat, capacity as nat)),
        },
{
    if count as u64 > capacity as u64 {
        let mut m = String::from_str("point instance upload of ");
        push_decimal(&mut m, count as u64);
        m.append(" exceeds capacity ");
        push_decimal(&mut m, capacity as u64);
        return Err(RenderError::OutOfMemory(m));
    }
    if count == 0 {
        return Ok(PointUpload::Empty);
    }
    let len = count as u32;
    Ok(PointUpload::Copy { bytes: POINT_INSTANCE_BYTES * (len as u64), len })
}

} // verus!
