//! Descriptors of dma-bufs and the checks before a copy.

use crate::error::{ErrorView, VkBridgeError};
use crate::geometry::{Rectangle, Size};
use crate::modifiers::{MODIFIER_INVALID, MODIFIER_LINEAR};
use vstd::prelude::*;

verus! {

/// What the engine reads of a dma-buf.
#[derive(Clone, Copy, Debug, PartialEq, Eq, Structural)]
pub struct Dmabuf {
    /// Stable identity of the buffer object, not an fd number.
    pub id: u64,
    pub size: Size,
    /// FourCC pixel format.
    pub fourcc: u32,
    /// DRM format modifier.
    pub modifier: u64,
    /// Number of memory planes.
    pub planes: usize,
    /// Bytes per row of the first plane, or zero without planes.
    pub stride: u32,
    /// Byte offset of the first plane.
    pub offset: u32,
    pub y_inverted: bool,
    pub interlaced: bool,
    pub bottom_first: bool,
}

/// Kernel identity of an allocation: device and inode number.
#[derive(Clone, Copy, Debug, PartialEq, Eq, Structural)]
pub struct Allocation {
    pub device: u64,
    pub inode: u64,
}

/// A usable single-plane layout. Only linear rows have a known minimal length: all mapped formats
/// have four-byte pixels.
pub open spec fn descriptor_ok(
    width: i32,
    height: i32,
    planes: usize,
    modifier: u64,
    stride: u32,
) -> bool {
    &&& width > 0
    &&& height > 0
    &&& planes == 1
    &&& modifier != MODIFIER_INVALID
    &&& stride > 0
    &&& modifier == MODIFIER_LINEAR ==> stride >= width * 4
}

/// A progressive buffer with a usable layout.
pub open spec fn buffer_ok(buffer: Dmabuf) -> bool {
    &&& descriptor_ok(
        buffer.size.w,
        buffer.size.h,
        buffer.planes,
        buffer.modifier,
        buffer.stride,
    )
    &&& !buffer.interlaced
    &&& !buffer.bottom_first
}

/// Whether a rectangle is nonempty and inside a buffer of this extent.
pub fn valid_region(width: i32, height: i32, rect: &Rectangle) -> (valid: bool)
    ensures
        valid == rect.within(Size { w: width, h: height }),
{
    rect.loc.x >= 0 && rect.loc.y >= 0 && rect.size.w > 0 && rect.size.h > 0 && (
    match rect.loc.x.checked_add(rect.size.w) {
        Some(x) => x <= width,
        None => false,
    }) && (match rect.loc.y.checked_add(rect.size.h) {
        Some(y) => y <= height,
        None => false,
    })
}

/// Whether a descriptor can be imported. Tiled modifiers have opaque pitch rules; explicit layouts
/// are additionally driver-validated.
pub fn valid_descriptor(
    width: i32,
    height: i32,
    planes: usize,
    modifier: u64,
    stride: u32,
) -> (valid: bool)
    ensures
        valid == descriptor_ok(width, height, planes, modifier, stride),
{
    width > 0 && height > 0 && planes == 1 && modifier != MODIFIER_INVALID && stride > 0 && (modifier
        != MODIFIER_LINEAR || stride as u64 >= width as u64 * 4)
}

/// Why two buffers cannot be copied between, from their descriptors alone.
pub open spec fn buffers_rejected(src: Dmabuf, dst: Dmabuf) -> Option<Seq<char>> {
    if src.id == dst.id {
        Some("source aliases destination"@)
    } else if src.size != dst.size || src.fourcc != dst.fourcc || src.y_inverted
        != dst.y_inverted {
        Some("size, FourCC or orientation mismatch"@)
    } else if !buffer_ok(src) || !buffer_ok(dst) {
        Some("invalid single-plane descriptor"@)
    } else {
        None
    }
}

/// There is damage, and all of it is inside the buffer.
pub open spec fn damage_ok(size: Size, regions: Seq<Rectangle>) -> bool {
    &&& regions.len() > 0
    &&& forall|i: int| 0 <= i < regions.len() ==> (#[trigger] regions[i]).within(size)
}

/// The verdict on a copy whose descriptors are acceptable. `format` is the Vulkan format of the
/// FourCC, if there is one.
pub open spec fn copy_format(
    source: Result<Allocation, std::io::Error>,
    destination: Result<Allocation, std::io::Error>,
    damage: bool,
    format: Option<i32>,
) -> Result<i32, ErrorView> {
    match (source, destination) {
        (Err(err), _) => Err(ErrorView::Io(err)),
        (Ok(_), Err(err)) => Err(ErrorView::Io(err)),
        (Ok(a), Ok(b)) => if a == b {
            Err(ErrorView::Unsupported("source and destination share an allocation"@))
        } else if !damage {
            Err(ErrorView::Unsupported("empty or out-of-bounds damage"@))
        } else {
            match format {
                Some(format) => Ok(format),
                None => Err(ErrorView::Unsupported("unknown FourCC"@)),
            }
        },
    }
}

fn usable(buffer: &Dmabuf) -> (ok: bool)
    ensures
        ok == buffer_ok(*buffer),
{
    valid_descriptor(
        buffer.size.w,
        buffer.size.h,
        buffer.planes,
        buffer.modifier,
        buffer.stride,
    ) && !buffer.interlaced && !buffer.bottom_first
}

/// Checks the descriptors of a copy, before any file descriptor is looked at.
pub fn validate_buffers(src: &Dmabuf, dst: &Dmabuf) -> (checked: Result<(), VkBridgeError>)
    ensures
        match buffers_rejected(*src, *dst) {
            Some(reason) => checked matches Err(err) && err@ == ErrorView::Unsupported(reason),
            None => checked is Ok,
        },
{
    if src.id == dst.id {
        return Err(VkBridgeError::Unsupported("source aliases destination"));
    }
    if src.size != dst.size || src.fourcc != dst.fourcc || src.y_inverted != dst.y_inverted {
        return Err(VkBridgeError::Unsupported("size, FourCC or orientation mismatch"));
    }
    if !usable(src) || !usable(dst) {
        return Err(VkBridgeError::Unsupported("invalid single-plane descriptor"));
    }
    Ok(())
}

/// Whether there is damage and all of it is inside the buffer.
pub fn valid_damage(size: Size, regions: &Vec<Rectangle>) -> (valid: bool)
    ensures
        valid == damage_ok(size, regions@),
{
    if regions.len() == 0 {
        return false;
    }
    let mut i: usize = 0;
    while i < regions.len()
        invariant
            i <= regions@.len(),
            forall|j: int| 0 <= j < i ==> (#[trigger] regions@[j]).within(size),
        decreases regions@.len() - i,
    {
        if !valid_region(size.w, size.h, &regions[i]) {
            return false;
        }
        i += 1;
    }
    true
}

/// Checks a copy completely. Distinct buffers can still contain duplicated descriptors for one
/// allocation: `source` and `destination` are what the kernel says of their first planes.
pub fn validate(
    src: &Dmabuf,
    dst: &Dmabuf,
    source: Result<Allocation, std::io::Error>,
    destination: Result<Allocation, std::io::Error>,
    regions: &Vec<Rectangle>,
    format: Option<i32>,
) -> (checked: Result<i32, VkBridgeError>)
    ensures
        crate::error::result_view(checked) == match buffers_rejected(*src, *dst) {
            Some(reason) => Err::<i32, ErrorView>(ErrorView::Unsupported(reason)),
            None => copy_format(source, destination, damage_ok(src.size, regions@), format),
        },
{
    match validate_buffers(src, dst) {
        Err(err) => {
            return Err(err);
        },
        Ok(()) => {},
    }
    let damage = valid_damage(src.size, regions);
    match source {
        Err(err) => Err(VkBridgeError::Io(err)),
        Ok(first) => match destination {
            Err(err) => Err(VkBridgeError::Io(err)),
            Ok(second) => validate_request(first, second, damage, format),
        },
    }
}

/// The last checks of a copy: separate allocations, usable damage, a known format.
pub fn validate_request(
    source: Allocation,
    destination: Allocation,
    damage: bool,
    format: Option<i32>,
) -> (checked: Result<i32, VkBridgeError>)
    ensures
        crate::error::result_view(checked) == copy_format(
            Ok(source),
            Ok(destination),
            damage,
            format,
        ),
{
    if source == destination {
        return Err(VkBridgeError::Unsupported("source and destination share an allocation"));
    }
    if !damage {
        return Err(VkBridgeError::Unsupported("empty or out-of-bounds damage"));
    }
    match format {
        Some(format) => Ok(format),
        None => Err(VkBridgeError::Unsupported("unknown FourCC")),
    }
}

/// A copy passes exactly if it is between two distinct, matching, usable buffers in separate
/// allocations, with nonempty damage inside them and a known format.
pub proof fn validation_is_complete(
    src: Dmabuf,
    dst: Dmabuf,
    source: Allocation,
    destination: Allocation,
    regions: Seq<Rectangle>,
    format: Option<i32>,
)
    ensures
        (buffers_rejected(src, dst) is None && copy_format(
            Ok(source),
            Ok(destination),
            damage_ok(src.size, regions),
            format,
        ) is Ok) <==> {
            &&& src.id != dst.id
            &&& source != destination
            &&& src.size == dst.size
            &&& src.fourcc == dst.fourcc
            &&& src.y_inverted == dst.y_inverted
            &&& buffer_ok(src)
            &&& buffer_ok(dst)
            &&& damage_ok(src.size, regions)
            &&& format is Some
        },
{
}

/// A buffer is usable exactly if it has pixels, one explicitly described plane with a stride, and
/// progressive rows. A linear one needs at least four bytes for every pixel of a row.
pub proof fn usable_buffers_are_described(buffer: Dmabuf)
    ensures
        buffer_ok(buffer) <==> {
            &&& buffer.size.w >= 1
            &&& buffer.size.h >= 1
            &&& buffer.planes == 1
            &&& buffer.modifier != 0x00ff_ffff_ffff_ffff
            &&& buffer.stride >= 1
            &&& buffer.modifier == 0 ==> buffer.stride >= 4 * buffer.size.w
            &&& !buffer.interlaced
            &&& !buffer.bottom_first
        },
        descriptor_ok(
            buffer.size.w,
            buffer.size.h,
            buffer.planes,
            buffer.modifier,
            buffer.stride,
        ) && !buffer.interlaced && !buffer.bottom_first <==> buffer_ok(buffer),
{
}

/// Buffers are rejected for the first of three reasons that applies: they are the same buffer, they
/// do not match in size, format or orientation, or one of them is not usable.
pub proof fn rejections_name_their_reason(src: Dmabuf, dst: Dmabuf)
    ensures
        ({
            let mismatch = src.size.w != dst.size.w || src.size.h != dst.size.h || src.fourcc
                != dst.fourcc || src.y_inverted != dst.y_inverted;
            let unusable = !buffer_ok(src) || !buffer_ok(dst);
            &&& src.id == dst.id ==> buffers_rejected(src, dst) == Some(
                "source aliases destination"@,
            )
            &&& src.id != dst.id && mismatch ==> buffers_rejected(src, dst) == Some(
                "size, FourCC or orientation mismatch"@,
            )
            &&& src.id != dst.id && !mismatch && unusable ==> buffers_rejected(src, dst) == Some(
                "invalid single-plane descriptor"@,
            )
            &&& src.id != dst.id && !mismatch && !unusable ==> buffers_rejected(src, dst) is None
        }),
{
}

/// Damage is usable exactly if there is some, and no rectangle of it is empty or reaches out of the
/// buffer.
pub proof fn usable_damage_is_inside(size: Size, regions: Seq<Rectangle>)
    ensures
        damage_ok(size, regions) <==> regions.len() > 0 && forall|i: int|
            0 <= i < regions.len() ==> {
                let r = #[trigger] regions[i];
                &&& r.size.w > 0 && r.size.h > 0
                &&& r.loc.x >= 0 && r.loc.y >= 0
                &&& r.loc.x + r.size.w <= size.w && r.loc.y + r.size.h <= size.h
            },
{
}

/// The last checks reject a copy for the first reason that applies, and pass on what the kernel
/// reported and the format as they are.
pub proof fn last_checks_name_their_reason(
    source: Result<Allocation, std::io::Error>,
    destination: Result<Allocation, std::io::Error>,
    damage: bool,
    format: Option<i32>,
)
    ensures
        ({
            let verdict = copy_format(source, destination, damage, format);
            match (source, destination) {
                (Err(err), _) => verdict == Err::<i32, ErrorView>(ErrorView::Io(err)),
                (Ok(_), Err(err)) => verdict == Err::<i32, ErrorView>(ErrorView::Io(err)),
                (Ok(a), Ok(b)) => {
                    let shared = a.device == b.device && a.inode == b.inode;
                    &&& shared ==> verdict == Err::<i32, ErrorView>(
                        ErrorView::Unsupported("source and destination share an allocation"@),
                    )
                    &&& !shared && !damage ==> verdict == Err::<i32, ErrorView>(
                        ErrorView::Unsupported("empty or out-of-bounds damage"@),
                    )
                    &&& !shared && damage && format is None ==> verdict == Err::<i32, ErrorView>(
                        ErrorView::Unsupported("unknown FourCC"@),
                    )
                    &&& !shared && damage && format is Some ==> verdict == Ok::<i32, ErrorView>(
                        format->0,
                    )
                },
            }
        }),
{
}

} // verus!
