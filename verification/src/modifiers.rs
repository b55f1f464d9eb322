//! Which dma-buf layouts the driver can import for a transfer.

use crate::error::{ErrorView, VkBridgeError, VkResult, ERROR_FORMAT_NOT_SUPPORTED};
use crate::outside::{
    format_features_contain, handle_types_contain, memory_features_contain, sample_counts_contain,
};
use vstd::prelude::*;

verus! {

/// `DRM_FORMAT_MOD_LINEAR`: rows of pixels in memory order.
pub const MODIFIER_LINEAR: u64 = 0;

/// `DRM_FORMAT_MOD_INVALID`: the layout is implied rather than described.
pub const MODIFIER_INVALID: u64 = 0x00ff_ffff_ffff_ffff;

/// `VK_FORMAT_FEATURE_TRANSFER_SRC_BIT`.
pub const FEATURE_TRANSFER_SRC: u32 = 0x4000;

/// `VK_FORMAT_FEATURE_TRANSFER_DST_BIT`.
pub const FEATURE_TRANSFER_DST: u32 = 0x8000;

/// `VK_SAMPLE_COUNT_1_BIT`.
pub const SAMPLE_COUNT_1: u32 = 0x1;

/// `VK_EXTERNAL_MEMORY_FEATURE_IMPORTABLE_BIT`.
pub const MEMORY_IMPORTABLE: u32 = 0x4;

/// `VK_EXTERNAL_MEMORY_HANDLE_TYPE_DMA_BUF_BIT_EXT`.
pub const HANDLE_TYPE_DMA_BUF: u32 = 0x200;

/// What the driver supports for images of one format and modifier.
#[derive(Clone, Copy, Debug, PartialEq, Eq, Structural)]
pub struct ModifierProperties {
    /// The DRM format modifier.
    pub modifier: u64,
    /// Number of memory planes, auxiliary planes included.
    pub plane_count: u32,
    /// Format feature bits.
    pub tiling_features: u32,
}

/// Limits of images that can be imported.
#[derive(Clone, Copy, Debug, PartialEq, Eq, Structural)]
pub struct ImageLimits {
    pub max_width: u32,
    pub max_height: u32,
    pub max_depth: u32,
    pub max_mip_levels: u32,
    pub max_array_layers: u32,
    /// Sample count bits.
    pub sample_counts: u32,
}

/// The driver's answer to an import query.
#[derive(Clone, Copy, Debug, PartialEq, Eq, Structural)]
pub struct ImportReply {
    pub limits: ImageLimits,
    /// External memory feature bits.
    pub memory_features: u32,
    /// Compatible external handle type bits.
    pub handle_types: u32,
}

/// Whether all bits of `required` are set in `flags`.
pub open spec fn contains_bits(flags: u32, required: u32) -> bool {
    flags & required == required
}

/// An explicit single-plane layout whose images can be copied from, for a source, or to.
pub open spec fn transferable(modifier: ModifierProperties, source: bool) -> bool {
    &&& modifier.modifier != MODIFIER_INVALID
    &&& modifier.plane_count == 1
    &&& contains_bits(
        modifier.tiling_features,
        if source {
            FEATURE_TRANSFER_SRC
        } else {
            FEATURE_TRANSFER_DST
        },
    )
}

/// An image of this extent, with one layer, level and sample, stays within the limits.
pub open spec fn fits(limits: ImageLimits, width: u32, height: u32) -> bool {
    &&& 0 < width <= limits.max_width
    &&& 0 < height <= limits.max_height
    &&& limits.max_depth >= 1
    &&& limits.max_mip_levels >= 1
    &&& limits.max_array_layers >= 1
    &&& contains_bits(limits.sample_counts, SAMPLE_COUNT_1)
}

/// Whether a modifier describes a single-plane layout with transfer support.
pub fn single_plane_transfer(modifier: &ModifierProperties, source: bool) -> (supported: bool)
    ensures
        supported == transferable(*modifier, source),
{
    let required: u32 = if source { FEATURE_TRANSFER_SRC } else { FEATURE_TRANSFER_DST };
    modifier.modifier != MODIFIER_INVALID && modifier.plane_count == 1 && format_features_contain(
        modifier.tiling_features,
        required,
    )
}

/// Whether an image of this extent can be created.
pub fn fits_image(limits: &ImageLimits, width: u32, height: u32) -> (fitting: bool)
    ensures
        fitting == fits(*limits, width, height),
{
    width > 0 && height > 0 && width <= limits.max_width && height <= limits.max_height
        && limits.max_depth >= 1 && limits.max_mip_levels >= 1 && limits.max_array_layers >= 1
        && sample_counts_contain(limits.sample_counts, SAMPLE_COUNT_1)
}

/// Whether memory type `index` is among `bits`.
pub open spec fn has_type(bits: u32, index: u32) -> bool {
    (bits >> index) & 1 == 1
}

/// The first memory type among `bits`.
pub open spec fn memory_type(bits: u32) -> Option<u32> {
    if bits == 0 {
        None
    } else {
        Some(vstd::std_specs::bits::u32_trailing_zeros(bits))
    }
}

/// First memory type among `bits`.
pub fn select_memory_type(bits: u32) -> (index: Option<u32>)
    ensures
        index == memory_type(bits),
        index is None <==> bits == 0,
        index matches Some(i) ==> {
            &&& i < 32
            &&& has_type(bits, i)
            &&& forall|j: u32| j < i ==> !#[trigger] has_type(bits, j)
        },
{
    if bits == 0 {
        return None;
    }
    let index: u32 = bits.trailing_zeros();
    proof {
        vstd::std_specs::bits::axiom_u32_trailing_zeros(bits);
    }
    Some(index)
}

/// A memory type selected from two sets is in both of them.
pub proof fn selected_type_is_common(image: u32, fd: u32)
    ensures
        memory_type(image & fd) matches Some(i) ==> has_type(image, i) && has_type(fd, i),
{
    let bits = image & fd;
    if bits != 0 {
        vstd::std_specs::bits::axiom_u32_trailing_zeros(bits);
        let i = vstd::std_specs::bits::u32_trailing_zeros(bits);
        assert((image >> i) & 1 == 1 && (fd >> i) & 1 == 1) by (bit_vector)
            requires
                ((image & fd) >> i) & 1 == 1,
        ;
    }
}

/// What a query answer says: an error, no importable image, or limits of importable images.
pub open spec fn importable(reply: Result<ImportReply, VkResult>) -> Result<
    Option<ImageLimits>,
    VkResult,
> {
    match reply {
        Err(err) => if err.raw == ERROR_FORMAT_NOT_SUPPORTED {
            Ok(None)
        } else {
            Err(err)
        },
        Ok(found) => if contains_bits(found.memory_features, MEMORY_IMPORTABLE) && contains_bits(
            found.handle_types,
            HANDLE_TYPE_DMA_BUF,
        ) {
            Ok(Some(found.limits))
        } else {
            Ok(None)
        },
    }
}

/// Interprets the driver's answer to an import query. The query matches the image created by an
/// import exactly: 2D, explicit modifier, exclusive sharing, no image-create flags, one
/// mip/layer/sample and dma-buf external memory.
pub fn import_properties(reply: Result<ImportReply, VkResult>) -> (limits: Result<
    Option<ImageLimits>,
    VkBridgeError,
>)
    ensures
        match importable(reply) {
            Ok(found) => limits == Ok::<Option<ImageLimits>, VkBridgeError>(found),
            Err(err) => limits matches Err(e) && e@ == ErrorView::Vk(err),
        },
{
    match reply {
        Err(err) => if err.raw == ERROR_FORMAT_NOT_SUPPORTED {
            Ok(None)
        } else {
            Err(VkBridgeError::Vk(err))
        },
        Ok(found) => if memory_features_contain(found.memory_features, MEMORY_IMPORTABLE)
            && handle_types_contain(found.handle_types, HANDLE_TYPE_DMA_BUF) {
            Ok(Some(found.limits))
        } else {
            Ok(None)
        },
    }
}

/// A flag is contained exactly if no bit of it is missing.
pub proof fn contained_bits_are_all_set(flags: u32, required: u32)
    ensures
        contains_bits(flags, required) <==> required & !flags == 0,
        contains_bits(flags, 0),
        contains_bits(flags, flags),
{
    assert(flags & required == required <==> required & !flags == 0) by (bit_vector);
    assert(flags & 0 == 0) by (bit_vector);
    assert(flags & flags == flags) by (bit_vector);
}

/// A transferable layout is explicit, has a single plane, and can be copied from or to, as its role
/// needs.
pub proof fn transferable_layouts_are_explicit(modifier: ModifierProperties)
    ensures
        transferable(modifier, true) <==> modifier.modifier != 0x00ff_ffff_ffff_ffff
            && modifier.plane_count == 1 && modifier.tiling_features & 0x4000 == 0x4000,
        transferable(modifier, false) <==> modifier.modifier != 0x00ff_ffff_ffff_ffff
            && modifier.plane_count == 1 && modifier.tiling_features & 0x8000 == 0x8000,
{
}

/// An image fits exactly if it has pixels, is no larger than the limits, and one level, layer and
/// sample are allowed.
pub proof fn fitting_images_are_within_every_limit(limits: ImageLimits, width: u32, height: u32)
    ensures
        !fits(limits, width, height) <==> {
            ||| width == 0
            ||| height == 0
            ||| width > limits.max_width
            ||| height > limits.max_height
            ||| limits.max_depth == 0
            ||| limits.max_mip_levels == 0
            ||| limits.max_array_layers == 0
            ||| limits.sample_counts & 1 != 1
        },
{
}

/// An image is importable exactly if the driver imports memory for it, as a dma-buf. An unsupported
/// format is no error; every other error is passed on as it is.
pub proof fn importable_images_are_dma_bufs(reply: Result<ImportReply, VkResult>)
    ensures
        match reply {
            Ok(found) => importable(reply) == if found.memory_features & 4 == 4
                && found.handle_types & 0x200 == 0x200 {
                Ok::<Option<ImageLimits>, VkResult>(Some(found.limits))
            } else {
                Ok(None)
            },
            Err(err) => importable(reply) == if err.raw == -11 {
                Ok::<Option<ImageLimits>, VkResult>(None)
            } else {
                Err(err)
            },
        },
{
}

/// The selected memory type is the first one of the set, and there is none exactly if the set is
/// empty.
pub proof fn selected_type_is_the_first(bits: u32)
    ensures
        memory_type(bits) is None <==> bits == 0,
        memory_type(bits) matches Some(i) ==> {
            &&& i < 32
            &&& (bits >> i) & 1 == 1
            &&& forall|j: u32| j < i ==> !#[trigger] has_type(bits, j)
        },
{
    if bits != 0 {
        vstd::std_specs::bits::axiom_u32_trailing_zeros(bits);
    }
}

} // verus!
