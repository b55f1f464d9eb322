//! Functions of std and of `ash` that the library rests on.

use ash::vk;
use std::sync::Arc;
use std::time::{Duration, Instant};
use vstd::prelude::*;

verus! {

/// A reading of the monotonic clock, carried from the start of a span to its end.
#[verifier::external_type_specification]
#[verifier::external_body]
pub struct ExInstant(std::time::Instant);

/// An operating system error, carried to the caller.
#[verifier::external_type_specification]
#[verifier::external_body]
pub struct ExIoError(std::io::Error);

/// `Instant::now` of std. Nothing is claimed of the reading.
#[verifier::external_body]
pub(crate) fn clock_now() -> (now: Instant) {
    Instant::now()
}

/// `Instant::elapsed` of std. Nothing is claimed of the span.
#[verifier::external_body]
pub(crate) fn clock_elapsed(start: &Instant) -> (span: Duration) {
    start.elapsed()
}

/// Total nanoseconds that a duration spans.
pub uninterp spec fn duration_nanos(duration: Duration) -> u128;

/// `Duration::as_nanos` of std. Its result is named [`duration_nanos`].
#[verifier::external_body]
pub(crate) fn as_nanos(duration: Duration) -> (nanos: u128)
    ensures
        nanos == duration_nanos(duration),
{
    duration.as_nanos()
}

/// `Arc::clone` of std: another pointer to the same value.
#[verifier::external_body]
pub(crate) fn share<T>(shared: &Arc<T>) -> (other: Arc<T>)
    ensures
        other == *shared,
{
    shared.clone()
}

/// `==` of std on string slices: whether both hold the same text.
#[verifier::external_body]
pub(crate) fn same_text(a: &str, b: &str) -> (same: bool)
    ensures
        same == (a@ == b@),
{
    a == b
}

/// `ash::vk::FormatFeatureFlags::contains`: every bit of `required` is set in `flags`.
#[verifier::external_body]
pub(crate) fn format_features_contain(flags: u32, required: u32) -> (contained: bool)
    ensures
        contained == (flags & required == required),
{
    vk::FormatFeatureFlags::from_raw(flags).contains(vk::FormatFeatureFlags::from_raw(required))
}

/// `ash::vk::SampleCountFlags::contains`: every bit of `required` is set in `flags`.
#[verifier::external_body]
pub(crate) fn sample_counts_contain(flags: u32, required: u32) -> (contained: bool)
    ensures
        contained == (flags & required == required),
{
    vk::SampleCountFlags::from_raw(flags).contains(vk::SampleCountFlags::from_raw(required))
}

/// `ash::vk::ExternalMemoryFeatureFlags::contains`: every bit of `required` is set in `flags`.
#[verifier::external_body]
pub(crate) fn memory_features_contain(flags: u32, required: u32) -> (contained: bool)
    ensures
        contained == (flags & required == required),
{
    vk::ExternalMemoryFeatureFlags::from_raw(flags)
        .contains(vk::ExternalMemoryFeatureFlags::from_raw(required))
}

/// `ash::vk::ExternalMemoryHandleTypeFlags::contains`: every bit of `required` is set in `flags`.
#[verifier::external_body]
pub(crate) fn handle_types_contain(flags: u32, required: u32) -> (contained: bool)
    ensures
        contained == (flags & required == required),
{
    vk::ExternalMemoryHandleTypeFlags::from_raw(flags)
        .contains(vk::ExternalMemoryHandleTypeFlags::from_raw(required))
}

/// `ash::vk::QueueFlags::contains`: every bit of `required` is set in `flags`.
#[verifier::external_body]
pub(crate) fn queue_flags_contain(flags: u32, required: u32) -> (contained: bool)
    ensures
        contained == (flags & required == required),
{
    vk::QueueFlags::from_raw(flags).contains(vk::QueueFlags::from_raw(required))
}

/// `ash::vk::ExternalSemaphoreFeatureFlags::contains`: every bit of `required` is set in `flags`.
#[verifier::external_body]
pub(crate) fn semaphore_features_contain(flags: u32, required: u32) -> (contained: bool)
    ensures
        contained == (flags & required == required),
{
    vk::ExternalSemaphoreFeatureFlags::from_raw(flags)
        .contains(vk::ExternalSemaphoreFeatureFlags::from_raw(required))
}

} // verus!
