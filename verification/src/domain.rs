//! Domains: type-level tags for the interconnect controller instances.
//!
//! A domain stands for one physical interconnect controller and its register
//! block. Simple chips have a single domain; larger chips have one per bus or
//! power domain. The tag is resolved at compile time: a channel, event or
//! task carries its domain in its type, so wiring resources from different
//! controllers together is a type error, never a runtime fault.

use vstd::prelude::*;

verus! {

/// Interface for a domain: one interconnect controller instance.
///
/// The associated functions describe the controller variant: how many
/// channels its register block has (at most 32, one enable bit per channel in
/// a 32-bit enable register) and whether each channel has a secondary
/// ("fork") task-endpoint register beside the primary event/task pair.
pub trait Domain: Sized {
    /// How many channels this controller's register block has.
    spec fn spec_channel_count() -> nat;

    /// Whether this controller variant has a secondary ("fork")
    /// task-endpoint register per channel.
    spec fn spec_has_fork() -> bool;

    /// Every controller has at least one channel, and no more than the 32
    /// enable bits of its channel-enable registers.
    proof fn channel_count_bounded()
        ensures
            0 < Self::spec_channel_count() <= 32,
    ;

    /// The channel count, as a runtime value.
    fn channel_count() -> (n: usize)
        ensures
            n == Self::spec_channel_count(),
    ;

    /// Whether the fork register group is present, as a runtime value.
    fn has_fork() -> (b: bool)
        ensures
            b == Self::spec_has_fork(),
    ;
}

/// A domain whose controller variant has the secondary ("fork")
/// task-endpoint register group.
///
/// The wiring forms that write a fork field (zero events to one task, one
/// event to two tasks) are only offered where this bound holds, so on a
/// variant without the fork registers those forms are absent from the API
/// rather than failing at runtime.
pub trait ForkDomain: Domain {
    /// Witness that the fork register group is present on this variant.
    proof fn fork_supported()
        ensures
            Self::spec_has_fork(),
    ;
}

/// Trait for peripheral types that are associated to a singular domain.
///
/// The per-chip listing of peripheral instances supplies one impl per
/// peripheral type; the impls form the static membership map from a
/// peripheral to the controller that owns its event and task endpoints.
pub trait DomainSpecific {
    /// The domain this peripheral's events and tasks belong to.
    type Domain: Domain;
}

/// The central domain: the single interconnect controller of a
/// single-domain chip, with 32 channels and the fork register group.
pub struct MCUDomain;

impl Domain for MCUDomain {
    open spec fn spec_channel_count() -> nat {
        32
    }

    open spec fn spec_has_fork() -> bool {
        true
    }

    proof fn channel_count_bounded() {
    }

    fn channel_count() -> usize {
        32
    }

    fn has_fork() -> bool {
        true
    }
}

impl ForkDomain for MCUDomain {
    proof fn fork_supported() {
    }
}

} // verus!
