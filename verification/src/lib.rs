//! A verified model of a microcontroller's programmable peripheral
//! interconnect: channels that let one peripheral's hardware event trigger
//! another peripheral's task without processor involvement.
//!
//! The crate is strictly layered. The `domain` module associates each
//! interconnect controller instance with a type-level tag, so that an event
//! or task endpoint from one controller can never be wired into a channel of
//! another. The `registers` module models one controller's register block as
//! plain values with an exact ghost view, and the `ppi` module builds the
//! channel-connector resource on top of it: allocate and wire, enable,
//! disable, and a release that always leaves the hardware disabled with its
//! endpoint fields cleared. The `laws` module states and proves the general
//! properties of those operations.

pub mod domain;
pub mod laws;
pub mod ppi;
pub mod registers;
