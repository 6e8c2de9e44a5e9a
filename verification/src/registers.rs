//! A model of one interconnect controller's register block.
//!
//! Per channel the block has an event-endpoint field and a primary
//! task-endpoint field; on controller variants with the fork register group,
//! also a secondary task-endpoint field. One 32-bit enable mask holds one
//! enable bit per channel; the hardware's enable-set and enable-clear
//! registers are modelled by the two single-bit updates they perform.
//!
//! The ghost view [`RegsView`] gives the exact register state, and every
//! operation's contract states the whole new view in terms of the old one.

use core::marker::PhantomData;
use vstd::prelude::*;

use crate::domain::Domain;

verus! {

/// The enable-mask bit of channel `n`.
pub open spec fn bit_mask(n: usize) -> u32 {
    1u32 << (n as u32)
}

/// The exact state of a controller's register block: one event endpoint,
/// one primary task endpoint and (on variants that have it) one secondary
/// task endpoint per channel, and the channel-enable mask.
#[verifier::ext_equal]
pub ghost struct RegsView {
    /// Event-endpoint field of each channel.
    pub eep: Seq<u32>,
    /// Primary task-endpoint field of each channel.
    pub tep: Seq<u32>,
    /// Secondary ("fork") task-endpoint field of each channel; empty on
    /// variants without the fork register group.
    pub fork_tep: Seq<u32>,
    /// Channel-enable mask: bit `n` set means channel `n` is forwarding.
    pub chen: u32,
}

impl RegsView {
    /// Whether channel `n`'s enable bit is set.
    pub open spec fn enabled(self, n: usize) -> bool {
        self.chen & bit_mask(n) != 0
    }

    /// The register block after reset: every field zero, every channel
    /// disabled.
    pub open spec fn reset(channel_count: nat, has_fork: bool) -> RegsView {
        RegsView {
            eep: Seq::new(channel_count, |i: int| 0u32),
            tep: Seq::new(channel_count, |i: int| 0u32),
            fork_tep: Seq::new(if has_fork { channel_count } else { 0nat }, |i: int| 0u32),
            chen: 0u32,
        }
    }

    /// The block after writing `v` into channel `n`'s event-endpoint field.
    pub open spec fn with_event_endpoint(self, n: int, v: u32) -> RegsView {
        RegsView { eep: self.eep.update(n, v), ..self }
    }

    /// The block after writing `v` into channel `n`'s primary task-endpoint
    /// field.
    pub open spec fn with_task_endpoint(self, n: int, v: u32) -> RegsView {
        RegsView { tep: self.tep.update(n, v), ..self }
    }

    /// The block after writing `v` into channel `n`'s secondary ("fork")
    /// task-endpoint field.
    pub open spec fn with_fork_task_endpoint(self, n: int, v: u32) -> RegsView {
        RegsView { fork_tep: self.fork_tep.update(n, v), ..self }
    }

    /// The block after a write to the enable-set register with channel `n`'s
    /// bit: that bit set, all else untouched.
    pub open spec fn enable_ch(self, n: usize) -> RegsView {
        RegsView { chen: self.chen | bit_mask(n), ..self }
    }

    /// The block after a write to the enable-clear register with channel
    /// `n`'s bit: that bit clear, all else untouched.
    pub open spec fn disable_ch(self, n: usize) -> RegsView {
        RegsView { chen: self.chen & !bit_mask(n), ..self }
    }

    /// The block after channel `n`'s endpoint fields are cleared to zero:
    /// the event and primary task fields, and the secondary task field where
    /// the variant has one.
    pub open spec fn cleared(self, n: int, has_fork: bool) -> RegsView {
        let c = self.with_event_endpoint(n, 0).with_task_endpoint(n, 0);
        if has_fork {
            c.with_fork_task_endpoint(n, 0)
        } else {
            c
        }
    }

    /// The block after channel `n` is released: first disabled, then — only
    /// from the already-disabled state — its endpoint fields cleared.
    pub open spec fn released(self, n: usize, has_fork: bool) -> RegsView {
        self.disable_ch(n).cleared(n as int, has_fork)
    }
}

/// One controller's register block, tagged with the domain `D` it belongs
/// to. Holds the raw field values; the view is the exact register state.
pub struct PpiRegisters<D: Domain> {
    eep: Vec<u32>,
    tep: Vec<u32>,
    fork_tep: Vec<u32>,
    chen: u32,
    domain: PhantomData<D>,
}

impl<D: Domain> View for PpiRegisters<D> {
    type V = RegsView;

    closed spec fn view(&self) -> RegsView {
        RegsView { eep: self.eep@, tep: self.tep@, fork_tep: self.fork_tep@, chen: self.chen }
    }
}

impl<D: Domain> PpiRegisters<D> {
    /// The block is shaped as domain `D`'s controller variant: one event and
    /// one primary task field per channel, and one secondary task field per
    /// channel exactly where the variant has the fork register group.
    pub open spec fn wf(self) -> bool {
        &&& self@.eep.len() == D::spec_channel_count()
        &&& self@.tep.len() == D::spec_channel_count()
        &&& self@.fork_tep.len() == if D::spec_has_fork() {
            D::spec_channel_count()
        } else {
            0nat
        }
    }

    /// A register block in its reset state: every field zero, every channel
    /// disabled.
    pub fn reset() -> (r: Self)
        ensures
            r.wf(),
            r@ == RegsView::reset(D::spec_channel_count(), D::spec_has_fork()),
    {
        let count = D::channel_count();
        let fork_count = if D::has_fork() { count } else { 0 };
        let mut eep: Vec<u32> = Vec::new();
        let mut tep: Vec<u32> = Vec::new();
        let mut fork_tep: Vec<u32> = Vec::new();
        let mut i: usize = 0;
        while i < count
            invariant
                i <= count,
                eep@ =~= Seq::new(i as nat, |j: int| 0u32),
                tep@ =~= Seq::new(i as nat, |j: int| 0u32),
            decreases count - i,
        {
            eep.push(0);
            tep.push(0);
            i = i + 1;
        }
        let mut k: usize = 0;
        while k < fork_count
            invariant
                k <= fork_count,
                fork_tep@ =~= Seq::new(k as nat, |j: int| 0u32),
            decreases fork_count - k,
        {
            fork_tep.push(0);
            k = k + 1;
        }
        let r = PpiRegisters { eep, tep, fork_tep, chen: 0, domain: PhantomData };
        proof {
            assert(r@ =~= RegsView::reset(D::spec_channel_count(), D::spec_has_fork()));
        }
        r
    }

    /// Write `v` into channel `n`'s event-endpoint field.
    pub fn write_event_endpoint(&mut self, n: usize, v: u32)
        requires
            old(self).wf(),
            n < D::spec_channel_count(),
        ensures
            final(self).wf(),
            final(self)@ == old(self)@.with_event_endpoint(n as int, v),
    {
        self.eep[n] = v;
    }

    /// Write `v` into channel `n`'s primary task-endpoint field.
    pub fn write_task_endpoint(&mut self, n: usize, v: u32)
        requires
            old(self).wf(),
            n < D::spec_channel_count(),
        ensures
            final(self).wf(),
            final(self)@ == old(self)@.with_task_endpoint(n as int, v),
    {
        self.tep[n] = v;
    }

    /// Write `v` into channel `n`'s secondary ("fork") task-endpoint field.
    /// Only controller variants with the fork register group have the field.
    pub fn write_fork_task_endpoint(&mut self, n: usize, v: u32)
        requires
            old(self).wf(),
            n < D::spec_channel_count(),
            D::spec_has_fork(),
        ensures
            final(self).wf(),
            final(self)@ == old(self)@.with_fork_task_endpoint(n as int, v),
    {
        self.fork_tep[n] = v;
    }

    /// Write channel `n`'s bit to the channel-enable-set register: the bit
    /// becomes set, every other bit and every endpoint field is untouched.
    pub fn set_enable_bit(&mut self, n: usize)
        requires
            old(self).wf(),
            n < D::spec_channel_count(),
        ensures
            final(self).wf(),
            final(self)@ == old(self)@.enable_ch(n),
    {
        proof {
            D::channel_count_bounded();
        }
        self.chen = self.chen | (1u32 << (n as u32));
    }

    /// Write channel `n`'s bit to the channel-enable-clear register: the bit
    /// becomes clear, every other bit and every endpoint field is untouched.
    pub fn clear_enable_bit(&mut self, n: usize)
        requires
            old(self).wf(),
            n < D::spec_channel_count(),
        ensures
            final(self).wf(),
            final(self)@ == old(self)@.disable_ch(n),
    {
        proof {
            D::channel_count_bounded();
        }
        self.chen = self.chen & !(1u32 << (n as u32));
    }

    /// Clear channel `n`'s endpoint fields to zero: the event field, the
    /// primary task field, and the secondary task field where the variant
    /// has one. The channel must already be disabled: clearing the endpoints
    /// of a still-enabled channel risks a spurious trigger against endpoint
    /// zero on some silicon variants.
    pub fn clear_endpoints(&mut self, n: usize)
        requires
            old(self).wf(),
            n < D::spec_channel_count(),
            !old(self)@.enabled(n),
        ensures
            final(self).wf(),
            final(self)@ == old(self)@.cleared(n as int, D::spec_has_fork()),
    {
        self.eep[n] = 0;
        self.tep[n] = 0;
        if D::has_fork() {
            self.fork_tep[n] = 0;
        }
    }

    /// Read channel `n`'s event-endpoint field.
    pub fn read_event_endpoint(&self, n: usize) -> (v: u32)
        requires
            self.wf(),
            n < D::spec_channel_count(),
        ensures
            v == self@.eep[n as int],
    {
        self.eep[n]
    }

    /// Read channel `n`'s primary task-endpoint field.
    pub fn read_task_endpoint(&self, n: usize) -> (v: u32)
        requires
            self.wf(),
            n < D::spec_channel_count(),
        ensures
            v == self@.tep[n as int],
    {
        self.tep[n]
    }

    /// Read channel `n`'s secondary ("fork") task-endpoint field.
    pub fn read_fork_task_endpoint(&self, n: usize) -> (v: u32)
        requires
            self.wf(),
            n < D::spec_channel_count(),
            D::spec_has_fork(),
        ensures
            v == self@.fork_tep[n as int],
    {
        self.fork_tep[n]
    }

    /// Read channel `n`'s enable bit from the enable mask.
    pub fn is_enabled(&self, n: usize) -> (b: bool)
        requires
            self.wf(),
            n < D::spec_channel_count(),
        ensures
            b == self@.enabled(n),
    {
        proof {
            D::channel_count_bounded();
        }
        self.chen & (1u32 << (n as u32)) != 0
    }
}

} // verus!
