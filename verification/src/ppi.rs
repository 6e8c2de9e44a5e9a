//! The channel connector: typed endpoint handles and the channel resource.
//!
//! An [`Event`] names a hardware signal source and a [`Task`] a hardware
//! action sink; each carries the register address that subscribes a channel
//! to it, and the domain it belongs to as a type tag. A channel number is
//! held as a [`StaticChannel`] (a fixed, pre-allocated channel, whose primary
//! event/task wiring is fixed in hardware) or a [`ConfigurableChannel`] (a
//! freely wirable one); exclusive ownership of the number is the caller's
//! obligation, supplied by a channel allocator outside this crate.
//!
//! Wiring a channel yields a [`Ppi`] resource in the wired-but-disabled
//! state. `enable` and `disable` flip that channel's bit in the controller's
//! enable registers, and `release` is the terminal operation: it disables the
//! channel first and only then clears its endpoint fields, so no intermediate
//! state has a cleared endpoint on a still-enabled channel.

use core::marker::PhantomData;
use vstd::prelude::*;

use crate::domain::{Domain, ForkDomain};
use crate::registers::PpiRegisters;

verus! {

/// One hardware signal source: the address of the register that exposes the
/// event, tagged with the domain its peripheral belongs to.
pub struct Event<D: Domain> {
    addr: u32,
    domain: PhantomData<D>,
}

/// One hardware action sink: the address of the register that performs the
/// task, tagged with the domain its peripheral belongs to.
pub struct Task<D: Domain> {
    addr: u32,
    domain: PhantomData<D>,
}

impl<D: Domain> Event<D> {
    /// The endpoint value written into a channel's event-endpoint field to
    /// subscribe to this event.
    pub closed spec fn endpoint(self) -> u32 {
        self.addr
    }

    /// An event handle for the event register at `addr`, which a peripheral
    /// driver of domain `D` hands out.
    pub fn new(addr: u32) -> (e: Self)
        ensures
            e.endpoint() == addr,
    {
        Event { addr, domain: PhantomData }
    }

    /// The raw value this event contributes to an event-endpoint field.
    pub fn reg_val(&self) -> (v: u32)
        ensures
            v == self.endpoint(),
    {
        self.addr
    }
}

impl<D: Domain> Task<D> {
    /// The endpoint value written into a channel's task-endpoint field to
    /// trigger the action it names.
    pub closed spec fn endpoint(self) -> u32 {
        self.addr
    }

    /// A task handle for the task register at `addr`, which a peripheral
    /// driver of domain `D` hands out.
    pub fn new(addr: u32) -> (t: Self)
        ensures
            t.endpoint() == addr,
    {
        Task { addr, domain: PhantomData }
    }

    /// The raw value the handle contributes to a task-endpoint field.
    pub fn reg_val(&self) -> (v: u32)
        ensures
            v == self.endpoint(),
    {
        self.addr
    }
}

/// Exclusive ownership of one fixed, pre-allocated channel number in domain
/// `D`. Only the secondary ("fork") task field of such a channel is wirable;
/// its primary event/task pair is fixed in hardware.
pub struct StaticChannel<D: Domain> {
    number: usize,
    domain: PhantomData<D>,
}

/// Exclusive ownership of one freely configurable channel number in domain
/// `D`.
pub struct ConfigurableChannel<D: Domain> {
    number: usize,
    domain: PhantomData<D>,
}

impl<D: Domain> StaticChannel<D> {
    /// The channel number this resource owns.
    pub closed spec fn channel_number(self) -> usize {
        self.number
    }

    /// The number is a valid channel index of domain `D`'s controller.
    pub open spec fn wf(self) -> bool {
        self.channel_number() < D::spec_channel_count()
    }

    /// Bind the fixed channel `number`. The caller — the chip's reserved
    /// channel listing or an allocator — owes exclusivity: at most one live
    /// resource per (domain, channel number).
    pub fn bind(number: usize) -> (c: Self)
        requires
            number < D::spec_channel_count(),
        ensures
            c.wf(),
            c.channel_number() == number,
    {
        StaticChannel { number, domain: PhantomData }
    }

    /// The channel number, as a runtime value.
    pub fn number(&self) -> (n: usize)
        ensures
            n == self.channel_number(),
    {
        self.number
    }
}

impl<D: Domain> ConfigurableChannel<D> {
    /// The channel number this resource owns.
    pub closed spec fn channel_number(self) -> usize {
        self.number
    }

    /// The number is a valid channel index of domain `D`'s controller.
    pub open spec fn wf(self) -> bool {
        self.channel_number() < D::spec_channel_count()
    }

    /// Bind the configurable channel `number`. The caller — a channel
    /// allocator outside this crate — owes exclusivity: at most one live
    /// resource per (domain, channel number).
    pub fn bind(number: usize) -> (c: Self)
        requires
            number < D::spec_channel_count(),
        ensures
            c.wf(),
            c.channel_number() == number,
    {
        ConfigurableChannel { number, domain: PhantomData }
    }

    /// The channel number, as a runtime value.
    pub fn number(&self) -> (n: usize)
        ensures
            n == self.channel_number(),
    {
        self.number
    }
}

/// A wired interconnect channel of domain `D`: exclusive ownership of one
/// channel whose endpoint fields are set, forwarding `EVENT_COUNT` events to
/// `TASK_COUNT` tasks once enabled. Created in the disabled state; released
/// by [`Ppi::release`], which always leaves the channel disabled with its
/// endpoint fields cleared.
pub struct Ppi<D: Domain, const EVENT_COUNT: usize, const TASK_COUNT: usize> {
    number: usize,
    domain: PhantomData<D>,
}

impl<D: Domain, const EVENT_COUNT: usize, const TASK_COUNT: usize> Ppi<D, EVENT_COUNT, TASK_COUNT> {
    /// The channel number this resource owns.
    pub closed spec fn channel_number(self) -> usize {
        self.number
    }

    /// The number is a valid channel index of domain `D`'s controller.
    pub open spec fn wf(self) -> bool {
        self.channel_number() < D::spec_channel_count()
    }

    /// Enable the channel: set its bit in the channel-enable-set register.
    /// The hardware starts forwarding the wired event to the wired tasks.
    /// Idempotent, and touches no other channel's bit and no endpoint field.
    pub fn enable(&mut self, regs: &mut PpiRegisters<D>)
        requires
            old(self).wf(),
            old(regs).wf(),
        ensures
            *final(self) == *old(self),
            final(regs).wf(),
            final(regs)@ == old(regs)@.enable_ch(old(self).channel_number()),
    {
        regs.set_enable_bit(self.number);
    }

    /// Disable the channel: set its bit in the channel-enable-clear
    /// register. The hardware stops forwarding. Idempotent, and touches no
    /// other channel's bit and no endpoint field.
    pub fn disable(&mut self, regs: &mut PpiRegisters<D>)
        requires
            old(self).wf(),
            old(regs).wf(),
        ensures
            *final(self) == *old(self),
            final(regs).wf(),
            final(regs)@ == old(regs)@.disable_ch(old(self).channel_number()),
    {
        regs.clear_enable_bit(self.number);
    }

    /// Release the channel: disable it, then clear its event-endpoint field,
    /// its primary task-endpoint field and — on variants that have it — its
    /// secondary task-endpoint field to zero. The disable comes first, so at
    /// no point is an endpoint field cleared while the channel is still
    /// enabled. Never fails, from any state: teardown must be safe to run
    /// during error unwinding.
    pub fn release(self, regs: &mut PpiRegisters<D>)
        requires
            self.wf(),
            old(regs).wf(),
        ensures
            final(regs).wf(),
            final(regs)@ == old(regs)@.released(self.channel_number(), D::spec_has_fork()),
    {
        let n = self.number;
        regs.clear_enable_bit(n);
        proof {
            D::channel_count_bounded();
            crate::laws::lemma_disable_clears_bit(old(regs)@.chen, n);
        }
        regs.clear_endpoints(n);
    }
}

impl<D: ForkDomain> Ppi<D, 0, 1> {
    /// Wire channel `ch` to trigger `task` unconditionally: write the task's
    /// endpoint into the channel's secondary ("fork") task-endpoint field.
    /// One register write; the enable mask is untouched, so the channel
    /// comes out wired but disabled. Only offered where domain `D`'s
    /// controller variant has the fork register group.
    pub fn new_zero_to_one(regs: &mut PpiRegisters<D>, ch: StaticChannel<D>, task: Task<D>) -> (p:
        Self)
        requires
            old(regs).wf(),
            ch.wf(),
        ensures
            final(regs).wf(),
            final(regs)@ == old(regs)@.with_fork_task_endpoint(
                ch.channel_number() as int,
                task.endpoint(),
            ),
            p.wf(),
            p.channel_number() == ch.channel_number(),
    {
        proof {
            D::fork_supported();
        }
        let n = ch.number();
        regs.write_fork_task_endpoint(n, task.reg_val());
        Ppi { number: n, domain: PhantomData }
    }
}

impl<D: Domain> Ppi<D, 1, 1> {
    /// Wire channel `ch` to trigger `task` on `event`: write the event's
    /// endpoint into the channel's event-endpoint field and the task's into
    /// its primary task-endpoint field. Two register writes; the enable mask
    /// is untouched, so the channel comes out wired but disabled.
    pub fn new_one_to_one(
        regs: &mut PpiRegisters<D>,
        ch: ConfigurableChannel<D>,
        event: Event<D>,
        task: Task<D>,
    ) -> (p: Self)
        requires
            old(regs).wf(),
            ch.wf(),
        ensures
            final(regs).wf(),
            final(regs)@ == old(regs)@.with_event_endpoint(
                ch.channel_number() as int,
                event.endpoint(),
            ).with_task_endpoint(ch.channel_number() as int, task.endpoint()),
            p.wf(),
            p.channel_number() == ch.channel_number(),
    {
        let n = ch.number();
        regs.write_event_endpoint(n, event.reg_val());
        regs.write_task_endpoint(n, task.reg_val());
        Ppi { number: n, domain: PhantomData }
    }
}

impl<D: ForkDomain> Ppi<D, 1, 2> {
    /// Wire channel `ch` to trigger both `task1` and `task2` on `event`: the
    /// event's endpoint goes into the event-endpoint field, `task1`'s into
    /// the primary task field and `task2`'s into the secondary ("fork")
    /// field. Three register writes; the enable mask is untouched, so the
    /// channel comes out wired but disabled. Only offered where domain `D`'s
    /// controller variant has the fork register group.
    pub fn new_one_to_two(
        regs: &mut PpiRegisters<D>,
        ch: ConfigurableChannel<D>,
        event: Event<D>,
        task1: Task<D>,
        task2: Task<D>,
    ) -> (p: Self)
        requires
            old(regs).wf(),
            ch.wf(),
        ensures
            final(regs).wf(),
            final(regs)@ == old(regs)@.with_event_endpoint(
                ch.channel_number() as int,
                event.endpoint(),
            ).with_task_endpoint(ch.channel_number() as int, task1.endpoint())
                .with_fork_task_endpoint(ch.channel_number() as int, task2.endpoint()),
            p.wf(),
            p.channel_number() == ch.channel_number(),
    {
        proof {
            D::fork_supported();
        }
        let n = ch.number();
        regs.write_event_endpoint(n, event.reg_val());
        regs.write_task_endpoint(n, task1.reg_val());
        regs.write_fork_task_endpoint(n, task2.reg_val());
        Ppi { number: n, domain: PhantomData }
    }
}

} // verus!
