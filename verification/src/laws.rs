//! The general properties of the channel connector, stated over the register
//! view and proved once for every channel, endpoint value and prior register
//! state.

use vstd::prelude::*;

use crate::registers::{RegsView, bit_mask};

verus! {

/// Clearing a bit in a 32-bit mask leaves that bit clear.
pub(crate) proof fn lemma_disable_clears_bit(m: u32, n: usize)
    by (bit_vector)
    requires
        n < 32,
    ensures
        (m & !bit_mask(n)) & bit_mask(n) == 0,
{
}

/// Setting a bit that was clear and then clearing it restores the mask.
proof fn lemma_set_then_clear_restores(m: u32, n: usize)
    by (bit_vector)
    requires
        n < 32,
        m & bit_mask(n) == 0,
    ensures
        (m | bit_mask(n)) & !bit_mask(n) == m,
{
}

/// Setting a bit twice is the same as setting it once.
proof fn lemma_set_idempotent(m: u32, n: usize)
    by (bit_vector)
    requires
        n < 32,
    ensures
        (m | bit_mask(n)) | bit_mask(n) == m | bit_mask(n),
{
}

/// Clearing a bit twice is the same as clearing it once.
proof fn lemma_clear_idempotent(m: u32, n: usize)
    by (bit_vector)
    requires
        n < 32,
    ensures
        (m & !bit_mask(n)) & !bit_mask(n) == m & !bit_mask(n),
{
}

/// Setting or clearing one bit leaves every other bit as it was.
proof fn lemma_single_bit_update_is_disjoint(m: u32, n: usize, k: usize)
    by (bit_vector)
    requires
        n < 32,
        k < 32,
        k != n,
    ensures
        (m | bit_mask(n)) & bit_mask(k) == m & bit_mask(k),
        (m & !bit_mask(n)) & bit_mask(k) == m & bit_mask(k),
{
}

/// Setting a bit in a 32-bit mask leaves that bit set.
proof fn lemma_enable_sets_bit(m: u32, n: usize)
    by (bit_vector)
    requires
        n < 32,
    ensures
        (m | bit_mask(n)) & bit_mask(n) != 0,
{
}

/// Every bit of the zero mask is clear.
proof fn lemma_zero_mask_all_clear(n: usize)
    by (bit_vector)
    requires
        n < 32,
    ensures
        0u32 & bit_mask(n) == 0,
{
}

/// After reset every channel's enable bit reads disabled and every endpoint
/// field reads zero.
pub proof fn law_reset_state(channel_count: nat, has_fork: bool, n: usize)
    requires
        n < 32,
        n < channel_count,
    ensures
        ({
            let r = RegsView::reset(channel_count, has_fork);
            &&& !r.enabled(n)
            &&& r.eep[n as int] == 0
            &&& r.tep[n as int] == 0
            &&& (has_fork ==> r.fork_tep[n as int] == 0)
        }),
{
    lemma_zero_mask_all_clear(n);
}

/// Enable leaves the channel's enable bit set, and Disable leaves it clear,
/// whatever the bit held before.
pub proof fn law_enable_disable_set_their_bit(r: RegsView, n: usize)
    requires
        n < 32,
    ensures
        r.enable_ch(n).enabled(n),
        !r.disable_ch(n).enabled(n),
{
    lemma_enable_sets_bit(r.chen, n);
    lemma_disable_clears_bit(r.chen, n);
}

/// After wiring one event to one task on a channel whose enable bit is
/// clear, the event-endpoint field reads back exactly the event's address,
/// the primary task-endpoint field exactly the task's address, and the
/// channel's enable bit still reads disabled: wiring writes no enable bit.
pub proof fn law_wire_one_to_one_readback(r: RegsView, n: usize, event: u32, task: u32)
    requires
        n < r.eep.len(),
        n < r.tep.len(),
        !r.enabled(n),
    ensures
        ({
            let w = r.with_event_endpoint(n as int, event).with_task_endpoint(n as int, task);
            &&& w.eep[n as int] == event
            &&& w.tep[n as int] == task
            &&& !w.enabled(n)
        }),
{
}

/// Enable followed by Disable restores the whole register state of a channel
/// whose enable bit was clear: the bit returns to its pre-Enable, disabled
/// value and no other register changes.
pub proof fn law_enable_then_disable_restores(r: RegsView, n: usize)
    requires
        n < 32,
        !r.enabled(n),
    ensures
        r.enable_ch(n).disable_ch(n) == r,
{
    lemma_set_then_clear_restores(r.chen, n);
    assert(r.enable_ch(n).disable_ch(n) =~= r);
}

/// Enable is idempotent: enabling twice leaves exactly the state that
/// enabling once leaves.
pub proof fn law_enable_idempotent(r: RegsView, n: usize)
    requires
        n < 32,
    ensures
        r.enable_ch(n).enable_ch(n) == r.enable_ch(n),
{
    lemma_set_idempotent(r.chen, n);
    assert(r.enable_ch(n).enable_ch(n) =~= r.enable_ch(n));
}

/// Disable is idempotent: disabling twice leaves exactly the state that
/// disabling once leaves.
pub proof fn law_disable_idempotent(r: RegsView, n: usize)
    requires
        n < 32,
    ensures
        r.disable_ch(n).disable_ch(n) == r.disable_ch(n),
{
    lemma_clear_idempotent(r.chen, n);
    assert(r.disable_ch(n).disable_ch(n) =~= r.disable_ch(n));
}

/// Release clears the channel's event-endpoint field, its primary
/// task-endpoint field and — where the variant has one — its secondary
/// task-endpoint field to zero, and leaves the enable bit disabled, from any
/// prior state: enabled or disabled, whatever the fields held.
pub proof fn law_release_clears(r: RegsView, n: usize, has_fork: bool)
    requires
        n < 32,
        n < r.eep.len(),
        n < r.tep.len(),
        has_fork ==> n < r.fork_tep.len(),
    ensures
        ({
            let w = r.released(n, has_fork);
            &&& w.eep[n as int] == 0
            &&& w.tep[n as int] == 0
            &&& (has_fork ==> w.fork_tep[n as int] == 0)
            &&& !w.enabled(n)
        }),
{
    lemma_disable_clears_bit(r.chen, n);
}

/// During Release the enable bit transitions to disabled first: the
/// intermediate state has the bit clear with every endpoint field still
/// untouched, and only from that disabled state are the endpoint fields
/// cleared. No intermediate state has a cleared endpoint field on a
/// still-enabled channel.
pub proof fn law_release_disables_before_clearing(r: RegsView, n: usize, has_fork: bool)
    requires
        n < 32,
    ensures
        ({
            let mid = r.disable_ch(n);
            &&& !mid.enabled(n)
            &&& mid.eep == r.eep
            &&& mid.tep == r.tep
            &&& mid.fork_tep == r.fork_tep
            &&& r.released(n, has_fork) == mid.cleared(n as int, has_fork)
        }),
{
    lemma_disable_clears_bit(r.chen, n);
}

/// Within one Connect operation the endpoint-field writes are unordered with
/// respect to each other: writing the event endpoint and then the task
/// endpoint reaches the same register state as the opposite order. The
/// hardware does not forward until Enable, a separate, later operation.
pub proof fn law_connect_writes_commute(r: RegsView, n: int, event: u32, task: u32)
    ensures
        r.with_event_endpoint(n, event).with_task_endpoint(n, task) == r.with_task_endpoint(
            n,
            task,
        ).with_event_endpoint(n, event),
{
    assert(r.with_event_endpoint(n, event).with_task_endpoint(n, task) =~= r.with_task_endpoint(
        n,
        task,
    ).with_event_endpoint(n, event));
}

/// Enable and Disable touch only their own channel's bit: every other
/// channel's enable bit, and every endpoint field, reads as before. Single-bit
/// updates on the enable registers of distinct channels are disjoint.
pub proof fn law_enable_disable_touch_only_their_bit(r: RegsView, n: usize, k: usize)
    requires
        n < 32,
        k < 32,
        k != n,
    ensures
        r.enable_ch(n).enabled(k) == r.enabled(k),
        r.disable_ch(n).enabled(k) == r.enabled(k),
        r.enable_ch(n).eep == r.eep && r.enable_ch(n).tep == r.tep && r.enable_ch(n).fork_tep
            == r.fork_tep,
        r.disable_ch(n).eep == r.eep && r.disable_ch(n).tep == r.tep && r.disable_ch(n).fork_tep
            == r.fork_tep,
{
    lemma_single_bit_update_is_disjoint(r.chen, n, k);
}

} // verus!
