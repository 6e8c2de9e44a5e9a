use nrf_ppi::domain::MCUDomain;
use nrf_ppi::ppi::{ConfigurableChannel, Event, Ppi, StaticChannel, Task};
use nrf_ppi::registers::PpiRegisters;

#[test]
fn reset_state_all_clear() {
    let regs = PpiRegisters::<MCUDomain>::reset();
    let mut n: usize = 0;
    while n < 32 {
        assert!(!regs.is_enabled(n));
        assert_eq!(regs.read_event_endpoint(n), 0);
        assert_eq!(regs.read_task_endpoint(n), 0);
        assert_eq!(regs.read_fork_task_endpoint(n), 0);
        n += 1;
    }
}

#[test]
fn scenario_one_to_one_full_lifecycle() {
    let mut regs = PpiRegisters::<MCUDomain>::reset();
    let ch = ConfigurableChannel::<MCUDomain>::bind(3);
    let event = Event::<MCUDomain>::new(0x4000_1100);
    let task = Task::<MCUDomain>::new(0x4000_2104);
    let mut p = Ppi::<MCUDomain, 1, 1>::new_one_to_one(&mut regs, ch, event, task);

    assert_eq!(regs.read_event_endpoint(3), 0x4000_1100);
    assert_eq!(regs.read_task_endpoint(3), 0x4000_2104);
    assert!(!regs.is_enabled(3));

    p.enable(&mut regs);
    assert!(regs.is_enabled(3));

    p.release(&mut regs);
    assert!(!regs.is_enabled(3));
    assert_eq!(regs.read_event_endpoint(3), 0);
    assert_eq!(regs.read_task_endpoint(3), 0);
}

#[test]
fn scenario_one_to_two_fork_wiring() {
    let mut regs = PpiRegisters::<MCUDomain>::reset();
    let ch = ConfigurableChannel::<MCUDomain>::bind(4);
    let event = Event::<MCUDomain>::new(0x4000_1100);
    let task1 = Task::<MCUDomain>::new(0x4000_2104);
    let task2 = Task::<MCUDomain>::new(0x4000_3108);
    let _p = Ppi::<MCUDomain, 1, 2>::new_one_to_two(&mut regs, ch, event, task1, task2);

    assert_eq!(regs.read_event_endpoint(4), 0x4000_1100);
    assert_eq!(regs.read_task_endpoint(4), 0x4000_2104);
    assert_eq!(regs.read_fork_task_endpoint(4), 0x4000_3108);
    assert!(!regs.is_enabled(4));
}

#[test]
fn one_to_two_same_task_address_twice() {
    let mut regs = PpiRegisters::<MCUDomain>::reset();
    let ch = ConfigurableChannel::<MCUDomain>::bind(7);
    let event = Event::<MCUDomain>::new(0x4000_1100);
    let task1 = Task::<MCUDomain>::new(0x4000_2104);
    let task2 = Task::<MCUDomain>::new(0x4000_2104);
    let _p = Ppi::<MCUDomain, 1, 2>::new_one_to_two(&mut regs, ch, event, task1, task2);

    assert_eq!(regs.read_task_endpoint(7), 0x4000_2104);
    assert_eq!(regs.read_fork_task_endpoint(7), 0x4000_2104);
}

#[test]
fn zero_to_one_writes_only_fork_field() {
    let mut regs = PpiRegisters::<MCUDomain>::reset();
    let ch = StaticChannel::<MCUDomain>::bind(20);
    let task = Task::<MCUDomain>::new(0x4000_2104);
    let _p = Ppi::<MCUDomain, 0, 1>::new_zero_to_one(&mut regs, ch, task);

    assert_eq!(regs.read_fork_task_endpoint(20), 0x4000_2104);
    assert_eq!(regs.read_event_endpoint(20), 0);
    assert_eq!(regs.read_task_endpoint(20), 0);
    assert!(!regs.is_enabled(20));
}

#[test]
fn enable_then_disable_restores_disabled_bit() {
    let mut regs = PpiRegisters::<MCUDomain>::reset();
    let ch = ConfigurableChannel::<MCUDomain>::bind(5);
    let event = Event::<MCUDomain>::new(0x4000_1100);
    let task = Task::<MCUDomain>::new(0x4000_2104);
    let mut p = Ppi::<MCUDomain, 1, 1>::new_one_to_one(&mut regs, ch, event, task);

    assert!(!regs.is_enabled(5));
    p.enable(&mut regs);
    assert!(regs.is_enabled(5));
    p.disable(&mut regs);
    assert!(!regs.is_enabled(5));
    assert_eq!(regs.read_event_endpoint(5), 0x4000_1100);
    assert_eq!(regs.read_task_endpoint(5), 0x4000_2104);
}

#[test]
fn enable_is_idempotent() {
    let mut regs = PpiRegisters::<MCUDomain>::reset();
    let ch = ConfigurableChannel::<MCUDomain>::bind(9);
    let event = Event::<MCUDomain>::new(0x4000_1100);
    let task = Task::<MCUDomain>::new(0x4000_2104);
    let mut p = Ppi::<MCUDomain, 1, 1>::new_one_to_one(&mut regs, ch, event, task);

    p.enable(&mut regs);
    let once = regs.is_enabled(9);
    p.enable(&mut regs);
    let twice = regs.is_enabled(9);
    assert!(once);
    assert_eq!(once, twice);
    p.disable(&mut regs);
    assert!(!regs.is_enabled(9));
    p.disable(&mut regs);
    assert!(!regs.is_enabled(9));
}

#[test]
fn release_while_enabled_clears_everything() {
    let mut regs = PpiRegisters::<MCUDomain>::reset();
    let ch = ConfigurableChannel::<MCUDomain>::bind(12);
    let event = Event::<MCUDomain>::new(0x4000_1100);
    let task = Task::<MCUDomain>::new(0x4000_2104);
    let mut p = Ppi::<MCUDomain, 1, 1>::new_one_to_one(&mut regs, ch, event, task);

    p.enable(&mut regs);
    assert!(regs.is_enabled(12));
    p.release(&mut regs);
    assert!(!regs.is_enabled(12));
    assert_eq!(regs.read_event_endpoint(12), 0);
    assert_eq!(regs.read_task_endpoint(12), 0);
    assert_eq!(regs.read_fork_task_endpoint(12), 0);
}

#[test]
fn release_while_disabled_clears_everything() {
    let mut regs = PpiRegisters::<MCUDomain>::reset();
    let ch = ConfigurableChannel::<MCUDomain>::bind(12);
    let event = Event::<MCUDomain>::new(0x4000_1100);
    let task1 = Task::<MCUDomain>::new(0x4000_2104);
    let task2 = Task::<MCUDomain>::new(0x4000_3108);
    let p = Ppi::<MCUDomain, 1, 2>::new_one_to_two(&mut regs, ch, event, task1, task2);

    p.release(&mut regs);
    assert!(!regs.is_enabled(12));
    assert_eq!(regs.read_event_endpoint(12), 0);
    assert_eq!(regs.read_task_endpoint(12), 0);
    assert_eq!(regs.read_fork_task_endpoint(12), 0);
}

#[test]
fn enable_touches_only_its_own_channel() {
    let mut regs = PpiRegisters::<MCUDomain>::reset();
    let ch0 = ConfigurableChannel::<MCUDomain>::bind(0);
    let ch31 = ConfigurableChannel::<MCUDomain>::bind(31);
    let e0 = Event::<MCUDomain>::new(0x4000_1100);
    let t0 = Task::<MCUDomain>::new(0x4000_2104);
    let e31 = Event::<MCUDomain>::new(0x4000_5100);
    let t31 = Task::<MCUDomain>::new(0x4000_6104);
    let mut p0 = Ppi::<MCUDomain, 1, 1>::new_one_to_one(&mut regs, ch0, e0, t0);
    let mut p31 = Ppi::<MCUDomain, 1, 1>::new_one_to_one(&mut regs, ch31, e31, t31);

    p0.enable(&mut regs);
    assert!(regs.is_enabled(0));
    assert!(!regs.is_enabled(31));
    assert_eq!(regs.read_event_endpoint(31), 0x4000_5100);
    assert_eq!(regs.read_task_endpoint(31), 0x4000_6104);

    p31.enable(&mut regs);
    p0.disable(&mut regs);
    assert!(!regs.is_enabled(0));
    assert!(regs.is_enabled(31));

    p31.release(&mut regs);
    p0.release(&mut regs);
    assert!(!regs.is_enabled(31));
    assert_eq!(regs.read_event_endpoint(0), 0);
    assert_eq!(regs.read_event_endpoint(31), 0);
}

#[test]
fn endpoint_handles_return_their_address() {
    let event = Event::<MCUDomain>::new(0x4001_9100);
    let task = Task::<MCUDomain>::new(0x4001_A104);
    assert_eq!(event.reg_val(), 0x4001_9100);
    assert_eq!(task.reg_val(), 0x4001_A104);
    let ch = ConfigurableChannel::<MCUDomain>::bind(15);
    assert_eq!(ch.number(), 15);
    let fixed = StaticChannel::<MCUDomain>::bind(30);
    assert_eq!(fixed.number(), 30);
}
