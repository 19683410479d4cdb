use xhcid::device::{DeviceList, InputContext};
use xhcid::regs::{decode_params, Layout, Poll, PollResult, PortStatus, Reg, Step};
use xhcid::ring::{CommandRing, EventRing, RING_SIZE};
use xhcid::trb::Trb;
use xhcid::xhci::{Phase, PortOutcome, PortReport, ProbeAction, Xhci, XhciError};

const CMD_RING: u64 = 0x10_0000;
const EVENT_RING: u64 = 0x20_0000;
const EVENT_TABLE: u64 = 0x30_0000;
const DCBAA: u64 = 0x40_0000;

fn layout() -> Layout {
    Layout::new(0xfe00_0000, 0x20, 0x2000, 0x3000).unwrap()
}

fn controller(params: u32) -> Xhci {
    Xhci::new(layout(), params, Some(DCBAA), Some(CMD_RING), Some(EVENT_RING), Some(EVENT_TABLE))
        .unwrap()
}

/// The completion event, with the given code and slot id, of the command at
/// command-ring entry `index`.
fn completion(code: u8, slot: u8, cycle: bool, index: usize) -> Trb {
    let command = CMD_RING + 16 * index as u64;
    Trb {
        data_lo: command as u32,
        data_hi: (command >> 32) as u32,
        status: (code as u32) << 24,
        control: ((slot as u32) << 24) | (33 << 10) | (cycle as u32),
    }
}

/// Runs probing against a simulated controller: `statuses` gives each port's
/// status word and `codes` the completion code of each command in turn, with
/// slot id `slot` in every completion. Returns the commands issued and the reports.
fn simulate(x: &mut Xhci, statuses: &[u32], codes: &[u8], slot: u8) -> (Vec<Trb>, Vec<PortReport>) {
    let mut commands = Vec::new();
    let mut reports = Vec::new();
    let mut next_code = 0;
    let mut action = x.probe();
    loop {
        action = match action {
            ProbeAction::ReadPort { port } => x.on_port_status(statuses[port as usize]),
            ProbeAction::Submit { trb, index } | ProbeAction::Address { trb, index, .. } => {
                commands.push(trb);
                let ev = completion(codes[next_code], slot, x.cmd.events.cycle, index);
                next_code += 1;
                let (a, report) = x.on_event(ev);
                reports.extend(report);
                a
            }
            ProbeAction::Allocate => {
                let (a, report) = x.on_buffers(Some(0x50_0000), Some(0x60_0000), Some(0x70_0000));
                reports.extend(report);
                a
            }
            ProbeAction::AwaitEvent => panic!("no event outstanding"),
            ProbeAction::Finished => break,
        };
    }
    (commands, reports)
}

#[test]
fn enable_slot_trb_encoding() {
    let t = Trb::enable_slot(true);
    assert_eq!(t, Trb { data_lo: 0, data_hi: 0, status: 0, control: 0x2401 });
    assert_eq!(t.trb_type(), 9);
    assert!(t.cycle());
}

#[test]
fn address_device_trb_encoding() {
    let t = Trb::address_device(5, 0x1_2345_6780, false);
    assert_eq!(t.data_lo, 0x2345_6780);
    assert_eq!(t.data_hi, 1);
    assert_eq!(t.status, 0);
    assert_eq!(t.control, 0x0500_2c00);
    assert_eq!(t.slot_id(), 5);
    assert_eq!(t.trb_type(), 11);
    assert!(!t.cycle());
}

#[test]
fn with_cycle_changes_only_the_cycle_bit() {
    let t = Trb::address_device(7, 0x1000, false);
    let u = t.with_cycle(true);
    assert_eq!(u.control, t.control | 1);
    assert_eq!(u.with_cycle(false), t);
}

#[test]
fn completion_fields_decode() {
    let ev = completion(1, 3, true, 2);
    assert!(ev.data_is(CMD_RING + 32));
    assert!(!ev.data_is(CMD_RING));
    assert_eq!(ev.completion_code(), 1);
    assert_eq!(ev.slot_id(), 3);
    assert_eq!(ev.trb_type(), 33);
}

#[test]
fn params_decode_slots_low_byte_ports_high_byte() {
    assert_eq!(decode_params(0x0100_0004), (4, 1));
    assert_eq!(decode_params(0x00010004), (4, 0));
    assert_eq!(decode_params(0xff00_00ff), (255, 255));
}

#[test]
fn layout_places_blocks() {
    let l = layout();
    assert_eq!(l.operational, 0xfe00_0020);
    assert_eq!(l.ports, 0xfe00_0420);
    assert_eq!(l.doorbells, 0xfe00_2000);
    assert_eq!(l.runtime, 0xfe00_3000);
}

#[test]
fn layout_rejects_overflow() {
    assert!(Layout::new(usize::MAX - 0x100, 0x20, 0, 0).is_none());
    assert!(Layout::new(usize::MAX - 0x1000, 0x20, 0x2000, 0).is_none());
}

#[test]
fn port_status_decode() {
    let s = PortStatus::decode(0x0000_0e03 | (4 << 10) | (5 << 5));
    assert!(s.connected);
    assert!(s.enabled);
    assert_eq!(s.link_state, 5);
    assert_eq!(s.speed, 4 | 3);
    assert!(!PortStatus::decode(0x2a0).connected);
}

#[test]
fn poll_done_pending_stuck() {
    let mut p = Poll::new(1 << 11, false, 1);
    assert_eq!(p.observe(1 << 11), PollResult::Pending);
    assert_eq!(p.left, 0);
    assert_eq!(p.observe(1 << 11), PollResult::Stuck);
    assert_eq!(p.observe(0), PollResult::Done);
    let mut q = Poll::new(1, true, 5);
    assert_eq!(q.observe(1), PollResult::Done);
    assert_eq!(q.left, 5);
}

#[test]
fn poll_for_wait_steps_only() {
    let w = Poll::for_step(Step::WaitSet { reg: Reg::Status, mask: 1 }).unwrap();
    assert!(w.until_set);
    assert_eq!(w.mask, 1);
    assert!(Poll::for_step(Step::Write { reg: Reg::Config, value: 4 }).is_none());
}

#[test]
fn command_ring_cycle_flips_once_per_wrap() {
    let mut ring = CommandRing::new(CMD_RING, EventRing::new(EVENT_RING, EVENT_TABLE));
    let n = 2 * RING_SIZE + 88;
    let mut flips = 0;
    for i in 0..n {
        let before = ring.cycle;
        let (index, trb) = ring.enqueue(Trb::enable_slot(false));
        assert_eq!(index, i % RING_SIZE);
        assert_eq!(trb.cycle(), before);
        if ring.cycle != before {
            flips += 1;
        }
    }
    assert_eq!(flips, 2);
    assert_eq!(ring.enqueue, 88);
    assert!(ring.cycle);
    assert_eq!(ring.crcr(), CMD_RING + 1);
}

#[test]
fn event_ring_takes_only_owned_entries() {
    let mut ev = EventRing::new(EVENT_RING, EVENT_TABLE);
    assert_eq!(ev.accept(completion(1, 1, false, 0)), None);
    assert_eq!(ev.dequeue, 0);
    assert_eq!(ev.accept(completion(1, 1, true, 0)), Some(completion(1, 1, true, 0)));
    assert_eq!(ev.dequeue, 1);
    assert_eq!(ev.dequeue_pointer(), EVENT_RING + 16);
    assert_eq!(ev.table_entry(), (EVENT_RING, 256));
}

#[test]
fn device_list_sized_and_set() {
    let mut d = DeviceList::new(DCBAA, 4);
    assert_eq!(d.slots(), 4);
    assert_eq!(d.context(4), 0);
    d.set_context(2, 0xabc000);
    assert_eq!(d.context(2), 0xabc000);
    assert_eq!(d.context(1), 0);
}

#[test]
fn input_context_for_port() {
    let c = InputContext::for_port(0, 4, 0x1_0000_2000);
    assert_eq!(c.add_context, 3);
    assert_eq!(c.slot_a, (1 << 27) | (4 << 20));
    assert_eq!(c.slot_b, 1 << 16);
    assert_eq!(c.ep0_b, (4096 << 16) | (4 << 3) | (3 << 1));
    assert_eq!(c.ep0_dequeue_lo, 0x2001);
    assert_eq!(c.ep0_dequeue_hi, 1);
}

#[test]
fn reset_sequence_steps() {
    let v = Xhci::reset_sequence();
    assert_eq!(v.len(), 5);
    assert_eq!(v[0], Step::WaitClear { reg: Reg::Status, mask: 1 << 11 });
    assert_eq!(v[1], Step::ClearBits { reg: Reg::Command, mask: 1 });
    assert_eq!(v[2], Step::WaitSet { reg: Reg::Status, mask: 1 });
    assert_eq!(v[3], Step::SetBits { reg: Reg::Command, mask: 2 });
    assert_eq!(v[4], Step::WaitClear { reg: Reg::Status, mask: 2 });
}

#[test]
fn construction_geometry_scenario() {
    let x = Xhci::new(layout(), 0x0100_0004, Some(DCBAA), Some(CMD_RING), Some(EVENT_RING), Some(EVENT_TABLE))
        .unwrap();
    assert_eq!(x.layout.operational, 0xfe00_0020);
    assert_eq!(x.max_slots, 4);
    assert_eq!(x.max_ports, 1);
    assert_eq!(x.devices.slots(), 4);
    let y = controller(0x00010004);
    assert_eq!(y.max_slots, 4);
    assert_eq!(y.devices.slots(), 4);
}

#[test]
fn construction_allocation_failure() {
    let r = Xhci::new(layout(), 0x0100_0004, None, Some(CMD_RING), Some(EVENT_RING), Some(EVENT_TABLE));
    assert!(matches!(r, Err(XhciError::AllocationFailure)));
    let r = Xhci::new(layout(), 0x0100_0004, Some(DCBAA), Some(u64::MAX - 16), Some(EVENT_RING), Some(EVENT_TABLE));
    assert!(matches!(r, Err(XhciError::AllocationFailure)));
}

#[test]
fn init_program_and_idempotence() {
    let mut x = controller(0x0100_0004);
    let first = x.init(4);
    assert!(x.started);
    assert_eq!(first.len(), 9);
    assert_eq!(first[0], Step::Write { reg: Reg::Config, value: 4 });
    assert_eq!(first[1], Step::Write { reg: Reg::Dcbaap, value: DCBAA });
    assert_eq!(first[2], Step::Write { reg: Reg::Crcr, value: CMD_RING | 1 });
    assert_eq!(first[3], Step::Write { reg: Reg::Erstsz, value: 1 });
    assert_eq!(first[4], Step::Write { reg: Reg::Erdp, value: EVENT_RING });
    assert_eq!(first[5], Step::Write { reg: Reg::Erstba, value: EVENT_TABLE });
    assert_eq!(first[6], Step::SetBits { reg: Reg::Command, mask: 1 });
    assert_eq!(first[7], Step::WaitClear { reg: Reg::Status, mask: 1 });
    assert_eq!(first[8], Step::Write { reg: Reg::Doorbell(0), value: 0 });
    let second = x.init(4);
    assert_eq!(first, second);
    assert_eq!(x.devices.phys, DCBAA);
    assert_eq!(x.cmd.phys, CMD_RING);
}

#[test]
fn no_ports_no_commands() {
    let mut x = controller(0x0000_0004);
    assert_eq!(x.max_ports, 0);
    assert_eq!(x.probe(), ProbeAction::Finished);
    assert_eq!(x.cmd.enqueue, 0);
    let (commands, reports) = simulate(&mut x, &[], &[], 1);
    assert!(commands.is_empty());
    assert!(reports.is_empty());
}

#[test]
fn connected_port_gets_enable_slot_then_address_device() {
    let mut x = controller(0x0100_0004);
    let (commands, reports) = simulate(&mut x, &[0x0000_0203 | (3 << 10)], &[1, 1], 2);
    assert_eq!(commands.len(), 2);
    assert_eq!(commands[0].trb_type(), 9);
    assert_eq!(commands[1].trb_type(), 11);
    assert_eq!(commands[1].slot_id(), 2);
    assert_eq!(reports, vec![PortReport { port: 0, outcome: PortOutcome::Addressed { slot: 2 } }]);
    assert_eq!(x.devices.context(2), 0x60_0000);
    assert_eq!(x.phase, Phase::Idle);
}

#[test]
fn disconnected_port_gets_no_commands() {
    let mut x = controller(0x0100_0004);
    let (commands, reports) = simulate(&mut x, &[0x0000_02a0], &[], 2);
    assert!(commands.is_empty());
    assert!(reports.is_empty());
    assert_eq!(x.cmd.enqueue, 0);
}

#[test]
fn enabled_slot_id_reaches_address_device() {
    let mut x = controller(0x0100_0004);
    assert_eq!(x.probe(), ProbeAction::ReadPort { port: 0 });
    assert!(matches!(x.on_port_status(1), ProbeAction::Submit { index: 0, .. }));
    let (a, r) = x.on_event(completion(1, 3, true, 0));
    assert_eq!(a, ProbeAction::Allocate);
    assert_eq!(r, None);
    match x.on_buffers(Some(0x1_0000_0040), Some(0x2000), Some(0x3000)).0 {
        ProbeAction::Address { slot, trb, input, index, context, .. } => {
            assert_eq!(slot, 3);
            assert_eq!(trb.slot_id(), 3);
            assert_eq!(trb.data_lo, 0x40);
            assert_eq!(trb.data_hi, 1);
            assert_eq!(input, 0x1_0000_0040);
            assert_eq!(index, 1);
            assert_eq!(context.ep0_dequeue_lo, 0x3001);
        }
        other => panic!("unexpected {:?}", other),
    }
}

#[test]
fn failed_enable_slot_reports_failure_without_address_device() {
    let mut x = controller(0x0200_0004);
    let (commands, reports) = simulate(&mut x, &[1, 1], &[5, 1, 1], 1);
    assert_eq!(commands.len(), 3);
    assert_eq!(commands[0].trb_type(), 9);
    assert_eq!(commands[1].trb_type(), 9);
    assert_eq!(commands[2].trb_type(), 11);
    assert_eq!(
        reports,
        vec![
            PortReport { port: 0, outcome: PortOutcome::Failed { error: XhciError::CommandCompletionFailure } },
            PortReport { port: 1, outcome: PortOutcome::Addressed { slot: 1 } },
        ]
    );
}

#[test]
fn out_of_range_slot_fails_port() {
    let mut x = controller(0x0100_0004);
    x.probe();
    x.on_port_status(1);
    let (a, r) = x.on_event(completion(1, 9, true, 0));
    assert_eq!(a, ProbeAction::Finished);
    assert_eq!(r, Some(PortReport { port: 0, outcome: PortOutcome::Failed { error: XhciError::CommandCompletionFailure } }));
}

#[test]
fn failed_address_device_reports_failure() {
    let mut x = controller(0x0100_0004);
    let (commands, reports) = simulate(&mut x, &[1], &[1, 4], 1);
    assert_eq!(commands.len(), 2);
    assert_eq!(reports, vec![PortReport { port: 0, outcome: PortOutcome::Failed { error: XhciError::CommandCompletionFailure } }]);
}

#[test]
fn missing_buffers_fail_port_only() {
    let mut x = controller(0x0100_0004);
    x.probe();
    x.on_port_status(1);
    x.on_event(completion(1, 1, true, 0));
    let (a, r) = x.on_buffers(Some(0x1000), None, Some(0x3000));
    assert_eq!(a, ProbeAction::Finished);
    assert_eq!(r, Some(PortReport { port: 0, outcome: PortOutcome::Failed { error: XhciError::AllocationFailure } }));
    assert_eq!(x.devices.context(1), 0);
}

#[test]
fn unwritten_or_foreign_events_are_waited_past() {
    let mut x = controller(0x0100_0004);
    x.probe();
    x.on_port_status(1);
    assert_eq!(x.on_event(completion(1, 1, false, 0)), (ProbeAction::AwaitEvent, None));
    let port_change = Trb { data_lo: 0, data_hi: 0, status: 1 << 24, control: (34 << 10) | 1 };
    assert_eq!(x.on_event(port_change), (ProbeAction::AwaitEvent, None));
    assert_eq!(x.cmd.events.dequeue, 1);
    assert_eq!(x.on_event(completion(1, 1, true, 7)), (ProbeAction::AwaitEvent, None));
    assert_eq!(x.cmd.events.dequeue, 2);
    assert_eq!(x.on_event(completion(1, 1, true, 0)).0, ProbeAction::Allocate);
    assert_eq!(x.phase, Phase::AwaitBuffers { port: 0, speed: 0, slot: 1 });
}
