use vstd::prelude::*;
use crate::device::{DeviceList, InputContext, input_context_for};
use crate::regs::{
    Layout, Reg, Step, decode_params, max_slots_of, max_ports_of, connected_of, speed_of,
    CMD_RUN, CMD_RESET, STS_HALTED, STS_NOT_READY, STS_RESETTING,
};
use crate::ring::{CommandRing, EventRing, RING_SIZE, TRB_BYTES, advance, segment_fits};
use crate::trb::{
    Trb, address_trb, enable_slot_trb, code_of, cycle_of, slot_of, type_of,
    lemma_control_word_fields, lemma_set_cycle_same, COMPLETION_SUCCESS,
    TYPE_ADDRESS_DEVICE, TYPE_COMMAND_COMPLETION, TYPE_ENABLE_SLOT,
};

verus! {

/// Why bring-up or the addressing of one port failed.
#[derive(Clone, Copy, Debug, PartialEq, Eq, Structural)]
pub enum XhciError {
    /// A ring, context or device-table buffer could not be had.
    AllocationFailure,
    /// A register never reached the awaited state within the poll budget.
    StuckController,
    /// A command completed with a code other than success.
    CommandCompletionFailure,
}

/// Where port probing stands.
#[derive(Clone, Copy, Debug, PartialEq, Eq, Structural)]
pub enum Phase {
    Idle,
    /// Waiting for the status word of `port`.
    AwaitStatus { port: u8 },
    /// Enable-Slot submitted for `port` at physical address `command`; waiting
    /// for its completion.
    AwaitSlot { port: u8, speed: u8, command: u64 },
    /// `slot` enabled for `port`; waiting for the addressing buffers.
    AwaitBuffers { port: u8, speed: u8, slot: u8 },
    /// Address-Device submitted for `slot` at physical address `command`;
    /// waiting for its completion.
    AwaitAddress { port: u8, slot: u8, command: u64 },
}

/// What became of a connected port.
#[derive(Clone, Copy, Debug, PartialEq, Eq, Structural)]
pub enum PortOutcome {
    Addressed { slot: u8 },
    Failed { error: XhciError },
}

/// The outcome of probing port index `port`.
#[derive(Clone, Copy, Debug, PartialEq, Eq, Structural)]
pub struct PortReport {
    pub port: u8,
    pub outcome: PortOutcome,
}

/// What the caller must do next for probing to go on.
#[derive(Clone, Copy, Debug, PartialEq, Eq, Structural)]
pub enum ProbeAction {
    /// Read the status word of `port` and hand it to `on_port_status`.
    ReadPort { port: u8 },
    /// Write `trb` into command-ring entry `index`, ring doorbell 0, wait until
    /// the command ring stops running, then hand the event at the event ring's
    /// dequeue index to `on_event`.
    Submit { index: usize, trb: Trb },
    /// Hand the event at the event ring's dequeue index to `on_event` again.
    AwaitEvent,
    /// Allocate an input context, a device context and a transfer ring, and hand
    /// their physical addresses to `on_buffers`.
    Allocate,
    /// Write `context` into the input context at `input` and `output` into entry
    /// `slot` of the device-context array; then as for `Submit`.
    Address { input: u64, context: InputContext, slot: u8, output: u64, index: usize, trb: Trb },
    /// Every port has been probed.
    Finished,
}

/// The phase after port `port` is done with: the next port, or idle after the last.
pub open spec fn next_port(port: u8, max_ports: u8) -> Phase {
    if port + 1 < max_ports {
        Phase::AwaitStatus { port: (port + 1) as u8 }
    } else {
        Phase::Idle
    }
}

/// The action that goes with entering `phase` from a finished port.
pub open spec fn read_action(phase: Phase) -> ProbeAction {
    match phase {
        Phase::AwaitStatus { port } => ProbeAction::ReadPort { port },
        _ => ProbeAction::Finished,
    }
}

/// Whether a completion event reports success with a slot id the controller can hold.
pub open spec fn slot_granted(ev: Trb, max_slots: u8) -> bool {
    &&& code_of(ev.status) == COMPLETION_SUCCESS
    &&& 1 <= slot_of(ev.control) <= max_slots
}

/// Whether `ev` is the completion event of the command at physical address `command`.
pub open spec fn completes(ev: Trb, command: u64) -> bool {
    type_of(ev.control) == TYPE_COMMAND_COMPLETION && ev.data() == command
}

/// The step that an event the consumer has taken makes from `phase`: the next
/// phase, the action, and the report of a port that is done with.
pub open spec fn event_step(phase: Phase, ev: Trb, max_ports: u8, max_slots: u8) -> (
    Phase,
    ProbeAction,
    Option<PortReport>,
) {
    match phase {
        Phase::AwaitSlot { port, speed, command } => {
            if !completes(ev, command) {
                (phase, ProbeAction::AwaitEvent, None)
            } else if slot_granted(ev, max_slots) {
                (
                    Phase::AwaitBuffers { port, speed, slot: slot_of(ev.control) },
                    ProbeAction::Allocate,
                    None,
                )
            } else {
                (
                    next_port(port, max_ports),
                    read_action(next_port(port, max_ports)),
                    Some(
                        PortReport {
                            port,
                            outcome: PortOutcome::Failed {
                                error: XhciError::CommandCompletionFailure,
                            },
                        },
                    ),
                )
            }
        },
        Phase::AwaitAddress { port, slot, command } => {
            if !completes(ev, command) {
                (phase, ProbeAction::AwaitEvent, None)
            } else {
                let outcome = if code_of(ev.status) == COMPLETION_SUCCESS {
                    PortOutcome::Addressed { slot }
                } else {
                    PortOutcome::Failed { error: XhciError::CommandCompletionFailure }
                };
                (
                    next_port(port, max_ports),
                    read_action(next_port(port, max_ports)),
                    Some(PortReport { port, outcome }),
                )
            }
        },
        _ => (phase, ProbeAction::AwaitEvent, None),
    }
}

/// The step that the addressing buffers make from `AwaitBuffers`, given the
/// command ring's enqueue index, that entry's physical address and the cycle state.
pub open spec fn buffers_step(
    phase: Phase,
    input: Option<u64>,
    output: Option<u64>,
    ring: Option<u64>,
    max_ports: u8,
    index: usize,
    command: u64,
    cycle: bool,
) -> (Phase, ProbeAction, Option<PortReport>) {
    match phase {
        Phase::AwaitBuffers { port, speed, slot } => {
            if input is Some && output is Some && ring is Some {
                (
                    Phase::AwaitAddress { port, slot, command },
                    ProbeAction::Address {
                        input: input->0,
                        context: input_context_for(port, speed, ring->0),
                        slot,
                        output: output->0,
                        index,
                        trb: address_trb(slot, input->0, cycle),
                    },
                    None,
                )
            } else {
                (
                    next_port(port, max_ports),
                    read_action(next_port(port, max_ports)),
                    Some(
                        PortReport {
                            port,
                            outcome: PortOutcome::Failed { error: XhciError::AllocationFailure },
                        },
                    ),
                )
            }
        },
        _ => (phase, ProbeAction::Finished, None),
    }
}

/// The controller driver: register layout, geometry, device table, rings and
/// the state of port probing.
pub struct Xhci {
    pub layout: Layout,
    pub max_slots: u8,
    pub max_ports: u8,
    pub devices: DeviceList,
    pub cmd: CommandRing,
    pub phase: Phase,
    pub started: bool,
}

/// The controller with its start recorded.
pub open spec fn after_init(x: Xhci) -> Xhci {
    Xhci { started: true, ..x }
}

/// The register program of initialization.
pub open spec fn init_steps(x: Xhci, max_slots: u8) -> Seq<Step> {
    seq![
        Step::Write { reg: Reg::Config, value: max_slots as u64 },
        Step::Write { reg: Reg::Dcbaap, value: x.devices.phys },
        Step::Write {
            reg: Reg::Crcr,
            value: (x.cmd.phys + (if x.cmd.cycle { 1int } else { 0int })) as u64,
        },
        Step::Write { reg: Reg::Erstsz, value: 1 },
        Step::Write {
            reg: Reg::Erdp,
            value: (x.cmd.events.phys + TRB_BYTES * x.cmd.events.dequeue) as u64,
        },
        Step::Write { reg: Reg::Erstba, value: x.cmd.events.table_phys },
        Step::SetBits { reg: Reg::Command, mask: CMD_RUN },
        Step::WaitClear { reg: Reg::Status, mask: STS_HALTED },
        Step::Write { reg: Reg::Doorbell(0), value: 0 },
    ]
}

/// The register program of the reset handshake.
pub open spec fn reset_steps() -> Seq<Step> {
    seq![
        Step::WaitClear { reg: Reg::Status, mask: STS_NOT_READY },
        Step::ClearBits { reg: Reg::Command, mask: CMD_RUN },
        Step::WaitSet { reg: Reg::Status, mask: STS_HALTED },
        Step::SetBits { reg: Reg::Command, mask: CMD_RESET },
        Step::WaitClear { reg: Reg::Status, mask: STS_RESETTING },
    ]
}

/// Layout and geometry, fixed once the controller is constructed.
pub open spec fn geometry_kept(a: Xhci, b: Xhci) -> bool {
    &&& a.layout == b.layout
    &&& a.max_slots == b.max_slots
    &&& a.max_ports == b.max_ports
}

impl Xhci {
    pub open spec fn wf(&self) -> bool {
        &&& self.devices.wf()
        &&& self.devices.slot_count() == self.max_slots
        &&& self.cmd.wf()
        &&& match self.phase {
            Phase::Idle => true,
            Phase::AwaitStatus { port } => port < self.max_ports,
            Phase::AwaitSlot { port, .. } => port < self.max_ports,
            Phase::AwaitBuffers { port, slot, .. } => port < self.max_ports && 1 <= slot
                <= self.max_slots,
            Phase::AwaitAddress { port, slot, .. } => port < self.max_ports && 1 <= slot
                <= self.max_slots,
        }
    }

    /// The register program that stops and resets the controller, to be run
    /// before the structural parameters are read.
    pub fn reset_sequence() -> (r: Vec<Step>)
        ensures
            r@ == reset_steps(),
    {
        let mut v: Vec<Step> = Vec::new();
        v.push(Step::WaitClear { reg: Reg::Status, mask: STS_NOT_READY });
        v.push(Step::ClearBits { reg: Reg::Command, mask: CMD_RUN });
        v.push(Step::WaitSet { reg: Reg::Status, mask: STS_HALTED });
        v.push(Step::SetBits { reg: Reg::Command, mask: CMD_RESET });
        v.push(Step::WaitClear { reg: Reg::Status, mask: STS_RESETTING });
        assert(v@ =~= reset_steps());
        v
    }

    /// Builds the driver for a reset controller laid out as `layout`, whose
    /// structural parameter word read `params`, from the physical addresses of
    /// its device-context array, command ring, event ring and event-ring segment
    /// table. Fails with `AllocationFailure` when one of them is missing or a
    /// ring would run past the end of the address space.
    pub fn new(
        layout: Layout,
        params: u32,
        dcbaa: Option<u64>,
        cmd_ring: Option<u64>,
        event_ring: Option<u64>,
        event_table: Option<u64>,
    ) -> (r: Result<Xhci, XhciError>)
        ensures
            r is Ok <==> {
                &&& dcbaa is Some
                &&& event_table is Some
                &&& cmd_ring matches Some(c) && segment_fits(c, RING_SIZE as nat)
                &&& event_ring matches Some(e) && segment_fits(e, RING_SIZE as nat)
            },
            r matches Err(e) ==> e == XhciError::AllocationFailure,
            r matches Ok(x) ==> {
                &&& x.wf()
                &&& x.layout == layout
                &&& x.max_slots == max_slots_of(params)
                &&& x.max_ports == max_ports_of(params)
                &&& x.devices.phys == dcbaa->0
                &&& x.devices.contexts@ == Seq::new(x.max_slots as nat + 1, |i: int| 0u64)
                &&& x.cmd.phys == cmd_ring->0
                &&& x.cmd.len == RING_SIZE
                &&& x.cmd.enqueue == 0
                &&& x.cmd.cycle
                &&& x.cmd.events.phys == event_ring->0
                &&& x.cmd.events.table_phys == event_table->0
                &&& x.cmd.events.len == RING_SIZE
                &&& x.cmd.events.dequeue == 0
                &&& x.cmd.events.cycle
                &&& x.phase == Phase::Idle
                &&& !x.started
            },
    {
        let (dcbaa, cmd_ring, event_ring, event_table) = match (
            dcbaa,
            cmd_ring,
            event_ring,
            event_table,
        ) {
            (Some(d), Some(c), Some(e), Some(t)) => (d, c, e, t),
            _ => return Err(XhciError::AllocationFailure),
        };
        let ring_bytes: u64 = TRB_BYTES * (RING_SIZE as u64);
        if cmd_ring > u64::MAX - ring_bytes || event_ring > u64::MAX - ring_bytes {
            return Err(XhciError::AllocationFailure);
        }
        let (max_slots, max_ports) = decode_params(params);
        let events = EventRing::new(event_ring, event_table);
        Ok(
            Xhci {
                layout,
                max_slots,
                max_ports,
                devices: DeviceList::new(dcbaa, max_slots),
                cmd: CommandRing::new(cmd_ring, events),
                phase: Phase::Idle,
                started: false,
            },
        )
    }

    /// The register program that hands the device table and rings to the
    /// controller, enables `max_slots` slots, starts the controller and rings
    /// the command doorbell. Nothing is allocated; the start is recorded.
    pub fn init(&mut self, max_slots: u8) -> (r: Vec<Step>)
        requires
            old(self).wf(),
        ensures
            final(self).wf(),
            geometry_kept(*final(self), *old(self)),
            *final(self) == after_init(*old(self)),
            r@ == init_steps(*old(self), max_slots),
    {
        let mut v: Vec<Step> = Vec::new();
        v.push(Step::Write { reg: Reg::Config, value: max_slots as u64 });
        v.push(Step::Write { reg: Reg::Dcbaap, value: self.devices.phys });
        v.push(Step::Write { reg: Reg::Crcr, value: self.cmd.crcr() });
        v.push(Step::Write { reg: Reg::Erstsz, value: 1 });
        v.push(Step::Write { reg: Reg::Erdp, value: self.cmd.events.dequeue_pointer() });
        v.push(Step::Write { reg: Reg::Erstba, value: self.cmd.events.table_phys });
        v.push(Step::SetBits { reg: Reg::Command, mask: CMD_RUN });
        v.push(Step::WaitClear { reg: Reg::Status, mask: STS_HALTED });
        v.push(Step::Write { reg: Reg::Doorbell(0), value: 0 });
        self.started = true;
        assert(v@ =~= init_steps(*old(self), max_slots));
        v
    }
}

impl Xhci {
    /// The action that enters `phase` after a finished port.
    fn read_action_of(phase: Phase) -> (r: ProbeAction)
        ensures
            r == read_action(phase),
    {
        match phase {
            Phase::AwaitStatus { port } => ProbeAction::ReadPort { port },
            _ => ProbeAction::Finished,
        }
    }

    /// Moves on from `port` to the next port, or to idle after the last.
    fn finish_port(&mut self, port: u8) -> (r: ProbeAction)
        requires
            old(self).wf(),
            port < old(self).max_ports,
        ensures
            final(self).wf(),
            *final(self) == (Xhci { phase: next_port(port, old(self).max_ports), ..*old(self) }),
            r == read_action(next_port(port, old(self).max_ports)),
    {
        if port + 1 < self.max_ports {
            self.phase = Phase::AwaitStatus { port: port + 1 };
        } else {
            self.phase = Phase::Idle;
        }
        Self::read_action_of(self.phase)
    }

    /// Starts probing from the first port. With no ports it is finished at once
    /// and no command is issued.
    pub fn probe(&mut self) -> (r: ProbeAction)
        requires
            old(self).wf(),
        ensures
            final(self).wf(),
            geometry_kept(*final(self), *old(self)),
            old(self).max_ports == 0 ==> r == ProbeAction::Finished && final(self).phase
                == Phase::Idle,
            old(self).max_ports > 0 ==> r == (ProbeAction::ReadPort { port: 0 })
                && final(self).phase == (Phase::AwaitStatus { port: 0 }),
            *final(self) == (Xhci { phase: final(self).phase, ..*old(self) }),
    {
        if self.max_ports == 0 {
            self.phase = Phase::Idle;
            ProbeAction::Finished
        } else {
            self.phase = Phase::AwaitStatus { port: 0 };
            ProbeAction::ReadPort { port: 0 }
        }
    }

    /// Takes the status word of the port being probed. A connected port gets an
    /// Enable-Slot command; any other is skipped.
    pub fn on_port_status(&mut self, status: u32) -> (r: ProbeAction)
        requires
            old(self).wf(),
            old(self).phase is AwaitStatus,
        ensures
            final(self).wf(),
            geometry_kept(*final(self), *old(self)),
            final(self).devices == old(self).devices,
            connected_of(status) ==> {
                &&& r == (ProbeAction::Submit {
                    index: old(self).cmd.enqueue,
                    trb: enable_slot_trb(old(self).cmd.cycle),
                })
                &&& final(self).phase == (Phase::AwaitSlot {
                    port: old(self).phase->AwaitStatus_port,
                    speed: speed_of(status),
                    command: (old(self).cmd.phys + TRB_BYTES * old(self).cmd.enqueue) as u64,
                })
                &&& (final(self).cmd.enqueue as nat, final(self).cmd.cycle) == advance(
                    old(self).cmd.enqueue as nat,
                    old(self).cmd.cycle,
                    old(self).cmd.len as nat,
                )
                &&& final(self).cmd.phys == old(self).cmd.phys
                &&& final(self).cmd.len == old(self).cmd.len
                &&& final(self).cmd.events == old(self).cmd.events
                &&& final(self).started == old(self).started
            },
            !connected_of(status) ==> {
                let next = next_port(old(self).phase->AwaitStatus_port, old(self).max_ports);
                &&& r == read_action(next)
                &&& *final(self) == (Xhci { phase: next, ..*old(self) })
            },
    {
        let port = match self.phase {
            Phase::AwaitStatus { port } => port,
            _ => 0,
        };
        if status & 1u32 == 1u32 {
            let speed = ((status >> 10u32) & 0xfu32) as u8;
            let cmd = Trb::enable_slot(self.cmd.cycle);
            proof {
                lemma_set_cycle_same(TYPE_ENABLE_SLOT, 0, self.cmd.cycle);
            }
            let command = self.cmd.entry_address(self.cmd.enqueue);
            let (index, trb) = self.cmd.enqueue(cmd);
            self.phase = Phase::AwaitSlot { port, speed, command };
            ProbeAction::Submit { index, trb }
        } else {
            self.finish_port(port)
        }
    }

    /// Takes the TRB at the event ring's dequeue index while a command is
    /// outstanding. An entry the controller has not written yet, or an event
    /// other than the completion of the outstanding command (matched by the
    /// command's physical address), asks for the next read. A completion
    /// that reports failure, or a slot id out of range, fails the port and
    /// probing moves on to the next port.
    pub fn on_event(&mut self, event: Trb) -> (r: (ProbeAction, Option<PortReport>))
        requires
            old(self).wf(),
            old(self).phase is AwaitSlot || old(self).phase is AwaitAddress,
        ensures
            final(self).wf(),
            geometry_kept(*final(self), *old(self)),
            cycle_of(event.control) != old(self).cmd.events.cycle ==> r == (
                ProbeAction::AwaitEvent,
                None::<PortReport>,
            ) && *final(self) == *old(self),
            cycle_of(event.control) == old(self).cmd.events.cycle ==> {
                let step = event_step(old(self).phase, event, old(self).max_ports, old(self).max_slots);
                &&& r == (step.1, step.2)
                &&& final(self).phase == step.0
                &&& (final(self).cmd.events.dequeue as nat, final(self).cmd.events.cycle)
                    == advance(
                    old(self).cmd.events.dequeue as nat,
                    old(self).cmd.events.cycle,
                    old(self).cmd.events.len as nat,
                )
                &&& final(self).cmd.events.phys == old(self).cmd.events.phys
                &&& final(self).cmd.events.table_phys == old(self).cmd.events.table_phys
                &&& final(self).cmd.events.len == old(self).cmd.events.len
                &&& final(self).cmd == (CommandRing { events: final(self).cmd.events, ..old(self).cmd })
                &&& *final(self) == (Xhci { phase: final(self).phase, cmd: final(self).cmd, ..*old(self) })
            },
    {
        let ev = match self.cmd.events.accept(event) {
            Some(ev) => ev,
            None => return (ProbeAction::AwaitEvent, None),
        };
        let success = ev.completion_code() == COMPLETION_SUCCESS;
        match self.phase {
            Phase::AwaitSlot { port, speed, command } => {
                if !(ev.trb_type() == TYPE_COMMAND_COMPLETION && ev.data_is(command)) {
                    return (ProbeAction::AwaitEvent, None);
                }
                let slot = ev.slot_id();
                if success && 1 <= slot && slot <= self.max_slots {
                    self.phase = Phase::AwaitBuffers { port, speed, slot };
                    (ProbeAction::Allocate, None)
                } else {
                    let action = self.finish_port(port);
                    let error = XhciError::CommandCompletionFailure;
                    (action, Some(PortReport { port, outcome: PortOutcome::Failed { error } }))
                }
            },
            Phase::AwaitAddress { port, slot, command } => {
                if !(ev.trb_type() == TYPE_COMMAND_COMPLETION && ev.data_is(command)) {
                    return (ProbeAction::AwaitEvent, None);
                }
                let outcome = if success {
                    PortOutcome::Addressed { slot }
                } else {
                    PortOutcome::Failed { error: XhciError::CommandCompletionFailure }
                };
                let action = self.finish_port(port);
                (action, Some(PortReport { port, outcome }))
            },
            _ => (ProbeAction::AwaitEvent, None),
        }
    }

    /// Takes the physical addresses of the input context, the device context and
    /// the endpoint-0 transfer ring for the slot just enabled. With all three, the
    /// device context goes into the device table and an Address-Device command
    /// for that slot is issued; a missing one fails the port.
    pub fn on_buffers(&mut self, input: Option<u64>, output: Option<u64>, ring: Option<u64>) -> (r:
        (ProbeAction, Option<PortReport>))
        requires
            old(self).wf(),
            old(self).phase is AwaitBuffers,
        ensures
            final(self).wf(),
            ({
                let step = buffers_step(
                    old(self).phase,
                    input,
                    output,
                    ring,
                    old(self).max_ports,
                    old(self).cmd.enqueue,
                    (old(self).cmd.phys + TRB_BYTES * old(self).cmd.enqueue) as u64,
                    old(self).cmd.cycle,
                );
                &&& r == (step.1, step.2)
                &&& final(self).phase == step.0
            }),
            geometry_kept(*final(self), *old(self)),
            final(self).started == old(self).started,
            final(self).cmd.events == old(self).cmd.events,
            final(self).cmd.phys == old(self).cmd.phys,
            final(self).devices.phys == old(self).devices.phys,
            input is Some && output is Some && ring is Some ==> {
                &&& final(self).devices.contexts@ == old(self).devices.contexts@.update(
                    old(self).phase->AwaitBuffers_slot as int,
                    output->0,
                )
                &&& (final(self).cmd.enqueue as nat, final(self).cmd.cycle) == advance(
                    old(self).cmd.enqueue as nat,
                    old(self).cmd.cycle,
                    old(self).cmd.len as nat,
                )
            },
            !(input is Some && output is Some && ring is Some) ==> *final(self) == (Xhci {
                phase: final(self).phase,
                ..*old(self)
            }),
    {
        let (port, speed, slot) = match self.phase {
            Phase::AwaitBuffers { port, speed, slot } => (port, speed, slot),
            _ => (0, 0, 1),
        };
        match (input, output, ring) {
            (Some(input), Some(output), Some(ring)) => {
                let context = InputContext::for_port(port, speed, ring);
                self.devices.set_context(slot, output);
                let cmd = Trb::address_device(slot, input, self.cmd.cycle);
                proof {
                    lemma_set_cycle_same(TYPE_ADDRESS_DEVICE, slot, self.cmd.cycle);
                }
                let command = self.cmd.entry_address(self.cmd.enqueue);
                let (index, trb) = self.cmd.enqueue(cmd);
                self.phase = Phase::AwaitAddress { port, slot, command };
                (ProbeAction::Address { input, context, slot, output, index, trb }, None)
            },
            _ => {
                let action = self.finish_port(port);
                let error = XhciError::AllocationFailure;
                (action, Some(PortReport { port, outcome: PortOutcome::Failed { error } }))
            },
        }
    }
}

/// A successful Enable-Slot completion that grants slot `S` leads, once the
/// addressing buffers are in, to an Address-Device command for exactly `S`.
pub proof fn lemma_enabled_slot_is_addressed(
    port: u8,
    speed: u8,
    ev: Trb,
    max_ports: u8,
    max_slots: u8,
    enable_command: u64,
    input: u64,
    output: u64,
    ring: u64,
    index: usize,
    address_command: u64,
    cycle: bool,
)
    requires
        completes(ev, enable_command),
        slot_granted(ev, max_slots),
    ensures
        ({
            let enabled = event_step(
                Phase::AwaitSlot { port, speed, command: enable_command },
                ev,
                max_ports,
                max_slots,
            );
            let addressed = buffers_step(
                enabled.0,
                Some(input),
                Some(output),
                Some(ring),
                max_ports,
                index,
                address_command,
                cycle,
            );
            &&& enabled.0 == (Phase::AwaitBuffers { port, speed, slot: slot_of(ev.control) })
            &&& addressed.1 matches ProbeAction::Address { slot, trb, .. } && slot == slot_of(
                ev.control,
            ) && type_of(trb.control) == TYPE_ADDRESS_DEVICE && slot_of(trb.control) == slot_of(
                ev.control,
            ) && trb.data() == input
        }),
{
    let s = slot_of(ev.control);
    lemma_control_word_fields(TYPE_ADDRESS_DEVICE, s, cycle);
    let lo = (input & 0xffff_ffffu64) as u32;
    let hi = (input >> 32u64) as u32;
    assert(hi as int * 0x1_0000_0000 + lo as int == input as int) by (bit_vector)
        requires
            lo == (input & 0xffff_ffffu64) as u32,
            hi == (input >> 32u64) as u32,
    ;
}

/// Initializing twice with the same slot count writes the same register values
/// both times, and the second run changes nothing further.
pub proof fn lemma_init_idempotent(x: Xhci, max_slots: u8)
    ensures
        init_steps(after_init(x), max_slots) == init_steps(x, max_slots),
        after_init(after_init(x)) == after_init(x),
{
}

} // verus!
