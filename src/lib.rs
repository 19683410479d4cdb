//! A USB 3 host controller (xHCI) driver core: register layouts, TRB encoding,
//! the command and event rings with their cycle-bit ownership protocol, the
//! device-context table, and the bring-up and port-probing state machines.
//! Every register access and buffer allocation is left to the caller, which
//! carries out the register programs and actions these types hand back.

pub mod device;
pub mod regs;
pub mod ring;
pub mod trb;
pub mod xhci;
