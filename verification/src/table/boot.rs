//! Boot services.
//!
//! The boot services table itself is a table of function pointers owned by
//! the firmware; calling through it is raw dispatch that stays outside
//! this crate. What is modelled here is the decision each wrapper makes:
//! given the status word a service answered with, and the values it wrote
//! into its out-parameters, which `Result` the caller receives. Every
//! method takes that reply and pins the result exactly, so an unverified
//! caller only has to make the raw call and hand the reply in.

use vstd::prelude::*;

use super::Header;
use crate::mem::PhysicalAddress;
use crate::status::reply;
use crate::status::Status;
use crate::Event;
use crate::Handle;
use crate::Tpl;

verus! {

/// How a protocol interface is supplied.
#[derive(Clone, Copy, Debug, PartialEq, Eq, Structural)]
pub struct InterfaceType(pub u32);

impl InterfaceType {
    pub const NATIVE: u32 = 0;
}

/// Search key for handle lookups.
#[derive(Clone, Copy, Debug, PartialEq, Eq, Structural)]
pub struct LocateSearchType(pub u32);

impl LocateSearchType {
    pub const ALL_HANDLES: u32 = 0;
    pub const BY_REGISTER_NOTIFY: u32 = 1;
    pub const BY_PROTOCOL: u32 = 2;
}

/// How a timer event triggers.
#[derive(Clone, Copy, Debug, PartialEq, Eq, Structural)]
pub struct TimerDelay(pub u32);

impl TimerDelay {
    /// The event is to be cancelled and no timer trigger is to be set.
    pub const CANCEL: u32 = 0;
    /// The event is to be signaled periodically.
    pub const PERIODIC: u32 = 1;
    /// The event is to be triggered in 100ms units.
    pub const RELATIVE: u32 = 2;
}

/// The UEFI boot services table: its header, with the callable surface
/// left to the firmware.
#[derive(Clone, Copy, Debug, PartialEq, Eq, Structural)]
pub struct BootServices {
    pub Hdr: Header,
}

impl BootServices {
    pub fn header(&self) -> (r: &Header)
        ensures
            *r == self.Hdr,
    {
        &self.Hdr
    }

    /// Raises the task priority level; the service answers with the
    /// previous level, which the wrapper hands back unchanged.
    pub fn raise_tpl(&self, previous: Tpl) -> (r: Tpl)
        ensures
            r == previous,
    {
        previous
    }

    /// Interprets the reply to `AllocatePages`. On success the value the
    /// service filled in is handed out; any other status word is the error.
    pub fn allocate_pages(&self, status: Status, memory: PhysicalAddress) -> (r: Result<PhysicalAddress, Status>)
        ensures
            r is Ok <==> status.0 == 0,
            r is Ok ==> r->Ok_0 == memory,
            r is Err ==> r->Err_0 == status,
    {
        reply(status, memory)
    }
    /// Interprets the reply to `FreePages`. The reply becomes the
    /// result: success is `Ok`, any other status word is the error.
    pub fn free_pages(&self, status: Status) -> (r: Result<(), Status>)
        ensures
            r is Ok <==> status.0 == 0,
            r is Err ==> r->Err_0 == status,
    {
        status.to_result()
    }
    /// Interprets the reply to `AllocatePool`; the buffer's address is an opaque machine word. On success the value the
    /// service filled in is handed out; any other status word is the error.
    pub fn allocate_pool(&self, status: Status, buffer: usize) -> (r: Result<usize, Status>)
        ensures
            r is Ok <==> status.0 == 0,
            r is Ok ==> r->Ok_0 == buffer,
            r is Err ==> r->Err_0 == status,
    {
        reply(status, buffer)
    }
    /// Interprets the reply to `FreePool`. The reply becomes the
    /// result: success is `Ok`, any other status word is the error.
    pub fn free_pool(&self, status: Status) -> (r: Result<(), Status>)
        ensures
            r is Ok <==> status.0 == 0,
            r is Err ==> r->Err_0 == status,
    {
        status.to_result()
    }
    /// Interprets the reply to `CreateEvent`. On success the event the
    /// service filled in is handed out; any other status word is the error.
    pub fn create_event(&self, status: Status, event: Event) -> (r: Result<Event, Status>)
        ensures
            r is Ok <==> status.0 == 0,
            r is Ok ==> r->Ok_0 == event,
            r is Err ==> r->Err_0 == status,
    {
        reply(status, event)
    }

    /// Interprets the reply to `CreateEventEx`. On success the event the
    /// service filled in is handed out; any other status word is the error.
    pub fn create_event_ex(&self, status: Status, event: Event) -> (r: Result<Event, Status>)
        ensures
            r is Ok <==> status.0 == 0,
            r is Ok ==> r->Ok_0 == event,
            r is Err ==> r->Err_0 == status,
    {
        reply(status, event)
    }

    /// Interprets the reply to `InstallProtocolInterface`. On success the
    /// handle the service filled in is handed out; any other status word
    /// is the error.
    pub fn install_protocol_interface(&self, status: Status, handle: Handle) -> (r: Result<
        Handle,
        Status,
    >)
        ensures
            r is Ok <==> status.0 == 0,
            r is Ok ==> r->Ok_0 == handle,
            r is Err ==> r->Err_0 == status,
    {
        reply(status, handle)
    }

    /// Interprets the reply to `SetTimer`. The reply becomes the
    /// result: success is `Ok`, any other status word is the error.
    pub fn set_timer(&self, status: Status) -> (r: Result<(), Status>)
        ensures
            r is Ok <==> status.0 == 0,
            r is Err ==> r->Err_0 == status,
    {
        status.to_result()
    }
    /// Interprets the reply to `WaitForEvent`; the index names the event that was signaled. On success the value the
    /// service filled in is handed out; any other status word is the error.
    pub fn wait_for_event(&self, status: Status, index: usize) -> (r: Result<usize, Status>)
        ensures
            r is Ok <==> status.0 == 0,
            r is Ok ==> r->Ok_0 == index,
            r is Err ==> r->Err_0 == status,
    {
        reply(status, index)
    }
    /// Interprets the reply to `SignalEvent`. The reply becomes the
    /// result: success is `Ok`, any other status word is the error.
    pub fn signal_event(&self, status: Status) -> (r: Result<(), Status>)
        ensures
            r is Ok <==> status.0 == 0,
            r is Err ==> r->Err_0 == status,
    {
        status.to_result()
    }
    /// Interprets the reply to `CloseEvent`. The reply becomes the
    /// result: success is `Ok`, any other status word is the error.
    pub fn close_event(&self, status: Status) -> (r: Result<(), Status>)
        ensures
            r is Ok <==> status.0 == 0,
            r is Err ==> r->Err_0 == status,
    {
        status.to_result()
    }
    /// Interprets the reply to `CheckEvent`. The reply becomes the
    /// result: success is `Ok`, any other status word is the error.
    pub fn check_event(&self, status: Status) -> (r: Result<(), Status>)
        ensures
            r is Ok <==> status.0 == 0,
            r is Err ==> r->Err_0 == status,
    {
        status.to_result()
    }
    /// Interprets the reply to `UninstallProtocolInterface`. The reply becomes the
    /// result: success is `Ok`, any other status word is the error.
    pub fn uninstall_protocol_interface(&self, status: Status) -> (r: Result<(), Status>)
        ensures
            r is Ok <==> status.0 == 0,
            r is Err ==> r->Err_0 == status,
    {
        status.to_result()
    }
    /// Interprets the reply to `InstallConfigurationTable`. The reply becomes the
    /// result: success is `Ok`, any other status word is the error.
    pub fn install_configuration_table(&self, status: Status) -> (r: Result<(), Status>)
        ensures
            r is Ok <==> status.0 == 0,
            r is Err ==> r->Err_0 == status,
    {
        status.to_result()
    }
    /// Interprets the reply to `Exit`. The reply becomes the
    /// result: success is `Ok`, any other status word is the error.
    pub fn exit(&self, status: Status) -> (r: Result<(), Status>)
        ensures
            r is Ok <==> status.0 == 0,
            r is Err ==> r->Err_0 == status,
    {
        status.to_result()
    }
    /// Interprets the reply to `UnloadImage`. The reply becomes the
    /// result: success is `Ok`, any other status word is the error.
    pub fn unload_image(&self, status: Status) -> (r: Result<(), Status>)
        ensures
            r is Ok <==> status.0 == 0,
            r is Err ==> r->Err_0 == status,
    {
        status.to_result()
    }
    /// Interprets the reply to `ExitBootServices`. The reply becomes the
    /// result: success is `Ok`, any other status word is the error.
    pub fn exit_boot_services(&self, status: Status) -> (r: Result<(), Status>)
        ensures
            r is Ok <==> status.0 == 0,
            r is Err ==> r->Err_0 == status,
    {
        status.to_result()
    }
    /// Interprets the reply to `GetNextMonotonicCount`. On success the value the
    /// service filled in is handed out; any other status word is the error.
    pub fn get_next_monotonic_count(&self, status: Status, count: u64) -> (r: Result<u64, Status>)
        ensures
            r is Ok <==> status.0 == 0,
            r is Ok ==> r->Ok_0 == count,
            r is Err ==> r->Err_0 == status,
    {
        reply(status, count)
    }
    /// Interprets the reply to `Stall`. The reply becomes the
    /// result: success is `Ok`, any other status word is the error.
    pub fn stall(&self, status: Status) -> (r: Result<(), Status>)
        ensures
            r is Ok <==> status.0 == 0,
            r is Err ==> r->Err_0 == status,
    {
        status.to_result()
    }
    /// Interprets the reply to `SetWatchdogTimer`. The reply becomes the
    /// result: success is `Ok`, any other status word is the error.
    pub fn set_watchdog_timer(&self, status: Status) -> (r: Result<(), Status>)
        ensures
            r is Ok <==> status.0 == 0,
            r is Err ==> r->Err_0 == status,
    {
        status.to_result()
    }
    /// Interprets the reply to `CalculateCrc32`. On success the value the
    /// service filled in is handed out; any other status word is the error.
    pub fn crc32(&self, status: Status, crc: u32) -> (r: Result<u32, Status>)
        ensures
            r is Ok <==> status.0 == 0,
            r is Ok ==> r->Ok_0 == crc,
            r is Err ==> r->Err_0 == status,
    {
        reply(status, crc)
    }
    /// Copies the first `size` bytes of `src` over the start of `dest`,
    /// what `CopyMem` does to the caller's buffers.
    pub fn copy_mem(&self, dest: &mut Vec<u8>, src: &Vec<u8>, size: usize)
        requires
            size <= old(dest)@.len(),
            size <= src@.len(),
        ensures
            final(dest)@.len() == old(dest)@.len(),
            forall|i: int| 0 <= i < size ==> final(dest)@[i] == src@[i],
            forall|i: int| size <= i < old(dest)@.len() ==> final(dest)@[i] == old(dest)@[i],
    {
        let mut i: usize = 0;
        while i < size
            invariant
                i <= size,
                size <= dest@.len(),
                size <= src@.len(),
                dest@.len() == old(dest)@.len(),
                forall|k: int| 0 <= k < i ==> dest@[k] == src@[k],
                forall|k: int| i <= k < old(dest)@.len() ==> dest@[k] == old(dest)@[k],
            decreases size - i,
        {
            let b = src[i];
            dest.set(i, b);
            i = i + 1;
        }
    }

    /// Fills the first `size` bytes of `buffer` with `value`, what
    /// `SetMem` does to the caller's buffer.
    pub fn set_mem(&self, buffer: &mut Vec<u8>, size: usize, value: u8)
        requires
            size <= old(buffer)@.len(),
        ensures
            final(buffer)@.len() == old(buffer)@.len(),
            forall|i: int| 0 <= i < size ==> final(buffer)@[i] == value,
            forall|i: int| size <= i < old(buffer)@.len() ==> final(buffer)@[i] == old(buffer)@[i],
    {
        let mut i: usize = 0;
        while i < size
            invariant
                i <= size,
                size <= buffer@.len(),
                buffer@.len() == old(buffer)@.len(),
                forall|k: int| 0 <= k < i ==> buffer@[k] == value,
                forall|k: int| i <= k < old(buffer)@.len() ==> buffer@[k] == old(buffer)@[k],
            decreases size - i,
        {
            buffer.set(i, value);
            i = i + 1;
        }
    }
}

} // verus!
