//! Userspace client logic for an embedded-controller management interface
//! exposed by a kernel driver as a control-file device node.
//!
//! This crate holds the verified core: marshalling structured requests into
//! the driver's fixed packed wire layout, decoding the driver's reported
//! outcome, building notifier and event descriptors, and parsing the
//! self-delimiting event-frame stream under arbitrary read chunking. The
//! surrounding process concerns — opening the device node, issuing the raw
//! control call, blocking and cooperative reads — live outside it and hand
//! it plain values.

use vstd::prelude::*;

pub mod event;
pub mod uapi;

pub use event::Event;

verus! {

/// The well-known device-node path of the control file; an explicit path
/// may be given instead when opening.
pub const DEFAULT_DEVICE_FILE_PATH: &'static str = "/dev/surface/aggregator";

/// A structured control request as the caller states it; marshalled into a
/// wire request block for one control call and not retained.
#[derive(Debug, Clone, Copy, PartialEq, Eq, Structural)]
pub struct Request {
    pub target_category: u8,
    pub target_id: u8,
    pub command_id: u8,
    pub instance_id: u8,
    pub flags: u16,
}

/// Identifies which commands toggle a class of events.
#[derive(Debug, Clone, Copy, PartialEq, Eq, Structural)]
pub struct EventRegistry {
    pub target_category: u8,
    pub target_id: u8,
    pub cid_enable: u8,
    pub cid_disable: u8,
}

/// Identifies a specific event source instance.
#[derive(Debug, Clone, Copy, PartialEq, Eq, Structural)]
pub struct EventId {
    pub target_category: u8,
    pub instance: u8,
}

/// Combined enable/disable request unit: registry, id, and flags.
#[derive(Debug, Clone, Copy, PartialEq, Eq, Structural)]
pub struct EventDescriptor {
    pub reg: EventRegistry,
    pub id: EventId,
    pub flags: u8,
}

/// What a public operation of this crate can fail with.
#[derive(Debug, Clone, Copy, PartialEq, Eq, Structural)]
pub enum Error {
    /// The caller's input was rejected before any system interaction: the
    /// payload was longer than the 16-bit wire length field can carry.
    InvalidInput,
    /// An operating-system-level failure, carrying the errno-style code:
    /// either the control-call transport failed, or the driver reported a
    /// negative status.
    Os(i32),
}

impl Error {
    /// The errno-style code of an OS-level failure, if this is one.
    pub fn raw_os_error(&self) -> (r: Option<i32>)
        ensures
            r == (match *self {
                Error::Os(code) => Some(code),
                Error::InvalidInput => None::<i32>,
            }),
    {
        match *self {
            Error::Os(code) => Some(code),
            Error::InvalidInput => None,
        }
    }
}

/// The errno-style code a negative driver status stands for: the kernel
/// convention is that a status of `-n` reports errno `n`.
pub open spec fn spec_driver_error_code(status: i16) -> i32 {
    (-(status as int)) as i32
}

impl From<&EventRegistry> for uapi::EventRegistry {
    /// The wire mirror of an `EventRegistry`: the same four bytes.
    fn from(reg: &EventRegistry) -> (r: Self) {
        uapi::EventRegistry {
            target_category: reg.target_category,
            target_id: reg.target_id,
            cid_enable: reg.cid_enable,
            cid_disable: reg.cid_disable,
        }
    }
}

impl vstd::std_specs::convert::FromSpecImpl<&EventRegistry> for uapi::EventRegistry {
    open spec fn obeys_from_spec() -> bool {
        true
    }

    open spec fn from_spec(reg: &EventRegistry) -> Self {
        uapi::EventRegistry {
            target_category: reg.target_category,
            target_id: reg.target_id,
            cid_enable: reg.cid_enable,
            cid_disable: reg.cid_disable,
        }
    }
}

impl From<&EventId> for uapi::EventId {
    /// The wire mirror of an `EventId`: the same two bytes.
    fn from(id: &EventId) -> (r: Self) {
        uapi::EventId { target_category: id.target_category, instance: id.instance }
    }
}

impl vstd::std_specs::convert::FromSpecImpl<&EventId> for uapi::EventId {
    open spec fn obeys_from_spec() -> bool {
        true
    }

    open spec fn from_spec(id: &EventId) -> Self {
        uapi::EventId { target_category: id.target_category, instance: id.instance }
    }
}

impl From<&EventDescriptor> for uapi::EventDesc {
    /// The wire mirror of an `EventDescriptor`: registry, id and flags,
    /// field for field.
    fn from(desc: &EventDescriptor) -> (r: Self) {
        uapi::EventDesc {
            reg: uapi::EventRegistry::from(&desc.reg),
            id: uapi::EventId::from(&desc.id),
            flags: desc.flags,
        }
    }
}

impl vstd::std_specs::convert::FromSpecImpl<&EventDescriptor> for uapi::EventDesc {
    open spec fn obeys_from_spec() -> bool {
        true
    }

    open spec fn from_spec(desc: &EventDescriptor) -> Self {
        uapi::EventDesc {
            reg: uapi::EventRegistry {
                target_category: desc.reg.target_category,
                target_id: desc.reg.target_id,
                cid_enable: desc.reg.cid_enable,
                cid_disable: desc.reg.cid_disable,
            },
            id: uapi::EventId {
                target_category: desc.id.target_category,
                instance: desc.id.instance,
            },
            flags: desc.flags,
        }
    }
}

/// Marshals a structured request into the wire request block for one
/// control call, given the lengths of the caller's payload and response
/// buffers and their raw addresses.
///
/// A payload longer than the 16-bit wire field can carry is rejected here,
/// before any system interaction. A long response buffer is not rejected:
/// its length is clamped to the largest representable value — the response
/// is simply allowed to fill less of the buffer. On success every field of
/// the block is pinned: the four identifying bytes and the flags verbatim,
/// a zeroed status for the driver to write, the buffer addresses (zero
/// for an empty buffer, irrespective of clamping), the exact lengths, and
/// zeroed reserved padding.
pub fn build_request_block(
    desc: &Request,
    payload_len: usize,
    payload_addr: u64,
    response_len: usize,
    response_addr: u64,
) -> (r: Result<uapi::Request, Error>)
    ensures
        payload_len > 0xffff <==> r == Result::<uapi::Request, Error>::Err(Error::InvalidInput),
        payload_len <= 0xffff ==> (r matches Ok(b)
            && b.target_category == desc.target_category
            && b.target_id == desc.target_id
            && b.command_id == desc.command_id
            && b.instance_id == desc.instance_id
            && b.flags == desc.flags
            && b.status == 0
            && b.payload.data == (if payload_len == 0 { 0u64 } else { payload_addr })
            && b.payload.length == payload_len as u16
            && b.payload.__pad@ == seq![0u8, 0u8, 0u8, 0u8, 0u8, 0u8]
            && b.response.data == (if response_len == 0 { 0u64 } else { response_addr })
            && b.response.length == (if response_len > 0xffff { 0xffffu16 } else { response_len as u16 })
            && b.response.__pad@ == seq![0u8, 0u8, 0u8, 0u8, 0u8, 0u8]),
{
    if payload_len > 0xffff {
        return Err(Error::InvalidInput);
    }
    let block = uapi::Request {
        target_category: desc.target_category,
        target_id: desc.target_id,
        command_id: desc.command_id,
        instance_id: desc.instance_id,
        flags: desc.flags,
        status: 0,
        payload: uapi::RequestPayload {
            data: if payload_len == 0 { 0 } else { payload_addr },
            length: payload_len as u16,
            __pad: [0u8, 0u8, 0u8, 0u8, 0u8, 0u8],
        },
        response: uapi::RequestResponse {
            data: if response_len == 0 { 0 } else { response_addr },
            length: if response_len > 0xffff { 0xffff } else { response_len as u16 },
            __pad: [0u8, 0u8, 0u8, 0u8, 0u8, 0u8],
        },
    };
    proof {
        assert(block.payload.__pad@ =~= seq![0u8, 0u8, 0u8, 0u8, 0u8, 0u8]);
        assert(block.response.__pad@ =~= seq![0u8, 0u8, 0u8, 0u8, 0u8, 0u8]);
    }
    Ok(block)
}

/// Decodes the outcome of one request control call from what the
/// transport reported and what the driver wrote back into the block.
///
/// A transport failure takes precedence and is returned as is: the block's
/// status is stale in that case and is never consulted. On transport
/// success, a non-negative status means the call completed and the
/// driver's written-back response length counts the valid response bytes;
/// a negative status is a driver-reported error and surfaces as the OS
/// error whose code it names.
pub fn decode_request_outcome(transport: Result<(), i32>, status: i16, response_length: u16) -> (r:
    Result<u16, Error>)
    ensures
        transport matches Err(e) ==> r == Result::<u16, Error>::Err(Error::Os(e)),
        transport is Ok && status >= 0 ==> r == Result::<u16, Error>::Ok(response_length),
        transport is Ok && status < 0 ==> r == Result::<u16, Error>::Err(
            Error::Os(spec_driver_error_code(status)),
        ),
{
    match transport {
        Err(e) => Err(Error::Os(e)),
        Ok(()) => {
            if status >= 0 {
                Ok(response_length)
            } else {
                Err(Error::Os(-(status as i32)))
            }
        },
    }
}

/// Builds the wire descriptor that registers interest in a category of
/// events at the given dispatch priority.
///
/// This layer keeps no registration state and adds no deduplication:
/// registering the same category twice builds and submits two equal
/// descriptors, and what the driver makes of the repetition is the
/// driver's contract, not this crate's.
pub fn notifier_register_desc(target_category: u8, priority: i32) -> (d: uapi::NotifierDesc)
    ensures
        d.priority == priority,
        d.target_category == target_category,
{
    uapi::NotifierDesc { priority, target_category }
}

/// Builds the wire descriptor that withdraws interest in a category of
/// events. The driver ignores the priority on unregistration, so it is
/// sent as zero.
///
/// As with registration, no state is kept here: unregistering builds and
/// submits this descriptor whether or not anything was registered.
pub fn notifier_unregister_desc(target_category: u8) -> (d: uapi::NotifierDesc)
    ensures
        d.priority == 0,
        d.target_category == target_category,
{
    uapi::NotifierDesc { priority: 0, target_category }
}

/// Decodes the outcome of a write-only control call (notifier
/// registration and unregistration, event enable and disable): these carry
/// no response payload, so the call succeeds exactly when the transport
/// did, and a transport failure surfaces as the OS error it reported.
pub fn decode_control_outcome(transport: Result<(), i32>) -> (r: Result<(), Error>)
    ensures
        transport matches Err(e) ==> r == Result::<(), Error>::Err(Error::Os(e)),
        transport is Ok ==> r == Result::<(), Error>::Ok(()),
{
    match transport {
        Err(e) => Err(Error::Os(e)),
        Ok(()) => Ok(()),
    }
}

} // verus!
