//! The host-call record: a message that a realm places in one of its data
//! granules for the host.
use vstd::prelude::*;
use crate::error::Error;
use crate::granule::{align_down, GranuleState, GranuleTable, GRANULE_SIZE};
use crate::raw_ptr::{RawPtr, SafetyAssured, SafetyChecked};

verus! {

/// Number of general-purpose register slots in a host call.
pub const HOST_CALL_NR_GPRS: usize = 7;

/// Bytes between the immediate and the register slots.
pub const HOST_CALL_PADDING0: usize = 6;

/// Bytes after the register slots, up to the end of the granule.
pub const HOST_CALL_PADDING1: usize = 4032;

/// Bytes that the fields of a host call take: the 16-bit immediate, the two
/// padding regions and the 64-bit register slots.
pub const HOST_CALL_SIZE: usize = 2 + HOST_CALL_PADDING0 + 8 * HOST_CALL_NR_GPRS
    + HOST_CALL_PADDING1;

/// The host-call record, field by field as the calling convention lays it
/// out: the immediate at offset 0, padding, the register slots, padding.
pub struct HostCall {
    imm: u16,
    padding0: [u8; HOST_CALL_PADDING0],
    gprs: [u64; HOST_CALL_NR_GPRS],
    padding1: [u8; HOST_CALL_PADDING1],
}

/// What a host call holds: its immediate, its register slots and the two
/// padding regions, which belong to the layout as much as the fields do.
pub struct HostCallView {
    pub imm: u16,
    pub padding0: Seq<u8>,
    pub gprs: Seq<u64>,
    pub padding1: Seq<u8>,
}

impl View for HostCall {
    type V = HostCallView;

    closed spec fn view(&self) -> HostCallView {
        HostCallView {
            imm: self.imm,
            padding0: self.padding0@,
            gprs: self.gprs@,
            padding1: self.padding1@,
        }
    }
}

/// The fields of a host call fill one granule exactly.
pub proof fn lemma_host_call_fills_granule()
    ensures
        HOST_CALL_SIZE == GRANULE_SIZE,
{
}

/// Every host call has `HOST_CALL_NR_GPRS` register slots and padding
/// regions of their fixed sizes.
pub proof fn lemma_host_call_shape(h: &HostCall)
    ensures
        h@.gprs.len() == HOST_CALL_NR_GPRS,
        h@.padding0.len() == HOST_CALL_PADDING0,
        h@.padding1.len() == HOST_CALL_PADDING1,
{
}

impl HostCall {
    /// A record with immediate `imm`, zero in every register slot.
    pub fn new(imm: u16) -> (r: HostCall)
        ensures
            r@.imm == imm,
            r@.gprs == Seq::new(HOST_CALL_NR_GPRS as nat, |_i: int| 0u64),
            r@.padding0 == Seq::new(HOST_CALL_PADDING0 as nat, |_i: int| 0u8),
            r@.padding1 == Seq::new(HOST_CALL_PADDING1 as nat, |_i: int| 0u8),
    {
        let r = HostCall {
            imm,
            padding0: [0u8; HOST_CALL_PADDING0],
            gprs: [0u64; HOST_CALL_NR_GPRS],
            padding1: [0u8; HOST_CALL_PADDING1],
        };
        assert(r.gprs@ =~= Seq::new(HOST_CALL_NR_GPRS as nat, |_i: int| 0u64));
        assert(r.padding0@ =~= Seq::new(HOST_CALL_PADDING0 as nat, |_i: int| 0u8));
        assert(r.padding1@ =~= Seq::new(HOST_CALL_PADDING1 as nat, |_i: int| 0u8));
        r
    }

    /// Writes `val` into register slot `idx`, or fails with
    /// `RmiErrorInput`, leaving the record as it was, when there is no such
    /// slot. The immediate, the other slots and the padding stay as they were.
    pub fn set_gpr(&mut self, idx: usize, val: u64) -> (r: Result<(), Error>)
        ensures
            old(self)@.gprs.len() == HOST_CALL_NR_GPRS,
            final(self)@.gprs.len() == HOST_CALL_NR_GPRS,
            idx < HOST_CALL_NR_GPRS ==> r is Ok && final(self)@ == (HostCallView {
                gprs: old(self)@.gprs.update(idx as int, val),
                ..old(self)@
            }),
            idx < HOST_CALL_NR_GPRS ==> final(self)@.gprs[idx as int] == val,
            idx >= HOST_CALL_NR_GPRS ==> r == Err::<(), Error>(Error::RmiErrorInput)
                && final(self)@ == old(self)@,
    {
        if idx >= HOST_CALL_NR_GPRS {
            return Err(Error::RmiErrorInput);
        }
        self.gprs[idx] = val;
        Ok(())
    }

    /// The immediate that names the call.
    pub fn imm(&self) -> (r: u16)
        ensures
            r == self@.imm,
    {
        self.imm
    }

    /// The value in register slot `idx`.
    pub fn gpr(&self, idx: usize) -> (r: Option<u64>)
        ensures
            self@.gprs.len() == HOST_CALL_NR_GPRS,
            idx < HOST_CALL_NR_GPRS ==> r == Some(self@.gprs[idx as int]),
            idx >= HOST_CALL_NR_GPRS ==> r is None,
    {
        if idx < HOST_CALL_NR_GPRS {
            Some(self.gprs[idx])
        } else {
            None
        }
    }
}

impl RawPtr for HostCall {
}

impl SafetyChecked for HostCall {
    open spec fn accepts(state: GranuleState) -> bool {
        state == GranuleState::Data
    }

    fn has_permission(addr: usize, granules: &GranuleTable) -> (r: bool) {
        let base = align_down(addr);
        granules.state_of(base) == GranuleState::Data
    }
}

impl SafetyAssured for HostCall {
    open spec fn spec_initialized(addr: usize) -> bool {
        true
    }

    open spec fn spec_lifetime(addr: usize) -> bool {
        true
    }

    open spec fn spec_ownership(addr: usize) -> bool {
        true
    }

    fn initialized(addr: usize) -> (r: bool) {
        // A host call lies in a data granule, and the platform wipes every
        // granule when it is handed out, so each byte of it is defined.
        true
    }

    fn lifetime(addr: usize) -> (r: bool) {
        // A data granule cannot be reclaimed while the realm that owns it is
        // inside a call to the monitor, and a token lives no longer than the
        // handling of one call.
        true
    }

    fn ownership(addr: usize) -> (r: bool) {
        // The realm holds read and write permission on the granule but cannot
        // use it from the moment it makes the call until the call returns,
        // and the host cannot reach a data granule at all, so the monitor is
        // the one user of this memory for the span of an access.
        true
    }
}

} // verus!
