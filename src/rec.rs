//! The execution context of one realm vCPU and the run record shared with
//! the host.
use vstd::prelude::*;
use crate::error::Error;

verus! {

/// Number of general-purpose registers of a realm vCPU.
pub const NR_GPRS: usize = 32;

/// A change of RIPAS that a realm asked for and the host has not answered.
/// All fields zero means that none is pending.
#[derive(Debug, Clone, Copy, PartialEq, Eq, Structural)]
pub struct RipasRequest {
    /// First address of the range.
    pub addr: u64,
    /// First address past the range.
    pub end: u64,
    /// The RIPAS asked for.
    pub state: u8,
    /// The flags that came with the request.
    pub flags: u64,
}

impl RipasRequest {
    pub open spec fn none() -> RipasRequest {
        RipasRequest { addr: 0, end: 0, state: 0, flags: 0 }
    }
}

/// The realm execution context of one vCPU.
pub struct Rec {
    realm_id: usize,
    vcpu_id: usize,
    ipa_bits: usize,
    gprs: Vec<usize>,
    ripas: RipasRequest,
}

/// What a realm execution context holds.
pub struct RecView {
    pub realm_id: usize,
    pub vcpu_id: usize,
    /// Width in bits of the realm's guest-physical address space.
    pub ipa_bits: usize,
    pub gprs: Seq<usize>,
    pub ripas: RipasRequest,
}

impl View for Rec {
    type V = RecView;

    closed spec fn view(&self) -> RecView {
        RecView {
            realm_id: self.realm_id,
            vcpu_id: self.vcpu_id,
            ipa_bits: self.ipa_bits,
            gprs: self.gprs@,
            ripas: self.ripas,
        }
    }
}

/// The register file and the address width a context is made with, which
/// every method keeps.
pub open spec fn rec_wf(v: RecView) -> bool {
    &&& v.gprs.len() == NR_GPRS
    &&& 1 <= v.ipa_bits <= 64
}

impl Rec {
    pub open spec fn wf(&self) -> bool {
        rec_wf(self@)
    }

    /// A context with every register zero and no pending RIPAS change, or
    /// `RmiErrorInput` when `ipa_bits` is not a width from 1 to 64.
    pub fn new(realm_id: usize, vcpu_id: usize, ipa_bits: usize) -> (r: Result<Rec, Error>)
        ensures
            r is Ok <==> 1 <= ipa_bits <= 64,
            r is Err ==> r == Err::<Rec, Error>(Error::RmiErrorInput),
            r matches Ok(rec) ==> {
                &&& rec.wf()
                &&& rec@.realm_id == realm_id
                &&& rec@.vcpu_id == vcpu_id
                &&& rec@.ipa_bits == ipa_bits
                &&& rec@.gprs == Seq::new(NR_GPRS as nat, |_i: int| 0usize)
                &&& rec@.ripas == RipasRequest::none()
            },
    {
        if ipa_bits < 1 || ipa_bits > 64 {
            return Err(Error::RmiErrorInput);
        }
        let mut gprs: Vec<usize> = Vec::new();
        let mut i: usize = 0;
        while i < NR_GPRS
            invariant
                i <= NR_GPRS,
                gprs@ == Seq::new(i as nat, |_j: int| 0usize),
            decreases NR_GPRS - i,
        {
            gprs.push(0);
            i = i + 1;
            assert(gprs@ =~= Seq::new(i as nat, |_j: int| 0usize));
        }
        Ok(Rec { realm_id, vcpu_id, ipa_bits, gprs, ripas: RipasRequest { addr: 0, end: 0, state: 0, flags: 0 } })
    }

    pub fn realmid(&self) -> (r: usize)
        ensures
            r == self@.realm_id,
    {
        self.realm_id
    }

    pub fn vcpuid(&self) -> (r: usize)
        ensures
            r == self@.vcpu_id,
    {
        self.vcpu_id
    }

    pub fn ipa_bits(&self) -> (r: usize)
        ensures
            r == self@.ipa_bits,
    {
        self.ipa_bits
    }

    /// Register `idx`, or `RmiErrorInput` when there is no such register.
    pub fn get_reg(&self, idx: usize) -> (r: Result<usize, Error>)
        ensures
            idx < self@.gprs.len() ==> r == Ok::<usize, Error>(self@.gprs[idx as int]),
            idx >= self@.gprs.len() ==> r == Err::<usize, Error>(Error::RmiErrorInput),
    {
        if idx < self.gprs.len() {
            Ok(self.gprs[idx])
        } else {
            Err(Error::RmiErrorInput)
        }
    }

    /// Writes `val` into register `idx`, or fails with `RmiErrorInput`,
    /// changing nothing, when there is no such register.
    pub fn set_reg(&mut self, idx: usize, val: usize) -> (r: Result<(), Error>)
        ensures
            idx < old(self)@.gprs.len() ==> r is Ok && final(self)@ == (RecView {
                gprs: old(self)@.gprs.update(idx as int, val),
                ..old(self)@
            }),
            idx >= old(self)@.gprs.len() ==> r == Err::<(), Error>(Error::RmiErrorInput)
                && final(self)@ == old(self)@,
    {
        if idx < self.gprs.len() {
            self.gprs.set(idx, val);
            Ok(())
        } else {
            Err(Error::RmiErrorInput)
        }
    }

    /// The pending RIPAS change.
    pub fn ripas(&self) -> (r: RipasRequest)
        ensures
            r == self@.ripas,
    {
        self.ripas
    }

    /// Records `req` as the pending RIPAS change.
    pub fn set_ripas(&mut self, req: RipasRequest)
        ensures
            final(self)@ == (RecView { ripas: req, ..old(self)@ }),
    {
        self.ripas = req;
    }
}

/// The run record through which the monitor and the host exchange the state
/// of a realm vCPU on each entry and exit.
pub struct Run {
    /// Why the realm last exited to the host.
    pub exit_reason: u8,
    /// First address of the RIPAS change the realm asked for.
    pub ripas_base: u64,
    /// First address past that range.
    pub ripas_top: u64,
    /// The RIPAS asked for.
    pub ripas_value: u8,
    /// Flags the host passed on the latest entry.
    pub entry_flags: u64,
}

impl Run {
    /// A record with every field zero but `entry_flags`.
    pub fn new(entry_flags: u64) -> (r: Run)
        ensures
            r.exit_reason == 0,
            r.ripas_base == 0,
            r.ripas_top == 0,
            r.ripas_value == 0,
            r.entry_flags == entry_flags,
    {
        Run { exit_reason: 0, ripas_base: 0, ripas_top: 0, ripas_value: 0, entry_flags }
    }
}

} // verus!
