//! The realm-service calls that read and change the RIPAS of guest pages.
//! `set` records a pending change and exits to the host; `complete` answers
//! the realm once the host has entered it again.
use vstd::prelude::*;
use vstd::arithmetic::power2::pow2;
use crate::error::Error;
use crate::granule::{is_granule_aligned, spec_is_granule_aligned};
use crate::rec::{Rec, RecView, RipasRequest, Run, rec_wf};

verus! {

/// Realm-service result: the call was carried out.
pub const RSI_SUCCESS: usize = 0;

/// Realm-service result: an argument was rejected.
pub const RSI_ERROR_INPUT: usize = 1;

/// Monitor result: exit to the host.
pub const RMI_SUCCESS: usize = 0;

/// Monitor result: enter the realm again without exiting to the host.
pub const RMI_SUCCESS_REC_ENTER: usize = 4;

/// Exit reason: the realm asked for a change of RIPAS.
pub const EXIT_RIPAS_CHANGE: u8 = 4;

/// RIPAS of a page that holds nothing.
pub const RIPAS_EMPTY: u8 = 0;

/// RIPAS of a page backed by RAM.
pub const RIPAS_RAM: u8 = 1;

/// Entry flag by which the host rejects the pending RIPAS change.
pub const REC_ENTRY_FLAG_RIPAS_RESPONSE: u64 = 16;

/// Answer to the realm: the host accepted the RIPAS change.
pub const RIPAS_ACCEPT: usize = 0;

/// Answer to the realm: the host rejected the RIPAS change.
pub const RIPAS_REJECT: usize = 1;

/// Whether `ipa` lies in the protected half of an address space of
/// `ipa_bits` bits.
pub open spec fn spec_is_protected_ipa(ipa: usize, ipa_bits: usize) -> bool {
    (ipa as int) < pow2((ipa_bits - 1) as nat)
}

/// Whether a register value names one of the two RIPAS values.
pub open spec fn spec_is_ripas_valid(ripas: usize) -> bool {
    ripas == RIPAS_EMPTY as usize || ripas == RIPAS_RAM as usize
}

/// Whether a realm may name `ipa` as a page of its own.
pub open spec fn spec_valid_ipa(ipa: usize, ipa_bits: usize) -> bool {
    spec_is_granule_aligned(ipa) && spec_is_protected_ipa(ipa, ipa_bits)
}

/// Whether a request to set `[start, end)` to `state` is accepted.
pub open spec fn ripas_request_ok(start: usize, end: usize, state: usize, ipa_bits: usize) -> bool {
    &&& start < end
    &&& spec_is_granule_aligned(start)
    &&& spec_is_granule_aligned(end)
    &&& spec_is_ripas_valid(state)
    &&& spec_is_protected_ipa(start, ipa_bits)
    &&& spec_is_protected_ipa((end - 1) as usize, ipa_bits)
}

/// The context with register 0 set to `code`, the rest as in `v`.
pub open spec fn with_result(v: RecView, code: usize) -> RecView {
    RecView { gprs: v.gprs.update(0, code), ..v }
}

pub fn is_protected_ipa(ipa: usize, ipa_bits: usize) -> (r: bool)
    requires
        1 <= ipa_bits <= 64,
    ensures
        r == spec_is_protected_ipa(ipa, ipa_bits),
{
    let shift = (ipa_bits - 1) as u64;
    proof {
        vstd::bits::lemma_u64_pow2_no_overflow(shift as nat);
        vstd::bits::lemma_u64_shl_is_mul(1u64, shift);
    }
    (ipa as u64) < (1u64 << shift)
}

pub fn validate_ipa(ipa: usize, ipa_bits: usize) -> (r: Result<(), Error>)
    requires
        1 <= ipa_bits <= 64,
    ensures
        r is Ok <==> spec_valid_ipa(ipa, ipa_bits),
        r is Err ==> r == Err::<(), Error>(Error::RmiErrorInput),
{
    if !is_granule_aligned(ipa) {
        return Err(Error::RmiErrorInput);
    }
    if !is_protected_ipa(ipa, ipa_bits) {
        return Err(Error::RmiErrorInput);
    }
    Ok(())
}

/// Whether the register value `ripas` is `RIPAS_EMPTY` or `RIPAS_RAM`; the
/// whole value counts, not only its low byte.
pub fn is_ripas_valid(ripas: usize) -> (r: bool)
    ensures
        r == spec_is_ripas_valid(ripas),
{
    ripas == RIPAS_EMPTY as usize || ripas == RIPAS_RAM as usize
}

/// Handles a realm's request to change the RIPAS of the range held in its
/// registers 1 (start) and 2 (end) to the state in register 3, with the
/// flags in register 4. A request that is empty, not granule-aligned, for
/// another state than empty or RAM, or not inside the protected range gets
/// `RSI_ERROR_INPUT` in register 0 and the realm is entered again. An
/// accepted one gets `RSI_SUCCESS` in register 0, is recorded as pending on
/// the context and on the run record, and the realm exits to the host for a
/// RIPAS change.
pub fn set_ripas_state(
    _arg: &[usize],
    ret: &mut [usize],
    rec: &mut Rec,
    run: &mut Run,
) -> (r: Result<(), Error>)
    requires
        old(rec).wf(),
        old(ret)@.len() >= 1,
    ensures
        r is Ok,
        final(rec).wf(),
        ({
            let v = old(rec)@;
            let start = v.gprs[1];
            let end = v.gprs[2];
            let state = v.gprs[3];
            let flags = v.gprs[4] as u64;
            if ripas_request_ok(start, end, state, v.ipa_bits) {
                &&& final(rec)@ == (RecView {
                    gprs: v.gprs.update(0, RSI_SUCCESS),
                    ripas: RipasRequest {
                        addr: start as u64,
                        end: end as u64,
                        state: state as u8,
                        flags,
                    },
                    ..v
                })
                &&& final(run).exit_reason == EXIT_RIPAS_CHANGE
                &&& final(run).ripas_base == start as u64
                &&& final(run).ripas_top == end as u64
                &&& final(run).ripas_value == state as u8
                &&& final(run).entry_flags == old(run).entry_flags
                &&& final(ret)@ == old(ret)@.update(0, RMI_SUCCESS)
            } else {
                &&& final(rec)@ == with_result(v, RSI_ERROR_INPUT)
                &&& *final(run) == *old(run)
                &&& final(ret)@ == old(ret)@.update(0, RMI_SUCCESS_REC_ENTER)
            }
        }),
{
    let ipa_bits = rec.ipa_bits();

    let ipa_start = rec.get_reg(1)?;
    let ipa_end = rec.get_reg(2)?;
    let ipa_state = rec.get_reg(3)?;
    let flags = rec.get_reg(4)? as u64;

    if ipa_end <= ipa_start {
        rec.set_reg(0, RSI_ERROR_INPUT)?;
        ret[0] = RMI_SUCCESS_REC_ENTER;
        return Ok(());
    }

    if !is_granule_aligned(ipa_start) || !is_granule_aligned(ipa_end) || !is_ripas_valid(ipa_state)
        || !is_protected_ipa(ipa_start, ipa_bits) || !is_protected_ipa(ipa_end - 1, ipa_bits) {
        rec.set_reg(0, RSI_ERROR_INPUT)?;
        ret[0] = RMI_SUCCESS_REC_ENTER;
        return Ok(());
    }

    let state = ipa_state as u8;
    rec.set_reg(0, RSI_SUCCESS)?;
    run.exit_reason = EXIT_RIPAS_CHANGE;
    run.ripas_base = ipa_start as u64;
    run.ripas_top = ipa_end as u64;
    run.ripas_value = state;
    rec.set_ripas(RipasRequest { addr: ipa_start as u64, end: ipa_end as u64, state, flags });
    ret[0] = RMI_SUCCESS;
    Ok(())
}

/// Handles a realm's query of the RIPAS of the page whose address is in its
/// register 1. `ripas_of` looks the page up in the realm's translation table.
/// An address that is not granule-aligned or not inside the protected range
/// gets `RSI_ERROR_INPUT` in register 0; otherwise register 0 gets
/// `RSI_SUCCESS` and register 1 the page's RIPAS. Either way the realm is
/// entered again. A failed lookup is returned as it came, with nothing
/// changed.
pub fn get_ripas_state<F>(
    _arg: &[usize],
    ret: &mut [usize],
    rec: &mut Rec,
    _run: &mut Run,
    ripas_of: F,
) -> (r: Result<(), Error>) where F: Fn(usize) -> Result<u8, Error>
    requires
        old(rec).wf(),
        old(ret)@.len() >= 1,
        forall|ipa: usize| ripas_of.requires((ipa,)),
    ensures
        final(rec).wf(),
        *final(_run) == *old(_run),
        ({
            let v = old(rec)@;
            let ipa = v.gprs[1];
            if !spec_valid_ipa(ipa, v.ipa_bits) {
                &&& r is Ok
                &&& final(rec)@ == with_result(v, RSI_ERROR_INPUT)
                &&& final(ret)@ == old(ret)@.update(0, RMI_SUCCESS_REC_ENTER)
            } else {
                match r {
                    Ok(_) => {
                        let ripas = final(rec)@.gprs[1];
                        &&& ripas < 256
                        &&& ripas_of.ensures((ipa,), Ok::<u8, Error>(ripas as u8))
                        &&& final(rec)@ == (RecView {
                            gprs: v.gprs.update(0, RSI_SUCCESS).update(1, ripas),
                            ..v
                        })
                        &&& final(ret)@ == old(ret)@.update(0, RMI_SUCCESS_REC_ENTER)
                    },
                    Err(e) => {
                        &&& ripas_of.ensures((ipa,), Err::<u8, Error>(e))
                        &&& final(rec)@ == v
                        &&& final(ret)@ == old(ret)@
                    },
                }
            }
        }),
{
    let ipa_bits = rec.ipa_bits();

    let ipa_page = rec.get_reg(1)?;
    if validate_ipa(ipa_page, ipa_bits).is_err() {
        let _ = rec.set_reg(0, RSI_ERROR_INPUT);
        ret[0] = RMI_SUCCESS_REC_ENTER;
        return Ok(());
    }

    let ripas = ripas_of(ipa_page)? as usize;

    let _ = rec.set_reg(0, RSI_SUCCESS);
    let _ = rec.set_reg(1, ripas);

    ret[0] = RMI_SUCCESS_REC_ENTER;
    Ok(())
}

/// Answers the realm once the host has handled its pending RIPAS change:
/// register 0 gets `RSI_SUCCESS`, register 1 the start of the range, and
/// register 2 `RIPAS_REJECT` when the host set the response flag on entry,
/// else `RIPAS_ACCEPT`. The pending change is then cleared. With none
/// pending nothing changes.
pub fn complete_ripas(rec: &mut Rec, run: &Run) -> (r: Result<(), Error>)
    requires
        old(rec).wf(),
    ensures
        r is Ok,
        final(rec).wf(),
        ({
            let v = old(rec)@;
            if v.ripas.end as usize > 0 {
                let answer = if run.entry_flags & REC_ENTRY_FLAG_RIPAS_RESPONSE != 0 {
                    RIPAS_REJECT
                } else {
                    RIPAS_ACCEPT
                };
                final(rec)@ == (RecView {
                    gprs: v.gprs.update(0, RSI_SUCCESS).update(1, v.ripas.addr as usize).update(
                        2,
                        answer,
                    ),
                    ripas: RipasRequest::none(),
                    ..v
                })
            } else {
                final(rec)@ == v
            }
        }),
{
    let pending = rec.ripas();
    let ripas_addr = pending.addr as usize;
    if pending.end as usize > 0 {
        rec.set_reg(0, RSI_SUCCESS)?;
        rec.set_reg(1, ripas_addr)?;
        if run.entry_flags & REC_ENTRY_FLAG_RIPAS_RESPONSE != 0 {
            rec.set_reg(2, RIPAS_REJECT)?;
        } else {
            rec.set_reg(2, RIPAS_ACCEPT)?;
        }
        rec.set_ripas(RipasRequest { addr: 0, end: 0, state: 0, flags: 0 });
    }
    Ok(())
}

} // verus!
