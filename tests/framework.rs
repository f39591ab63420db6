use safe_abstraction::granule::{align_down, is_granule_aligned, GranuleState, GranuleTable, GRANULE_SIZE};
use safe_abstraction::hostcall::{HostCall, HOST_CALL_NR_GPRS, HOST_CALL_SIZE};
use safe_abstraction::raw_ptr::{verify, PhysMem, SafetyAssumed};
use safe_abstraction::error::Error;

const DATA_GRANULE: usize = 0x3000;

fn table_with_data_granule() -> GranuleTable {
    let mut g = GranuleTable::new(8);
    g.set_state(DATA_GRANULE, GranuleState::Data);
    g.set_state(0x5000, GranuleState::RTT);
    g
}

#[test]
fn attest_verify() {
    let granules = table_with_data_granule();
    let mut mem = PhysMem::new();
    mem.place(DATA_GRANULE, HostCall::new(0x2a));
    let token = verify::<HostCall>(&granules, DATA_GRANULE).unwrap();
    assert_eq!(token.with(&mem, |h: &HostCall| h.imm()), 0x2a);
}

#[test]
fn verify_null_address_gives_nothing() {
    let mut granules = GranuleTable::new(4);
    granules.set_state(0, GranuleState::Data);
    assert!(verify::<HostCall>(&granules, 0).is_none());
}

#[test]
fn verify_data_granule_gives_token_and_with_reads_imm() {
    let granules = table_with_data_granule();
    let mut mem = PhysMem::new();
    mem.place(DATA_GRANULE + 0x40, HostCall::new(0x1234));
    let token: SafetyAssumed = verify::<HostCall>(&granules, DATA_GRANULE + 0x40).unwrap();
    assert_eq!(token.addr(), DATA_GRANULE + 0x40);
    assert_eq!(token.with(&mem, |h: &HostCall| h.imm()), 0x1234);
    // A token may be used more than once.
    assert_eq!(token.with(&mem, |h: &HostCall| h.gpr(0)), Some(0));
}

#[test]
fn verify_rejects_misaligned_address() {
    let granules = table_with_data_granule();
    assert!(verify::<HostCall>(&granules, DATA_GRANULE + 4).is_none());
    assert!(verify::<HostCall>(&granules, DATA_GRANULE + 1).is_none());
}

#[test]
fn verify_accepts_word_aligned_address_inside_data_granule() {
    let granules = table_with_data_granule();
    assert!(verify::<HostCall>(&granules, DATA_GRANULE + 8).is_some());
    assert!(verify::<HostCall>(&granules, DATA_GRANULE + GRANULE_SIZE - 8).is_some());
}

#[test]
fn verify_rejects_granules_in_other_states() {
    let granules = table_with_data_granule();
    assert!(verify::<HostCall>(&granules, 0x1000).is_none());
    assert!(verify::<HostCall>(&granules, 0x5000).is_none());
    assert!(verify::<HostCall>(&granules, DATA_GRANULE + GRANULE_SIZE).is_none());
    // Past the recorded granules everything is undelegated.
    assert!(verify::<HostCall>(&granules, 0x100000).is_none());
}

#[test]
fn mut_with_keeps_what_the_closure_returns() {
    let granules = table_with_data_granule();
    let mut mem = PhysMem::new();
    mem.place(DATA_GRANULE, HostCall::new(7));
    let token = verify::<HostCall>(&granules, DATA_GRANULE).unwrap();
    let r = token.mut_with(&mut mem, |mut h: HostCall| {
        let r = h.set_gpr(3, 0xdead_beef);
        (h, r)
    });
    assert_eq!(r, Ok(()));
    assert_eq!(token.with(&mem, |h: &HostCall| h.gpr(3)), Some(0xdead_beef));
    assert_eq!(token.with(&mem, |h: &HostCall| h.gpr(2)), Some(0));
    assert_eq!(token.with(&mem, |h: &HostCall| h.imm()), 7);
}

#[test]
fn set_gpr_changes_one_slot_only() {
    let mut h = HostCall::new(0x55);
    assert_eq!(h.set_gpr(2, 11), Ok(()));
    assert_eq!(h.imm(), 0x55);
    for i in 0..HOST_CALL_NR_GPRS {
        assert_eq!(h.gpr(i), Some(if i == 2 { 11 } else { 0 }));
    }
}

#[test]
fn set_gpr_rejects_index_past_the_slots() {
    let mut h = HostCall::new(1);
    assert_eq!(h.set_gpr(HOST_CALL_NR_GPRS, 5), Err(Error::RmiErrorInput));
    assert_eq!(h.set_gpr(HOST_CALL_NR_GPRS - 1, 5), Ok(()));
    assert_eq!(h.gpr(HOST_CALL_NR_GPRS - 1), Some(5));
    assert_eq!(h.gpr(HOST_CALL_NR_GPRS), None);
}

#[test]
fn host_call_fills_one_granule() {
    assert_eq!(HOST_CALL_SIZE, GRANULE_SIZE);
    assert_eq!(std::mem::size_of::<HostCall>(), GRANULE_SIZE);
}

#[test]
fn granule_alignment_helpers() {
    assert!(is_granule_aligned(0));
    assert!(is_granule_aligned(0x7000));
    assert!(!is_granule_aligned(0x7008));
    assert_eq!(align_down(0x7fff), 0x7000);
    assert_eq!(align_down(0x7000), 0x7000);
}

#[test]
fn granule_table_reports_states() {
    let granules = table_with_data_granule();
    assert_eq!(granules.state_of(DATA_GRANULE), GranuleState::Data);
    assert_eq!(granules.state_of(0x5000), GranuleState::RTT);
    assert_eq!(granules.state_of(0), GranuleState::Undelegated);
    assert_eq!(granules.state_of(0x100000), GranuleState::Undelegated);
}

#[test]
fn phys_mem_reports_what_was_placed() {
    let mut mem = PhysMem::new();
    assert!(!mem.contains(0x1000));
    mem.place(0x1000, HostCall::new(0));
    assert!(mem.contains(0x1000));
    assert!(!mem.contains(0x2000));
}
