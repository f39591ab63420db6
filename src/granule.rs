use vstd::prelude::*;

verus! {

/// Size in bytes of the unit of physical memory whose ownership is tracked.
pub const GRANULE_SIZE: usize = 4096;

/// Ownership state of one granule.
#[derive(Debug, Clone, Copy, PartialEq, Eq, Structural)]
pub enum GranuleState {
    /// Owned by the host; the monitor holds no claim on it.
    Undelegated,
    /// Handed to the monitor but not yet given a purpose.
    Delegated,
    /// Holds a realm descriptor.
    RD,
    /// Holds a realm execution context.
    Rec,
    /// Auxiliary storage of a realm execution context.
    RecAux,
    /// Holds data of a realm.
    Data,
    /// Holds a level of a realm's translation table.
    RTT,
}

pub open spec fn spec_is_granule_aligned(addr: usize) -> bool {
    addr % GRANULE_SIZE == 0
}

/// The start of the granule that holds `addr`.
pub open spec fn spec_align_down(addr: usize) -> usize {
    (addr - addr % GRANULE_SIZE) as usize
}

pub fn is_granule_aligned(addr: usize) -> (r: bool)
    ensures
        r == spec_is_granule_aligned(addr),
{
    addr % GRANULE_SIZE == 0
}

pub fn align_down(addr: usize) -> (r: usize)
    ensures
        r == spec_align_down(addr),
        spec_is_granule_aligned(r),
        r <= addr < r + GRANULE_SIZE,
{
    let r = addr - addr % GRANULE_SIZE;
    assert(r % GRANULE_SIZE == 0) by {
        vstd::arithmetic::div_mod::lemma_sub_mod_noop(addr as int, (addr % GRANULE_SIZE) as int, GRANULE_SIZE as int);
    }
    r
}

/// The ownership state of every granule of physical memory. Granule `i`
/// starts at `i * GRANULE_SIZE`; the granules beyond those recorded are
/// `Undelegated`.
pub struct GranuleTable {
    states: Vec<GranuleState>,
}

impl View for GranuleTable {
    type V = Seq<GranuleState>;

    closed spec fn view(&self) -> Seq<GranuleState> {
        self.states@
    }
}

impl GranuleTable {
    /// The state of the granule that starts at `base`.
    pub open spec fn state_at(&self, base: usize) -> GranuleState {
        let i = base / GRANULE_SIZE;
        if i < self@.len() {
            self@[i as int]
        } else {
            GranuleState::Undelegated
        }
    }

    /// A table of `n` granules, all `Undelegated`.
    pub fn new(n: usize) -> (r: GranuleTable)
        ensures
            r@ == Seq::new(n as nat, |_i: int| GranuleState::Undelegated),
    {
        let mut states: Vec<GranuleState> = Vec::new();
        let mut i: usize = 0;
        while i < n
            invariant
                i <= n,
                states@ == Seq::new(i as nat, |_j: int| GranuleState::Undelegated),
            decreases n - i,
        {
            states.push(GranuleState::Undelegated);
            i = i + 1;
            assert(states@ =~= Seq::new(i as nat, |_j: int| GranuleState::Undelegated));
        }
        GranuleTable { states }
    }

    /// Records `state` for the granule that starts at `base`.
    pub fn set_state(&mut self, base: usize, state: GranuleState)
        requires
            spec_is_granule_aligned(base),
            base / GRANULE_SIZE < old(self)@.len(),
        ensures
            final(self)@ == old(self)@.update((base / GRANULE_SIZE) as int, state),
    {
        let i = base / GRANULE_SIZE;
        self.states.set(i, state);
    }

    /// The ownership state of the granule that starts at `base`.
    pub fn state_of(&self, base: usize) -> (r: GranuleState)
        ensures
            r == self.state_at(base),
    {
        let i = base / GRANULE_SIZE;
        if i < self.states.len() {
            self.states[i]
        } else {
            GranuleState::Undelegated
        }
    }
}

} // verus!
