//! The only sanctioned path from a caller-supplied address to a typed view of
//! the memory there: an address is checked once by [`verify`], which hands
//! out a [`SafetyAssumed`] token, and the token alone opens the memory for the
//! span of a closure.
use vstd::prelude::*;
use vstd::hash_map::HashMapWithView;
use crate::granule::{GranuleState, GranuleTable, spec_align_down};

verus! {

broadcast use vstd::std_specs::hash::group_hash_axioms;

/// The machine word size in bytes, which is the alignment every overlay
/// address is checked against.
pub const WORD_SIZE: usize = 8;

pub open spec fn spec_is_word_aligned(addr: usize) -> bool {
    addr % WORD_SIZE == 0
}

/// A type that can be laid over memory at an address. Its values are held
/// by [`PhysMem`], and nothing outside this module reads them but the scoped
/// access of a [`SafetyAssumed`] token.
pub trait RawPtr: Sized {
}

/// The checks that code performs by itself before an overlay may be used.
pub trait SafetyChecked: RawPtr {
    /// The granule states in which an overlay of this type may be accessed.
    spec fn accepts(state: GranuleState) -> bool;

    fn is_not_null(addr: usize) -> (r: bool)
        ensures
            r == (addr != 0),
    {
        addr != 0
    }

    /// Machine-word alignment, not the overlay type's own alignment.
    fn is_aligned(addr: usize) -> (r: bool)
        ensures
            r == spec_is_word_aligned(addr),
    {
        addr % WORD_SIZE == 0
    }

    /// Whether the granule that holds `addr` is in a state this overlay type
    /// accepts. It only reads the table.
    fn has_permission(addr: usize, granules: &GranuleTable) -> (r: bool)
        ensures
            r == Self::accepts(granules.state_at(spec_align_down(addr))),
    ;
}

/// The facts that no code can check and that the implementer asserts, each
/// with the reasoning written beside it.
pub trait SafetyAssured {
    spec fn spec_initialized(addr: usize) -> bool;

    spec fn spec_lifetime(addr: usize) -> bool;

    spec fn spec_ownership(addr: usize) -> bool;

    /// Every byte of the overlay at `addr` holds a defined value.
    fn initialized(addr: usize) -> (r: bool)
        ensures
            r == Self::spec_initialized(addr),
    ;

    /// The memory at `addr` outlives every access made through a token.
    fn lifetime(addr: usize) -> (r: bool)
        ensures
            r == Self::spec_lifetime(addr),
    ;

    /// Nobody else reads or writes the memory at `addr` during an access.
    fn ownership(addr: usize) -> (r: bool)
        ensures
            r == Self::spec_ownership(addr),
    ;
}

/// Whether `addr` passes every check for an overlay of type `T`.
pub open spec fn passes_checks<T: SafetyChecked + SafetyAssured>(
    granules: &GranuleTable,
    addr: usize,
) -> bool {
    &&& addr != 0
    &&& spec_is_word_aligned(addr)
    &&& T::accepts(granules.state_at(spec_align_down(addr)))
    &&& T::spec_initialized(addr)
    &&& T::spec_lifetime(addr)
    &&& T::spec_ownership(addr)
}

/// The overlays of type `T` that lie in physical memory, by address.
#[verifier::reject_recursive_types(T)]
pub struct PhysMem<T> {
    objs: HashMapWithView<usize, T>,
}

impl<T> View for PhysMem<T> {
    type V = Map<usize, T>;

    closed spec fn view(&self) -> Map<usize, T> {
        self.objs@
    }
}

impl<T> PhysMem<T> {
    /// Memory that holds no overlay.
    pub fn new() -> (r: PhysMem<T>)
        ensures
            r@ == Map::<usize, T>::empty(),
    {
        PhysMem { objs: HashMapWithView::new() }
    }

    /// Lays `obj` over memory at `addr`, in place of what was there.
    pub fn place(&mut self, addr: usize, obj: T)
        ensures
            final(self)@ == old(self)@.insert(addr, obj),
    {
        self.objs.insert(addr, obj);
    }

    /// Whether an overlay lies at `addr`.
    pub fn contains(&self, addr: usize) -> (r: bool)
        ensures
            r == self@.contains_key(addr),
    {
        self.objs.contains_key(&addr)
    }
}

/// Proof that an address passed every check. It holds the address alone, so
/// it may be kept and used for several accesses; it is made by [`verify`]
/// and nowhere else.
pub struct SafetyAssumed {
    addr: usize,
}

impl View for SafetyAssumed {
    type V = usize;

    closed spec fn view(&self) -> usize {
        self.addr
    }
}

/// Checks `addr` for an overlay of type `T` and, when every check passes,
/// returns a token for it. Every check runs, whatever the earlier ones gave.
pub fn verify<T: SafetyChecked + SafetyAssured>(granules: &GranuleTable, addr: usize) -> (r:
    Option<SafetyAssumed>)
    ensures
        r is Some <==> passes_checks::<T>(granules, addr),
        r is Some ==> addr != 0 && spec_is_word_aligned(addr) && T::accepts(
            granules.state_at(spec_align_down(addr)),
        ),
        r matches Some(token) ==> token@ == addr,
{
    let not_null = T::is_not_null(addr);
    let aligned = T::is_aligned(addr);
    let permitted = T::has_permission(addr, granules);
    let initialized = T::initialized(addr);
    let lifetime = T::lifetime(addr);
    let ownership = T::ownership(addr);
    let checked = not_null && aligned && permitted;
    let assured = initialized && lifetime && ownership;
    if checked && assured {
        Some(SafetyAssumed { addr })
    } else {
        None
    }
}

impl SafetyAssumed {
    /// The address that was checked.
    pub fn addr(&self) -> (r: usize)
        ensures
            r == self@,
    {
        self.addr
    }

    /// Calls `f` on the overlay at the token's address and returns what it
    /// returns; the reference lives for the call of `f` alone.
    pub fn with<T, F, R>(&self, mem: &PhysMem<T>, f: F) -> (r: R) where
        T: SafetyChecked + SafetyAssured,
        F: Fn(&T) -> R,

        requires
            mem@.contains_key(self@),
            f.requires((&mem@[self@],)),
        ensures
            f.ensures((&mem@[self@],), r),
    {
        let obj = mem.objs.get(&self.addr).unwrap();
        f(obj)
    }

    /// Hands the overlay at the token's address to `f`, which returns it,
    /// changed or not, together with a result. The overlay it returns takes
    /// the place of the old one, and the result is returned.
    pub fn mut_with<T, F, R>(&self, mem: &mut PhysMem<T>, f: F) -> (r: R) where
        T: SafetyChecked + SafetyAssured,
        F: Fn(T) -> (T, R),

        requires
            old(mem)@.contains_key(self@),
            f.requires((old(mem)@[self@],)),
        ensures
            final(mem)@.contains_key(self@),
            f.ensures((old(mem)@[self@],), (final(mem)@[self@], r)),
            final(mem)@ == old(mem)@.insert(self@, final(mem)@[self@]),
    {
        let obj = mem.objs.remove(&self.addr).unwrap();
        let (obj, r) = f(obj);
        mem.objs.insert(self.addr, obj);
        r
    }
}

} // verus!
