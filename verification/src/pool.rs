//! The memory admission controller: a fixed byte budget that grants or denies
//! reservations and never lets the granted total exceed its capacity.

use crate::config::Config;
use vstd::prelude::*;

verus! {

/// `sysinfo::System`, the handle through which the machine's memory figures
/// are read. Nothing inside it is visible to the proofs.
#[verifier::external_type_specification]
#[verifier::external_body]
pub struct ExSystem(sysinfo::System);

/// `sysinfo::System::new_all` builds a handle with everything loaded. Nothing
/// is claimed of it.
pub assume_specification[ sysinfo::System::new_all ]() -> (system: sysinfo::System)
;

/// `sysinfo::System::refresh_memory` reads the memory figures again. Nothing
/// is claimed of the handle afterwards.
pub assume_specification[ sysinfo::System::refresh_memory ](system: &mut sysinfo::System)
;

/// `sysinfo::System::available_memory` reports the bytes of memory available
/// for use. The figure depends on the machine, so nothing is claimed of it.
pub assume_specification[ sysinfo::System::available_memory ](system: &sysinfo::System) -> (bytes:
    u64)
;

/// Capacity used when the machine reports less available memory than the
/// reserved floor.
pub const MINIMUM_POOL_BYTES: usize = 104_857_600;

/// The pool ratio is given in parts per million: this value stands for 1.0.
pub const RATIO_SCALE: u32 = 1_000_000;

/// Mathematical model of a pool: a capacity and the bytes currently granted.
pub struct PoolState {
    pub capacity: nat,
    pub allocated: nat,
}

impl PoolState {
    /// The capacity invariant.
    pub open spec fn wf(self) -> bool {
        self.allocated <= self.capacity
    }

    /// A pool of the given capacity with nothing granted.
    pub open spec fn empty(capacity: nat) -> PoolState {
        PoolState { capacity, allocated: 0 }
    }

    /// Whether a reservation of `size` bytes fits.
    pub open spec fn grants(self, size: nat) -> bool {
        self.allocated + size <= self.capacity
    }

    /// The pool after an attempt to reserve `size` bytes: a denied attempt
    /// leaves it unchanged.
    pub open spec fn reserve(self, size: nat) -> PoolState {
        if self.grants(size) {
            PoolState { capacity: self.capacity, allocated: self.allocated + size }
        } else {
            self
        }
    }

    /// The pool after `size` bytes are given back. Giving back more than is
    /// granted empties the pool.
    pub open spec fn release(self, size: nat) -> PoolState {
        PoolState {
            capacity: self.capacity,
            allocated: if size <= self.allocated {
                (self.allocated - size) as nat
            } else {
                0
            },
        }
    }
}

/// Bytes in one mebibyte.
pub const MEBIBYTE: u64 = 1_048_576;

/// The capacity of a pool on a machine with `available` bytes of memory, of
/// which `reserved` are left to others: the given share of the rest, or the
/// minimum when less than the reserved floor is available. A capacity that a
/// `usize` cannot hold is cut to the largest `usize`.
pub open spec fn pool_capacity(available: nat, reserved: nat, ratio_ppm: nat) -> nat {
    if available < reserved {
        MINIMUM_POOL_BYTES as nat
    } else {
        let share = ((available - reserved) * ratio_ppm / (RATIO_SCALE as int)) as nat;
        if share <= usize::MAX {
            share
        } else {
            usize::MAX as nat
        }
    }
}

/// The capacity that `config` asks for when `available` bytes are available.
pub open spec fn configured_capacity(config: Config, available: nat) -> nat {
    pool_capacity(
        available,
        config.reserved_memory_mb as nat * MEBIBYTE as nat,
        config.memory_pool_ratio_ppm as nat,
    )
}

/// Computes [`pool_capacity`].
pub fn compute_pool_capacity(available: u64, reserved: u64, ratio_ppm: u32) -> (capacity: usize)
    ensures
        capacity == pool_capacity(available as nat, reserved as nat, ratio_ppm as nat),
{
    if available < reserved {
        MINIMUM_POOL_BYTES
    } else {
        let usable: u128 = (available - reserved) as u128;
        let ratio: u128 = ratio_ppm as u128;
        assert(usable * ratio <= 0xffff_ffff_ffff_ffff * 0xffff_ffff) by (nonlinear_arith)
            requires
                0 <= usable <= 0xffff_ffff_ffff_ffff,
                0 <= ratio <= 0xffff_ffff,
        ;
        let share: u128 = usable * ratio / (RATIO_SCALE as u128);
        if share <= usize::MAX as u128 {
            share as usize
        } else {
            usize::MAX
        }
    }
}

/// The granted total after a reservation of `size` bytes is granted by a pool
/// of `capacity` bytes that has `allocated` bytes granted, or `None` when the
/// reservation does not fit. This is the whole admission decision; a caller
/// that keeps the total in an atomic counter applies it in a compare-and-swap
/// loop.
pub fn reserved_total(allocated: usize, capacity: usize, size: usize) -> (total: Option<usize>)
    ensures
        total is Some <==> allocated + size <= capacity,
        total is Some ==> total->0 == allocated + size,
{
    match allocated.checked_add(size) {
        Some(sum) => if sum <= capacity {
            Some(sum)
        } else {
            None
        },
        None => None,
    }
}

/// The granted total after `size` bytes are given back.
pub fn released_total(allocated: usize, size: usize) -> (total: usize)
    ensures
        total == if size <= allocated {
            allocated - size
        } else {
            0
        },
{
    if size <= allocated {
        allocated - size
    } else {
        0
    }
}

/// A memory pool with an injected capacity.
pub struct MemoryPool {
    capacity: usize,
    allocated: usize,
}

impl View for MemoryPool {
    type V = PoolState;

    closed spec fn view(&self) -> PoolState {
        PoolState { capacity: self.capacity as nat, allocated: self.allocated as nat }
    }
}

impl MemoryPool {
    #[verifier::type_invariant]
    pub closed spec fn inv(self) -> bool {
        self.allocated <= self.capacity
    }

    /// The invariant of the type, stated of the model.
    pub proof fn lemma_inv(self)
        requires
            self.inv(),
        ensures
            self@.wf(),
    {
    }

    /// An empty pool of `capacity` bytes.
    pub fn new(capacity: usize) -> (pool: MemoryPool)
        ensures
            pool@ == PoolState::empty(capacity as nat),
    {
        MemoryPool { capacity, allocated: 0 }
    }

    /// An empty pool sized by `config` for a machine with `available` bytes
    /// of available memory.
    pub fn with_available_memory(config: &Config, available: u64) -> (pool: MemoryPool)
        ensures
            pool@ == PoolState::empty(configured_capacity(*config, available as nat)),
    {
        let capacity = match config.reserved_memory_mb.checked_mul(MEBIBYTE) {
            Some(reserved) => compute_pool_capacity(
                available,
                reserved,
                config.memory_pool_ratio_ppm,
            ),
            None => MINIMUM_POOL_BYTES,
        };
        MemoryPool::new(capacity)
    }

    /// The byte budget.
    pub fn capacity(&self) -> (bytes: usize)
        ensures
            bytes == self@.capacity,
    {
        self.capacity
    }

    /// The bytes currently granted, never more than the capacity.
    pub fn allocated(&self) -> (bytes: usize)
        ensures
            bytes == self@.allocated,
            self@.wf(),
    {
        proof {
            use_type_invariant(self);
        }
        self.allocated
    }
}

/// Builds the pool at startup: reads the available memory of the machine and
/// sizes the pool for it as `config` asks. Whatever the machine reports, the
/// pool is empty and its capacity is the configured one for that figure.
pub fn initialize_memory_pool(config: &Config) -> (pool: MemoryPool)
    ensures
        pool@.allocated == 0,
        exists|available: u64| pool@.capacity == configured_capacity(*config, available as nat),
{
    let mut system = sysinfo::System::new_all();
    system.refresh_memory();
    let available = system.available_memory();
    MemoryPool::with_available_memory(config, available)
}

/// Tries to reserve `size` bytes. The reservation is granted exactly when it
/// fits beside what is already granted; a denied attempt changes nothing.
pub fn try_allocate_memory(pool: &mut MemoryPool, size: usize) -> (granted: bool)
    ensures
        granted == old(pool)@.grants(size as nat),
        final(pool)@ == old(pool)@.reserve(size as nat),
        final(pool)@.wf(),
{
    proof {
        use_type_invariant(&*pool);
    }
    match reserved_total(pool.allocated, pool.capacity, size) {
        Some(total) => {
            pool.allocated = total;
            true
        },
        None => false,
    }
}

/// Gives `size` bytes back to the pool. It always succeeds.
pub fn deallocate_memory(pool: &mut MemoryPool, size: usize)
    ensures
        final(pool)@ == old(pool)@.release(size as nat),
        final(pool)@.wf(),
{
    proof {
        use_type_invariant(&*pool);
    }
    pool.allocated = released_total(pool.allocated, size);
}

/// One call made on a pool.
pub enum PoolCall {
    TryReserve(nat),
    Release(nat),
}

/// The sum of a list of grant sizes.
pub open spec fn total(grants: Seq<nat>) -> nat
    decreases grants.len(),
{
    if grants.len() == 0 {
        0
    } else {
        total(grants.drop_last()) + grants.last()
    }
}

/// A pool beside the grants that are outstanding: the reservations that were
/// granted and have not been given back.
pub struct Ledger {
    pub pool: PoolState,
    pub grants: Seq<nat>,
}

impl Ledger {
    /// An empty pool with nothing outstanding.
    pub open spec fn start(capacity: nat) -> Ledger {
        Ledger { pool: PoolState::empty(capacity), grants: Seq::empty() }
    }

    /// A call is orderly when it is a reservation attempt, or gives back one
    /// outstanding grant.
    pub open spec fn accepts(self, call: PoolCall) -> bool {
        match call {
            PoolCall::TryReserve(_) => true,
            PoolCall::Release(size) => self.grants.contains(size),
        }
    }

    /// The ledger after one call.
    pub open spec fn step(self, call: PoolCall) -> Ledger {
        match call {
            PoolCall::TryReserve(size) => Ledger {
                pool: self.pool.reserve(size),
                grants: if self.pool.grants(size) {
                    self.grants.push(size)
                } else {
                    self.grants
                },
            },
            PoolCall::Release(size) => Ledger {
                pool: self.pool.release(size),
                grants: if self.grants.contains(size) {
                    self.grants.remove(self.grants.index_of(size))
                } else {
                    self.grants
                },
            },
        }
    }

    /// The ledger after a sequence of calls, in order.
    pub open spec fn run(self, calls: Seq<PoolCall>) -> Ledger
        decreases calls.len(),
    {
        if calls.len() == 0 {
            self
        } else {
            self.run(calls.drop_last()).step(calls.last())
        }
    }

    /// Every call of the sequence is orderly at the moment it is made.
    pub open spec fn orderly(self, calls: Seq<PoolCall>) -> bool
        decreases calls.len(),
    {
        calls.len() == 0 || (self.orderly(calls.drop_last()) && self.run(
            calls.drop_last(),
        ).accepts(calls.last()))
    }

    /// The granted total is the sum of the outstanding grants.
    pub open spec fn balanced(self) -> bool {
        self.pool.allocated == total(self.grants)
    }
}

proof fn lemma_total_push(grants: Seq<nat>, size: nat)
    ensures
        total(grants.push(size)) == total(grants) + size,
{
    assert(grants.push(size).drop_last() =~= grants);
}

proof fn lemma_total_remove(grants: Seq<nat>, index: int)
    requires
        0 <= index < grants.len(),
    ensures
        total(grants.remove(index)) + grants[index] == total(grants),
    decreases grants.len(),
{
    if index == grants.len() - 1 {
        assert(grants.remove(index) =~= grants.drop_last());
    } else {
        lemma_total_remove(grants.drop_last(), index);
        assert(grants.remove(index).drop_last() =~= grants.drop_last().remove(index));
    }
}

/// Whatever calls are made on a pool, orderly or not, the granted total never
/// exceeds the capacity: not at the end, and not after any call on the way.
pub proof fn lemma_capacity_never_exceeded(capacity: nat, calls: Seq<PoolCall>, upto: int)
    requires
        0 <= upto <= calls.len(),
    ensures
        Ledger::start(capacity).run(calls.take(upto)).pool.wf(),
        Ledger::start(capacity).run(calls.take(upto)).pool.capacity == capacity,
    decreases upto,
{
    let prefix = calls.take(upto);
    if upto > 0 {
        lemma_capacity_never_exceeded(capacity, calls, upto - 1);
        assert(prefix.drop_last() =~= calls.take(upto - 1));
    }
}

/// After any orderly sequence of calls on an empty pool the granted total is
/// the sum of the outstanding grants.
pub proof fn lemma_allocated_is_outstanding(capacity: nat, calls: Seq<PoolCall>)
    requires
        Ledger::start(capacity).orderly(calls),
    ensures
        Ledger::start(capacity).run(calls).balanced(),
    decreases calls.len(),
{
    if calls.len() > 0 {
        lemma_allocated_is_outstanding(capacity, calls.drop_last());
        let before = Ledger::start(capacity).run(calls.drop_last());
        match calls.last() {
            PoolCall::TryReserve(size) => {
                lemma_total_push(before.grants, size);
            },
            PoolCall::Release(size) => {
                let index = before.grants.index_of(size);
                lemma_total_remove(before.grants, index);
            },
        }
    }
}

} // verus!
