//! Identifiers of guest threads, and the counter that hands them out.

use vstd::prelude::*;
use vstd::std_specs::convert::FromSpecImpl;

verus! {

/// Identifier of a thread that a guest spawned.
#[derive(Debug, Clone, Copy, PartialEq, Eq, Structural, Hash)]
pub struct WasiThreadId(pub u32);

impl WasiThreadId {
    /// The identifier as a number.
    pub fn raw(&self) -> (id: u32)
        ensures
            id == self.0,
    {
        self.0
    }
}

impl From<u32> for WasiThreadId {
    fn from(id: u32) -> (thread: Self)
    {
        WasiThreadId(id)
    }
}

impl FromSpecImpl<u32> for WasiThreadId {
    open spec fn obeys_from_spec() -> bool {
        true
    }

    open spec fn from_spec(id: u32) -> Self {
        WasiThreadId(id)
    }
}

impl From<WasiThreadId> for u32 {
    fn from(thread: WasiThreadId) -> (id: u32)
    {
        thread.0
    }
}

impl FromSpecImpl<WasiThreadId> for u32 {
    open spec fn obeys_from_spec() -> bool {
        true
    }

    open spec fn from_spec(thread: WasiThreadId) -> u32 {
        thread.0
    }
}

/// The number of different thread ids.
pub open spec fn thread_id_space() -> int {
    0x1_0000_0000
}

/// The id that a counter which started at `seed` hands out after `n` earlier
/// increments. The counter wraps on overflow.
pub open spec fn nth_thread_id(seed: u32, n: nat) -> WasiThreadId {
    WasiThreadId(((seed + n) % thread_id_space()) as u32)
}

/// A wrapping counter repeats no id within its first 2^32 increments,
/// whatever value it started at.
pub proof fn lemma_counter_ids_distinct(seed: u32, i: nat, j: nat)
    requires
        i < thread_id_space(),
        j < thread_id_space(),
        i != j,
    ensures
        nth_thread_id(seed, i) != nth_thread_id(seed, j),
{
}

} // verus!
