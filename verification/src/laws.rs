use vstd::prelude::*;

use crate::backend::MemoryBackend;
use crate::cell::read_view;
use crate::cell::written_mem;
use crate::cell::written_stored;
use crate::registry::Registry;

verus! {

/// Round trip: writing `v` and then reading at the same address observes
/// `v`, both with a backend installed and without one.
///
/// `stored`, `addr` and `backend_mem` are the cell's stored value, the
/// cell's address, and the backend's memory at the written width before
/// the write; the read sees the cell and backend state the write leaves
/// behind.
pub proof fn lemma_round_trip<T>(stored: T, addr: u32, backend_mem: Option<Map<u32, T>>, v: T)
    ensures
        read_view(written_stored(stored, v, backend_mem), addr, written_mem(addr, v, backend_mem))
            == v,
{
}

/// Backend precedence: with a backend installed, a read observes the
/// backend's value at the cell's address and nothing of the cell's own
/// storage, and a write goes to the backend alone, leaving the cell's own
/// storage exactly as it was.
pub proof fn lemma_backend_precedence<T>(stored: T, addr: u32, m: Map<u32, T>, v: T)
    ensures
        read_view(stored, addr, Some(m)) == m[addr],
        written_stored(stored, v, Some(m)) == stored,
        written_mem(addr, v, Some(m)) == Some(m.insert(addr, v)),
{
}

/// No backend fallback: with no backend installed, a read observes the
/// cell's own storage, and a write lands in the cell's own storage and
/// installs nothing.
pub proof fn lemma_no_backend_fallback<T>(stored: T, addr: u32, v: T)
    ensures
        read_view(stored, addr, None::<Map<u32, T>>) == stored,
        written_stored(stored, v, None::<Map<u32, T>>) == v,
        written_mem(addr, v, None::<Map<u32, T>>) is None,
{
}

/// Atomic replacement: a registry in which `b2` is installed observes
/// `b2` alone. Whatever backend was active before the installation, no
/// later access at either width reads anything but `b2`'s memory.
pub proof fn lemma_atomic_replacement<B: MemoryBackend>(
    r: Registry<B>,
    b2: B,
    stored8: u8,
    stored32: u32,
    addr: u32,
)
    requires
        r.current_spec() == Some(b2),
    ensures
        read_view(stored8, addr, r.mem8_view()) == b2.mem8()[addr],
        read_view(stored32, addr, r.mem32_view()) == b2.mem32()[addr],
{
}

/// Width isolation: a backed write lands at the written address alone.
/// Every other address of a well-formed backend's memory at that width
/// keeps its value (the contracts of the access operations already state
/// that the other width's whole view is untouched).
pub proof fn lemma_write_isolated<B: MemoryBackend>(b: B, addr: u32, other: u32, v8: u8, v32: u32)
    requires
        b.wf(),
        addr != other,
    ensures
        written_mem(addr, v8, Some(b.mem8()))->Some_0[other] == b.mem8()[other],
        written_mem(addr, v32, Some(b.mem32()))->Some_0[other] == b.mem32()[other],
{
    b.wf_total();
    assert(b.mem8().dom().contains(other));
    assert(b.mem32().dom().contains(other));
}

} // verus!
