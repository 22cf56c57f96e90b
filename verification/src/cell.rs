use vstd::prelude::*;

use crate::backend::MemoryBackend;
use crate::registry::Registry;

verus! {

/// A container for one register-sized value that is only ever accessed
/// through explicit read and write operations, never by an access the
/// surrounding code could merge away.
///
/// The cell owns one value and carries the 32-bit numeric address its
/// storage stands at. When a backend is installed in the registry that an
/// access consults, the access is redirected to the backend at that
/// address and the cell's own storage is left alone; otherwise the access
/// goes to the cell's own storage. The cell itself never synchronizes:
/// one logical owner per address is the caller's responsibility.
pub struct VolatileCell<T> {
    value: T,
    addr: u32,
}

/// A cell accessed through the backend's 8-bit operations.
pub type VolatileCell8 = VolatileCell<u8>;

/// A cell accessed through the backend's 32-bit operations.
pub type VolatileCell32 = VolatileCell<u32>;

/// What a read at `addr` observes: the backend's value when a backend is
/// installed, else the cell's own stored value.
pub open spec fn read_view<T>(stored: T, addr: u32, backend_mem: Option<Map<u32, T>>) -> T {
    match backend_mem {
        Some(m) => m[addr],
        None => stored,
    }
}

/// The cell's stored value after a write: unchanged when a backend is
/// installed (the backend alone absorbs the write), else the written value.
pub open spec fn written_stored<T>(stored: T, value: T, backend_mem: Option<Map<u32, T>>) -> T {
    match backend_mem {
        Some(_) => stored,
        None => value,
    }
}

/// The backend's memory after a write at `addr`: updated at `addr` alone
/// when a backend is installed, untouched (still absent) otherwise.
pub open spec fn written_mem<T>(addr: u32, value: T, backend_mem: Option<Map<u32, T>>) -> Option<
    Map<u32, T>,
> {
    match backend_mem {
        Some(m) => Some(m.insert(addr, value)),
        None => None,
    }
}

impl<T> VolatileCell<T> {
    /// The value held in the cell's own storage.
    pub closed spec fn value_spec(&self) -> T {
        self.value
    }

    /// The 32-bit numeric address of the cell's storage.
    pub closed spec fn addr_spec(&self) -> u32 {
        self.addr
    }

    /// Creates a new `VolatileCell` containing the given value, at
    /// address zero.
    pub fn new(value: T) -> (r: Self)
        ensures
            r.value_spec() == value,
            r.addr_spec() == 0,
    {
        VolatileCell { value, addr: 0 }
    }

    /// Creates a new `VolatileCell` containing the given value, whose
    /// storage stands at the given address.
    pub fn new_at(addr: u32, value: T) -> (r: Self)
        ensures
            r.value_spec() == value,
            r.addr_spec() == addr,
    {
        VolatileCell { value, addr }
    }

    /// Returns the numeric address of the cell's own storage, whether or
    /// not a backend is installed. Does not consult or affect the
    /// registry.
    pub fn as_ptr(&self) -> (r: u32)
        ensures
            r == self.addr_spec(),
    {
        self.addr
    }
}

impl VolatileCell<u8> {
    /// Returns the value the cell currently observes: the backend's byte
    /// at the cell's address when a backend is installed, else a copy of
    /// the cell's own stored value. Always uses the backend's 8-bit read.
    pub fn get<B: MemoryBackend>(&self, registry: &mut Registry<B>) -> (value: u8)
        requires
            old(registry).wf(),
        ensures
            final(registry).wf(),
            value == read_view(self.value_spec(), self.addr_spec(), old(registry).mem8_view()),
            final(registry).mem8_view() == old(registry).mem8_view(),
            final(registry).mem32_view() == old(registry).mem32_view(),
            !old(registry).has_backend() ==> *final(registry) == *old(registry),
    {
        match registry.backend_read8(self.addr) {
            Some(v) => v,
            None => self.value,
        }
    }

    /// Sets the value the cell observes: writes the backend's byte at the
    /// cell's address when a backend is installed, leaving the cell's own
    /// storage untouched, else writes the cell's own storage. Always uses
    /// the backend's 8-bit write.
    pub fn set<B: MemoryBackend>(&mut self, registry: &mut Registry<B>, value: u8)
        requires
            old(registry).wf(),
        ensures
            final(registry).wf(),
            final(self).addr_spec() == old(self).addr_spec(),
            final(self).value_spec() == written_stored(
                old(self).value_spec(),
                value,
                old(registry).mem8_view(),
            ),
            final(registry).mem8_view() == written_mem(
                old(self).addr_spec(),
                value,
                old(registry).mem8_view(),
            ),
            final(registry).mem32_view() == old(registry).mem32_view(),
            old(registry).has_backend() ==> *final(self) == *old(self),
            !old(registry).has_backend() ==> *final(registry) == *old(registry),
    {
        let handled = registry.backend_write8(self.addr, value);
        if !handled {
            self.value = value;
        }
    }
}

impl VolatileCell<u32> {
    /// Returns the value the cell currently observes: the backend's
    /// 32-bit value at the cell's address when a backend is installed,
    /// else a copy of the cell's own stored value. Always uses the
    /// backend's 32-bit read.
    pub fn get<B: MemoryBackend>(&self, registry: &mut Registry<B>) -> (value: u32)
        requires
            old(registry).wf(),
        ensures
            final(registry).wf(),
            value == read_view(self.value_spec(), self.addr_spec(), old(registry).mem32_view()),
            final(registry).mem8_view() == old(registry).mem8_view(),
            final(registry).mem32_view() == old(registry).mem32_view(),
            !old(registry).has_backend() ==> *final(registry) == *old(registry),
    {
        match registry.backend_read32(self.addr) {
            Some(v) => v,
            None => self.value,
        }
    }

    /// Sets the value the cell observes: writes the backend's 32-bit
    /// value at the cell's address when a backend is installed, leaving
    /// the cell's own storage untouched, else writes the cell's own
    /// storage. Always uses the backend's 32-bit write.
    pub fn set<B: MemoryBackend>(&mut self, registry: &mut Registry<B>, value: u32)
        requires
            old(registry).wf(),
        ensures
            final(registry).wf(),
            final(self).addr_spec() == old(self).addr_spec(),
            final(self).value_spec() == written_stored(
                old(self).value_spec(),
                value,
                old(registry).mem32_view(),
            ),
            final(registry).mem32_view() == written_mem(
                old(self).addr_spec(),
                value,
                old(registry).mem32_view(),
            ),
            final(registry).mem8_view() == old(registry).mem8_view(),
            old(registry).has_backend() ==> *final(self) == *old(self),
            !old(registry).has_backend() ==> *final(registry) == *old(registry),
    {
        let handled = registry.backend_write32(self.addr, value);
        if !handled {
            self.value = value;
        }
    }
}

} // verus!
