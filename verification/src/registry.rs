use vstd::prelude::*;

use crate::backend::MemoryBackend;
use crate::cell::written_mem;

verus! {

/// The slot that decides where cell accesses go: it holds the currently
/// active memory-access backend, or none.
///
/// It starts out empty, and installation replaces the whole slot, never
/// merges. The registry is an explicit handle that the caller threads to
/// wherever cells are read or written; sharing one registry between
/// several execution contexts needs external synchronization, which is
/// deliberately left to the caller.
pub struct Registry<B> {
    backend: Option<B>,
}

impl<B: MemoryBackend> Registry<B> {
    /// The installed backend, or `None` when the registry is in
    /// direct-memory mode.
    pub closed spec fn current_spec(&self) -> Option<B> {
        self.backend
    }

    /// A registry is well formed when the installed backend, if any, is.
    pub open spec fn wf(&self) -> bool {
        match self.current_spec() {
            Some(b) => b.wf(),
            None => true,
        }
    }

    /// Whether a backend is installed.
    pub open spec fn has_backend(&self) -> bool {
        self.current_spec() is Some
    }

    /// The installed backend's 8-bit address space, or `None` in
    /// direct-memory mode.
    pub open spec fn mem8_view(&self) -> Option<Map<u32, u8>> {
        match self.current_spec() {
            Some(b) => Some(b.mem8()),
            None => None,
        }
    }

    /// The installed backend's 32-bit address space, or `None` in
    /// direct-memory mode.
    pub open spec fn mem32_view(&self) -> Option<Map<u32, u32>> {
        match self.current_spec() {
            Some(b) => Some(b.mem32()),
            None => None,
        }
    }

    /// Creates a registry with no backend installed.
    pub fn new() -> (r: Self)
        ensures
            r.current_spec() is None,
    {
        Registry { backend: None }
    }

    /// Installs `backend`, unconditionally replacing whatever was active
    /// before. After this call every access on every cell that consults
    /// this registry goes to `backend`, old and new cells alike.
    pub fn install(&mut self, backend: B)
        requires
            backend.wf(),
        ensures
            final(self).current_spec() == Some(backend),
            final(self).wf(),
    {
        self.backend = Some(backend);
    }

    /// Returns the active backend, or `None` if none was ever installed.
    pub fn current(&self) -> (r: Option<&B>)
        ensures
            match r {
                Some(b) => self.current_spec() == Some(*b),
                None => self.current_spec() is None,
            },
    {
        match &self.backend {
            Some(b) => Some(b),
            None => None,
        }
    }

    /// Reads the byte at `addr` through the active backend, or returns
    /// `None` when no backend is installed (the caller then reads its own
    /// storage instead).
    pub fn backend_read8(&mut self, addr: u32) -> (r: Option<u8>)
        requires
            old(self).wf(),
        ensures
            final(self).wf(),
            final(self).mem8_view() == old(self).mem8_view(),
            final(self).mem32_view() == old(self).mem32_view(),
            r is Some <==> old(self).has_backend(),
            r is Some ==> r->Some_0 == old(self).mem8_view()->Some_0[addr],
            r is None ==> *final(self) == *old(self),
    {
        match &mut self.backend {
            Some(b) => Some(b.read8(addr)),
            None => None,
        }
    }

    /// Writes `value` to the byte at `addr` through the active backend.
    /// Returns whether a backend absorbed the write; when it returns
    /// `false` nothing was written anywhere and the caller writes its own
    /// storage instead.
    pub fn backend_write8(&mut self, addr: u32, value: u8) -> (handled: bool)
        requires
            old(self).wf(),
        ensures
            final(self).wf(),
            handled == old(self).has_backend(),
            final(self).mem8_view() == written_mem(addr, value, old(self).mem8_view()),
            final(self).mem32_view() == old(self).mem32_view(),
            !old(self).has_backend() ==> *final(self) == *old(self),
    {
        match &mut self.backend {
            Some(b) => {
                b.write8(addr, value);
                true
            },
            None => false,
        }
    }

    /// Reads the 32-bit value at `addr` through the active backend, or
    /// returns `None` when no backend is installed.
    pub fn backend_read32(&mut self, addr: u32) -> (r: Option<u32>)
        requires
            old(self).wf(),
        ensures
            final(self).wf(),
            final(self).mem8_view() == old(self).mem8_view(),
            final(self).mem32_view() == old(self).mem32_view(),
            r is Some <==> old(self).has_backend(),
            r is Some ==> r->Some_0 == old(self).mem32_view()->Some_0[addr],
            r is None ==> *final(self) == *old(self),
    {
        match &mut self.backend {
            Some(b) => Some(b.read32(addr)),
            None => None,
        }
    }

    /// Writes the 32-bit `value` to `addr` through the active backend.
    /// Returns whether a backend absorbed the write.
    pub fn backend_write32(&mut self, addr: u32, value: u32) -> (handled: bool)
        requires
            old(self).wf(),
        ensures
            final(self).wf(),
            handled == old(self).has_backend(),
            final(self).mem32_view() == written_mem(addr, value, old(self).mem32_view()),
            final(self).mem8_view() == old(self).mem8_view(),
            !old(self).has_backend() ==> *final(self) == *old(self),
    {
        match &mut self.backend {
            Some(b) => {
                b.write32(addr, value);
                true
            },
            None => false,
        }
    }

    /// Removes and returns the active backend, putting the registry back
    /// into direct-memory mode.
    pub fn take(&mut self) -> (r: Option<B>)
        ensures
            r == old(self).current_spec(),
            final(self).current_spec() is None,
    {
        self.backend.take()
    }
}

/// Overrides the active memory interface: installs `interface` in
/// `registry`, so that every subsequent cell access that consults
/// `registry` is redirected to it.
pub fn set_memory_interface<B: MemoryBackend>(registry: &mut Registry<B>, interface: B)
    requires
        interface.wf(),
    ensures
        final(registry).current_spec() == Some(interface),
        final(registry).wf(),
{
    registry.install(interface);
}

} // verus!
