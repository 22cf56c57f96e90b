use std::collections::HashMap;
use vstd::prelude::*;

verus! {

broadcast use vstd::std_specs::hash::group_hash_axioms;

/// The capability set of an external memory-access backend: infallible,
/// address-based reads and writes at 8-bit and 32-bit widths.
///
/// A backend stands for a memory space that lives outside the cells that
/// use it, typically a simulated address space driven by an emulator or a
/// test harness. Its observable state is one total map per access width,
/// from 32-bit address to value; the two width views are independent.
/// Reads take `&mut self` so that an implementation may keep bookkeeping
/// of its own (such as an access log), but they must leave both width
/// views unchanged, and a write at one width must leave the other width's
/// view unchanged.
pub trait MemoryBackend: Sized {
    /// The 8-bit view of the backend's address space.
    spec fn mem8(&self) -> Map<u32, u8>;

    /// The 32-bit view of the backend's address space.
    spec fn mem32(&self) -> Map<u32, u32>;

    /// Well-formedness of the backend's internal state.
    spec fn wf(&self) -> bool;

    /// A well-formed backend is total: every address can be read at
    /// either width.
    proof fn wf_total(&self)
        requires
            self.wf(),
        ensures
            self.mem8().dom() == Set::<u32>::full(),
            self.mem32().dom() == Set::<u32>::full(),
    ;

    /// Reads the byte at `addr`.
    fn read8(&mut self, addr: u32) -> (value: u8)
        requires
            old(self).wf(),
        ensures
            final(self).wf(),
            final(self).mem8() == old(self).mem8(),
            final(self).mem32() == old(self).mem32(),
            value == old(self).mem8()[addr],
    ;

    /// Writes `value` to the byte at `addr`.
    fn write8(&mut self, addr: u32, value: u8)
        requires
            old(self).wf(),
        ensures
            final(self).wf(),
            final(self).mem8() == old(self).mem8().insert(addr, value),
            final(self).mem32() == old(self).mem32(),
    ;

    /// Reads the 32-bit value at `addr`.
    fn read32(&mut self, addr: u32) -> (value: u32)
        requires
            old(self).wf(),
        ensures
            final(self).wf(),
            final(self).mem8() == old(self).mem8(),
            final(self).mem32() == old(self).mem32(),
            value == old(self).mem32()[addr],
    ;

    /// Writes the 32-bit `value` to `addr`.
    fn write32(&mut self, addr: u32, value: u32)
        requires
            old(self).wf(),
        ensures
            final(self).wf(),
            final(self).mem8() == old(self).mem8(),
            final(self).mem32() == old(self).mem32().insert(addr, value),
    ;
}

/// The operation of one recorded backend access.
#[derive(Clone, Copy, Debug, PartialEq, Eq, Structural)]
pub enum AccessKind {
    /// An 8-bit read.
    Read8,
    /// An 8-bit write.
    Write8,
    /// A 32-bit read.
    Read32,
    /// A 32-bit write.
    Write32,
}

/// One recorded backend access: which operation touched which address,
/// and the value that was read or written (a byte is widened to 32 bits).
#[derive(Clone, Copy, Debug, PartialEq, Eq, Structural)]
pub struct AccessRecord {
    /// The address the access went to.
    pub addr: u32,
    /// The operation performed.
    pub kind: AccessKind,
    /// The value read or written.
    pub value: u32,
}

/// A simulated 32-bit address space: a memory-access backend for running
/// register-style code under a test harness instead of on real hardware.
///
/// Both width views start out all zero, and the backend records every
/// access it performs, in order, as `AccessRecord`s.
pub struct SimBackend {
    bytes: HashMap<u32, u8>,
    words: HashMap<u32, u32>,
    log: Vec<AccessRecord>,
}

impl SimBackend {
    /// The access log so far, oldest first.
    pub closed spec fn log_spec(&self) -> Seq<AccessRecord> {
        self.log@
    }

    /// Creates a simulated address space that reads as zero everywhere
    /// and has recorded no access yet.
    pub fn new() -> (r: SimBackend)
        ensures
            r.wf(),
            forall|a: u32| r.mem8()[a] == 0u8,
            forall|a: u32| r.mem32()[a] == 0u32,
            r.log_spec() == Seq::<AccessRecord>::empty(),
    {
        SimBackend { bytes: HashMap::new(), words: HashMap::new(), log: Vec::new() }
    }

    /// The number of accesses recorded so far.
    pub fn log_len(&self) -> (n: usize)
        ensures
            n == self.log_spec().len(),
    {
        self.log.len()
    }

    /// The `i`th recorded access, oldest first.
    pub fn log_at(&self, i: usize) -> (r: AccessRecord)
        requires
            i < self.log_spec().len(),
        ensures
            r == self.log_spec()[i as int],
    {
        self.log[i]
    }
}

impl MemoryBackend for SimBackend {
    closed spec fn mem8(&self) -> Map<u32, u8> {
        Map::new(
            |a: u32| true,
            |a: u32|
                if self.bytes@.contains_key(a) {
                    self.bytes@[a]
                } else {
                    0u8
                },
        )
    }

    closed spec fn mem32(&self) -> Map<u32, u32> {
        Map::new(
            |a: u32| true,
            |a: u32|
                if self.words@.contains_key(a) {
                    self.words@[a]
                } else {
                    0u32
                },
        )
    }

    open spec fn wf(&self) -> bool {
        true
    }

    proof fn wf_total(&self) {
        assert(self.mem8().dom() =~= Set::<u32>::full());
        assert(self.mem32().dom() =~= Set::<u32>::full());
    }

    fn read8(&mut self, addr: u32) -> (value: u8)
        ensures
            final(self).log_spec() == old(self).log_spec().push(
                AccessRecord { addr, kind: AccessKind::Read8, value: value as u32 },
            ),
    {
        let value: u8 = match self.bytes.get(&addr) {
            Some(v) => *v,
            None => 0,
        };
        self.log.push(AccessRecord { addr, kind: AccessKind::Read8, value: value as u32 });
        value
    }

    fn write8(&mut self, addr: u32, value: u8)
        ensures
            final(self).log_spec() == old(self).log_spec().push(
                AccessRecord { addr, kind: AccessKind::Write8, value: value as u32 },
            ),
    {
        self.bytes.insert(addr, value);
        self.log.push(AccessRecord { addr, kind: AccessKind::Write8, value: value as u32 });
        proof {
            assert(self.mem8() =~= old(self).mem8().insert(addr, value));
        }
    }

    fn read32(&mut self, addr: u32) -> (value: u32)
        ensures
            final(self).log_spec() == old(self).log_spec().push(
                AccessRecord { addr, kind: AccessKind::Read32, value },
            ),
    {
        let value: u32 = match self.words.get(&addr) {
            Some(v) => *v,
            None => 0,
        };
        self.log.push(AccessRecord { addr, kind: AccessKind::Read32, value });
        value
    }

    fn write32(&mut self, addr: u32, value: u32)
        ensures
            final(self).log_spec() == old(self).log_spec().push(
                AccessRecord { addr, kind: AccessKind::Write32, value },
            ),
    {
        self.words.insert(addr, value);
        self.log.push(AccessRecord { addr, kind: AccessKind::Write32, value });
        proof {
            assert(self.mem32() =~= old(self).mem32().insert(addr, value));
        }
    }
}

} // verus!
