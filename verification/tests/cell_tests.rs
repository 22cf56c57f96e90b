use vcell::AccessKind;
use vcell::AccessRecord;
use vcell::MemoryBackend;
use vcell::Registry;
use vcell::SimBackend;
use vcell::VolatileCell;
use vcell::VolatileCell32;
use vcell::VolatileCell8;
use vcell::set_memory_interface;

#[test]
fn direct_round_trip_u32() {
    let mut reg: Registry<SimBackend> = Registry::new();
    let mut cell: VolatileCell<u32> = VolatileCell::new(0xDEADBEEF);
    assert_eq!(cell.get(&mut reg), 0xDEADBEEF);
    cell.set(&mut reg, 0x1);
    assert_eq!(cell.get(&mut reg), 0x1);
}

#[test]
fn direct_round_trip_u8() {
    let mut reg: Registry<SimBackend> = Registry::new();
    let mut cell: VolatileCell<u8> = VolatileCell::new(0);
    cell.set(&mut reg, 0xAB);
    assert_eq!(cell.get(&mut reg), 0xAB);
    cell.set(&mut reg, 0);
    assert_eq!(cell.get(&mut reg), 0);
    cell.set(&mut reg, 0xFF);
    assert_eq!(cell.get(&mut reg), 0xFF);
}

#[test]
fn backend_round_trip_u8() {
    let mut reg: Registry<SimBackend> = Registry::new();
    set_memory_interface(&mut reg, SimBackend::new());
    let mut cell: VolatileCell<u8> = VolatileCell::new_at(0x10, 3);
    cell.set(&mut reg, 0x5A);
    assert_eq!(cell.get(&mut reg), 0x5A);
}

#[test]
fn backend_round_trip_u32() {
    let mut reg: Registry<SimBackend> = Registry::new();
    set_memory_interface(&mut reg, SimBackend::new());
    let mut cell: VolatileCell<u32> = VolatileCell::new_at(0x4000_0000, 7);
    cell.set(&mut reg, 0xCAFE_F00D);
    assert_eq!(cell.get(&mut reg), 0xCAFE_F00D);
}

#[test]
fn recorded_write() {
    let mut reg: Registry<SimBackend> = Registry::new();
    set_memory_interface(&mut reg, SimBackend::new());
    let mut cell: VolatileCell<u32> = VolatileCell::new_at(0x4000_0000, 0);
    cell.set(&mut reg, 0x42);
    let backend = reg.take().unwrap();
    assert_eq!(backend.log_len(), 1);
    assert_eq!(
        backend.log_at(0),
        AccessRecord { addr: 0x4000_0000, kind: AccessKind::Write32, value: 0x42 }
    );
    // With the backend removed, the cell's own storage shows no mutation.
    assert_eq!(cell.get(&mut reg), 0);
}

#[test]
fn backend_precedence() {
    let mut reg: Registry<SimBackend> = Registry::new();
    let mut cell: VolatileCell<u32> = VolatileCell::new_at(0x20, 9);
    set_memory_interface(&mut reg, SimBackend::new());
    // The backend, not the cell's storage, answers the read.
    assert_eq!(cell.get(&mut reg), 0);
    // The backend, not the cell's storage, absorbs the write.
    cell.set(&mut reg, 11);
    assert_eq!(cell.get(&mut reg), 11);
    let backend = reg.take().unwrap();
    assert_eq!(cell.get(&mut reg), 9);
    // Every access was observed through the backend, at the cell's address.
    assert_eq!(backend.log_len(), 3);
    assert_eq!(backend.log_at(0), AccessRecord { addr: 0x20, kind: AccessKind::Read32, value: 0 });
    assert_eq!(
        backend.log_at(1),
        AccessRecord { addr: 0x20, kind: AccessKind::Write32, value: 11 }
    );
    assert_eq!(
        backend.log_at(2),
        AccessRecord { addr: 0x20, kind: AccessKind::Read32, value: 11 }
    );
}

#[test]
fn no_backend_fallback() {
    let mut reg: Registry<SimBackend> = Registry::new();
    assert!(reg.current().is_none());
    let mut a: VolatileCell<u8> = VolatileCell::new(1);
    let mut b: VolatileCell<u8> = VolatileCell::new(2);
    a.set(&mut reg, 10);
    b.set(&mut reg, 20);
    assert_eq!(a.get(&mut reg), 10);
    assert_eq!(b.get(&mut reg), 20);
    a.set(&mut reg, 30);
    assert_eq!(a.get(&mut reg), 30);
    assert_eq!(b.get(&mut reg), 20);
    assert!(reg.current().is_none());
}

#[test]
fn atomic_replacement() {
    let mut reg: Registry<SimBackend> = Registry::new();
    let mut cell: VolatileCell<u32> = VolatileCell::new_at(0x8, 0);
    set_memory_interface(&mut reg, SimBackend::new());
    cell.set(&mut reg, 0x1111);
    assert_eq!(cell.get(&mut reg), 0x1111);
    // Installing a second backend replaces the first wholly: the very next
    // access observes the new backend alone.
    set_memory_interface(&mut reg, SimBackend::new());
    assert_eq!(cell.get(&mut reg), 0);
    cell.set(&mut reg, 0x2222);
    assert_eq!(cell.get(&mut reg), 0x2222);
    let second = reg.take().unwrap();
    // The second backend saw every access made after its installation.
    assert_eq!(second.log_len(), 3);
    assert_eq!(second.log_at(0), AccessRecord { addr: 0x8, kind: AccessKind::Read32, value: 0 });
    assert_eq!(
        second.log_at(1),
        AccessRecord { addr: 0x8, kind: AccessKind::Write32, value: 0x2222 }
    );
    assert_eq!(
        second.log_at(2),
        AccessRecord { addr: 0x8, kind: AccessKind::Read32, value: 0x2222 }
    );
}

#[test]
fn width_correctness_u8() {
    let mut reg: Registry<SimBackend> = Registry::new();
    set_memory_interface(&mut reg, SimBackend::new());
    let mut cell: VolatileCell8 = VolatileCell::new_at(0x30, 0);
    cell.set(&mut reg, 0x7F);
    assert_eq!(cell.get(&mut reg), 0x7F);
    let backend = reg.take().unwrap();
    assert_eq!(backend.log_len(), 2);
    assert_eq!(
        backend.log_at(0),
        AccessRecord { addr: 0x30, kind: AccessKind::Write8, value: 0x7F }
    );
    assert_eq!(
        backend.log_at(1),
        AccessRecord { addr: 0x30, kind: AccessKind::Read8, value: 0x7F }
    );
}

#[test]
fn width_correctness_widths_independent() {
    let mut reg: Registry<SimBackend> = Registry::new();
    set_memory_interface(&mut reg, SimBackend::new());
    // An 8-bit cell and a 32-bit cell at the same address: each width's
    // operations leave the other width's view untouched.
    let mut narrow: VolatileCell8 = VolatileCell::new_at(0x40, 0);
    let mut wide: VolatileCell32 = VolatileCell::new_at(0x40, 0);
    narrow.set(&mut reg, 0xEE);
    assert_eq!(wide.get(&mut reg), 0);
    wide.set(&mut reg, 0x0102_0304);
    assert_eq!(narrow.get(&mut reg), 0xEE);
    assert_eq!(wide.get(&mut reg), 0x0102_0304);
}

#[test]
fn generic_cell_matches_dedicated_32bit_cell() {
    let mut reg: Registry<SimBackend> = Registry::new();
    set_memory_interface(&mut reg, SimBackend::new());
    let mut generic: VolatileCell<u32> = VolatileCell::new_at(0x50, 0);
    let dedicated: VolatileCell32 = VolatileCell::new_at(0x50, 0);
    generic.set(&mut reg, 0xABCD);
    // The dedicated 32-bit cell observes the same backed value: both go
    // through the 32-bit backend operations at the same address.
    assert_eq!(dedicated.get(&mut reg), 0xABCD);
    let backend = reg.take().unwrap();
    assert_eq!(
        backend.log_at(0),
        AccessRecord { addr: 0x50, kind: AccessKind::Write32, value: 0xABCD }
    );
    assert_eq!(
        backend.log_at(1),
        AccessRecord { addr: 0x50, kind: AccessKind::Read32, value: 0xABCD }
    );
}

#[test]
fn as_ptr_reports_the_address() {
    let cell: VolatileCell<u32> = VolatileCell::new(5);
    assert_eq!(cell.as_ptr(), 0);
    let placed: VolatileCell<u8> = VolatileCell::new_at(0xE000_ED00, 1);
    assert_eq!(placed.as_ptr(), 0xE000_ED00);
    // as_ptr does not consult the registry; it is the same either way.
    let mut reg: Registry<SimBackend> = Registry::new();
    set_memory_interface(&mut reg, SimBackend::new());
    assert_eq!(placed.as_ptr(), 0xE000_ED00);
}

#[test]
fn sim_backend_reads_zero_and_logs_reads() {
    let mut backend = SimBackend::new();
    assert_eq!(backend.log_len(), 0);
    assert_eq!(backend.read8(0x1234), 0);
    assert_eq!(backend.read32(0x1234), 0);
    assert_eq!(backend.log_len(), 2);
    assert_eq!(
        backend.log_at(0),
        AccessRecord { addr: 0x1234, kind: AccessKind::Read8, value: 0 }
    );
    assert_eq!(
        backend.log_at(1),
        AccessRecord { addr: 0x1234, kind: AccessKind::Read32, value: 0 }
    );
}

#[test]
fn registry_current_and_take() {
    let mut reg: Registry<SimBackend> = Registry::new();
    assert!(reg.current().is_none());
    assert!(reg.take().is_none());
    reg.install(SimBackend::new());
    assert!(reg.current().is_some());
    let taken = reg.take();
    assert!(taken.is_some());
    assert!(reg.current().is_none());
}
