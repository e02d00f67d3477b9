use cherry_hal::mem::{Mem, MEM_WORDS};
use cherry_hal::reg::{RoReg, RwReg, WoReg};

#[test]
fn fresh_register_space_is_zeroed() {
    let m = Mem::new();
    for addr in 0..MEM_WORDS {
        assert_eq!(m.load(addr), 0);
    }
}

#[test]
fn store_hits_only_its_word() {
    let mut m = Mem::new();
    m.store(3, 0xdead_beef);
    assert_eq!(m.load(3), 0xdead_beef);
    assert_eq!(m.load(2), 0);
    assert_eq!(m.load(4), 0);
}

#[test]
fn typed_registers_read_and_write_their_address() {
    let mut m = Mem::new();
    let w = WoReg::unchecked(5);
    w.write(&mut m, 77);
    let r = RoReg::unchecked(5);
    assert_eq!(r.read(&m), 77);
    let rw = RwReg::unchecked(5);
    rw.write(&mut m, 0b1010);
    assert_eq!(rw.read(&m), 0b1010);
}

#[test]
fn modify_applies_the_update_to_the_stored_word() {
    let mut m = Mem::new();
    let rw = RwReg::unchecked(7);
    rw.write(&mut m, 40);
    rw.modify(&mut m, |w| w + 2);
    assert_eq!(rw.read(&m), 42);
    assert_eq!(m.load(6), 0);
    assert_eq!(m.load(8), 0);
}

#[test]
fn masked_updates_change_only_selected_bits() {
    let mut m = Mem::new();
    let rw = RwReg::unchecked(9);
    rw.write(&mut m, 0b1100_0011);
    rw.set_bits(&mut m, 0b0000_0100);
    assert_eq!(rw.read(&m), 0b1100_0111);
    rw.clear_bits(&mut m, 0b1000_0001);
    assert_eq!(rw.read(&m), 0b0100_0110);
    rw.modify_masked(&mut m, 0b0000_1111, 0b0101_0101);
    assert_eq!(rw.read(&m), 0b0100_0101);
}
