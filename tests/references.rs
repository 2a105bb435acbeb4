use safety_breaker::memory::{force_convert, Memory, Ptr};
use safety_breaker::repr::Repr;
use safety_breaker::slots::Slots;
use safety_breaker::ForceMut;

#[test]
fn forcemut_overwrites_string_seen_through_original() {
    let mut store: Slots<String> = Slots::new();
    let a = store.place(String::from("Hello, Rustaceans!"));
    assert_eq!(store.get(&a), "Hello, Rustaceans!");
    assert!(!a.writable());
    let b = a.forcemut();
    store.set(&b, String::from("Hello, unsafe!"));
    assert_eq!(store.get(&a), "Hello, unsafe!");
}

#[test]
fn force_convert_u32_65_reads_as_char_a() {
    let mut mem = Memory::new();
    let a: u32 = 65;
    let p = mem.place(&a);
    let b: Ptr<char> = force_convert(&p);
    let c = mem.load(&b);
    assert_eq!(c, 'A');
    assert_eq!(format!("{}", c), "A");
}

#[test]
fn forcemut_keeps_address_of_slot_and_ptr() {
    let mut store: Slots<u64> = Slots::new();
    store.place(1);
    let a = store.place(2);
    let b = a.forcemut();
    assert_eq!(b.index(), a.index());
    assert_eq!(b.index(), 1);
    assert!(b.writable());

    let mut mem = Memory::new();
    mem.place(&7u8);
    let p = mem.place(&9u32);
    let q = p.forcemut();
    assert_eq!(q.address_of(), p.address_of());
    assert_eq!(q.address_of(), 1);
    assert!(q.writable());
}

#[test]
fn write_through_forced_slot_leaves_other_slots() {
    let mut store: Slots<i32> = Slots::new();
    let a = store.place(10);
    let b = store.place(20);
    let c = store.place(30);
    store.set(&b.forcemut(), -5);
    assert_eq!(*store.get(&a), 10);
    assert_eq!(*store.get(&b), -5);
    assert_eq!(*store.get(&c), 30);
    assert_eq!(store.len(), 3);
}

#[test]
fn write_through_forced_ptr_seen_through_original() {
    let mut mem = Memory::new();
    let a = mem.place(&1u8);
    let p = mem.place(&0xAABBCCDDu32);
    let z = mem.place(&2u8);
    mem.store(&p.forcemut(), &0x12345678u32);
    assert_eq!(mem.load(&p), 0x12345678u32);
    assert_eq!(mem.load(&a), 1u8);
    assert_eq!(mem.load(&z), 2u8);
    assert_eq!(mem.len(), 6);
}

#[test]
fn identity_convert_keeps_address_and_value() {
    let mut mem = Memory::new();
    mem.place(&3u8);
    let p = mem.place(&'z');
    let q: Ptr<char> = force_convert(&p);
    assert_eq!(q.address_of(), p.address_of());
    assert_eq!(mem.load(&q), mem.load(&p));
    assert_eq!(mem.load(&q), 'z');
    assert_eq!(mem.len(), 5);
}

#[test]
fn convert_reads_bytes_bit_for_bit() {
    let mut mem = Memory::new();
    let p = mem.place(&'\u{1F980}');
    let q: Ptr<u32> = force_convert(&p);
    assert_eq!(mem.load(&q), 0x1F980u32);

    let r = mem.place(&0x00E9u32);
    let s: Ptr<char> = force_convert(&r);
    assert_eq!(mem.load(&s), '\u{e9}');

    let one: Ptr<u8> = force_convert(&r);
    assert_eq!(mem.load(&one), 0xE9u8);
}

#[test]
fn converted_handle_is_read_only_until_forced() {
    let mut mem = Memory::new();
    let p = mem.place(&5u32).forcemut();
    let q: Ptr<char> = force_convert(&p);
    assert!(!q.writable());
    let w = q.forcemut();
    assert!(w.writable());
    mem.store(&w, &'B');
    assert_eq!(mem.load(&p), 66u32);
}

#[test]
fn u32_bytes_are_least_significant_first() {
    assert_eq!(0x12345678u32.encode(), vec![0x78, 0x56, 0x34, 0x12]);
    assert_eq!(<u32 as Repr>::decode(&vec![0x78, 0x56, 0x34, 0x12]), Some(0x12345678));
    assert_eq!(<u32 as Repr>::decode(&vec![0xFF, 0xFF, 0xFF, 0xFF]), Some(u32::MAX));
    assert_eq!(<u32 as Repr>::byte_len(), 4);
    assert_eq!(<u8 as Repr>::byte_len(), 1);
    assert_eq!(<char as Repr>::byte_len(), 4);
}

#[test]
fn char_bytes_decode_only_scalar_values() {
    assert_eq!('A'.encode(), vec![65, 0, 0, 0]);
    assert_eq!(<char as Repr>::decode(&vec![0xE9, 0, 0, 0]), Some('\u{e9}'));
    assert_eq!(<char as Repr>::decode(&vec![0xFF, 0xD7, 0, 0]), Some('\u{d7ff}'));
    assert_eq!(<char as Repr>::decode(&vec![0x00, 0xD8, 0, 0]), None);
    assert_eq!(<char as Repr>::decode(&vec![0xFF, 0xDF, 0, 0]), None);
    assert_eq!(<char as Repr>::decode(&vec![0x00, 0xE0, 0, 0]), Some('\u{e000}'));
    assert_eq!(<char as Repr>::decode(&vec![0xFF, 0xFF, 0x10, 0]), Some('\u{10ffff}'));
    assert_eq!(<char as Repr>::decode(&vec![0x00, 0x00, 0x11, 0]), None);
}

#[test]
fn empty_stores_hold_nothing() {
    let mem = Memory::new();
    assert_eq!(mem.len(), 0);
    let store: Slots<String> = Slots::new();
    assert_eq!(store.len(), 0);
}
