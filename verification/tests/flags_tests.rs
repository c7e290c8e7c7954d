use rsvm::endian::{combine, split};
use rsvm::{Flag, FlagSet, Register};

#[test]
fn new_flags_are_all_clear() {
    let flags = FlagSet::new();
    for flag in [Flag::Equal, Flag::NotEqual, Flag::Greater, Flag::Smaller, Flag::Overflow, Flag::Stop] {
        assert!(!flags.get(flag));
    }
    assert_eq!(FlagSet::default(), FlagSet::new());
}

#[test]
fn set_changes_one_flag_only() {
    let all = [Flag::Equal, Flag::NotEqual, Flag::Greater, Flag::Smaller, Flag::Overflow, Flag::Stop];
    for chosen in all {
        let mut flags = FlagSet::new();
        flags.set(chosen, true);
        for flag in all {
            assert_eq!(flags.get(flag), flag == chosen);
        }
        flags.set(chosen, false);
        assert_eq!(flags, FlagSet::new());
    }
}

#[test]
fn flags_persist_until_overwritten() {
    let mut flags = FlagSet::new();
    flags.set(Flag::Overflow, true);
    flags.set(Flag::Equal, true);
    flags.set(Flag::Equal, false);
    assert!(flags.get(Flag::Overflow));
    assert!(!flags.get(Flag::Equal));
}

#[test]
fn registers_index_the_register_file() {
    assert_eq!(Register::A.index(), 0);
    assert_eq!(Register::B.index(), 1);
    assert_eq!(Register::C.index(), 2);
    assert_eq!(Register::D.index(), 3);
}

#[test]
fn combine_is_big_endian() {
    assert_eq!(combine(0, 0, 0, 5), 5);
    assert_eq!(combine(0x12, 0x34, 0x56, 0x78), 0x1234_5678);
    assert_eq!(combine(0xff, 0xff, 0xff, 0xff), u32::MAX);
    assert_eq!(combine(0x80, 0, 0, 0), 0x8000_0000);
    assert_eq!(combine(0, 1, 0, 0), 0x1_0000);
    assert_eq!(combine(0, 0, 1, 0), 0x100);
}

#[test]
fn split_is_big_endian() {
    assert_eq!(split(0x1234_5678), [0x12, 0x34, 0x56, 0x78]);
    assert_eq!(split(0), [0, 0, 0, 0]);
    assert_eq!(split(u32::MAX), [0xff, 0xff, 0xff, 0xff]);
    assert_eq!(split(7), [0, 0, 0, 7]);
}

#[test]
fn split_and_combine_are_inverse() {
    for value in [0u32, 1, 255, 256, 0x00ff_00ff, 0xdead_beef, u32::MAX] {
        let [a, b, c, d] = split(value);
        assert_eq!(combine(a, b, c, d), value);
    }
}
