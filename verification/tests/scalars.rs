use runtime_fmt::radix::write_radix;
use runtime_fmt::{Capability, FormatValue};

fn text<T: FormatValue>(value: &T, cap: Capability) -> String {
    assert!(T::allowed(cap));
    let mut sink = String::new();
    value.perform(cap, &mut sink).unwrap();
    sink
}

fn radix(n: u64, base: u64, upper: bool) -> String {
    let mut sink = String::new();
    write_radix(n, base, upper, &mut sink);
    sink
}

fn check_u8(v: u8) {
    assert_eq!(text(&v, Capability::Display), format!("{}", v));
    assert_eq!(text(&v, Capability::Debug), format!("{:?}", v));
    assert_eq!(text(&v, Capability::LowerExp), format!("{:e}", v));
    assert_eq!(text(&v, Capability::UpperExp), format!("{:E}", v));
    assert_eq!(text(&v, Capability::Octal), format!("{:o}", v));
    assert_eq!(text(&v, Capability::Binary), format!("{:b}", v));
    assert_eq!(text(&v, Capability::LowerHex), format!("{:x}", v));
    assert_eq!(text(&v, Capability::UpperHex), format!("{:X}", v));
}

fn check_u16(v: u16) {
    assert_eq!(text(&v, Capability::Display), format!("{}", v));
    assert_eq!(text(&v, Capability::Debug), format!("{:?}", v));
    assert_eq!(text(&v, Capability::LowerExp), format!("{:e}", v));
    assert_eq!(text(&v, Capability::UpperExp), format!("{:E}", v));
    assert_eq!(text(&v, Capability::Octal), format!("{:o}", v));
    assert_eq!(text(&v, Capability::Binary), format!("{:b}", v));
    assert_eq!(text(&v, Capability::LowerHex), format!("{:x}", v));
    assert_eq!(text(&v, Capability::UpperHex), format!("{:X}", v));
}

fn check_u32(v: u32) {
    assert_eq!(text(&v, Capability::Display), format!("{}", v));
    assert_eq!(text(&v, Capability::Debug), format!("{:?}", v));
    assert_eq!(text(&v, Capability::LowerExp), format!("{:e}", v));
    assert_eq!(text(&v, Capability::UpperExp), format!("{:E}", v));
    assert_eq!(text(&v, Capability::Octal), format!("{:o}", v));
    assert_eq!(text(&v, Capability::Binary), format!("{:b}", v));
    assert_eq!(text(&v, Capability::LowerHex), format!("{:x}", v));
    assert_eq!(text(&v, Capability::UpperHex), format!("{:X}", v));
}

fn check_u64(v: u64) {
    assert_eq!(text(&v, Capability::Display), format!("{}", v));
    assert_eq!(text(&v, Capability::Debug), format!("{:?}", v));
    assert_eq!(text(&v, Capability::LowerExp), format!("{:e}", v));
    assert_eq!(text(&v, Capability::UpperExp), format!("{:E}", v));
    assert_eq!(text(&v, Capability::Octal), format!("{:o}", v));
    assert_eq!(text(&v, Capability::Binary), format!("{:b}", v));
    assert_eq!(text(&v, Capability::LowerHex), format!("{:x}", v));
    assert_eq!(text(&v, Capability::UpperHex), format!("{:X}", v));
}

fn check_usize(v: usize) {
    assert_eq!(text(&v, Capability::Display), format!("{}", v));
    assert_eq!(text(&v, Capability::Debug), format!("{:?}", v));
    assert_eq!(text(&v, Capability::LowerExp), format!("{:e}", v));
    assert_eq!(text(&v, Capability::UpperExp), format!("{:E}", v));
    assert_eq!(text(&v, Capability::Octal), format!("{:o}", v));
    assert_eq!(text(&v, Capability::Binary), format!("{:b}", v));
    assert_eq!(text(&v, Capability::LowerHex), format!("{:x}", v));
    assert_eq!(text(&v, Capability::UpperHex), format!("{:X}", v));
}

fn check_i8(v: i8) {
    assert_eq!(text(&v, Capability::Display), format!("{}", v));
    assert_eq!(text(&v, Capability::Debug), format!("{:?}", v));
    assert_eq!(text(&v, Capability::LowerExp), format!("{:e}", v));
    assert_eq!(text(&v, Capability::UpperExp), format!("{:E}", v));
    assert_eq!(text(&v, Capability::Octal), format!("{:o}", v));
    assert_eq!(text(&v, Capability::Binary), format!("{:b}", v));
    assert_eq!(text(&v, Capability::LowerHex), format!("{:x}", v));
    assert_eq!(text(&v, Capability::UpperHex), format!("{:X}", v));
}

fn check_i16(v: i16) {
    assert_eq!(text(&v, Capability::Display), format!("{}", v));
    assert_eq!(text(&v, Capability::Debug), format!("{:?}", v));
    assert_eq!(text(&v, Capability::LowerExp), format!("{:e}", v));
    assert_eq!(text(&v, Capability::UpperExp), format!("{:E}", v));
    assert_eq!(text(&v, Capability::Octal), format!("{:o}", v));
    assert_eq!(text(&v, Capability::Binary), format!("{:b}", v));
    assert_eq!(text(&v, Capability::LowerHex), format!("{:x}", v));
    assert_eq!(text(&v, Capability::UpperHex), format!("{:X}", v));
}

fn check_i32(v: i32) {
    assert_eq!(text(&v, Capability::Display), format!("{}", v));
    assert_eq!(text(&v, Capability::Debug), format!("{:?}", v));
    assert_eq!(text(&v, Capability::LowerExp), format!("{:e}", v));
    assert_eq!(text(&v, Capability::UpperExp), format!("{:E}", v));
    assert_eq!(text(&v, Capability::Octal), format!("{:o}", v));
    assert_eq!(text(&v, Capability::Binary), format!("{:b}", v));
    assert_eq!(text(&v, Capability::LowerHex), format!("{:x}", v));
    assert_eq!(text(&v, Capability::UpperHex), format!("{:X}", v));
}

fn check_i64(v: i64) {
    assert_eq!(text(&v, Capability::Display), format!("{}", v));
    assert_eq!(text(&v, Capability::Debug), format!("{:?}", v));
    assert_eq!(text(&v, Capability::LowerExp), format!("{:e}", v));
    assert_eq!(text(&v, Capability::UpperExp), format!("{:E}", v));
    assert_eq!(text(&v, Capability::Octal), format!("{:o}", v));
    assert_eq!(text(&v, Capability::Binary), format!("{:b}", v));
    assert_eq!(text(&v, Capability::LowerHex), format!("{:x}", v));
    assert_eq!(text(&v, Capability::UpperHex), format!("{:X}", v));
}

fn check_isize(v: isize) {
    assert_eq!(text(&v, Capability::Display), format!("{}", v));
    assert_eq!(text(&v, Capability::Debug), format!("{:?}", v));
    assert_eq!(text(&v, Capability::LowerExp), format!("{:e}", v));
    assert_eq!(text(&v, Capability::UpperExp), format!("{:E}", v));
    assert_eq!(text(&v, Capability::Octal), format!("{:o}", v));
    assert_eq!(text(&v, Capability::Binary), format!("{:b}", v));
    assert_eq!(text(&v, Capability::LowerHex), format!("{:x}", v));
    assert_eq!(text(&v, Capability::UpperHex), format!("{:X}", v));
}

#[test]
fn u8_is_written_as_the_standard_library_writes_it() {
    let values: [u8; 9] = [0, 1, 7, 8, 9, 10, 100, u8::MAX - 1, u8::MAX];
    for v in values {
        check_u8(v);
    }
    let mut v: u8 = 1;
    while v < u8::MAX / 3 {
        check_u8(v);
        v = v * 3 + 1;
    }
}

#[test]
fn u16_is_written_as_the_standard_library_writes_it() {
    let values: [u16; 9] = [0, 1, 7, 8, 9, 10, 100, u16::MAX - 1, u16::MAX];
    for v in values {
        check_u16(v);
    }
    let mut v: u16 = 1;
    while v < u16::MAX / 3 {
        check_u16(v);
        v = v * 3 + 1;
    }
}

#[test]
fn u32_is_written_as_the_standard_library_writes_it() {
    let values: [u32; 9] = [0, 1, 7, 8, 9, 10, 100, u32::MAX - 1, u32::MAX];
    for v in values {
        check_u32(v);
    }
    let mut v: u32 = 1;
    while v < u32::MAX / 3 {
        check_u32(v);
        v = v * 3 + 1;
    }
}

#[test]
fn u64_is_written_as_the_standard_library_writes_it() {
    let values: [u64; 9] = [0, 1, 7, 8, 9, 10, 100, u64::MAX - 1, u64::MAX];
    for v in values {
        check_u64(v);
    }
    let mut v: u64 = 1;
    while v < u64::MAX / 3 {
        check_u64(v);
        v = v * 3 + 1;
    }
}

#[test]
fn usize_is_written_as_the_standard_library_writes_it() {
    let values: [usize; 9] = [0, 1, 7, 8, 9, 10, 100, usize::MAX - 1, usize::MAX];
    for v in values {
        check_usize(v);
    }
    let mut v: usize = 1;
    while v < usize::MAX / 3 {
        check_usize(v);
        v = v * 3 + 1;
    }
}

#[test]
fn i8_is_written_as_the_standard_library_writes_it() {
    let values: [i8; 11] = [0, 1, -1, 9, 10, -10, 100, i8::MAX, i8::MIN, i8::MIN + 1, i8::MAX - 1];
    for v in values {
        check_i8(v);
    }
    let mut v: i8 = 1;
    while v < i8::MAX / 3 {
        check_i8(v);
        check_i8(-v);
        v = v * 3 + 1;
    }
}

#[test]
fn i16_is_written_as_the_standard_library_writes_it() {
    let values: [i16; 11] = [0, 1, -1, 9, 10, -10, 100, i16::MAX, i16::MIN, i16::MIN + 1, i16::MAX - 1];
    for v in values {
        check_i16(v);
    }
    let mut v: i16 = 1;
    while v < i16::MAX / 3 {
        check_i16(v);
        check_i16(-v);
        v = v * 3 + 1;
    }
}

#[test]
fn i32_is_written_as_the_standard_library_writes_it() {
    let values: [i32; 11] = [0, 1, -1, 9, 10, -10, 100, i32::MAX, i32::MIN, i32::MIN + 1, i32::MAX - 1];
    for v in values {
        check_i32(v);
    }
    let mut v: i32 = 1;
    while v < i32::MAX / 3 {
        check_i32(v);
        check_i32(-v);
        v = v * 3 + 1;
    }
}

#[test]
fn i64_is_written_as_the_standard_library_writes_it() {
    let values: [i64; 11] = [0, 1, -1, 9, 10, -10, 100, i64::MAX, i64::MIN, i64::MIN + 1, i64::MAX - 1];
    for v in values {
        check_i64(v);
    }
    let mut v: i64 = 1;
    while v < i64::MAX / 3 {
        check_i64(v);
        check_i64(-v);
        v = v * 3 + 1;
    }
}

#[test]
fn isize_is_written_as_the_standard_library_writes_it() {
    let values: [isize; 11] = [0, 1, -1, 9, 10, -10, 100, isize::MAX, isize::MIN, isize::MIN + 1, isize::MAX - 1];
    for v in values {
        check_isize(v);
    }
    let mut v: isize = 1;
    while v < isize::MAX / 3 {
        check_isize(v);
        check_isize(-v);
        v = v * 3 + 1;
    }
}

#[test]
fn whole_numbers_have_every_representation_but_the_address() {
    let mut n: usize = 0;
    while let Some(cap) = Capability::from_ordinal(n) {
        let expected = cap != Capability::Pointer;
        assert_eq!(<u8 as FormatValue>::allowed(cap), expected);
        assert_eq!(<u16 as FormatValue>::allowed(cap), expected);
        assert_eq!(<u32 as FormatValue>::allowed(cap), expected);
        assert_eq!(<u64 as FormatValue>::allowed(cap), expected);
        assert_eq!(<usize as FormatValue>::allowed(cap), expected);
        assert_eq!(<i8 as FormatValue>::allowed(cap), expected);
        assert_eq!(<i16 as FormatValue>::allowed(cap), expected);
        assert_eq!(<i32 as FormatValue>::allowed(cap), expected);
        assert_eq!(<i64 as FormatValue>::allowed(cap), expected);
        assert_eq!(<isize as FormatValue>::allowed(cap), expected);
        n += 1;
    }
}

#[test]
fn bool_char_and_string_have_two_representations() {
    let mut n: usize = 0;
    while let Some(cap) = Capability::from_ordinal(n) {
        let expected = cap == Capability::Display || cap == Capability::Debug;
        assert_eq!(<bool as FormatValue>::allowed(cap), expected);
        assert_eq!(<char as FormatValue>::allowed(cap), expected);
        assert_eq!(<String as FormatValue>::allowed(cap), expected);
        n += 1;
    }
}

#[test]
fn exact_texts_of_whole_numbers() {
    assert_eq!(text(&0usize, Capability::Display), "0");
    assert_eq!(text(&0usize, Capability::Binary), "0");
    assert_eq!(text(&0usize, Capability::LowerExp), "0e0");
    assert_eq!(text(&1234usize, Capability::Display), "1234");
    assert_eq!(text(&1234usize, Capability::Debug), "1234");
    assert_eq!(text(&1234usize, Capability::LowerExp), "1.234e3");
    assert_eq!(text(&1234usize, Capability::UpperExp), "1.234E3");
    assert_eq!(text(&1200u32, Capability::LowerExp), "1.2e3");
    assert_eq!(text(&1234usize, Capability::Octal), "2322");
    assert_eq!(text(&1234usize, Capability::Binary), "10011010010");
    assert_eq!(text(&1234usize, Capability::LowerHex), "4d2");
    assert_eq!(text(&1234usize, Capability::UpperHex), "4D2");
    assert_eq!(text(&u64::MAX, Capability::LowerHex), "ffffffffffffffff");
    assert_eq!(text(&u64::MAX, Capability::Display), "18446744073709551615");
    assert_eq!(text(&-1i8, Capability::Display), "-1");
    assert_eq!(text(&-1i8, Capability::LowerHex), "ff");
    assert_eq!(text(&-1i8, Capability::Binary), "11111111");
    assert_eq!(text(&-1i16, Capability::UpperHex), "FFFF");
    assert_eq!(text(&-2i32, Capability::Octal), "37777777776");
    assert_eq!(text(&i64::MIN, Capability::Display), "-9223372036854775808");
    assert_eq!(text(&i64::MIN, Capability::LowerHex), "8000000000000000");
    assert_eq!(text(&-1234i64, Capability::LowerExp), "-1.234e3");
    assert_eq!(text(&-1234i64, Capability::UpperExp), "-1.234E3");
    assert_eq!(text(&i8::MIN, Capability::Debug), "-128");
}

#[test]
fn exact_texts_of_bool_char_and_string() {
    assert_eq!(text(&true, Capability::Display), "true");
    assert_eq!(text(&false, Capability::Display), "false");
    assert_eq!(text(&true, Capability::Debug), "true");
    assert_eq!(text(&false, Capability::Debug), "false");
    assert_eq!(text(&'a', Capability::Display), "a");
    assert_eq!(text(&'a', Capability::Debug), "'a'");
    assert_eq!(text(&'\n', Capability::Debug), "'\\n'");
    assert_eq!(text(&'\'', Capability::Debug), "'\\''");
    assert_eq!(text(&'\u{e9}', Capability::Display), "\u{e9}");
    assert_eq!(text(&String::from("hi"), Capability::Display), "hi");
    assert_eq!(text(&String::from("hi"), Capability::Debug), "\"hi\"");
    assert_eq!(text(&String::from("a\"b\n"), Capability::Debug), "\"a\\\"b\\n\"");
    assert_eq!(text(&String::new(), Capability::Display), "");
    assert_eq!(text(&String::new(), Capability::Debug), "\"\"");
}

#[test]
fn bool_char_and_string_are_written_as_the_standard_library_writes_them() {
    for v in [true, false] {
        assert_eq!(text(&v, Capability::Display), format!("{}", v));
        assert_eq!(text(&v, Capability::Debug), format!("{:?}", v));
    }
    for v in ['a', 'Z', '0', ' ', '\n', '\t', '\\', '\'', '"', '\0', '\u{e9}', '\u{1f600}'] {
        assert_eq!(text(&v, Capability::Display), format!("{}", v));
        assert_eq!(text(&v, Capability::Debug), format!("{:?}", v));
    }
    for v in ["", "plain", "two words", "quote \" and \\ slash", "line\nbreak", "caf\u{e9}"] {
        let owned = String::from(v);
        assert_eq!(text(&owned, Capability::Display), format!("{}", owned));
        assert_eq!(text(&owned, Capability::Debug), format!("{:?}", owned));
    }
}

#[test]
fn perform_appends_to_what_the_sink_holds() {
    let mut sink = String::from("n=");
    assert!(10u8.perform(Capability::Binary, &mut sink).is_ok());
    assert_eq!(sink, "n=1010");
    assert!(true.perform(Capability::Display, &mut sink).is_ok());
    assert_eq!(sink, "n=1010true");
    assert!('!'.perform(Capability::Display, &mut sink).is_ok());
    assert!(String::from("x").perform(Capability::Debug, &mut sink).is_ok());
    assert!((-5i32).perform(Capability::Display, &mut sink).is_ok());
    assert_eq!(sink, "n=1010true!\"x\"-5");
}

#[test]
fn write_radix_in_each_base() {
    assert_eq!(radix(0, 2, false), "0");
    assert_eq!(radix(0, 16, true), "0");
    assert_eq!(radix(1, 2, false), "1");
    assert_eq!(radix(2, 2, false), "10");
    assert_eq!(radix(5, 3, false), "12");
    assert_eq!(radix(255, 16, false), "ff");
    assert_eq!(radix(255, 16, true), "FF");
    assert_eq!(radix(0xabcdef, 16, false), "abcdef");
    assert_eq!(radix(0xabcdef, 16, true), "ABCDEF");
    assert_eq!(radix(0x1234567890, 16, true), "1234567890");
    assert_eq!(radix(10, 10, false), "10");
    assert_eq!(radix(9, 10, false), "9");
    assert_eq!(radix(15, 16, false), "f");
    assert_eq!(radix(16, 16, false), "10");
    assert_eq!(radix(11, 12, false), "b");
    assert_eq!(radix(u64::MAX, 2, false), "1".repeat(64));
    assert_eq!(radix(u64::MAX, 8, false), "1777777777777777777777");
    assert_eq!(radix(u64::MAX, 10, false), "18446744073709551615");
}

#[test]
fn write_radix_appends() {
    let mut sink = String::from("0x");
    write_radix(48879, 16, false, &mut sink);
    assert_eq!(sink, "0xbeef");
    write_radix(0, 10, false, &mut sink);
    assert_eq!(sink, "0xbeef0");
}
