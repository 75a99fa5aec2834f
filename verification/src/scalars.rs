//! The representations of the whole numbers, `bool`, `char` and `String`.

use crate::capability::Capability;
use crate::radix::{push_char, radix_text, write_radix};
use crate::value::{FormatError, FormatValue};
use vstd::prelude::*;
use vstd::string::StringExecFns;

verus! {

/// What `{:e}` writes for a `u64`.
pub uninterp spec fn lower_exp_u64(v: u64) -> Seq<char>;

/// What `{:E}` writes for a `u64`.
pub uninterp spec fn upper_exp_u64(v: u64) -> Seq<char>;

/// What `{:e}` writes for an `i64`.
pub uninterp spec fn lower_exp_i64(v: i64) -> Seq<char>;

/// What `{:E}` writes for an `i64`.
pub uninterp spec fn upper_exp_i64(v: i64) -> Seq<char>;

/// What `{:?}` writes for a `char`.
pub uninterp spec fn debug_char(c: char) -> Seq<char>;

/// What `{:?}` writes for a string.
pub uninterp spec fn debug_str(s: Seq<char>) -> Seq<char>;

/// `LowerExp::fmt` of `u64` through `format!`: the text depends on the
/// number alone.
#[verifier::external_body]
fn format_lower_exp_u64(v: u64) -> (s: String)
    ensures
        s@ == lower_exp_u64(v),
{
    format!("{:e}", v)
}

/// `UpperExp::fmt` of `u64` through `format!`: the text depends on the
/// number alone.
#[verifier::external_body]
fn format_upper_exp_u64(v: u64) -> (s: String)
    ensures
        s@ == upper_exp_u64(v),
{
    format!("{:E}", v)
}

/// `LowerExp::fmt` of `i64` through `format!`: the text depends on the
/// number alone.
#[verifier::external_body]
fn format_lower_exp_i64(v: i64) -> (s: String)
    ensures
        s@ == lower_exp_i64(v),
{
    format!("{:e}", v)
}

/// `UpperExp::fmt` of `i64` through `format!`: the text depends on the
/// number alone.
#[verifier::external_body]
fn format_upper_exp_i64(v: i64) -> (s: String)
    ensures
        s@ == upper_exp_i64(v),
{
    format!("{:E}", v)
}

/// `Debug::fmt` of `char` through `format!`: the text depends on the
/// character alone.
#[verifier::external_body]
fn format_debug_char(c: char) -> (s: String)
    ensures
        s@ == debug_char(c),
{
    format!("{:?}", c)
}

/// `Debug::fmt` of `str` through `format!`: the text depends on the
/// characters alone.
#[verifier::external_body]
fn format_debug_str(v: &str) -> (s: String)
    ensures
        s@ == debug_str(v@),
{
    format!("{:?}", v)
}

/// The representations of a whole number: all but the address.
pub open spec fn integer_supports(cap: Capability) -> bool {
    cap != Capability::Pointer
}

/// The representations of `bool`, `char` and `String`.
pub open spec fn plain_supports(cap: Capability) -> bool {
    cap == Capability::Display || cap == Capability::Debug
}

/// The text of an unsigned number.
pub open spec fn unsigned_text(v: u64, cap: Capability) -> Seq<char> {
    match cap {
        Capability::Display | Capability::Debug => radix_text(v as nat, 10, false),
        Capability::LowerExp => lower_exp_u64(v),
        Capability::UpperExp => upper_exp_u64(v),
        Capability::Octal => radix_text(v as nat, 8, false),
        Capability::Binary => radix_text(v as nat, 2, false),
        Capability::LowerHex => radix_text(v as nat, 16, false),
        Capability::UpperHex => radix_text(v as nat, 16, true),
        Capability::Pointer => Seq::empty(),
    }
}

/// The unsigned number with the bits of `v`, for a type with `modulus`
/// values.
pub open spec fn bits_of(v: int, modulus: int) -> nat {
    if v < 0 {
        (v + modulus) as nat
    } else {
        v as nat
    }
}

/// The decimal digits of `v`, after a minus sign where it is negative.
pub open spec fn decimal_text(v: int) -> Seq<char> {
    if v < 0 {
        seq!['-'] + radix_text((-v) as nat, 10, false)
    } else {
        radix_text(v as nat, 10, false)
    }
}

/// The text of a signed number of a type with `modulus` values. In a base
/// other than ten a negative number shows its bits.
pub open spec fn signed_text(v: i64, modulus: int, cap: Capability) -> Seq<char> {
    match cap {
        Capability::Display | Capability::Debug => decimal_text(v as int),
        Capability::LowerExp => lower_exp_i64(v),
        Capability::UpperExp => upper_exp_i64(v),
        Capability::Octal => radix_text(bits_of(v as int, modulus), 8, false),
        Capability::Binary => radix_text(bits_of(v as int, modulus), 2, false),
        Capability::LowerHex => radix_text(bits_of(v as int, modulus), 16, false),
        Capability::UpperHex => radix_text(bits_of(v as int, modulus), 16, true),
        Capability::Pointer => Seq::empty(),
    }
}

fn integer_allowed(cap: Capability) -> (b: bool)
    ensures
        b == integer_supports(cap),
{
    match cap {
        Capability::Pointer => false,
        _ => true,
    }
}

fn plain_allowed(cap: Capability) -> (b: bool)
    ensures
        b == plain_supports(cap),
{
    match cap {
        Capability::Display | Capability::Debug => true,
        _ => false,
    }
}

fn write_unsigned(v: u64, cap: Capability, sink: &mut String)
    requires
        integer_supports(cap),
    ensures
        final(sink)@ == old(sink)@ + unsigned_text(v, cap),
{
    match cap {
        Capability::Display | Capability::Debug => write_radix(v, 10, false, sink),
        Capability::LowerExp => sink.append(format_lower_exp_u64(v).as_str()),
        Capability::UpperExp => sink.append(format_upper_exp_u64(v).as_str()),
        Capability::Octal => write_radix(v, 8, false, sink),
        Capability::Binary => write_radix(v, 2, false, sink),
        Capability::LowerHex => write_radix(v, 16, false, sink),
        Capability::UpperHex => write_radix(v, 16, true, sink),
        Capability::Pointer => {},
    }
}

fn write_decimal(v: i64, sink: &mut String)
    ensures
        final(sink)@ == old(sink)@ + decimal_text(v as int),
{
    if v < 0 {
        let magnitude: u64 = (-(v as i128)) as u64;
        push_char(sink, '-');
        write_radix(magnitude, 10, false, sink);
        assert(final(sink)@ =~= old(sink)@ + decimal_text(v as int));
    } else {
        write_radix(v as u64, 10, false, sink);
    }
}

fn write_signed(v: i64, modulus: u128, cap: Capability, sink: &mut String)
    requires
        integer_supports(cap),
        0 <= v + modulus,
        modulus <= 0x1_0000_0000_0000_0000,
    ensures
        final(sink)@ == old(sink)@ + signed_text(v, modulus as int, cap),
{
    let bits: u64 = if v < 0 {
        ((v as i128) + (modulus as i128)) as u64
    } else {
        v as u64
    };
    match cap {
        Capability::Display | Capability::Debug => write_decimal(v, sink),
        Capability::LowerExp => sink.append(format_lower_exp_i64(v).as_str()),
        Capability::UpperExp => sink.append(format_upper_exp_i64(v).as_str()),
        Capability::Octal => write_radix(bits, 8, false, sink),
        Capability::Binary => write_radix(bits, 2, false, sink),
        Capability::LowerHex => write_radix(bits, 16, false, sink),
        Capability::UpperHex => write_radix(bits, 16, true, sink),
        Capability::Pointer => {},
    }
}

impl FormatValue for usize {
    open spec fn supports(cap: Capability) -> bool {
        integer_supports(cap)
    }

    open spec fn text(&self, cap: Capability) -> Option<Seq<char>> {
        Some(unsigned_text(*self as u64, cap))
    }

    open spec fn narrows() -> bool {
        true
    }

    open spec fn index(&self) -> usize {
        *self
    }

    fn allowed(cap: Capability) -> (b: bool) {
        integer_allowed(cap)
    }

    fn perform(&self, cap: Capability, sink: &mut String) -> (r: Result<(), FormatError>) {
        write_unsigned(*self as u64, cap, sink);
        Ok(())
    }

    fn is_index() -> (b: bool) {
        true
    }

    fn as_index(&self) -> (r: Option<&usize>) {
        Some(self)
    }
}

impl FormatValue for u8 {
    open spec fn supports(cap: Capability) -> bool {
        integer_supports(cap)
    }

    open spec fn text(&self, cap: Capability) -> Option<Seq<char>> {
        Some(unsigned_text(*self as u64, cap))
    }

    fn allowed(cap: Capability) -> (b: bool) {
        integer_allowed(cap)
    }

    fn perform(&self, cap: Capability, sink: &mut String) -> (r: Result<(), FormatError>) {
        write_unsigned(*self as u64, cap, sink);
        Ok(())
    }

    fn is_index() -> (b: bool) {
        false
    }

    fn as_index(&self) -> (r: Option<&usize>) {
        None
    }
}

impl FormatValue for u16 {
    open spec fn supports(cap: Capability) -> bool {
        integer_supports(cap)
    }

    open spec fn text(&self, cap: Capability) -> Option<Seq<char>> {
        Some(unsigned_text(*self as u64, cap))
    }

    fn allowed(cap: Capability) -> (b: bool) {
        integer_allowed(cap)
    }

    fn perform(&self, cap: Capability, sink: &mut String) -> (r: Result<(), FormatError>) {
        write_unsigned(*self as u64, cap, sink);
        Ok(())
    }

    fn is_index() -> (b: bool) {
        false
    }

    fn as_index(&self) -> (r: Option<&usize>) {
        None
    }
}

impl FormatValue for u32 {
    open spec fn supports(cap: Capability) -> bool {
        integer_supports(cap)
    }

    open spec fn text(&self, cap: Capability) -> Option<Seq<char>> {
        Some(unsigned_text(*self as u64, cap))
    }

    fn allowed(cap: Capability) -> (b: bool) {
        integer_allowed(cap)
    }

    fn perform(&self, cap: Capability, sink: &mut String) -> (r: Result<(), FormatError>) {
        write_unsigned(*self as u64, cap, sink);
        Ok(())
    }

    fn is_index() -> (b: bool) {
        false
    }

    fn as_index(&self) -> (r: Option<&usize>) {
        None
    }
}

impl FormatValue for u64 {
    open spec fn supports(cap: Capability) -> bool {
        integer_supports(cap)
    }

    open spec fn text(&self, cap: Capability) -> Option<Seq<char>> {
        Some(unsigned_text(*self as u64, cap))
    }

    fn allowed(cap: Capability) -> (b: bool) {
        integer_allowed(cap)
    }

    fn perform(&self, cap: Capability, sink: &mut String) -> (r: Result<(), FormatError>) {
        write_unsigned(*self as u64, cap, sink);
        Ok(())
    }

    fn is_index() -> (b: bool) {
        false
    }

    fn as_index(&self) -> (r: Option<&usize>) {
        None
    }
}

impl FormatValue for i8 {
    open spec fn supports(cap: Capability) -> bool {
        integer_supports(cap)
    }

    open spec fn text(&self, cap: Capability) -> Option<Seq<char>> {
        Some(signed_text(*self as i64, 0x100, cap))
    }

    fn allowed(cap: Capability) -> (b: bool) {
        integer_allowed(cap)
    }

    fn perform(&self, cap: Capability, sink: &mut String) -> (r: Result<(), FormatError>) {
        write_signed(*self as i64, 0x100, cap, sink);
        Ok(())
    }

    fn is_index() -> (b: bool) {
        false
    }

    fn as_index(&self) -> (r: Option<&usize>) {
        None
    }
}

impl FormatValue for i16 {
    open spec fn supports(cap: Capability) -> bool {
        integer_supports(cap)
    }

    open spec fn text(&self, cap: Capability) -> Option<Seq<char>> {
        Some(signed_text(*self as i64, 0x1_0000, cap))
    }

    fn allowed(cap: Capability) -> (b: bool) {
        integer_allowed(cap)
    }

    fn perform(&self, cap: Capability, sink: &mut String) -> (r: Result<(), FormatError>) {
        write_signed(*self as i64, 0x1_0000, cap, sink);
        Ok(())
    }

    fn is_index() -> (b: bool) {
        false
    }

    fn as_index(&self) -> (r: Option<&usize>) {
        None
    }
}

impl FormatValue for i32 {
    open spec fn supports(cap: Capability) -> bool {
        integer_supports(cap)
    }

    open spec fn text(&self, cap: Capability) -> Option<Seq<char>> {
        Some(signed_text(*self as i64, 0x1_0000_0000, cap))
    }

    fn allowed(cap: Capability) -> (b: bool) {
        integer_allowed(cap)
    }

    fn perform(&self, cap: Capability, sink: &mut String) -> (r: Result<(), FormatError>) {
        write_signed(*self as i64, 0x1_0000_0000, cap, sink);
        Ok(())
    }

    fn is_index() -> (b: bool) {
        false
    }

    fn as_index(&self) -> (r: Option<&usize>) {
        None
    }
}

impl FormatValue for i64 {
    open spec fn supports(cap: Capability) -> bool {
        integer_supports(cap)
    }

    open spec fn text(&self, cap: Capability) -> Option<Seq<char>> {
        Some(signed_text(*self as i64, 0x1_0000_0000_0000_0000, cap))
    }

    fn allowed(cap: Capability) -> (b: bool) {
        integer_allowed(cap)
    }

    fn perform(&self, cap: Capability, sink: &mut String) -> (r: Result<(), FormatError>) {
        write_signed(*self as i64, 0x1_0000_0000_0000_0000, cap, sink);
        Ok(())
    }

    fn is_index() -> (b: bool) {
        false
    }

    fn as_index(&self) -> (r: Option<&usize>) {
        None
    }
}

impl FormatValue for isize {
    open spec fn supports(cap: Capability) -> bool {
        integer_supports(cap)
    }

    open spec fn text(&self, cap: Capability) -> Option<Seq<char>> {
        Some(signed_text(*self as i64, usize::MAX + 1, cap))
    }

    fn allowed(cap: Capability) -> (b: bool) {
        integer_allowed(cap)
    }

    fn perform(&self, cap: Capability, sink: &mut String) -> (r: Result<(), FormatError>) {
        write_signed(*self as i64, usize::MAX as u128 + 1, cap, sink);
        Ok(())
    }

    fn is_index() -> (b: bool) {
        false
    }

    fn as_index(&self) -> (r: Option<&usize>) {
        None
    }
}

impl FormatValue for bool {
    open spec fn supports(cap: Capability) -> bool {
        plain_supports(cap)
    }

    open spec fn text(&self, cap: Capability) -> Option<Seq<char>> {
        Some(if *self { "true"@ } else { "false"@ })
    }

    fn allowed(cap: Capability) -> (b: bool) {
        plain_allowed(cap)
    }

    fn perform(&self, cap: Capability, sink: &mut String) -> (r: Result<(), FormatError>) {
        if *self {
            sink.append("true");
        } else {
            sink.append("false");
        }
        Ok(())
    }

    fn is_index() -> (b: bool) {
        false
    }

    fn as_index(&self) -> (r: Option<&usize>) {
        None
    }
}

impl FormatValue for char {
    open spec fn supports(cap: Capability) -> bool {
        plain_supports(cap)
    }

    open spec fn text(&self, cap: Capability) -> Option<Seq<char>> {
        Some(if cap == Capability::Debug { debug_char(*self) } else { seq![*self] })
    }

    fn allowed(cap: Capability) -> (b: bool) {
        plain_allowed(cap)
    }

    fn perform(&self, cap: Capability, sink: &mut String) -> (r: Result<(), FormatError>) {
        match cap {
            Capability::Debug => sink.append(format_debug_char(*self).as_str()),
            _ => {
                push_char(sink, *self);
                assert(old(sink)@.push(*self) =~= old(sink)@ + seq![*self]);
            },
        }
        Ok(())
    }

    fn is_index() -> (b: bool) {
        false
    }

    fn as_index(&self) -> (r: Option<&usize>) {
        None
    }
}

impl FormatValue for String {
    open spec fn supports(cap: Capability) -> bool {
        plain_supports(cap)
    }

    open spec fn text(&self, cap: Capability) -> Option<Seq<char>> {
        Some(if cap == Capability::Debug { debug_str(self@) } else { self@ })
    }

    fn allowed(cap: Capability) -> (b: bool) {
        plain_allowed(cap)
    }

    fn perform(&self, cap: Capability, sink: &mut String) -> (r: Result<(), FormatError>) {
        match cap {
            Capability::Debug => sink.append(format_debug_str(self.as_str()).as_str()),
            _ => sink.append(self.as_str()),
        }
        Ok(())
    }

    fn is_index() -> (b: bool) {
        false
    }

    fn as_index(&self) -> (r: Option<&usize>) {
        None
    }
}

/// Of the types above only `usize` is the index type: a number of any other
/// width is neither widened nor narrowed to it.
pub proof fn only_usize_narrows()
    ensures
        <usize as FormatValue>::narrows(),
        !<u8 as FormatValue>::narrows(),
        !<u16 as FormatValue>::narrows(),
        !<u32 as FormatValue>::narrows(),
        !<u64 as FormatValue>::narrows(),
        !<i8 as FormatValue>::narrows(),
        !<i16 as FormatValue>::narrows(),
        !<i32 as FormatValue>::narrows(),
        !<i64 as FormatValue>::narrows(),
        !<isize as FormatValue>::narrows(),
        !<bool as FormatValue>::narrows(),
        !<char as FormatValue>::narrows(),
        !<String as FormatValue>::narrows(),
{
}

} // verus!
