//! The representations a value may have, as values and as types.

use crate::value::{wrote, FormatError, FormatValue};
use vstd::prelude::*;

verus! {

/// A representation in which a value can be written out.
#[derive(Clone, Copy, PartialEq, Eq, Structural, Debug)]
pub enum Capability {
    /// The representation meant for a reader.
    Display,
    /// The representation meant for a programmer.
    Debug,
    /// Scientific notation with a lower-case `e`.
    LowerExp,
    /// Scientific notation with an upper-case `E`.
    UpperExp,
    /// Base 8.
    Octal,
    /// The address a pointer holds.
    Pointer,
    /// Base 2.
    Binary,
    /// Base 16 with the digits `a` to `f`.
    LowerHex,
    /// Base 16 with the digits `A` to `F`.
    UpperHex,
}

/// How many representations there are.
pub const CAPABILITY_COUNT: usize = 9;

impl Capability {
    /// The place of this representation among all of them, from zero.
    pub open spec fn position(self) -> nat {
        match self {
            Capability::Display => 0,
            Capability::Debug => 1,
            Capability::LowerExp => 2,
            Capability::UpperExp => 3,
            Capability::Octal => 4,
            Capability::Pointer => 5,
            Capability::Binary => 6,
            Capability::LowerHex => 7,
            Capability::UpperHex => 8,
        }
    }

    /// The representation at place `n`, where there is one.
    pub open spec fn at(n: nat) -> Option<Capability> {
        if n == 0 {
            Some(Capability::Display)
        } else if n == 1 {
            Some(Capability::Debug)
        } else if n == 2 {
            Some(Capability::LowerExp)
        } else if n == 3 {
            Some(Capability::UpperExp)
        } else if n == 4 {
            Some(Capability::Octal)
        } else if n == 5 {
            Some(Capability::Pointer)
        } else if n == 6 {
            Some(Capability::Binary)
        } else if n == 7 {
            Some(Capability::LowerHex)
        } else if n == 8 {
            Some(Capability::UpperHex)
        } else {
            None
        }
    }

    /// The token that asks for this representation in a template; the
    /// reader's representation is asked for by no token at all.
    pub open spec fn token(self) -> Option<char> {
        match self {
            Capability::Display => None,
            Capability::Debug => Some('?'),
            Capability::LowerExp => Some('e'),
            Capability::UpperExp => Some('E'),
            Capability::Octal => Some('o'),
            Capability::Pointer => Some('p'),
            Capability::Binary => Some('b'),
            Capability::LowerHex => Some('x'),
            Capability::UpperHex => Some('X'),
        }
    }

    /// The representation that `token` asks for, where it asks for one.
    pub open spec fn of_token(token: Option<char>) -> Option<Capability> {
        match token {
            None => Some(Capability::Display),
            Some(c) => if c == '?' {
                Some(Capability::Debug)
            } else if c == 'e' {
                Some(Capability::LowerExp)
            } else if c == 'E' {
                Some(Capability::UpperExp)
            } else if c == 'o' {
                Some(Capability::Octal)
            } else if c == 'p' {
                Some(Capability::Pointer)
            } else if c == 'b' {
                Some(Capability::Binary)
            } else if c == 'x' {
                Some(Capability::LowerHex)
            } else if c == 'X' {
                Some(Capability::UpperHex)
            } else {
                None
            },
        }
    }

    /// The place of this representation among all of them, from zero.
    pub fn ordinal(self) -> (n: usize)
        ensures
            n == self.position(),
            n < CAPABILITY_COUNT,
    {
        match self {
            Capability::Display => 0,
            Capability::Debug => 1,
            Capability::LowerExp => 2,
            Capability::UpperExp => 3,
            Capability::Octal => 4,
            Capability::Pointer => 5,
            Capability::Binary => 6,
            Capability::LowerHex => 7,
            Capability::UpperHex => 8,
        }
    }

    /// The representation at place `n`; there is one for each place below
    /// `CAPABILITY_COUNT`.
    pub fn from_ordinal(n: usize) -> (r: Option<Capability>)
        ensures
            r == Capability::at(n as nat),
            r is Some <==> n < CAPABILITY_COUNT,
    {
        match n {
            0 => Some(Capability::Display),
            1 => Some(Capability::Debug),
            2 => Some(Capability::LowerExp),
            3 => Some(Capability::UpperExp),
            4 => Some(Capability::Octal),
            5 => Some(Capability::Pointer),
            6 => Some(Capability::Binary),
            7 => Some(Capability::LowerHex),
            8 => Some(Capability::UpperHex),
            _ => None,
        }
    }

    /// The token that asks for this representation in a template.
    pub fn as_token(self) -> (r: Option<char>)
        ensures
            r == self.token(),
    {
        match self {
            Capability::Display => None,
            Capability::Debug => Some('?'),
            Capability::LowerExp => Some('e'),
            Capability::UpperExp => Some('E'),
            Capability::Octal => Some('o'),
            Capability::Pointer => Some('p'),
            Capability::Binary => Some('b'),
            Capability::LowerHex => Some('x'),
            Capability::UpperHex => Some('X'),
        }
    }

    /// The representation that `token` asks for, or nothing where the token
    /// asks for none.
    pub fn from_token(token: Option<char>) -> (r: Option<Capability>)
        ensures
            r == Capability::of_token(token),
    {
        match token {
            None => Some(Capability::Display),
            Some('?') => Some(Capability::Debug),
            Some('e') => Some(Capability::LowerExp),
            Some('E') => Some(Capability::UpperExp),
            Some('o') => Some(Capability::Octal),
            Some('p') => Some(Capability::Pointer),
            Some('b') => Some(Capability::Binary),
            Some('x') => Some(Capability::LowerHex),
            Some('X') => Some(Capability::UpperHex),
            Some(_) => None,
        }
    }

    /// Each representation stands at its own place, and each place below
    /// `CAPABILITY_COUNT` holds the representation that names it.
    pub proof fn places_match(self, n: nat)
        ensures
            Capability::at(self.position()) == Some(self),
            self.position() < CAPABILITY_COUNT,
            Capability::at(n) is Some <==> n < CAPABILITY_COUNT,
            Capability::at(n) == Some(self) ==> self.position() == n,
    {
    }

    /// A representation is asked for by its own token and by no other.
    pub proof fn tokens_match(self, token: Option<char>)
        ensures
            Capability::of_token(self.token()) == Some(self),
            Capability::of_token(token) == Some(self) ==> token == self.token(),
    {
    }
}

/// A representation as a type, so that it can be chosen by a type argument.
///
/// The set is closed: each implementor stands for one `Capability`.
pub trait FormatTrait {
    /// The representation this type stands for.
    spec fn capability() -> Capability;

    /// The representation this type stands for.
    fn kind() -> (c: Capability)
        ensures
            c == Self::capability(),
    ;

    /// Whether values of `T` have this representation.
    fn allowed<T: FormatValue>() -> (b: bool)
        ensures
            b == T::supports(Self::capability()),
    {
        T::allowed(Self::kind())
    }

    /// Appends `t` in this representation to `sink`. Only for a `T` for which
    /// `allowed` holds.
    fn perform<T: FormatValue>(t: &T, sink: &mut String) -> (r: Result<(), FormatError>)
        requires
            T::supports(Self::capability()),
        ensures
            wrote(old(sink)@, final(sink)@, t.text(Self::capability()), r),
    {
        t.perform(Self::kind(), sink)
    }
}

} // verus!
