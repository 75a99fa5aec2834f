//! One type for each representation, to choose a representation by a type
//! argument.

use crate::capability::{Capability, FormatTrait};
use vstd::prelude::*;

verus! {

/// Stands for `Capability::Display`.
pub struct Display;

/// Stands for `Capability::Debug`.
pub struct Debug;

/// Stands for `Capability::LowerExp`.
pub struct LowerExp;

/// Stands for `Capability::UpperExp`.
pub struct UpperExp;

/// Stands for `Capability::Octal`.
pub struct Octal;

/// Stands for `Capability::Pointer`.
pub struct Pointer;

/// Stands for `Capability::Binary`.
pub struct Binary;

/// Stands for `Capability::LowerHex`.
pub struct LowerHex;

/// Stands for `Capability::UpperHex`.
pub struct UpperHex;

impl FormatTrait for Display {
    open spec fn capability() -> Capability {
        Capability::Display
    }

    fn kind() -> (c: Capability) {
        Capability::Display
    }
}

impl FormatTrait for Debug {
    open spec fn capability() -> Capability {
        Capability::Debug
    }

    fn kind() -> (c: Capability) {
        Capability::Debug
    }
}

impl FormatTrait for LowerExp {
    open spec fn capability() -> Capability {
        Capability::LowerExp
    }

    fn kind() -> (c: Capability) {
        Capability::LowerExp
    }
}

impl FormatTrait for UpperExp {
    open spec fn capability() -> Capability {
        Capability::UpperExp
    }

    fn kind() -> (c: Capability) {
        Capability::UpperExp
    }
}

impl FormatTrait for Octal {
    open spec fn capability() -> Capability {
        Capability::Octal
    }

    fn kind() -> (c: Capability) {
        Capability::Octal
    }
}

impl FormatTrait for Pointer {
    open spec fn capability() -> Capability {
        Capability::Pointer
    }

    fn kind() -> (c: Capability) {
        Capability::Pointer
    }
}

impl FormatTrait for Binary {
    open spec fn capability() -> Capability {
        Capability::Binary
    }

    fn kind() -> (c: Capability) {
        Capability::Binary
    }
}

impl FormatTrait for LowerHex {
    open spec fn capability() -> Capability {
        Capability::LowerHex
    }

    fn kind() -> (c: Capability) {
        Capability::LowerHex
    }
}

impl FormatTrait for UpperHex {
    open spec fn capability() -> Capability {
        Capability::UpperHex
    }

    fn kind() -> (c: Capability) {
        Capability::UpperHex
    }
}

} // verus!
