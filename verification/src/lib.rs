//! Formatting of a container's fields by a template that is chosen at run time.
//!
//! A template names a field and a representation. Which representations a
//! field's type has is settled once, when a formatter is asked for: a
//! formatter exists only where the type has the representation, so an
//! unsupported pair is refused before anything is written.

pub mod accessor;
pub mod capability;
pub mod descriptor;
pub mod formatter;
pub mod index;
pub mod kinds;
pub mod radix;
pub mod scalars;
pub mod value;

pub use accessor::is_stateless;
pub use capability::{Capability, FormatTrait};
pub use descriptor::{Descriptor, FormatArgs};
pub use formatter::{formatter_for, get_formatter, FormatFn};
pub use index::{get_as_usize, IndexFn};
pub use value::{FormatError, FormatValue};
