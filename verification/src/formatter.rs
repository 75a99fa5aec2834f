//! Formatters: one field of a container bound to one representation.

use crate::accessor::{is_accessor, is_projection, project, projection_gives};
use crate::capability::{Capability, FormatTrait};
use crate::value::{wrote, FormatError, FormatValue};
use core::marker::PhantomData;
use vstd::prelude::*;

verus! {

/// What a formatter does once the types of field and accessor are forgotten.
trait FieldFormat<This> {
    spec fn well_formed(&self) -> bool;

    spec fn text(&self, this: &This) -> Option<Seq<char>>;

    fn format(&self, this: &This, sink: &mut String) -> (r: Result<(), FormatError>)
        requires
            self.well_formed(),
        ensures
            wrote(old(sink)@, final(sink)@, self.text(this), r),
    ;
}

/// An accessor together with a representation that its field's type has.
struct Binding<This, Value, Mapper> {
    mapper: Mapper,
    cap: Capability,
    marker: PhantomData<(This, Value)>,
}

impl<This, Value: FormatValue, Mapper: Fn(&This) -> &Value> FieldFormat<This> for Binding<
    This,
    Value,
    Mapper,
> {
    closed spec fn well_formed(&self) -> bool {
        &&& is_projection::<This, Value, Mapper>(self.mapper)
        &&& Value::supports(self.cap)
    }

    closed spec fn text(&self, this: &This) -> Option<Seq<char>> {
        project::<This, Value, Mapper>(self.mapper, this).text(self.cap)
    }

    fn format(&self, this: &This, sink: &mut String) -> (r: Result<(), FormatError>) {
        let field = (self.mapper)(this);
        field.perform(self.cap, sink)
    }
}

/// A formatter: writes one field of any `This` in one representation.
///
/// Which field and which representation were settled when it was made.
#[verifier::reject_recursive_types(This)]
pub struct FormatFn<This> {
    inner: Box<dyn FieldFormat<This>>,
}

impl<This> FormatFn<This> {
    #[verifier::type_invariant]
    spec fn well_formed(&self) -> bool {
        self.inner.well_formed()
    }

    /// What this formatter writes for `this`, or `None` where writing fails.
    pub closed spec fn text(&self, this: &This) -> Option<Seq<char>> {
        self.inner.text(this)
    }

    /// Appends the bound field of `this` to `sink` in the bound
    /// representation.
    pub fn format(&self, this: &This, sink: &mut String) -> (r: Result<(), FormatError>)
        ensures
            wrote(old(sink)@, final(sink)@, self.text(this), r),
    {
        proof {
            use_type_invariant(self);
        }
        self.inner.format(this, sink)
    }
}

/// `r` is what binding the field behind `mapper` to `cap` gives: a formatter
/// exactly where the field's type has the representation, and then one that
/// writes what the field itself writes.
pub open spec fn binds<This, Value: FormatValue, Mapper: Fn(&This) -> &Value>(
    r: Option<FormatFn<This>>,
    mapper: Mapper,
    cap: Capability,
) -> bool {
    &&& r is Some <==> Value::supports(cap)
    &&& r matches Some(f) ==> forall|this: &This| #[trigger]
        f.text(this) == project::<This, Value, Mapper>(mapper, this).text(cap)
}

/// Binds the field behind `mapper` to the representation `cap`.
pub fn formatter_for<This, Value, Mapper>(mapper: Mapper, cap: Capability) -> (r: Option<
    FormatFn<This>,
>) where This: 'static, Value: FormatValue + 'static, Mapper: Fn(&This) -> &Value + 'static
    requires
        is_accessor::<This, Value, Mapper>(mapper),
    ensures
        binds::<This, Value, Mapper>(r, mapper, cap),
{
    if Value::allowed(cap) {
        let binding = Binding::<This, Value, Mapper> { mapper, cap, marker: PhantomData };
        Some(FormatFn { inner: Box::new(binding) })
    } else {
        None
    }
}

/// Binds the field behind `mapper` to the representation `Format`.
///
/// Gives a formatter exactly where `Value` has the representation. For every
/// container the formatter writes what `Format::perform` writes for the field.
pub fn get_formatter<Format, This, Value, Mapper>(mapper: Mapper) -> (r: Option<
    FormatFn<This>,
>) where
    Format: FormatTrait,
    This: 'static,
    Value: FormatValue + 'static,
    Mapper: Fn(&This) -> &Value + 'static,

    requires
        is_accessor::<This, Value, Mapper>(mapper),
    ensures
        binds::<This, Value, Mapper>(r, mapper, Format::capability()),
{
    formatter_for::<This, Value, Mapper>(mapper, Format::kind())
}

/// A formatter writes what its representation writes for the field itself:
/// on one sink the two leave the same text, and they succeed or fail
/// together.
pub proof fn formatter_writes_as_field<This, Value: FormatValue, Mapper: Fn(&This) -> &Value>(
    f: FormatFn<This>,
    mapper: Mapper,
    cap: Capability,
    this: &This,
    field: &Value,
    before: Seq<char>,
    by_formatter: (Seq<char>, Result<(), FormatError>),
    directly: (Seq<char>, Result<(), FormatError>),
)
    requires
        is_projection::<This, Value, Mapper>(mapper),
        binds::<This, Value, Mapper>(Some(f), mapper, cap),
        call_ensures(mapper, (this,), field),
        wrote(before, by_formatter.0, f.text(this), by_formatter.1),
        wrote(before, directly.0, field.text(cap), directly.1),
    ensures
        by_formatter.0 == directly.0,
        by_formatter.1 is Ok <==> directly.1 is Ok,
{
    projection_gives::<This, Value, Mapper>(mapper, this, field);
}

} // verus!
