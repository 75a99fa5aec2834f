//! Index accessors: fields that can supply a width or a precision.

use crate::accessor::{is_accessor, is_projection, project, projection_gives};
use crate::value::FormatValue;
use core::marker::PhantomData;
use vstd::pervasive::unreached;
use vstd::prelude::*;

verus! {

/// What an index accessor does once the types of field and accessor are
/// forgotten.
trait FieldIndex<This> {
    spec fn well_formed(&self) -> bool;

    spec fn value(&self, this: &This) -> usize;

    fn get<'a>(&self, this: &'a This) -> (r: &'a usize)
        requires
            self.well_formed(),
        ensures
            *r == self.value(this),
    ;
}

/// An accessor whose field's type is the index type.
struct Narrowing<This, Value, Mapper> {
    mapper: Mapper,
    marker: PhantomData<(This, Value)>,
}

impl<This, Value: FormatValue + 'static, Mapper: Fn(&This) -> &Value> FieldIndex<This> for Narrowing<
    This,
    Value,
    Mapper,
> {
    closed spec fn well_formed(&self) -> bool {
        &&& is_projection::<This, Value, Mapper>(self.mapper)
        &&& Value::narrows()
    }

    closed spec fn value(&self, this: &This) -> usize {
        project::<This, Value, Mapper>(self.mapper, this).index()
    }

    fn get<'a>(&self, this: &'a This) -> (r: &'a usize) {
        let field = (self.mapper)(this);
        match field.as_index() {
            Some(i) => i,
            None => unreached(),
        }
    }
}

/// An index accessor: reads one field of any `This` as an index.
///
/// It exists only for a field whose type is the index type.
#[verifier::reject_recursive_types(This)]
pub struct IndexFn<This> {
    inner: Box<dyn FieldIndex<This>>,
}

impl<This> IndexFn<This> {
    #[verifier::type_invariant]
    spec fn well_formed(&self) -> bool {
        self.inner.well_formed()
    }

    /// The index this accessor reads from `this`.
    pub closed spec fn value(&self, this: &This) -> usize {
        self.inner.value(this)
    }

    /// Reads the bound field of `this`.
    pub fn get<'a>(&self, this: &'a This) -> (r: &'a usize)
        ensures
            *r == self.value(this),
    {
        proof {
            use_type_invariant(self);
        }
        self.inner.get(this)
    }
}

/// `r` is what narrowing the field behind `mapper` gives: an index accessor
/// exactly where the field's type is the index type, and then one that reads
/// the field itself.
pub open spec fn narrowed<This, Value: FormatValue, Mapper: Fn(&This) -> &Value>(
    r: Option<IndexFn<This>>,
    mapper: Mapper,
) -> bool {
    &&& r is Some <==> Value::narrows()
    &&& r matches Some(g) ==> forall|this: &This| #[trigger]
        g.value(this) == project::<This, Value, Mapper>(mapper, this).index()
}

/// Narrows the field behind `mapper` to the index type.
///
/// Gives an index accessor exactly where `Value` is the index type; a field
/// of any other type, numeric or not, gives none.
pub fn get_as_usize<This, Value, Mapper>(mapper: Mapper) -> (r: Option<IndexFn<This>>) where
    This: 'static,
    Value: FormatValue + 'static,
    Mapper: Fn(&This) -> &Value + 'static,

    requires
        is_accessor::<This, Value, Mapper>(mapper),
    ensures
        narrowed::<This, Value, Mapper>(r, mapper),
{
    if Value::is_index() {
        let narrowing = Narrowing::<This, Value, Mapper> { mapper, marker: PhantomData };
        Some(IndexFn { inner: Box::new(narrowing) })
    } else {
        None
    }
}

/// The index accessor of a `usize` field exists and reads the field as it
/// stands, with no conversion.
pub proof fn index_accessor_is_identity<This, Mapper: Fn(&This) -> &usize>(
    r: Option<IndexFn<This>>,
    mapper: Mapper,
    this: &This,
    field: &usize,
)
    requires
        is_projection::<This, usize, Mapper>(mapper),
        narrowed::<This, usize, Mapper>(r, mapper),
        call_ensures(mapper, (this,), field),
    ensures
        r is Some,
        r.unwrap().value(this) == *field,
{
    projection_gives::<This, usize, Mapper>(mapper, this, field);
}

} // verus!
