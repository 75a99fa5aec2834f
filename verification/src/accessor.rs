//! Accessors: projections from a container to one of its fields.
//!
//! An accessor is a function value that carries no data of its own, so that
//! any two accessors of one type are the same accessor.

use vstd::prelude::*;

verus! {

/// `m` can be applied to every container and gives one field for each.
pub open spec fn is_projection<This, Value, M: Fn(&This) -> &Value>(m: M) -> bool {
    &&& forall|this: &This| call_requires(m, (this,))
    &&& forall|this: &This, a: &Value, b: &Value|
        call_ensures(m, (this,), a) && call_ensures(m, (this,), b) ==> a == b
}

/// The field that the projection `m` gives for `this`.
pub open spec fn project<This, Value, M: Fn(&This) -> &Value>(m: M, this: &This) -> &Value {
    choose|v: &Value| call_ensures(m, (this,), v)
}

/// What a projection returns for a container is the field it gives for it.
pub proof fn projection_gives<This, Value, M: Fn(&This) -> &Value>(m: M, this: &This, field: &Value)
    requires
        is_projection::<This, Value, M>(m),
        call_ensures(m, (this,), field),
    ensures
        project::<This, Value, M>(m, this) == field,
{
}

/// `m` is an accessor: a projection whose type has size zero.
pub open spec fn is_accessor<This, Value, M: Fn(&This) -> &Value>(m: M) -> bool {
    &&& vstd::layout::size_of::<M>() == 0
    &&& is_projection::<This, Value, M>(m)
}

/// Whether values of `M` carry no data, as an accessor must.
pub fn is_stateless<M>() -> (b: bool)
    ensures
        b == (vstd::layout::size_of::<M>() == 0),
{
    core::mem::size_of::<M>() == 0
}

} // verus!
