//! Descriptors: what a template interpreter may ask about a container type.
//!
//! A descriptor names the fields of a container in the order of their
//! declaration and holds, for each field, the formatters and the index
//! accessor that the field's type allows.

use crate::capability::{Capability, FormatTrait, CAPABILITY_COUNT};
use crate::accessor::is_accessor;
use crate::formatter::{binds, formatter_for, FormatFn};
use crate::index::{get_as_usize, narrowed, IndexFn};
use crate::value::FormatValue;
use vstd::prelude::*;
use vstd::string::StringExecFns;

verus! {

/// `r` is where `name` is declared in `names`: the first place that holds
/// it, or nothing where no field has the name.
pub open spec fn locates(names: Seq<Seq<char>>, name: Seq<char>, r: Option<usize>) -> bool {
    match r {
        Some(i) => {
            &&& i < names.len()
            &&& names[i as int] == name
            &&& forall|j: int| 0 <= j < i ==> names[j] != name
        },
        None => forall|j: int| 0 <= j < names.len() ==> names[j] != name,
    }
}

/// What `get_child` promises of its result `r`: a formatter exactly where
/// field `index` of `A` has the representation `cap`, and then one that
/// writes the field's text.
pub open spec fn is_child<A: FormatArgs>(r: Option<FormatFn<A>>, index: int, cap: Capability) -> bool {
    &&& r is Some <==> A::field_supports(index, cap)
    &&& r matches Some(f) ==> forall|this: &A| #[trigger]
        f.text(this) == this.field_text(index, cap)
}

/// What `as_usize` promises of its result `r`: an index accessor exactly
/// where the type of field `index` of `A` is the index type, and then one
/// that reads the field.
pub open spec fn is_indexer<A: FormatArgs>(r: Option<IndexFn<A>>, index: int) -> bool {
    &&& r is Some <==> A::field_narrows(index)
    &&& r matches Some(g) ==> forall|this: &A| #[trigger]
        g.value(this) == this.field_index(index)
}

/// A container type with a descriptor: its fields can be looked up by name
/// or by place, and each gives the formatters and the index accessor that
/// its type allows.
///
/// Look a field up with `validate_name` or `validate_index` before asking
/// for its formatter or its index accessor.
pub trait FormatArgs: Sized {
    /// The names of the fields, in the order of their declaration.
    open spec fn field_names() -> Seq<Seq<char>> {
        Seq::empty()
    }

    /// Whether the type of field `index` has the representation `cap`.
    open spec fn field_supports(index: int, cap: Capability) -> bool {
        false
    }

    /// The text of field `index` of `self` in the representation `cap`, or
    /// `None` where writing it fails.
    open spec fn field_text(&self, index: int, cap: Capability) -> Option<Seq<char>> {
        None
    }

    /// Whether the type of field `index` is the index type.
    open spec fn field_narrows(index: int) -> bool {
        false
    }

    /// Field `index` of `self` as an index.
    open spec fn field_index(&self, index: int) -> usize {
        0
    }

    /// The place of the field called `name`, or nothing where no field has
    /// that name. A place that is returned is in range.
    fn validate_name(name: &str) -> (r: Option<usize>)
        ensures
            locates(Self::field_names(), name@, r),
    ;

    /// Whether `index` is the place of a field.
    fn validate_index(index: usize) -> (b: bool)
        ensures
            b == (index < Self::field_names().len()),
    ;

    /// The formatter of field `index` for the representation `F`, or nothing
    /// where the field's type lacks it.
    fn get_child<F: FormatTrait>(index: usize) -> (r: Option<FormatFn<Self>>)
        requires
            index < Self::field_names().len(),
        ensures
            r is Some <==> Self::field_supports(index as int, F::capability()),
            r matches Some(f) ==> forall|this: &Self| #[trigger]
                f.text(this) == this.field_text(index as int, F::capability()),
    ;

    /// The index accessor of field `index`, or nothing where the field's
    /// type is not the index type.
    fn as_usize(index: usize) -> (r: Option<IndexFn<Self>>)
        requires
            index < Self::field_names().len(),
        ensures
            r is Some <==> Self::field_narrows(index as int),
            r matches Some(g) ==> forall|this: &Self| #[trigger]
                g.value(this) == this.field_index(index as int),
    ;
}

/// A name is declared at one place at most: two answers to one lookup are
/// the same answer.
pub proof fn lookup_is_unique(
    names: Seq<Seq<char>>,
    name: Seq<char>,
    a: Option<usize>,
    b: Option<usize>,
)
    requires
        locates(names, name, a),
        locates(names, name, b),
    ensures
        a == b,
{
}

/// Looking up the name declared at place `i` gives `i`, where no name is
/// declared twice.
pub proof fn lookup_inverts_declaration(names: Seq<Seq<char>>, i: int, r: Option<usize>)
    requires
        names.no_duplicates(),
        0 <= i < names.len(),
        locates(names, names[i], r),
    ensures
        r == Some(i as usize),
        i <= usize::MAX,
{
}

/// A lookup finds a place exactly for the declared names.
pub proof fn lookup_finds_declared(names: Seq<Seq<char>>, name: Seq<char>, r: Option<usize>)
    requires
        locates(names, name, r),
    ensures
        r is Some <==> names.contains(name),
{
    if r is Some {
        assert(names[r.unwrap() as int] == name);
    }
}

/// Two formatters that a descriptor gives for one field and one
/// representation cannot be told apart: either both are missing, or both
/// write the same text for every container.
pub proof fn children_agree<A: FormatArgs>(
    a: Option<FormatFn<A>>,
    b: Option<FormatFn<A>>,
    index: int,
    cap: Capability,
)
    requires
        is_child::<A>(a, index, cap),
        is_child::<A>(b, index, cap),
    ensures
        a is Some <==> b is Some,
        a is Some ==> forall|this: &A| #[trigger] a.unwrap().text(this) == b.unwrap().text(this),
{
}

/// Two index accessors that a descriptor gives for one field cannot be
/// told apart: either both are missing, or both read the same index from
/// every container.
pub proof fn indexers_agree<A: FormatArgs>(a: Option<IndexFn<A>>, b: Option<IndexFn<A>>, index: int)
    requires
        is_indexer::<A>(a, index),
        is_indexer::<A>(b, index),
    ensures
        a is Some <==> b is Some,
        a is Some ==> forall|this: &A| #[trigger]
            a.unwrap().value(this) == b.unwrap().value(this),
{
}

/// A descriptor assembled at run time, one field after the other.
#[verifier::reject_recursive_types(This)]
pub struct Descriptor<This> {
    names: Vec<String>,
    children: Vec<Vec<Option<FormatFn<This>>>>,
    indexers: Vec<Option<IndexFn<This>>>,
}

impl<This> Descriptor<This> {
    /// The table is whole: every field has a name of its own, one entry for
    /// each representation, and an entry for its index accessor.
    pub closed spec fn wf(&self) -> bool {
        &&& self.children.len() == self.names.len()
        &&& self.indexers.len() == self.names.len()
        &&& forall|i: int|
            0 <= i < self.children.len() ==> (#[trigger] self.children[i]).len()
                == CAPABILITY_COUNT
        &&& self.field_names().no_duplicates()
    }

    /// The names of the fields, in the order of their declaration.
    pub closed spec fn field_names(&self) -> Seq<Seq<char>> {
        Seq::new(self.names.len() as nat, |i: int| self.names[i]@)
    }

    /// The formatter of field `index` for the representation `cap`.
    pub closed spec fn child(&self, index: int, cap: Capability) -> Option<FormatFn<This>> {
        self.children[index][cap.position() as int]
    }

    /// The index accessor of field `index`.
    pub closed spec fn indexer(&self, index: int) -> Option<IndexFn<This>> {
        self.indexers[index]
    }

    /// No name is declared twice, so that a lookup inverts the declaration.
    pub proof fn names_are_distinct(&self)
        requires
            self.wf(),
        ensures
            self.field_names().no_duplicates(),
    {
    }

    /// A descriptor with no field.
    pub fn new() -> (d: Self)
        ensures
            d.wf(),
            d.field_names() == Seq::<Seq<char>>::empty(),
    {
        let d = Descriptor { names: Vec::new(), children: Vec::new(), indexers: Vec::new() };
        assert(d.field_names() =~= Seq::<Seq<char>>::empty());
        d
    }

    /// How many fields are declared.
    pub fn field_count(&self) -> (n: usize)
        ensures
            n == self.field_names().len(),
    {
        self.names.len()
    }

    /// Declares the next field: its name and the accessor that reads it.
    ///
    /// Gives the field's place. The field gets a formatter for each
    /// representation that its type has and an index accessor where its type
    /// is the index type; the fields declared before stay as they were. A
    /// name that is declared already is refused and nothing changes.
    pub fn declare<Value, Mapper>(&mut self, name: &str, mapper: Mapper) -> (r: Option<
        usize,
    >) where
        This: 'static,
        Value: FormatValue + 'static,
        Mapper: Fn(&This) -> &Value + Copy + 'static,

        requires
            old(self).wf(),
            is_accessor::<This, Value, Mapper>(mapper),
        ensures
            final(self).wf(),
            r is Some <==> !old(self).field_names().contains(name@),
            r is None ==> *final(self) == *old(self),
            r matches Some(i) ==> {
                &&& i == old(self).field_names().len()
                &&& final(self).field_names() == old(self).field_names().push(name@)
                &&& forall|cap: Capability|
                    binds::<This, Value, Mapper>(#[trigger] final(self).child(i as int, cap), mapper, cap)
                &&& narrowed::<This, Value, Mapper>(final(self).indexer(i as int), mapper)
                &&& forall|j: int, cap: Capability|
                    0 <= j < i ==> #[trigger] final(self).child(j, cap) == old(self).child(j, cap)
                &&& forall|j: int|
                    0 <= j < i ==> #[trigger] final(self).indexer(j) == old(self).indexer(j)
            },
    {
        let found = self.validate_name(name);
        proof {
            lookup_finds_declared(self.field_names(), name@, found);
        }
        if found.is_some() {
            return None;
        }
        let mut row: Vec<Option<FormatFn<This>>> = Vec::new();
        let mut k: usize = 0;
        while k < CAPABILITY_COUNT
            invariant
                k <= CAPABILITY_COUNT,
                row.len() == k,
                is_accessor::<This, Value, Mapper>(mapper),
                forall|cap: Capability|
                    cap.position() < k ==> binds::<This, Value, Mapper>(
                        #[trigger] row[cap.position() as int],
                        mapper,
                        cap,
                    ),
            decreases CAPABILITY_COUNT - k,
        {
            match Capability::from_ordinal(k) {
                Some(cap) => {
                    let entry = formatter_for::<This, Value, Mapper>(mapper, cap);
                    row.push(entry);
                },
                None => {},
            }
            k += 1;
        }
        let place = self.names.len();
        let narrowing = get_as_usize::<This, Value, Mapper>(mapper);
        self.names.push(String::from_str(name));
        self.children.push(row);
        self.indexers.push(narrowing);
        proof {
            assert(final(self).field_names() =~= old(self).field_names().push(name@));
        }
        Some(place)
    }

    /// The place of the field called `name`, or nothing where no field has
    /// that name.
    pub fn validate_name(&self, name: &str) -> (r: Option<usize>)
        ensures
            locates(self.field_names(), name@, r),
    {
        let wanted = String::from_str(name);
        let mut i: usize = 0;
        while i < self.names.len()
            invariant
                i <= self.names.len(),
                wanted@ == name@,
                forall|j: int| 0 <= j < i ==> self.field_names()[j] != name@,
            decreases self.names.len() - i,
        {
            if self.names[i] == wanted {
                return Some(i);
            }
            i += 1;
        }
        None
    }

    /// Whether `index` is the place of a field.
    pub fn validate_index(&self, index: usize) -> (b: bool)
        ensures
            b == (index < self.field_names().len()),
    {
        index < self.names.len()
    }

    /// The formatter of field `index` for the representation `cap`, or
    /// nothing where the field's type lacks it.
    pub fn get_child(&self, index: usize, cap: Capability) -> (r: Option<&FormatFn<This>>)
        requires
            self.wf(),
            index < self.field_names().len(),
        ensures
            r is Some <==> self.child(index as int, cap) is Some,
            r matches Some(f) ==> *f == self.child(index as int, cap).unwrap(),
    {
        self.children[index][cap.ordinal()].as_ref()
    }

    /// The index accessor of field `index`, or nothing where the field's
    /// type is not the index type.
    pub fn as_usize(&self, index: usize) -> (r: Option<&IndexFn<This>>)
        requires
            self.wf(),
            index < self.field_names().len(),
        ensures
            r is Some <==> self.indexer(index as int) is Some,
            r matches Some(g) ==> *g == self.indexer(index as int).unwrap(),
    {
        self.indexers[index].as_ref()
    }
}

} // verus!
