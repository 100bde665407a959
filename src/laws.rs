//! What the generated conversions do at run time, and the laws they obey.
//!
//! A native field is modelled as `Option<V>`: `None` is an absent optional
//! value. A C-side field is a [`CSlot`]. The conversions that the generated
//! code calls are parameters: `str_to_c` / `str_from_c` for C strings, and
//! `to_c(i, _)` / `from_c(i, _)` for the type of field `i`. `None` from any of
//! them is a conversion error.
use vstd::prelude::*;
use crate::model::{Class, FieldDecl, FieldPlan, FieldType, StructDecl};
use crate::classify::{classify, field_plan, fields_error, forward_error, mentions_c_char, reverse_error};
use crate::render::{decl_fields, plan_of};

verus! {

/// What a C-side field holds.
pub enum CSlot<F> {
    /// A null pointer.
    Null,
    /// A converted value.
    Data(F),
}

/// The plans of a declaration's fields, in order.
pub open spec fn decl_plans(d: StructDecl) -> Seq<FieldPlan> {
    decl_fields(d).map_values(|f: FieldDecl| plan_of(f))
}

/// The native-to-C conversion that field `i` calls on a present value.
pub open spec fn convert_forward<V, F>(
    p: FieldPlan,
    i: int,
    v: V,
    str_to_c: spec_fn(V) -> Option<F>,
    to_c: spec_fn(int, V) -> Option<F>,
) -> Option<F> {
    if p.class == Class::StrPtr {
        str_to_c(v)
    } else {
        to_c(i, v)
    }
}

/// The C-to-native conversion that field `i` calls on non-null data.
pub open spec fn convert_reverse<V, F>(
    p: FieldPlan,
    i: int,
    f: F,
    str_from_c: spec_fn(F) -> Option<V>,
    from_c: spec_fn(int, F) -> Option<V>,
) -> Option<V> {
    if p.class == Class::StrPtr {
        str_from_c(f)
    } else {
        from_c(i, f)
    }
}

/// One initializer of the `CReprOf` impl: a present value is converted; an
/// absent one becomes a null pointer when the field is nullable. `None` is an
/// error.
pub open spec fn forward_slot<V, F>(
    p: FieldPlan,
    i: int,
    n: Option<V>,
    str_to_c: spec_fn(V) -> Option<F>,
    to_c: spec_fn(int, V) -> Option<F>,
) -> Option<CSlot<F>> {
    match n {
        None => if p.nullable {
            Some(CSlot::Null)
        } else {
            None
        },
        Some(v) => match convert_forward(p, i, v, str_to_c, to_c) {
            Some(f) => Some(CSlot::Data(f)),
            None => None,
        },
    }
}

/// One initializer of the `AsRust` impl: data is converted back; a null
/// pointer becomes an absent value when the field is nullable, and an error
/// otherwise.
pub open spec fn reverse_slot<V, F>(
    p: FieldPlan,
    i: int,
    c: CSlot<F>,
    str_from_c: spec_fn(F) -> Option<V>,
    from_c: spec_fn(int, F) -> Option<V>,
) -> Option<Option<V>> {
    match c {
        CSlot::Null => if p.nullable {
            Some(None)
        } else {
            None
        },
        CSlot::Data(f) => match convert_reverse(p, i, f, str_from_c, from_c) {
            Some(v) => Some(Some(v)),
            None => None,
        },
    }
}

/// The whole `CReprOf` conversion: every field converted, or an error.
pub open spec fn forward_record<V, F>(
    ps: Seq<FieldPlan>,
    native: Seq<Option<V>>,
    str_to_c: spec_fn(V) -> Option<F>,
    to_c: spec_fn(int, V) -> Option<F>,
) -> Option<Seq<CSlot<F>>> {
    if forall|i: int|
        0 <= i < ps.len() ==> #[trigger] forward_slot(ps[i], i, native[i], str_to_c, to_c) is Some {
        Some(Seq::new(ps.len(), |i: int| forward_slot(ps[i], i, native[i], str_to_c, to_c)->Some_0))
    } else {
        None
    }
}

/// The whole `AsRust` conversion: every field converted back, or an error.
pub open spec fn reverse_record<V, F>(
    ps: Seq<FieldPlan>,
    c: Seq<CSlot<F>>,
    str_from_c: spec_fn(F) -> Option<V>,
    from_c: spec_fn(int, F) -> Option<V>,
) -> Option<Seq<Option<V>>> {
    if forall|i: int|
        0 <= i < ps.len() ==> #[trigger] reverse_slot(ps[i], i, c[i], str_from_c, from_c) is Some {
        Some(Seq::new(ps.len(), |i: int| reverse_slot(ps[i], i, c[i], str_from_c, from_c)->Some_0))
    } else {
        None
    }
}

/// The C-string conversions undo each other.
pub open spec fn str_round_trips<V, F>(
    str_to_c: spec_fn(V) -> Option<F>,
    str_from_c: spec_fn(F) -> Option<V>,
) -> bool {
    forall|v: V| #[trigger] str_to_c(v) is Some ==> str_from_c(str_to_c(v)->Some_0) == Some(v)
}

/// Each field type's conversions undo each other.
pub open spec fn values_round_trip<V, F>(
    to_c: spec_fn(int, V) -> Option<F>,
    from_c: spec_fn(int, F) -> Option<V>,
) -> bool {
    forall|i: int, v: V| #[trigger] to_c(i, v) is Some ==> from_c(i, to_c(i, v)->Some_0) == Some(v)
}

/// A field converted to C and back is the value it was, when the conversions
/// it calls round-trip.
pub proof fn lemma_slot_round_trip<V, F>(
    p: FieldPlan,
    i: int,
    n: Option<V>,
    str_to_c: spec_fn(V) -> Option<F>,
    str_from_c: spec_fn(F) -> Option<V>,
    to_c: spec_fn(int, V) -> Option<F>,
    from_c: spec_fn(int, F) -> Option<V>,
)
    requires
        str_round_trips(str_to_c, str_from_c),
        values_round_trip(to_c, from_c),
        forward_slot(p, i, n, str_to_c, to_c) is Some,
    ensures
        reverse_slot(p, i, forward_slot(p, i, n, str_to_c, to_c)->Some_0, str_from_c, from_c)
            == Some(n),
{
    if let Some(v) = n {
        let f = convert_forward(p, i, v, str_to_c, to_c)->Some_0;
        if p.class == Class::StrPtr {
            assert(str_to_c(v) == Some(f));
        } else {
            assert(to_c(i, v) == Some(f));
        }
    }
}

/// A struct converted to C and back is the value it was, whenever the
/// conversion to C succeeds and the conversions that the fields call
/// round-trip.
pub proof fn lemma_round_trip<V, F>(
    d: StructDecl,
    native: Seq<Option<V>>,
    str_to_c: spec_fn(V) -> Option<F>,
    str_from_c: spec_fn(F) -> Option<V>,
    to_c: spec_fn(int, V) -> Option<F>,
    from_c: spec_fn(int, F) -> Option<V>,
)
    requires
        forward_error(d) is None,
        native.len() == decl_fields(d).len(),
        str_round_trips(str_to_c, str_from_c),
        values_round_trip(to_c, from_c),
        forward_record(decl_plans(d), native, str_to_c, to_c) is Some,
    ensures
        reverse_record(
            decl_plans(d),
            forward_record(decl_plans(d), native, str_to_c, to_c)->Some_0,
            str_from_c,
            from_c,
        ) == Some(native),
{
    let ps = decl_plans(d);
    let c = forward_record(ps, native, str_to_c, to_c)->Some_0;
    assert forall|i: int| 0 <= i < ps.len() implies #[trigger] reverse_slot(
        ps[i],
        i,
        c[i],
        str_from_c,
        from_c,
    ) == Some(native[i]) by {
        assert(forward_slot(ps[i], i, native[i], str_to_c, to_c) is Some);
        lemma_slot_round_trip(ps[i], i, native[i], str_to_c, str_from_c, to_c, from_c);
    }
    assert(forall|i: int|
        0 <= i < ps.len() ==> #[trigger] reverse_slot(ps[i], i, c[i], str_from_c, from_c) is Some);
    let back = reverse_record(ps, c, str_from_c, from_c)->Some_0;
    assert(back =~= native);
}

/// A struct whose fields are all non-nullable values comes back unchanged
/// from a conversion to C and back, whenever the conversion to C succeeds and
/// each field type's conversions round-trip.
pub proof fn lemma_value_struct_round_trip<V, F>(
    d: StructDecl,
    native: Seq<Option<V>>,
    str_to_c: spec_fn(V) -> Option<F>,
    str_from_c: spec_fn(F) -> Option<V>,
    to_c: spec_fn(int, V) -> Option<F>,
    from_c: spec_fn(int, F) -> Option<V>,
)
    requires
        forward_error(d) is None,
        forall|i: int|
            0 <= i < decl_fields(d).len() ==> (#[trigger] decl_plans(d)[i]).class == Class::Value
                && !decl_plans(d)[i].nullable,
        native.len() == decl_fields(d).len(),
        forall|i: int| 0 <= i < native.len() ==> #[trigger] native[i] is Some,
        values_round_trip(to_c, from_c),
        forward_record(decl_plans(d), native, str_to_c, to_c) is Some,
    ensures
        reverse_record(
            decl_plans(d),
            forward_record(decl_plans(d), native, str_to_c, to_c)->Some_0,
            str_from_c,
            from_c,
        ) == Some(native),
{
    let ps = decl_plans(d);
    let c = forward_record(ps, native, str_to_c, to_c)->Some_0;
    assert forall|i: int| 0 <= i < ps.len() implies #[trigger] reverse_slot(
        ps[i],
        i,
        c[i],
        str_from_c,
        from_c,
    ) == Some(native[i]) by {
        assert(forward_slot(ps[i], i, native[i], str_to_c, to_c) is Some);
        let v = native[i]->Some_0;
        assert(to_c(i, v) is Some);
    }
    assert(forall|i: int|
        0 <= i < ps.len() ==> #[trigger] reverse_slot(ps[i], i, c[i], str_from_c, from_c) is Some);
    let back = reverse_record(ps, c, str_from_c, from_c)->Some_0;
    assert(back =~= native);
}

/// A nullable field that is absent becomes a null pointer, and a null pointer
/// becomes an absent value again; a present value comes back equal, when the
/// conversions it calls round-trip.
pub proof fn lemma_nullable_field_round_trip<V, F>(
    f: FieldDecl,
    i: int,
    n: Option<V>,
    str_to_c: spec_fn(V) -> Option<F>,
    str_from_c: spec_fn(F) -> Option<V>,
    to_c: spec_fn(int, V) -> Option<F>,
    from_c: spec_fn(int, F) -> Option<V>,
)
    requires
        field_plan(f) is Ok,
        plan_of(f).nullable,
    ensures
        n is None ==> forward_slot(plan_of(f), i, n, str_to_c, to_c) == Some(CSlot::<F>::Null),
        reverse_slot(plan_of(f), i, CSlot::<F>::Null, str_from_c, from_c) == Some(None::<V>),
        n is Some && str_round_trips(str_to_c, str_from_c) && values_round_trip(to_c, from_c)
            && forward_slot(plan_of(f), i, n, str_to_c, to_c) is Some ==> reverse_slot(
            plan_of(f),
            i,
            forward_slot(plan_of(f), i, n, str_to_c, to_c)->Some_0,
            str_from_c,
            from_c,
        ) == Some(n),
{
    if n is Some && str_round_trips(str_to_c, str_from_c) && values_round_trip(to_c, from_c)
        && forward_slot(plan_of(f), i, n, str_to_c, to_c) is Some {
        lemma_slot_round_trip(plan_of(f), i, n, str_to_c, str_from_c, to_c, from_c);
    }
}

/// A named field whose type is a pointer to a C character type is a C string:
/// converting a string to C gives a non-null pointer when the field is not
/// nullable, and a null pointer in a nullable one converts back to an absent
/// value, never to an error.
pub proof fn lemma_c_string_field<V, F>(
    f: FieldDecl,
    i: int,
    v: V,
    str_to_c: spec_fn(V) -> Option<F>,
    str_from_c: spec_fn(F) -> Option<V>,
    to_c: spec_fn(int, V) -> Option<F>,
    from_c: spec_fn(int, F) -> Option<V>,
)
    requires
        f.name is Some,
        f.ty matches FieldType::Ptr(elem) && *elem matches FieldType::Path(tp) && mentions_c_char(
            tp.path,
        ),
    ensures
        field_plan(f) is Ok,
        plan_of(f).class == Class::StrPtr,
        !plan_of(f).nullable && forward_slot(plan_of(f), i, Some(v), str_to_c, to_c) is Some
            ==> forward_slot(plan_of(f), i, Some(v), str_to_c, to_c)->Some_0 is Data,
        plan_of(f).nullable ==> reverse_slot(plan_of(f), i, CSlot::<F>::Null, str_from_c, from_c)
            == Some(None::<V>),
{
}

proof fn lemma_bad_field_reported(fs: Seq<FieldDecl>, i: int)
    requires
        0 <= i < fs.len(),
        field_plan(fs[i]) is Err,
    ensures
        fields_error(fs) is Some,
    decreases fs.len(),
{
    if i < fs.len() - 1 {
        assert(fs.drop_last()[i] == fs[i]);
        lemma_bad_field_reported(fs.drop_last(), i);
    }
}

/// A struct with a field of a type that cannot be converted (a reference, a
/// slice, a pointer to anything but a path...) gets neither conversion: both
/// generators report an error instead of writing code.
pub proof fn lemma_unsupported_field_aborts(d: StructDecl, i: int)
    requires
        d.fields is Some,
        0 <= i < decl_fields(d).len(),
        classify(decl_fields(d)[i].ty) is None,
    ensures
        forward_error(d) is Some,
        reverse_error(d) is Some,
{
    lemma_bad_field_reported(decl_fields(d), i);
}

/// The two generators accept exactly the same declarations.
pub proof fn lemma_generators_agree(d: StructDecl)
    ensures
        forward_error(d) is None <==> reverse_error(d) is None,
{
}

} // verus!
