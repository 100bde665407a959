//! From a field's declared type and markers to the conversion that it gets.
use vstd::prelude::*;
use crate::model::{Attr, Class, DeriveError, FieldDecl, FieldPlan, FieldType, Path, StructDecl};
use crate::syntax::{is_path_syntax, parses_as_path};
use crate::text::{contains_seq, contains_str, is_literal};

verus! {

/// The attribute's path is the single identifier `n`.
pub open spec fn attr_named(a: Attr, n: Seq<char>) -> bool {
    a.name matches Some(s) && s@ == n
}

/// The position of the first attribute named `n`.
pub open spec fn first_named(attrs: Seq<Attr>, n: Seq<char>) -> Option<int>
    decreases attrs.len(),
{
    if attrs.len() == 0 {
        None
    } else {
        match first_named(attrs.drop_last(), n) {
            Some(i) => Some(i),
            None => if attr_named(attrs.last(), n) {
                Some(attrs.len() - 1)
            } else {
                None
            },
        }
    }
}

/// Some attribute at or after position `start` is named `n`.
pub open spec fn named_after(attrs: Seq<Attr>, n: Seq<char>, start: int) -> bool {
    exists|j: int| start <= j < attrs.len() && attr_named(#[trigger] attrs[j], n)
}

/// Some segment of the path has an identifier that contains `c_char`.
pub open spec fn mentions_c_char(p: Path) -> bool {
    exists|i: int|
        0 <= i < p.segments@.len() && contains_seq(#[trigger] p.segments@[i].ident@, "c_char"@)
}

/// The class of a declared type; `None` when the type cannot be converted.
pub open spec fn classify(t: FieldType) -> Option<Class> {
    match t {
        FieldType::Ptr(elem) => match *elem {
            FieldType::Path(tp) => if mentions_c_char(tp.path) {
                Some(Class::StrPtr)
            } else {
                Some(Class::OpaquePtr)
            },
            _ => None,
        },
        FieldType::Path(tp) => if tp.path.segments@.len() > 0 {
            Some(Class::Value)
        } else {
            None
        },
        FieldType::Other => None,
    }
}

/// The field carries the `nullable` marker.
pub open spec fn is_nullable(attrs: Seq<Attr>) -> bool {
    exists|i: int| 0 <= i < attrs.len() && attr_named(#[trigger] attrs[i], "nullable"@)
}

/// The conversion of one field, or why it has none.
pub open spec fn field_plan(f: FieldDecl) -> Result<FieldPlan, DeriveError> {
    if f.name is None {
        Err(DeriveError::UnnamedField)
    } else {
        match classify(f.ty) {
            Some(c) => Ok(FieldPlan { class: c, nullable: is_nullable(f.attrs@) }),
            None => Err(DeriveError::UnsupportedFieldType),
        }
    }
}

/// The error of the first field that has no conversion.
pub open spec fn fields_error(fs: Seq<FieldDecl>) -> Option<DeriveError>
    decreases fs.len(),
{
    if fs.len() == 0 {
        None
    } else {
        match fields_error(fs.drop_last()) {
            Some(e) => Some(e),
            None => match field_plan(fs.last()) {
                Err(e) => Some(e),
                Ok(_) => None,
            },
        }
    }
}

/// The argument of the first `target_type` attribute parses as a path.
pub open spec fn target_is_path(attrs: Seq<Attr>) -> bool {
    match first_named(attrs, "target_type"@) {
        Some(i) => match attrs[i].args {
            Some(a) => is_path_syntax(a@),
            None => false,
        },
        None => false,
    }
}

/// What is wrong with the declaration's `target_type` attribute, if anything,
/// given whether its argument parses as a path.
pub open spec fn target_error_given(attrs: Seq<Attr>, arg_is_path: bool) -> Option<DeriveError> {
    match first_named(attrs, "target_type"@) {
        None => Some(DeriveError::MissingTargetType),
        Some(i) => if named_after(attrs, "target_type"@, i + 1) {
            Some(DeriveError::DuplicateTargetType)
        } else if attrs[i].args is Some && arg_is_path {
            None
        } else {
            Some(DeriveError::InvalidTargetType)
        },
    }
}

/// What is wrong with the declaration's `target_type` attribute, if anything.
pub open spec fn target_error(attrs: Seq<Attr>) -> Option<DeriveError> {
    target_error_given(attrs, target_is_path(attrs))
}

/// The argument text of the declaration's `target_type` attribute.
pub open spec fn target_text(attrs: Seq<Attr>) -> Seq<char> {
    match first_named(attrs, "target_type"@) {
        Some(i) => match attrs[i].args {
            Some(a) => a@,
            None => Seq::empty(),
        },
        None => Seq::empty(),
    }
}

/// Why the native-to-C conversion cannot be generated, given whether the
/// target type's argument parses as a path: the kind of declaration is checked
/// first, then the target type, then the fields.
pub open spec fn forward_error_given(d: StructDecl, target_ok: bool) -> Option<DeriveError> {
    match d.fields {
        None => Some(DeriveError::NotAStruct),
        Some(fs) => match target_error_given(d.attrs@, target_ok) {
            Some(e) => Some(e),
            None => fields_error(fs@),
        },
    }
}

/// Why the C-to-native conversion cannot be generated, given whether the
/// target type's argument parses as a path: the target type is checked first,
/// then the kind of declaration, then the fields.
pub open spec fn reverse_error_given(d: StructDecl, target_ok: bool) -> Option<DeriveError> {
    match target_error_given(d.attrs@, target_ok) {
        Some(e) => Some(e),
        None => match d.fields {
            None => Some(DeriveError::NotAStruct),
            Some(fs) => fields_error(fs@),
        },
    }
}

/// Why the native-to-C conversion cannot be generated.
pub open spec fn forward_error(d: StructDecl) -> Option<DeriveError> {
    forward_error_given(d, target_is_path(d.attrs@))
}

/// Why the C-to-native conversion cannot be generated.
pub open spec fn reverse_error(d: StructDecl) -> Option<DeriveError> {
    reverse_error_given(d, target_is_path(d.attrs@))
}

proof fn lemma_first_named_kept(s: Seq<Attr>, n: Seq<char>, k: int)
    requires
        0 <= k <= s.len(),
        first_named(s.take(k), n) is Some,
    ensures
        first_named(s, n) == first_named(s.take(k), n),
    decreases s.len(),
{
    if k == s.len() {
        assert(s.take(k) =~= s);
    } else {
        assert(s.drop_last().take(k) =~= s.take(k));
        lemma_first_named_kept(s.drop_last(), n, k);
    }
}

proof fn lemma_fields_error_kept(s: Seq<FieldDecl>, k: int)
    requires
        0 <= k <= s.len(),
        fields_error(s.take(k)) is Some,
    ensures
        fields_error(s) == fields_error(s.take(k)),
    decreases s.len(),
{
    if k == s.len() {
        assert(s.take(k) =~= s);
    } else {
        assert(s.drop_last().take(k) =~= s.take(k));
        lemma_fields_error_kept(s.drop_last(), k);
    }
}

/// The position of the first attribute whose path is the identifier `name`.
pub fn find_attr(attrs: &Vec<Attr>, name: &str) -> (r: Option<usize>)
    ensures
        r matches Some(i) ==> i < attrs@.len() && first_named(attrs@, name@) == Some(i as int),
        r is None ==> first_named(attrs@, name@) is None,
{
    let mut i: usize = 0;
    while i < attrs.len()
        invariant
            i <= attrs@.len(),
            first_named(attrs@.take(i as int), name@) is None,
        decreases attrs@.len() - i,
    {
        assert(attrs@.take(i + 1).drop_last() =~= attrs@.take(i as int));
        let hit = match &attrs[i].name {
            Some(s) => is_literal(s, name),
            None => false,
        };
        if hit {
            assert(first_named(attrs@.take(i + 1), name@) == Some(i as int));
            proof {
                lemma_first_named_kept(attrs@, name@, i + 1);
            }
            return Some(i);
        }
        i = i + 1;
    }
    assert(attrs@.take(i as int) =~= attrs@);
    None
}

/// Whether an attribute at or after position `start` is named `name`.
pub fn has_attr_after(attrs: &Vec<Attr>, name: &str, start: usize) -> (r: bool)
    ensures
        r == named_after(attrs@, name@, start as int),
{
    let mut i: usize = start;
    while i < attrs.len()
        invariant
            start <= i,
            forall|j: int| start <= j < i && j < attrs@.len() ==> !attr_named(#[trigger] attrs@[j], name@),
        decreases attrs@.len() - i,
    {
        let hit = match &attrs[i].name {
            Some(s) => is_literal(s, name),
            None => false,
        };
        if hit {
            assert(attr_named(attrs@[i as int], name@));
            return true;
        }
        i = i + 1;
    }
    false
}

/// Whether the attributes carry the `nullable` marker.
pub fn has_nullable(attrs: &Vec<Attr>) -> (r: bool)
    ensures
        r == is_nullable(attrs@),
{
    let mut i: usize = 0;
    while i < attrs.len()
        invariant
            i <= attrs@.len(),
            forall|j: int| 0 <= j < i ==> !attr_named(#[trigger] attrs@[j], "nullable"@),
        decreases attrs@.len() - i,
    {
        let hit = match &attrs[i].name {
            Some(s) => is_literal(s, "nullable"),
            None => false,
        };
        if hit {
            assert(attr_named(attrs@[i as int], "nullable"@));
            return true;
        }
        i = i + 1;
    }
    false
}

/// Whether some segment of the path names a C character type.
pub fn path_mentions_c_char(p: &Path) -> (r: bool)
    ensures
        r == mentions_c_char(*p),
{
    let mut i: usize = 0;
    while i < p.segments.len()
        invariant
            i <= p.segments@.len(),
            forall|j: int|
                0 <= j < i ==> !contains_seq(#[trigger] p.segments@[j].ident@, "c_char"@),
        decreases p.segments@.len() - i,
    {
        if contains_str(p.segments[i].ident.as_str(), "c_char") {
            return true;
        }
        i = i + 1;
    }
    false
}

/// The class of a declared type: a pointer to a path whose segments name a C
/// character type is a string, a pointer to any other path is an opaque
/// pointer, a path is a value; nothing else is convertible.
pub fn classify_field_type(ty: &FieldType) -> (r: Option<Class>)
    ensures
        r == classify(*ty),
{
    match ty {
        FieldType::Ptr(elem) => match &**elem {
            FieldType::Path(tp) => if path_mentions_c_char(&tp.path) {
                Some(Class::StrPtr)
            } else {
                Some(Class::OpaquePtr)
            },
            _ => None,
        },
        FieldType::Path(tp) => if tp.path.segments.len() > 0 {
            Some(Class::Value)
        } else {
            None
        },
        FieldType::Other => None,
    }
}

/// The conversion of one field.
pub fn plan_field(f: &FieldDecl) -> (r: Result<FieldPlan, DeriveError>)
    ensures
        r == field_plan(*f),
{
    if f.name.is_none() {
        return Err(DeriveError::UnnamedField);
    }
    match classify_field_type(&f.ty) {
        Some(c) => Ok(FieldPlan { class: c, nullable: has_nullable(&f.attrs) }),
        None => Err(DeriveError::UnsupportedFieldType),
    }
}

/// The conversion of every field, or the error of the first field that has none.
pub fn plan_fields(fs: &Vec<FieldDecl>) -> (r: Result<Vec<FieldPlan>, DeriveError>)
    ensures
        match fields_error(fs@) {
            Some(e) => r == Err::<Vec<FieldPlan>, DeriveError>(e),
            None => r matches Ok(ps) && ps@.len() == fs@.len() && forall|i: int|
                0 <= i < fs@.len() ==> field_plan(#[trigger] fs@[i]) == Ok::<FieldPlan, DeriveError>(ps@[i]),
        },
{
    let mut plans: Vec<FieldPlan> = Vec::new();
    let mut i: usize = 0;
    while i < fs.len()
        invariant
            i <= fs@.len(),
            plans@.len() == i,
            fields_error(fs@.take(i as int)) is None,
            forall|j: int| 0 <= j < i ==> field_plan(#[trigger] fs@[j]) == Ok::<FieldPlan, DeriveError>(plans@[j]),
        decreases fs@.len() - i,
    {
        assert(fs@.take(i + 1).drop_last() =~= fs@.take(i as int));
        match plan_field(&fs[i]) {
            Ok(p) => {
                plans.push(p);
            },
            Err(e) => {
                proof {
                    lemma_fields_error_kept(fs@, i + 1);
                }
                return Err(e);
            },
        }
        i = i + 1;
    }
    assert(fs@.take(i as int) =~= fs@);
    Ok(plans)
}

/// Whether the argument of the first `target_type` attribute parses as a path.
pub fn target_arg_is_path(attrs: &Vec<Attr>) -> (r: bool)
    ensures
        r == target_is_path(attrs@),
{
    match find_attr(attrs, "target_type") {
        None => false,
        Some(i) => match &attrs[i].args {
            Some(a) => parses_as_path(a.as_str()),
            None => false,
        },
    }
}

/// The argument text of the single `target_type` attribute, given whether
/// that argument parses as a path.
pub fn target_type_arg(attrs: &Vec<Attr>, arg_is_path: bool) -> (r: Result<&String, DeriveError>)
    ensures
        match target_error_given(attrs@, arg_is_path) {
            Some(e) => r == Err::<&String, DeriveError>(e),
            None => r matches Ok(s) && s@ == target_text(attrs@),
        },
{
    let n = attrs.len();
    match find_attr(attrs, "target_type") {
        None => Err(DeriveError::MissingTargetType),
        Some(i) => if i + 1 < n && has_attr_after(attrs, "target_type", i + 1) {
            Err(DeriveError::DuplicateTargetType)
        } else {
            match &attrs[i].args {
                Some(a) => if arg_is_path {
                    Ok(a)
                } else {
                    Err(DeriveError::InvalidTargetType)
                },
                None => Err(DeriveError::InvalidTargetType),
            }
        },
    }
}

} // verus!
