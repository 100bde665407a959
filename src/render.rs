//! The conversion impls, written out as Rust source text.
use vstd::prelude::*;
use crate::model::{Class, DeriveError, FieldDecl, FieldPlan, FieldType, Path, PathArgs, PathSegment, StructDecl};
use crate::classify::{
    classify, field_plan, forward_error, forward_error_given, plan_fields, reverse_error,
    reverse_error_given, target_arg_is_path, target_text, target_type_arg,
};

verus! {

/// The arguments of a segment, as written.
pub open spec fn args_text(a: PathArgs) -> Seq<char> {
    match a {
        PathArgs::Plain => Seq::empty(),
        PathArgs::AngleBracketed(s) => s@,
        PathArgs::Parenthesized(s) => s@,
    }
}

/// A segment, as written.
pub open spec fn segment_text(s: PathSegment) -> Seq<char> {
    s.ident@ + args_text(s.args)
}

/// Segments joined by `::`.
pub open spec fn segments_text(segs: Seq<PathSegment>) -> Seq<char>
    decreases segs.len(),
{
    if segs.len() == 0 {
        Seq::empty()
    } else if segs.len() == 1 {
        segment_text(segs[0])
    } else {
        segments_text(segs.drop_last()) + "::"@ + segment_text(segs.last())
    }
}

/// The last segment of a path in expression position: generic arguments in
/// angle brackets follow a `::`; parenthesized arguments are dropped.
pub open spec fn turbofish_text(s: PathSegment) -> Seq<char> {
    match s.args {
        PathArgs::AngleBracketed(a) => s.ident@ + "::"@ + a@,
        _ => s.ident@,
    }
}

/// A type path written so that it can stand before `::c_repr_of`: leading
/// segments verbatim, the last one in turbofish form.
pub open spec fn call_path_text(p: Path) -> Seq<char> {
    let segs = p.segments@;
    let lead = if p.leading_colon {
        "::"@
    } else {
        Seq::empty()
    };
    if segs.len() <= 1 {
        lead + turbofish_text(segs.last())
    } else {
        lead + segments_text(segs.drop_last()) + "::"@ + turbofish_text(segs.last())
    }
}

/// The type whose conversion a pointer or value field calls.
pub open spec fn conv_type_text(t: FieldType) -> Seq<char> {
    match t {
        FieldType::Ptr(elem) => match *elem {
            FieldType::Path(tp) => "ffi_utils::RawPointerTo::<"@ + tp.text@ + ">"@,
            _ => Seq::empty(),
        },
        FieldType::Path(tp) => call_path_text(tp.path),
        FieldType::Other => Seq::empty(),
    }
}

/// The field's name; empty for a field without one.
pub open spec fn name_text(f: FieldDecl) -> Seq<char> {
    match f.name {
        Some(n) => n@,
        None => Seq::empty(),
    }
}

/// The initializer of one field in the native-to-C conversion.
pub open spec fn forward_field_text(f: FieldDecl, p: FieldPlan) -> Seq<char> {
    let n = name_text(f);
    if p.class == Class::StrPtr {
        if p.nullable {
            n + ": if let Some(it) = input."@ + n
                + " { convert_to_c_string_result!(it)? } else { std::ptr::null() as _ }"@
        } else {
            n + ": convert_to_c_string_result!(input."@ + n + ")?"@
        }
    } else {
        let t = conv_type_text(f.ty);
        if p.nullable {
            n + ": if let Some(it) = input."@ + n + " { "@ + t
                + "::c_repr_of(it)? } else { std::ptr::null() as _ }"@
        } else {
            n + ": "@ + t + "::c_repr_of(input."@ + n + ")?"@
        }
    }
}

/// The initializer of one field in the C-to-native conversion.
pub open spec fn reverse_field_text(f: FieldDecl, p: FieldPlan) -> Seq<char> {
    let n = name_text(f);
    if p.class == Class::StrPtr {
        if p.nullable {
            n + ": if self."@ + n + " != std::ptr::null() { Some(create_rust_string_from!(self."@ + n
                + ")) } else { None }"@
        } else {
            n + ": create_rust_string_from!(self."@ + n + ")"@
        }
    } else {
        if p.nullable {
            n + ": if self."@ + n + " != std::ptr::null() { Some(self."@ + n
                + ".as_rust()?) } else { None }"@
        } else {
            n + ": self."@ + n + ".as_rust()?"@
        }
    }
}

/// The plan of a field that has one.
pub open spec fn plan_of(f: FieldDecl) -> FieldPlan {
    field_plan(f)->Ok_0
}

/// The field initializers of the native-to-C conversion, each followed by `, `.
pub open spec fn forward_fields_text(fs: Seq<FieldDecl>) -> Seq<char>
    decreases fs.len(),
{
    if fs.len() == 0 {
        Seq::empty()
    } else {
        forward_fields_text(fs.drop_last()) + forward_field_text(fs.last(), plan_of(fs.last()))
            + ", "@
    }
}

/// The field initializers of the C-to-native conversion, each followed by `, `.
pub open spec fn reverse_fields_text(fs: Seq<FieldDecl>) -> Seq<char>
    decreases fs.len(),
{
    if fs.len() == 0 {
        Seq::empty()
    } else {
        reverse_fields_text(fs.drop_last()) + reverse_field_text(fs.last(), plan_of(fs.last()))
            + ", "@
    }
}

/// The fields of a declaration; none for an enum or a union.
pub open spec fn decl_fields(d: StructDecl) -> Seq<FieldDecl> {
    match d.fields {
        Some(fs) => fs@,
        None => Seq::empty(),
    }
}

/// The `CReprOf` impl generated for a declaration.
pub open spec fn creprof_text(d: StructDecl) -> Seq<char> {
    let tt = target_text(d.attrs@);
    "impl CReprOf<"@ + tt + "> for "@ + d.name@ + " { fn c_repr_of(input: "@ + tt
        + ") -> Result<Self, ffi_utils::Error> { Ok(Self { "@ + forward_fields_text(decl_fields(d))
        + "}) } }"@
}

/// The `AsRust` impl generated for a declaration.
pub open spec fn asrust_text(d: StructDecl) -> Seq<char> {
    let tt = target_text(d.attrs@);
    "impl AsRust<"@ + tt + "> for "@ + d.name@ + " { fn as_rust(&self) -> Result<"@ + tt
        + ", ffi_utils::Error> { Ok("@ + tt + " { "@ + reverse_fields_text(decl_fields(d))
        + "}) } }"@
}

/// A type path written so that a conversion can be called on it: leading
/// segments as written, the last one with its generic arguments in turbofish
/// form (`a::b::Wrapper::<T>`), so that the call names one impl.
pub fn generic_path_to_concrete_type_path(p: &Path) -> (r: String)
    requires
        p.segments@.len() > 0,
    ensures
        r@ == call_path_text(*p),
{
    let mut out = String::new();
    if p.leading_colon {
        out.append("::");
    }
    let ghost lead = out@;
    let last = p.segments.len() - 1;
    let mut i: usize = 0;
    while i < last
        invariant
            last == p.segments@.len() - 1,
            i <= last,
            lead == (if p.leading_colon {
                "::"@
            } else {
                Seq::<char>::empty()
            }),
            out@ == lead + segments_text(p.segments@.take(i as int)),
        decreases last - i,
    {
        let seg = &p.segments[i];
        let ghost before = out@;
        if i > 0 {
            out.append("::");
        }
        out.append(seg.ident.as_str());
        match &seg.args {
            PathArgs::Plain => {},
            PathArgs::AngleBracketed(a) => out.append(a.as_str()),
            PathArgs::Parenthesized(a) => out.append(a.as_str()),
        }
        proof {
            let t = p.segments@.take(i + 1);
            assert(t.drop_last() =~= p.segments@.take(i as int));
            assert(t.last() == p.segments@[i as int]);
            assert(out@ =~= lead + segments_text(t));
        }
        i = i + 1;
    }
    let seg = &p.segments[last];
    if last > 0 {
        out.append("::");
    }
    out.append(seg.ident.as_str());
    if let PathArgs::AngleBracketed(a) = &seg.args {
        out.append("::");
        out.append(a.as_str());
    }
    proof {
        assert(p.segments@.take(last as int) =~= p.segments@.drop_last());
        assert(out@ =~= call_path_text(*p));
    }
    out
}

/// The type whose conversion a pointer or value field calls:
/// `ffi_utils::RawPointerTo::<T>` for a pointer to `T`, the type itself in
/// call form for a value.
pub fn conversion_type(t: &FieldType) -> (r: String)
    requires
        classify(*t) is Some,
    ensures
        r@ == conv_type_text(*t),
{
    match t {
        FieldType::Ptr(elem) => match &**elem {
            FieldType::Path(tp) => {
                let mut out = String::from_str("ffi_utils::RawPointerTo::<");
                out.append(tp.text.as_str());
                out.append(">");
                out
            },
            _ => String::new(),
        },
        FieldType::Path(tp) => generic_path_to_concrete_type_path(&tp.path),
        FieldType::Other => String::new(),
    }
}

/// The initializer of one field in the native-to-C conversion.
pub fn forward_field(f: &FieldDecl, p: FieldPlan) -> (r: String)
    requires
        field_plan(*f) == Ok::<FieldPlan, DeriveError>(p),
    ensures
        r@ == forward_field_text(*f, p),
{
    let n = f.name.as_ref().unwrap();
    let mut out = String::new();
    out.append(n.as_str());
    if p.class == Class::StrPtr {
        if p.nullable {
            out.append(": if let Some(it) = input.");
            out.append(n.as_str());
            out.append(" { convert_to_c_string_result!(it)? } else { std::ptr::null() as _ }");
        } else {
            out.append(": convert_to_c_string_result!(input.");
            out.append(n.as_str());
            out.append(")?");
        }
    } else {
        let t = conversion_type(&f.ty);
        if p.nullable {
            out.append(": if let Some(it) = input.");
            out.append(n.as_str());
            out.append(" { ");
            out.append(t.as_str());
            out.append("::c_repr_of(it)? } else { std::ptr::null() as _ }");
        } else {
            out.append(": ");
            out.append(t.as_str());
            out.append("::c_repr_of(input.");
            out.append(n.as_str());
            out.append(")?");
        }
    }
    out
}

/// The initializer of one field in the C-to-native conversion.
pub fn reverse_field(f: &FieldDecl, p: FieldPlan) -> (r: String)
    requires
        field_plan(*f) == Ok::<FieldPlan, DeriveError>(p),
    ensures
        r@ == reverse_field_text(*f, p),
{
    let n = f.name.as_ref().unwrap();
    let mut out = String::new();
    out.append(n.as_str());
    if p.class == Class::StrPtr {
        if p.nullable {
            out.append(": if self.");
            out.append(n.as_str());
            out.append(" != std::ptr::null() { Some(create_rust_string_from!(self.");
            out.append(n.as_str());
            out.append(")) } else { None }");
        } else {
            out.append(": create_rust_string_from!(self.");
            out.append(n.as_str());
            out.append(")");
        }
    } else {
        if p.nullable {
            out.append(": if self.");
            out.append(n.as_str());
            out.append(" != std::ptr::null() { Some(self.");
            out.append(n.as_str());
            out.append(".as_rust()?) } else { None }");
        } else {
            out.append(": self.");
            out.append(n.as_str());
            out.append(".as_rust()?");
        }
    }
    out
}

/// The `CReprOf` impl that builds the declared struct from a value of its
/// target type, one initializer per field; or why there is none.
pub fn impl_creprof_macro(input: &StructDecl) -> (r: Result<String, DeriveError>)
    ensures
        match forward_error(*input) {
            Some(e) => r == Err::<String, DeriveError>(e),
            None => r matches Ok(s) && s@ == creprof_text(*input),
        },
{
    render_creprof(input, target_arg_is_path(&input.attrs))
}

/// The `CReprOf` impl, given whether the target type's argument parses as a
/// path.
pub fn render_creprof(input: &StructDecl, target_is_path: bool) -> (r: Result<String, DeriveError>)
    ensures
        match forward_error_given(*input, target_is_path) {
            Some(e) => r == Err::<String, DeriveError>(e),
            None => r matches Ok(s) && s@ == creprof_text(*input),
        },
{
    let fields = match &input.fields {
        Some(fs) => fs,
        None => {
            return Err(DeriveError::NotAStruct);
        },
    };
    let tt = match target_type_arg(&input.attrs, target_is_path) {
        Ok(t) => t,
        Err(e) => {
            return Err(e);
        },
    };
    let plans = match plan_fields(fields) {
        Ok(ps) => ps,
        Err(e) => {
            return Err(e);
        },
    };
    let mut out = String::from_str("impl CReprOf<");
    out.append(tt.as_str());
    out.append("> for ");
    out.append(input.name.as_str());
    out.append(" { fn c_repr_of(input: ");
    out.append(tt.as_str());
    out.append(") -> Result<Self, ffi_utils::Error> { Ok(Self { ");
    let ghost head = out@;
    let mut i: usize = 0;
    while i < fields.len()
        invariant
            i <= fields@.len(),
            plans@.len() == fields@.len(),
            forall|j: int|
                0 <= j < fields@.len() ==> field_plan(#[trigger] fields@[j]) == Ok::<
                    FieldPlan,
                    DeriveError,
                >(plans@[j]),
            out@ == head + forward_fields_text(fields@.take(i as int)),
        decreases fields@.len() - i,
    {
        let piece = forward_field(&fields[i], plans[i]);
        out.append(piece.as_str());
        out.append(", ");
        proof {
            let t = fields@.take(i + 1);
            assert(t.drop_last() =~= fields@.take(i as int));
            assert(t.last() == fields@[i as int]);
            assert(out@ =~= head + forward_fields_text(t));
        }
        i = i + 1;
    }
    out.append("}) } }");
    assert(fields@.take(i as int) =~= fields@);
    Ok(out)
}

/// The `AsRust` impl that builds a value of the target type from the declared
/// struct, one initializer per field; or why there is none.
pub fn impl_asrust_macro(input: &StructDecl) -> (r: Result<String, DeriveError>)
    ensures
        match reverse_error(*input) {
            Some(e) => r == Err::<String, DeriveError>(e),
            None => r matches Ok(s) && s@ == asrust_text(*input),
        },
{
    render_asrust(input, target_arg_is_path(&input.attrs))
}

/// The `AsRust` impl, given whether the target type's argument parses as a
/// path.
pub fn render_asrust(input: &StructDecl, target_is_path: bool) -> (r: Result<String, DeriveError>)
    ensures
        match reverse_error_given(*input, target_is_path) {
            Some(e) => r == Err::<String, DeriveError>(e),
            None => r matches Ok(s) && s@ == asrust_text(*input),
        },
{
    let tt = match target_type_arg(&input.attrs, target_is_path) {
        Ok(t) => t,
        Err(e) => {
            return Err(e);
        },
    };
    let fields = match &input.fields {
        Some(fs) => fs,
        None => {
            return Err(DeriveError::NotAStruct);
        },
    };
    let plans = match plan_fields(fields) {
        Ok(ps) => ps,
        Err(e) => {
            return Err(e);
        },
    };
    let mut out = String::from_str("impl AsRust<");
    out.append(tt.as_str());
    out.append("> for ");
    out.append(input.name.as_str());
    out.append(" { fn as_rust(&self) -> Result<");
    out.append(tt.as_str());
    out.append(", ffi_utils::Error> { Ok(");
    out.append(tt.as_str());
    out.append(" { ");
    let ghost head = out@;
    let mut i: usize = 0;
    while i < fields.len()
        invariant
            i <= fields@.len(),
            plans@.len() == fields@.len(),
            forall|j: int|
                0 <= j < fields@.len() ==> field_plan(#[trigger] fields@[j]) == Ok::<
                    FieldPlan,
                    DeriveError,
                >(plans@[j]),
            out@ == head + reverse_fields_text(fields@.take(i as int)),
        decreases fields@.len() - i,
    {
        let piece = reverse_field(&fields[i], plans[i]);
        out.append(piece.as_str());
        out.append(", ");
        proof {
            let t = fields@.take(i + 1);
            assert(t.drop_last() =~= fields@.take(i as int));
            assert(t.last() == fields@[i as int]);
            assert(out@ =~= head + reverse_fields_text(t));
        }
        i = i + 1;
    }
    out.append("}) } }");
    assert(fields@.take(i as int) =~= fields@);
    Ok(out)
}

} // verus!
