use vstd::prelude::*;

use crate::record::{FieldV, SourceField, fields_view};
use crate::syntax::{Arg, Args, GenericArgument, PathArguments, PathSegment, Segment, Ty, TypeExpr};

verus! {

/// The identifier of the optional-wrapper type constructor.
pub open spec fn wrapper_name() -> Seq<char> {
    "Option"@
}

/// The type that `t` wraps, when `t` is written `Option<inner>`: a single-segment
/// path named `Option` with exactly one angle-bracketed type argument.
///
/// Only the written name is inspected, so an alias of the wrapper is not
/// recognised and a local type that shadows the name is.
pub open spec fn option_inner(t: Ty) -> Option<Ty> {
    match t {
        Ty::Path(segs) => if segs.len() == 1 && segs[0].ident == wrapper_name() {
            match segs[0].args {
                Args::Angle(args) => if args.len() == 1 {
                    match args[0] {
                        Arg::Type(inner) => Some(inner),
                        Arg::Verbatim(_) => None,
                    }
                } else {
                    None
                },
                _ => None,
            }
        } else {
            None
        },
        Ty::Verbatim(_) => None,
    }
}

/// `Option<t>`.
pub open spec fn option_of(t: Ty) -> Ty {
    Ty::Path(seq![Segment { ident: wrapper_name(), args: Args::Angle(seq![Arg::Type(t)]) }])
}

/// A field together with what the generator needs to know of it.
pub struct ClassifiedField {
    pub name: String,
    /// Whether the declared type is `Option<inner_type>`.
    pub optional_in_source: bool,
    /// The type that a setter takes: the declared type with one `Option` removed.
    pub inner_type: TypeExpr,
    /// The type of the builder's slot: always `Option<inner_type>`.
    pub storage_type: TypeExpr,
}

/// Mathematical model of a classified field.
pub struct ClassifiedV {
    pub name: Seq<char>,
    pub optional_in_source: bool,
    pub inner_type: Ty,
    pub storage_type: Ty,
}

impl ClassifiedField {
    pub open spec fn view(&self) -> ClassifiedV {
        ClassifiedV {
            name: self.name@,
            optional_in_source: self.optional_in_source,
            inner_type: self.inner_type@,
            storage_type: self.storage_type@,
        }
    }
}

pub open spec fn classified_view(s: Seq<ClassifiedField>) -> Seq<ClassifiedV> {
    s.map_values(|c: ClassifiedField| c@)
}

/// `t` with one `Option` removed, if it has one.
pub open spec fn unwrap_once(t: Ty) -> Ty {
    match option_inner(t) {
        Some(inner) => inner,
        None => t,
    }
}

/// The classification of one field.
pub open spec fn classify_spec(f: FieldV) -> ClassifiedV {
    let inner = unwrap_once(f.ty);
    ClassifiedV {
        name: f.name,
        optional_in_source: option_inner(f.ty) is Some,
        inner_type: inner,
        storage_type: option_of(inner),
    }
}

pub open spec fn classify_all(fs: Seq<FieldV>) -> Seq<ClassifiedV> {
    fs.map_values(|f: FieldV| classify_spec(f))
}

/// Returns a copy of `T` when `ty` is written `Option<T>`.
pub fn inner_for_option(ty: &TypeExpr) -> (r: Option<TypeExpr>)
    ensures
        r is None <==> option_inner(ty@) is None,
        r matches Some(t) ==> option_inner(ty@) == Some(t@),
{
    proof {
        reveal_strlit("Option");
    }
    match ty {
        TypeExpr::Path(segs) => {
            if segs.len() != 1 {
                return None;
            }
            let seg = &segs[0];
            let wrapper = "Option".to_owned();
            if seg.ident != wrapper {
                return None;
            }
            assert(segs@[0]@ == seg@);
            match &seg.arguments {
                PathArguments::AngleBracketed(args) => {
                    if args.len() != 1 {
                        return None;
                    }
                    assert(crate::syntax::arguments_view(args@)[0] == args@[0]@) by {
                        assert(args@.drop_last() == Seq::<GenericArgument>::empty());
                    }
                    match &args[0] {
                        GenericArgument::Type(t) => Some(t.duplicate()),
                        GenericArgument::Verbatim(_) => None,
                    }
                },
                _ => None,
            }
        },
        TypeExpr::Verbatim(_) => None,
    }
}

/// Builds `Option<inner>`.
pub fn wrap_in_option(inner: TypeExpr) -> (r: TypeExpr)
    ensures
        r@ == option_of(inner@),
{
    proof {
        reveal_strlit("Option");
    }
    let mut args: Vec<GenericArgument> = Vec::new();
    args.push(GenericArgument::Type(inner));
    let seg = PathSegment { ident: "Option".to_owned(), arguments: PathArguments::AngleBracketed(args) };
    let mut segs: Vec<PathSegment> = Vec::new();
    segs.push(seg);
    let r = TypeExpr::Path(segs);
    assert(segs@.drop_last() == Seq::<PathSegment>::empty());
    assert(args@.drop_last() == Seq::<GenericArgument>::empty());
    assert(crate::syntax::arguments_view(args@) == seq![Arg::Type(inner@)]);
    assert(crate::syntax::segments_view(Seq::<PathSegment>::empty()) == Seq::<Segment>::empty());
    assert(crate::syntax::segments_view(segs@) =~= seq![segs@[0]@]);
    r
}

/// Classifies one field: optional in source or not, the setter's type and the
/// builder slot's type.
pub fn classify_field(f: &SourceField) -> (r: ClassifiedField)
    ensures
        r@ == classify_spec(f@),
{
    let (optional, inner) = match inner_for_option(&f.declared_type) {
        Some(t) => (true, t),
        None => (false, f.declared_type.duplicate()),
    };
    let storage = wrap_in_option(inner.duplicate());
    ClassifiedField {
        name: f.name.clone(),
        optional_in_source: optional,
        inner_type: inner,
        storage_type: storage,
    }
}

/// Classifies every field, keeping their order.
pub fn classify_fields(fs: &Vec<SourceField>) -> (r: Vec<ClassifiedField>)
    ensures
        classified_view(r@) == classify_all(fields_view(fs@)),
{
    let mut out: Vec<ClassifiedField> = Vec::new();
    let mut i: usize = 0;
    while i < fs.len()
        invariant
            i <= fs.len(),
            classified_view(out@) == classify_all(fields_view(fs@.subrange(0, i as int))),
        decreases fs.len() - i,
    {
        let c = classify_field(&fs[i]);
        proof {
            assert(classified_view(out@.push(c)) =~= classified_view(out@).push(c@));
            assert(classify_all(fields_view(fs@.subrange(0, i + 1))) =~= classify_all(
                fields_view(fs@.subrange(0, i as int)),
            ).push(classify_spec(fs@[i as int]@)));
        }
        out.push(c);
        i += 1;
    }
    proof {
        assert(fs@.subrange(0, fs.len() as int) == fs@);
    }
    out
}

/// Only one level of `Option` is removed: a field declared `Option<Option<T>>`
/// is optional in source, its setter takes `Option<T>`, and its slot is
/// `Option<Option<T>>`.
pub proof fn lemma_one_level_unwrap(name: Seq<char>, t: Ty)
    ensures
        classify_spec(FieldV { name, ty: option_of(option_of(t)) }) == (ClassifiedV {
            name,
            optional_in_source: true,
            inner_type: option_of(t),
            storage_type: option_of(option_of(t)),
        }),
{
}

} // verus!
