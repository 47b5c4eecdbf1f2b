use vstd::prelude::*;

verus! {

/// A type expression as written in a field declaration.
#[derive(Debug, PartialEq, Eq)]
pub enum TypeExpr {
    /// A path type such as `String`, `Option<u8>` or `std::vec::Vec<T>`.
    Path(Vec<PathSegment>),
    /// Any other form (reference, tuple, array, ...), kept as its source text.
    Verbatim(String),
}

/// One `::`-separated segment of a path type.
#[derive(Debug, PartialEq, Eq)]
pub struct PathSegment {
    pub ident: String,
    pub arguments: PathArguments,
}

/// The arguments that follow a path segment's identifier.
#[derive(Debug, PartialEq, Eq)]
pub enum PathArguments {
    /// No arguments: `String`.
    Bare,
    /// Angle-bracketed arguments: `Option<T>`, `HashMap<K, V>`.
    AngleBracketed(Vec<GenericArgument>),
    /// Parenthesized arguments, as in `Fn(A) -> B`, kept as source text.
    Parenthesized(String),
}

/// One argument between angle brackets.
#[derive(Debug, PartialEq, Eq)]
pub enum GenericArgument {
    Type(TypeExpr),
    /// A lifetime, constant or associated-type binding, kept as source text.
    Verbatim(String),
}

/// Mathematical model of a type expression.
pub enum Ty {
    Path(Seq<Segment>),
    Verbatim(Seq<char>),
}

pub struct Segment {
    pub ident: Seq<char>,
    pub args: Args,
}

pub enum Args {
    Bare,
    Angle(Seq<Arg>),
    Paren(Seq<char>),
}

pub enum Arg {
    Type(Ty),
    Verbatim(Seq<char>),
}

pub open spec fn segments_view(s: Seq<PathSegment>) -> Seq<Segment>
    decreases s,
{
    if s.len() == 0 {
        Seq::empty()
    } else {
        segments_view(s.drop_last()).push(s.last().view())
    }
}

pub open spec fn arguments_view(s: Seq<GenericArgument>) -> Seq<Arg>
    decreases s,
{
    if s.len() == 0 {
        Seq::empty()
    } else {
        arguments_view(s.drop_last()).push(s.last().view())
    }
}

impl TypeExpr {
    pub open spec fn view(&self) -> Ty
        decreases self,
    {
        match self {
            TypeExpr::Path(segs) => Ty::Path(segments_view(segs@)),
            TypeExpr::Verbatim(s) => Ty::Verbatim(s@),
        }
    }
}

impl PathSegment {
    pub open spec fn view(&self) -> Segment
        decreases self,
    {
        Segment { ident: self.ident@, args: self.arguments.view() }
    }
}

impl PathArguments {
    pub open spec fn view(&self) -> Args
        decreases self,
    {
        match self {
            PathArguments::Bare => Args::Bare,
            PathArguments::AngleBracketed(a) => Args::Angle(arguments_view(a@)),
            PathArguments::Parenthesized(s) => Args::Paren(s@),
        }
    }
}

impl GenericArgument {
    pub open spec fn view(&self) -> Arg
        decreases self,
    {
        match self {
            GenericArgument::Type(t) => Arg::Type(t.view()),
            GenericArgument::Verbatim(s) => Arg::Verbatim(s@),
        }
    }
}

impl TypeExpr {
    /// A deep copy.
    pub fn duplicate(&self) -> (r: TypeExpr)
        ensures
            r@ == self@,
        decreases self,
    {
        match self {
            TypeExpr::Path(segs) => TypeExpr::Path(duplicate_segments(segs)),
            TypeExpr::Verbatim(s) => TypeExpr::Verbatim(s.clone()),
        }
    }
}

impl PathSegment {
    /// A deep copy.
    pub fn duplicate(&self) -> (r: PathSegment)
        ensures
            r@ == self@,
        decreases self,
    {
        PathSegment { ident: self.ident.clone(), arguments: self.arguments.duplicate() }
    }
}

impl PathArguments {
    /// A deep copy.
    pub fn duplicate(&self) -> (r: PathArguments)
        ensures
            r@ == self@,
        decreases self,
    {
        match self {
            PathArguments::Bare => PathArguments::Bare,
            PathArguments::AngleBracketed(a) => PathArguments::AngleBracketed(duplicate_arguments(a)),
            PathArguments::Parenthesized(s) => PathArguments::Parenthesized(s.clone()),
        }
    }
}

impl GenericArgument {
    /// A deep copy.
    pub fn duplicate(&self) -> (r: GenericArgument)
        ensures
            r@ == self@,
        decreases self,
    {
        match self {
            GenericArgument::Type(t) => GenericArgument::Type(t.duplicate()),
            GenericArgument::Verbatim(s) => GenericArgument::Verbatim(s.clone()),
        }
    }
}

fn duplicate_segments(v: &Vec<PathSegment>) -> (r: Vec<PathSegment>)
    ensures
        segments_view(r@) == segments_view(v@),
    decreases v,
{
    let mut out: Vec<PathSegment> = Vec::new();
    let mut i: usize = 0;
    while i < v.len()
        invariant
            i <= v.len(),
            segments_view(out@) == segments_view(v@.subrange(0, i as int)),
        decreases v.len() - i,
    {
        proof {
            assert(decreases_to!(v => v[i as int]));
        }
        let s = v[i].duplicate();
        proof {
            assert(v@.subrange(0, i + 1).drop_last() == v@.subrange(0, i as int));
            assert(out@.push(s).drop_last() == out@);
        }
        out.push(s);
        i += 1;
    }
    proof {
        assert(v@.subrange(0, v.len() as int) == v@);
    }
    out
}

fn duplicate_arguments(v: &Vec<GenericArgument>) -> (r: Vec<GenericArgument>)
    ensures
        arguments_view(r@) == arguments_view(v@),
    decreases v,
{
    let mut out: Vec<GenericArgument> = Vec::new();
    let mut i: usize = 0;
    while i < v.len()
        invariant
            i <= v.len(),
            arguments_view(out@) == arguments_view(v@.subrange(0, i as int)),
        decreases v.len() - i,
    {
        proof {
            assert(decreases_to!(v => v[i as int]));
        }
        let a = v[i].duplicate();
        proof {
            assert(v@.subrange(0, i + 1).drop_last() == v@.subrange(0, i as int));
            assert(out@.push(a).drop_last() == out@);
        }
        out.push(a);
        i += 1;
    }
    proof {
        assert(v@.subrange(0, v.len() as int) == v@);
    }
    out
}

} // verus!
