//! The syntax nodes that the transformation reads: parameters, their
//! patterns and declared types, and generic parameters.
use vstd::prelude::*;
use vstd::string::StringExecFns;

verus! {

/// The left-hand side of a parameter.
pub enum Pattern {
    /// A single binding name.
    Ident(String),
    /// The wildcard `_`.
    Wild,
    /// Any other pattern (a tuple, a reference, ...).
    Other,
}

/// A declared type, as far as the transformation looks into it.
pub enum TypeExpr {
    /// A path type: whether it starts with `::`, the identifiers of its
    /// segments, and its full source text.
    Path { global: bool, segments: Vec<String>, text: String },
    /// A macro in type position: the macro's path, the contents read as
    /// parameters, separators and unparsed fragments, and its source text.
    Macro { global: bool, segments: Vec<String>, body: Vec<MarkerItem>, text: String },
    /// Any other type, by its source text.
    Other { text: String },
}

/// One function parameter.
pub enum FnParam {
    /// `self`, `&self`, `mut self`, ...
    Receiver,
    /// `pattern: type`
    Typed { pat: Pattern, ty: TypeExpr },
}

/// One piece of the contents of a `keywords!` marker, in source order.
pub enum MarkerItem {
    /// A complete `pattern: type` parameter.
    Param(FnParam),
    /// A `,` separator.
    Comma,
    /// Tokens that do not form a parameter.
    Fragment(String),
}

/// A generic parameter of a function.
pub enum GenericParam {
    /// A type parameter: its name and its full text with bounds.
    Type { name: String, text: String },
    /// A lifetime or const parameter, by its text.
    Other { text: String },
}

/// An attribute on the function: its path as written (`keywords`,
/// `keywords::r#fn`) and its full text.
pub struct Attr {
    pub path: String,
    pub text: String,
}

/// The attribute `#[keywords]`, which marks a method for transformation
/// inside an impl block and is dropped from the output.
pub open spec fn is_origin_attr(a: Attr) -> bool {
    a.path@ == marker_name()
}

/// A function declaration as the syntax layer delivers it.
pub struct FnDecl {
    pub attrs: Vec<Attr>,
    /// The visibility as text, empty where none is written.
    pub vis: String,
    pub constness: bool,
    pub asyncness: bool,
    pub unsafety: bool,
    pub ident: String,
    pub generics: Vec<GenericParam>,
    /// The generics as written, with the angle brackets and where clause.
    pub generics_text: String,
    pub params: Vec<FnParam>,
    /// The return type as written (`-> T`), empty where none is written.
    pub output: String,
    /// The body as written, with its braces.
    pub block: String,
}

/// A named keyword argument with its declared type.
pub struct Arg {
    pub name: String,
    pub ty: TypeExpr,
}

/// A name and a type, both as source text: a field of the builder or an
/// ordinary parameter of the function.
pub struct Field {
    pub name: String,
    pub ty: String,
}

/// The name of the macro that marks the keyword arguments.
pub open spec fn marker_name() -> Seq<char> {
    "keywords"@
}

/// The name of the optional-value wrapper.
pub open spec fn option_name() -> Seq<char> {
    "Option"@
}

/// A path that is exactly the single identifier `name`.
pub open spec fn path_is(global: bool, segments: Seq<String>, name: Seq<char>) -> bool {
    !global && segments.len() == 1 && segments[0]@ == name
}

/// The identifier of a single-segment path type, if the type is one.
pub open spec fn single_ident(ty: TypeExpr) -> Option<Seq<char>> {
    match ty {
        TypeExpr::Path { global, segments, .. } => if !global && segments@.len() == 1 {
            Some(segments@[0]@)
        } else {
            None
        },
        _ => None,
    }
}

/// A declared type that makes a keyword argument optional.
pub open spec fn is_optional_type(ty: TypeExpr) -> bool {
    single_ident(ty) == Some(option_name())
}

/// Decides whether the path given by `global` and `segments` is the single
/// identifier `name`.
pub fn path_is_ident(global: bool, segments: &Vec<String>, name: &str) -> (r: bool)
    ensures
        r == path_is(global, segments@, name@),
{
    if global || segments.len() != 1 {
        false
    } else {
        let n = String::from_str(name);
        segments[0] == n
    }
}

impl TypeExpr {
    /// The source text of the type.
    pub open spec fn spec_text(&self) -> Seq<char> {
        match self {
            TypeExpr::Path { text, .. } => text@,
            TypeExpr::Macro { text, .. } => text@,
            TypeExpr::Other { text } => text@,
        }
    }

    pub fn text(&self) -> (r: &String)
        ensures
            r@ == self.spec_text(),
    {
        match self {
            TypeExpr::Path { text, .. } => text,
            TypeExpr::Macro { text, .. } => text,
            TypeExpr::Other { text } => text,
        }
    }

    /// The identifier of a single-segment path type.
    pub fn single_ident(&self) -> (r: Option<&String>)
        ensures
            match r {
                Some(s) => single_ident(*self) == Some(s@),
                None => single_ident(*self) is None,
            },
    {
        match self {
            TypeExpr::Path { global, segments, .. } => {
                if !*global && segments.len() == 1 {
                    Some(&segments[0])
                } else {
                    None
                }
            },
            _ => None,
        }
    }

    /// Whether a keyword argument of this type is optional: the type is the
    /// single identifier `Option`, with or without type arguments. A user
    /// type of that name counts too; nothing is resolved.
    pub fn is_optional(&self) -> (r: bool)
        ensures
            r == is_optional_type(*self),
    {
        match self {
            TypeExpr::Path { global, segments, .. } => {
                proof {
                    reveal_strlit("Option");
                }
                let r = path_is_ident(*global, segments, "Option");
                r
            },
            _ => false,
        }
    }
}

impl Attr {
    pub fn copy(&self) -> (r: Attr)
        ensures
            r == *self,
    {
        Attr { path: self.path.clone(), text: self.text.clone() }
    }
}

impl Field {
    pub fn copy(&self) -> (r: Field)
        ensures
            r == *self,
    {
        Field { name: self.name.clone(), ty: self.ty.clone() }
    }
}

} // verus!
