//! The builder that replaces a function with keyword arguments, and the
//! stub that returns it.
use crate::func::KwargsFn;
use crate::syntax::{single_ident, Arg, Attr, Field, GenericParam, TypeExpr};
use vstd::prelude::*;
use vstd::string::StringExecFns;

verus! {

/// What heck's upper camel case makes of a text.
pub uninterp spec fn camel_of(s: Seq<char>) -> Seq<char>;

/// Relies on heck's `CamelCase::to_camel_case`: its result depends on the
/// text alone.
#[verifier::external_body]
fn to_camel_case(s: &str) -> (r: String)
    ensures
        r@ == camel_of(s@),
{
    heck::CamelCase::to_camel_case(s)
}

/// The name of the builder of the function `ident`: `<ident>_builder` in
/// upper camel case (`foo` gives `FooBuilder`).
pub fn builder_ident(ident: &String) -> (r: String)
    ensures
        r@ == camel_of(ident@ + "_builder"@),
{
    proof {
        reveal_strlit("_builder");
    }
    let joined = ident.clone().concat("_builder");
    to_camel_case(joined.as_str())
}

/// The text of the first type parameter named `n`.
pub open spec fn type_param_text(params: Seq<GenericParam>, n: Seq<char>) -> Option<Seq<char>>
    decreases params.len(),
{
    if params.len() == 0 {
        None
    } else {
        match params[0] {
            GenericParam::Type { name, text } => if name@ == n {
                Some(text@)
            } else {
                type_param_text(params.skip(1), n)
            },
            _ => type_param_text(params.skip(1), n),
        }
    }
}

/// The generic parameter of the setter for an argument of type `ty`: the
/// type parameter that `ty` is, where `ty` is the name of one; no other.
pub open spec fn setter_generic(ty: TypeExpr, params: Seq<GenericParam>) -> Option<Seq<char>> {
    match single_ident(ty) {
        Some(n) => type_param_text(params, n),
        None => None,
    }
}

/// One setter of a builder: the keyword argument it stores, and the
/// generic parameter it declares, if any.
pub struct Setter {
    pub field: Field,
    pub generic: Option<String>,
}

/// The builder type of a function with keyword arguments.
///
/// Its fields are `args`, then one `Option` slot for each of `required`
/// and `optional`. `new` takes `args` and leaves every slot empty; each
/// setter fills its slot and returns the builder; `call` carries the
/// function's qualifiers and return type, binds `args` and the optional
/// slots as they are, unwraps each required slot (a panic where it is
/// empty), and runs `block`.
pub struct BuilderDecl {
    pub vis: String,
    pub constness: bool,
    pub asyncness: bool,
    pub unsafety: bool,
    pub name: String,
    pub args: Vec<Field>,
    pub required: Vec<Setter>,
    pub optional: Vec<Setter>,
    pub output: String,
    pub block: String,
}

/// `s` is the setter of the keyword argument `a` of a function with the
/// generic parameters `params`.
pub open spec fn is_setter(s: Setter, a: Arg, params: Seq<GenericParam>) -> bool {
    &&& s.field.name@ == a.name@
    &&& s.field.ty@ == a.ty.spec_text()
    &&& match s.generic {
        Some(g) => setter_generic(a.ty, params) == Some(g@),
        None => setter_generic(a.ty, params) is None,
    }
}

/// `ss` are the setters of `args`, one for one, in order.
pub open spec fn setters_of(ss: Seq<Setter>, args: Seq<Arg>, params: Seq<GenericParam>) -> bool {
    &&& ss.len() == args.len()
    &&& forall|i: int| 0 <= i < ss.len() ==> is_setter(#[trigger] ss[i], args[i], params)
}

/// `d` is the builder of `f`: its name is `<ident>_builder` in upper
/// camel case, it keeps the function's qualifiers, return type and body,
/// stores its ordinary parameters, and has one setter per keyword argument.
pub open spec fn builds(f: KwargsFn, d: BuilderDecl) -> bool {
    &&& d.name@ == camel_of(f.ident@ + "_builder"@)
    &&& d.vis == f.vis
    &&& d.constness == f.constness
    &&& d.asyncness == f.asyncness
    &&& d.unsafety == f.unsafety
    &&& d.args@ == f.args@
    &&& setters_of(d.required@, f.kwargs.required@, f.generics@)
    &&& setters_of(d.optional@, f.kwargs.optional@, f.generics@)
    &&& d.output == f.output
    &&& d.block == f.block
}

/// A setter is generic over the type parameter that its argument's type
/// names, and only over it; a setter whose argument's type names no type
/// parameter of the function is not generic.
pub proof fn law_setter_genericity(f: KwargsFn, d: BuilderDecl, k: int)
    requires
        builds(f, d),
        0 <= k < f.kwargs.required@.len(),
    ensures
        forall|n: Seq<char>, t: Seq<char>|
            single_ident(f.kwargs.required@[k].ty) == Some(n) && type_param_text(f.generics@, n) == Some(t)
                ==> (d.required@[k].generic matches Some(g) && g@ == t),
        setter_generic(f.kwargs.required@[k].ty, f.generics@) is None ==> d.required@[k].generic is None,
{
    assert(is_setter(d.required@[k], f.kwargs.required@[k], f.generics@));
}

/// The text of the first type parameter in `params` named `n`.
fn find_type_param(params: &Vec<GenericParam>, n: &String) -> (r: Option<String>)
    ensures
        match r {
            Some(t) => type_param_text(params@, n@) == Some(t@),
            None => type_param_text(params@, n@) is None,
        },
{
    let mut i: usize = 0;
    assert(params@.skip(0) =~= params@);
    while i < params.len()
        invariant
            i <= params@.len(),
            type_param_text(params@, n@) == type_param_text(params@.skip(i as int), n@),
        decreases params.len() - i,
    {
        assert(params@.skip(i as int)[0] == params@[i as int]);
        assert(params@.skip(i as int).skip(1) =~= params@.skip(i + 1));
        match &params[i] {
            GenericParam::Type { name, text } => {
                if *name == *n {
                    return Some(text.clone());
                }
            },
            _ => {},
        }
        i = i + 1;
    }
    None
}

/// The setters of `args`, in order.
fn make_setters(args: &Vec<Arg>, params: &Vec<GenericParam>) -> (r: Vec<Setter>)
    ensures
        setters_of(r@, args@, params@),
{
    let mut out: Vec<Setter> = Vec::new();
    let mut i: usize = 0;
    while i < args.len()
        invariant
            i <= args@.len(),
            out@.len() == i,
            forall|j: int| 0 <= j < i ==> is_setter(#[trigger] out@[j], args@[j], params@),
        decreases args.len() - i,
    {
        let a = &args[i];
        let generic = match a.ty.single_ident() {
            Some(n) => find_type_param(params, n),
            None => None,
        };
        out.push(Setter { field: Field { name: a.name.clone(), ty: a.ty.text().clone() }, generic });
        i = i + 1;
    }
    out
}

/// Copies of `fs`.
fn copy_fields(fs: &Vec<Field>) -> (r: Vec<Field>)
    ensures
        r@ == fs@,
{
    let mut out: Vec<Field> = Vec::new();
    let mut i: usize = 0;
    while i < fs.len()
        invariant
            i <= fs@.len(),
            out@ == fs@.take(i as int),
        decreases fs.len() - i,
    {
        out.push(fs[i].copy());
        i = i + 1;
        assert(out@ =~= fs@.take(i as int));
    }
    assert(out@ =~= fs@);
    out
}

/// The function that replaces the original: same attributes (without
/// `#[keywords]`), visibility, constness, name, generics and ordinary
/// parameters; it returns `builder` made by `builder::new` from those
/// parameters.
pub struct Stub {
    pub attrs: Vec<Attr>,
    pub vis: String,
    pub constness: bool,
    pub ident: String,
    pub generics_text: String,
    pub args: Vec<Field>,
    pub builder: String,
}

impl KwargsFn {
    /// The builder type of this function.
    pub fn builder(&self) -> (r: BuilderDecl)
        ensures
            builds(*self, r),
    {
        BuilderDecl {
            vis: self.vis.clone(),
            constness: self.constness,
            asyncness: self.asyncness,
            unsafety: self.unsafety,
            name: builder_ident(&self.ident),
            args: copy_fields(&self.args),
            required: make_setters(&self.kwargs.required, &self.generics),
            optional: make_setters(&self.kwargs.optional, &self.generics),
            output: self.output.clone(),
            block: self.block.clone(),
        }
    }

    /// The function that takes this one's place and returns its builder.
    pub fn stub(&self) -> (r: Stub)
        ensures
            r.attrs@ == self.attrs@,
            r.vis == self.vis,
            r.constness == self.constness,
            r.ident == self.ident,
            r.generics_text == self.generics_text,
            r.args@ == self.args@,
            r.builder@ == camel_of(self.ident@ + "_builder"@),
    {
        let mut attrs: Vec<Attr> = Vec::new();
        let mut i: usize = 0;
        while i < self.attrs.len()
            invariant
                i <= self.attrs@.len(),
                attrs@ == self.attrs@.take(i as int),
            decreases self.attrs.len() - i,
        {
            attrs.push(self.attrs[i].copy());
            i = i + 1;
            assert(attrs@ =~= self.attrs@.take(i as int));
        }
        assert(attrs@ =~= self.attrs@);
        Stub {
            attrs,
            vis: self.vis.clone(),
            constness: self.constness,
            ident: self.ident.clone(),
            generics_text: self.generics_text.clone(),
            args: copy_fields(&self.args),
            builder: builder_ident(&self.ident),
        }
    }
}

} // verus!
