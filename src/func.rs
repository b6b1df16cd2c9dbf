//! The function descriptor: a function whose last parameter is the
//! `keywords!` marker, with its ordinary parameters and keyword arguments
//! apart, and the stub that replaces it.
use crate::keyarg::{lemma_filter_push, marker_entries, optional_pred, required_pred, KeyArgs};
use crate::syntax::{
    is_origin_attr, marker_name, path_is, path_is_ident, Attr, Field, FnDecl, FnParam,
    GenericParam, MarkerItem, Pattern, TypeExpr,
};
use vstd::prelude::*;
use vstd::string::StringExecFns;

verus! {

/// Why a declaration cannot be transformed.
#[derive(Clone, Copy, Debug, PartialEq, Eq, Structural)]
pub enum KwError {
    /// The last parameter is not `_: keywords! { ... }`, or there is none.
    MissingKeywordMarker,
    /// A piece of the marker's contents is not a `name: type` argument.
    MalformedKeywordArgument,
    /// An ordinary parameter is `self` or binds no single name.
    UnsupportedArgument,
}

/// A function split into its ordinary parameters and keyword arguments.
pub struct KwargsFn {
    /// The attributes as written, without the `#[keywords]` marker.
    pub attrs: Vec<Attr>,
    pub vis: String,
    pub constness: bool,
    pub asyncness: bool,
    pub unsafety: bool,
    pub ident: String,
    pub generics: Vec<GenericParam>,
    pub generics_text: String,
    pub args: Vec<Field>,
    pub kwargs: KeyArgs,
    pub output: String,
    pub block: String,
}

/// The contents of a parameter that is the keyword-arguments marker: a
/// wildcard pattern with the type `keywords! { ... }`.
pub open spec fn marker_body(p: FnParam) -> Option<Seq<MarkerItem>> {
    match p {
        FnParam::Typed { pat: Pattern::Wild, ty: TypeExpr::Macro { global, segments, body, .. } } =>
            if path_is(global, segments@, marker_name()) {
            Some(body@)
        } else {
            None
        },
        _ => None,
    }
}

/// The name and type text of an ordinary parameter that binds one name.
pub open spec fn plain_param(p: FnParam) -> Option<(Seq<char>, Seq<char>)> {
    match p {
        FnParam::Typed { pat: Pattern::Ident(name), ty } => Some((name@, ty.spec_text())),
        _ => None,
    }
}

pub open spec fn kept_attr() -> spec_fn(Attr) -> bool {
    |a: Attr| !is_origin_attr(a)
}

/// The outcome of reading `d`: which error, if any, comes.
pub open spec fn decl_error(d: FnDecl) -> Option<KwError> {
    let ps = d.params@;
    if ps.len() == 0 || marker_body(ps.last()) is None {
        Some(KwError::MissingKeywordMarker)
    } else if marker_entries(marker_body(ps.last())->0) is None {
        Some(KwError::MalformedKeywordArgument)
    } else if exists|i: int| 0 <= i < ps.len() - 1 && (#[trigger] plain_param(ps[i])) is None {
        Some(KwError::UnsupportedArgument)
    } else {
        None
    }
}

/// `f` is what reading `d` gives where it succeeds.
pub open spec fn describes(f: KwargsFn, d: FnDecl) -> bool {
    let ps = d.params@;
    let entries = marker_entries(marker_body(ps.last())->0)->0;
    &&& f.attrs@ == d.attrs@.filter(kept_attr())
    &&& f.vis == d.vis
    &&& f.constness == d.constness
    &&& f.asyncness == d.asyncness
    &&& f.unsafety == d.unsafety
    &&& f.ident == d.ident
    &&& f.generics == d.generics
    &&& f.generics_text == d.generics_text
    &&& f.output == d.output
    &&& f.block == d.block
    &&& f.args@.len() == ps.len() - 1
    &&& forall|i: int|
        0 <= i < f.args@.len() ==> plain_param(#[trigger] ps[i]) == Some(
            (f.args@[i].name@, f.args@[i].ty@),
        )
    &&& f.kwargs.required@ == entries.filter(required_pred())
    &&& f.kwargs.optional@ == entries.filter(optional_pred())
}

/// The attributes other than `#[keywords]`, in order.
fn strip_origin(attrs: Vec<Attr>) -> (r: Vec<Attr>)
    ensures
        r@ == attrs@.filter(kept_attr()),
{
    let ghost all = attrs@;
    let mut rest = attrs;
    let mut kept: Vec<Attr> = Vec::new();
    let ghost mut seen: Seq<Attr> = Seq::empty();
    while rest.len() > 0
        invariant
            all == attrs@,
            all == seen + rest@,
            kept@ == seen.filter(kept_attr()),
        decreases rest.len(),
    {
        let a = rest.remove(0);
        proof {
            lemma_filter_push(seen, a, kept_attr());
            seen = seen.push(a);
        }
        proof {
            reveal_strlit("keywords");
        }
        if a.path != String::from_str("keywords") {
            kept.push(a);
        }
    }
    assert(seen =~= all);
    kept
}

/// The ordinary parameters as fields, where each binds one name.
fn plain_args(params: &Vec<FnParam>) -> (r: Option<Vec<Field>>)
    ensures
        match r {
            Some(args) => args@.len() == params@.len() && forall|j: int|
                0 <= j < params@.len() ==> plain_param(#[trigger] params@[j]) == Some(
                    (args@[j].name@, args@[j].ty@),
                ),
            None => exists|j: int| 0 <= j < params@.len() && (#[trigger] plain_param(params@[j])) is None,
        },
{
    let mut args: Vec<Field> = Vec::new();
    let mut i: usize = 0;
    while i < params.len()
        invariant
            i <= params@.len(),
            args@.len() == i,
            forall|j: int|
                0 <= j < i ==> plain_param(#[trigger] params@[j]) == Some(
                    (args@[j].name@, args@[j].ty@),
                ),
        decreases params.len() - i,
    {
        match &params[i] {
            FnParam::Typed { pat: Pattern::Ident(name), ty } => {
                args.push(Field { name: name.clone(), ty: ty.text().clone() });
            },
            _ => {
                assert(plain_param(params@[i as int]) is None);
                return None;
            },
        }
        i = i + 1;
    }
    Some(args)
}

impl KwargsFn {
    /// Reads a function declaration. The last parameter must be
    /// `_: keywords! { ... }` (else `MissingKeywordMarker`, even where an
    /// earlier parameter is a marker), its contents a list of `name: type`
    /// arguments (else `MalformedKeywordArgument`), and every other
    /// parameter must bind one name (else `UnsupportedArgument`).
    pub fn parse(decl: FnDecl) -> (r: Result<KwargsFn, KwError>)
        ensures
            match decl_error(decl) {
                Some(e) => r == Err::<KwargsFn, KwError>(e),
                None => r matches Ok(f) && describes(f, decl),
            },
    {
        let ghost d = decl;
        let FnDecl {
            attrs,
            vis,
            constness,
            asyncness,
            unsafety,
            ident,
            generics,
            generics_text,
            params,
            output,
            block,
        } = decl;
        let mut params = params;
        if params.len() == 0 {
            return Err(KwError::MissingKeywordMarker);
        }
        let last = params.pop().unwrap();
        assert(last == d.params@.last());
        let kwargs = match last {
            FnParam::Typed { pat: Pattern::Wild, ty: TypeExpr::Macro { global, segments, body, .. } } => {
                if path_is_ident(global, &segments, "keywords") {
                    match KeyArgs::parse(body) {
                        Some(k) => k,
                        None => {
                            return Err(KwError::MalformedKeywordArgument);
                        },
                    }
                } else {
                    return Err(KwError::MissingKeywordMarker);
                }
            },
            _ => {
                return Err(KwError::MissingKeywordMarker);
            },
        };
        let args = match plain_args(&params) {
            Some(a) => a,
            None => {
                return Err(KwError::UnsupportedArgument);
            },
        };
        proof {
            assert forall|j: int| 0 <= j < d.params@.len() - 1 implies (#[trigger] plain_param(
                d.params@[j],
            )) == plain_param(params@[j]) by {
                assert(d.params@[j] == params@[j]);
            }
        }
        let attrs = strip_origin(attrs);
        Ok(KwargsFn {
            attrs,
            vis,
            constness,
            asyncness,
            unsafety,
            ident,
            generics,
            generics_text,
            args,
            kwargs,
            output,
            block,
        })
    }
}

} // verus!
