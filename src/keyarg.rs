//! The keyword-argument list: the contents of a `keywords!` marker, split
//! into required and optional arguments.
use crate::syntax::{is_optional_type, Arg, FnParam, MarkerItem, Pattern};
use vstd::prelude::*;

verus! {

/// The keyword arguments of a function, each in exactly one of the two
/// lists, in the order in which they were written.
pub struct KeyArgs {
    pub optional: Vec<Arg>,
    pub required: Vec<Arg>,
}

/// The pieces that follow an argument: a separator after it is skipped.
pub open spec fn after_entry(items: Seq<MarkerItem>) -> Seq<MarkerItem> {
    if items.len() > 1 && items[1] is Comma {
        items.skip(2)
    } else {
        items.skip(1)
    }
}

/// The arguments that a marker's contents list, or `None` where a piece is
/// not a `name: type` argument (a stray separator, a fragment, a wildcard
/// or other pattern, `self`).
pub open spec fn marker_entries(items: Seq<MarkerItem>) -> Option<Seq<Arg>>
    decreases items.len(),
{
    if items.len() == 0 {
        Some(Seq::empty())
    } else {
        match items[0] {
            MarkerItem::Param(FnParam::Typed { pat: Pattern::Ident(name), ty }) => {
                match marker_entries(after_entry(items)) {
                    Some(rest) => Some(seq![Arg { name, ty }] + rest),
                    None => None,
                }
            },
            _ => None,
        }
    }
}

pub open spec fn optional_pred() -> spec_fn(Arg) -> bool {
    |a: Arg| is_optional_type(a.ty)
}

pub open spec fn required_pred() -> spec_fn(Arg) -> bool {
    |a: Arg| !is_optional_type(a.ty)
}

pub(crate) proof fn lemma_filter_push<A>(s: Seq<A>, a: A, p: spec_fn(A) -> bool)
    ensures
        s.push(a).filter(p) == if p(a) {
            s.filter(p).push(a)
        } else {
            s.filter(p)
        },
{
    reveal(Seq::filter);
    assert(s.push(a).drop_last() =~= s);
}

impl KeyArgs {
    /// Every keyword argument, the optional ones first, then the required.
    pub fn iter(&self) -> (r: Vec<&Arg>)
        ensures
            r@.len() == self.optional@.len() + self.required@.len(),
            forall|k: int| 0 <= k < r@.len() ==> *(#[trigger] r@[k]) == (self.optional@ + self.required@)[k],
    {
        let ghost all = self.optional@ + self.required@;
        let mut out: Vec<&Arg> = Vec::new();
        let mut i: usize = 0;
        while i < self.optional.len()
            invariant
                all == self.optional@ + self.required@,
                i <= self.optional@.len(),
                out@.len() == i,
                forall|k: int| 0 <= k < i ==> *(#[trigger] out@[k]) == all[k],
            decreases self.optional.len() - i,
        {
            out.push(&self.optional[i]);
            i = i + 1;
        }
        let mut j: usize = 0;
        while j < self.required.len()
            invariant
                all == self.optional@ + self.required@,
                i == self.optional@.len(),
                j <= self.required@.len(),
                out@.len() == i + j,
                forall|k: int| 0 <= k < i + j ==> *(#[trigger] out@[k]) == all[k],
            decreases self.required.len() - j,
        {
            out.push(&self.required[j]);
            j = j + 1;
        }
        out
    }

    /// Reads the contents of a marker. Arguments whose type is `Option` go
    /// to `optional`, the others to `required`, in order. A trailing
    /// separator is accepted; anything that is not a `name: type` argument
    /// is refused, as is an empty separator.
    pub fn parse(pieces: Vec<MarkerItem>) -> (r: Option<KeyArgs>)
        ensures
            match marker_entries(pieces@) {
                Some(entries) => r matches Some(k) && k.required@ == entries.filter(required_pred())
                    && k.optional@ == entries.filter(optional_pred()),
                None => r is None,
            },
    {
        let ghost all = pieces@;
        let mut items = pieces;
        let ghost mut seen: Seq<Arg> = Seq::empty();
        let mut optional: Vec<Arg> = Vec::new();
        let mut required: Vec<Arg> = Vec::new();
        while items.len() > 0
            invariant
                all == pieces@,
                marker_entries(all) == match marker_entries(items@) {
                    Some(rest) => Some(seen + rest),
                    None => None::<Seq<Arg>>,
                },
                required@ == seen.filter(required_pred()),
                optional@ == seen.filter(optional_pred()),
            decreases items.len(),
        {
            let ghost before = items@;
            let first = items.remove(0);
            match first {
                MarkerItem::Param(FnParam::Typed { pat: Pattern::Ident(name), ty }) => {
                    let arg = Arg { name, ty };
                    proof {
                        lemma_filter_push(seen, arg, required_pred());
                        lemma_filter_push(seen, arg, optional_pred());
                    }
                    if arg.ty.is_optional() {
                        optional.push(arg);
                    } else {
                        required.push(arg);
                    }
                    if items.len() > 0 && matches!(items[0], MarkerItem::Comma) {
                        items.remove(0);
                    }
                    proof {
                        assert(items@ =~= after_entry(before));
                        match marker_entries(items@) {
                            Some(rest) => {
                                assert(seen + seq![arg] + rest =~= seen + (seq![arg] + rest));
                            },
                            None => {},
                        }
                        seen = seen.push(arg);
                    }
                },
                _ => {
                    assert(marker_entries(before) is None);
                    return None;
                },
            }
        }
        assert(seen + Seq::<Arg>::empty() =~= seen);
        Some(KeyArgs { optional, required })
    }
}

} // verus!
