//! Type expressions: the syntax in which a descriptor writes down its field
//! types, and the substitution that erases generic parameters into
//! position-tagged placeholders.

use vstd::prelude::*;

verus! {

broadcast use vstd::seq::group_seq_axioms, vstd::std_specs::vec::group_vec_axioms;

/// The type of one field, as declared: a reference to one of the container's
/// generic parameters, a position-tagged placeholder, or a named type applied
/// to argument types.
#[derive(Debug, PartialEq, Eq)]
pub enum TypeExpr {
    /// The containing type's generic parameter at the given zero-based
    /// position.
    Param(usize),
    /// The placeholder substituted for the generic parameter at the given
    /// zero-based position.
    Placeholder(usize),
    /// A named type applied to zero or more arguments; a plain type is an
    /// application to no arguments.
    Apply { name: String, args: Vec<TypeExpr> },
}

/// The mathematical form of a type expression.
pub enum SpecTypeExpr {
    Param(nat),
    Placeholder(nat),
    Apply { name: Seq<char>, args: Seq<SpecTypeExpr> },
}

impl View for TypeExpr {
    type V = SpecTypeExpr;

    open spec fn view(&self) -> SpecTypeExpr
        decreases self,
    {
        match self {
            TypeExpr::Param(i) => SpecTypeExpr::Param(*i as nat),
            TypeExpr::Placeholder(i) => SpecTypeExpr::Placeholder(*i as nat),
            TypeExpr::Apply { name, args } => SpecTypeExpr::Apply {
                name: name@,
                args: view_type_args(args@),
            },
        }
    }
}

/// The views of a list of type expressions, in order.
pub open spec fn view_type_args(ts: Seq<TypeExpr>) -> Seq<SpecTypeExpr>
    decreases ts,
{
    if ts.len() == 0 {
        Seq::empty()
    } else {
        seq![ts[0]@] + view_type_args(ts.drop_first())
    }
}

pub proof fn lemma_view_type_args(ts: Seq<TypeExpr>)
    ensures
        view_type_args(ts).len() == ts.len(),
        forall|i: int| 0 <= i < ts.len() ==> view_type_args(ts)[i] == #[trigger] ts[i]@,
    decreases ts,
{
    if ts.len() > 0 {
        lemma_view_type_args(ts.drop_first());
        assert(view_type_args(ts) == seq![ts[0]@] + view_type_args(ts.drop_first()));
        assert forall|i: int| 0 <= i < ts.len() implies view_type_args(ts)[i] == #[trigger] ts[i]@ by {
            if i > 0 {
                assert(ts.drop_first()[i - 1] == ts[i]);
                assert(view_type_args(ts)[i] == view_type_args(ts.drop_first())[i - 1]);
            }
        }
    } else {
        assert(view_type_args(ts) == Seq::<SpecTypeExpr>::empty());
    }
}

/// The views of a list of values, in order.
pub open spec fn view_seq<T: View>(ts: Seq<T>) -> Seq<T::V>
    decreases ts,
{
    if ts.len() == 0 {
        Seq::empty()
    } else {
        seq![ts[0]@] + view_seq(ts.drop_first())
    }
}

pub proof fn lemma_view_seq<T: View>(ts: Seq<T>)
    ensures
        view_seq(ts).len() == ts.len(),
        forall|i: int| 0 <= i < ts.len() ==> view_seq(ts)[i] == #[trigger] ts[i]@,
    decreases ts,
{
    if ts.len() > 0 {
        lemma_view_seq(ts.drop_first());
        assert(view_seq(ts) == seq![ts[0]@] + view_seq(ts.drop_first()));
        assert forall|i: int| 0 <= i < ts.len() implies view_seq(ts)[i] == #[trigger] ts[i]@ by {
            if i > 0 {
                assert(ts.drop_first()[i - 1] == ts[i]);
                assert(view_seq(ts)[i] == view_seq(ts.drop_first())[i - 1]);
            }
        }
    } else {
        assert(view_seq(ts) == Seq::<T::V>::empty());
    }
}

pub proof fn lemma_view_seq_push<T: View>(ts: Seq<T>, x: T)
    ensures
        view_seq(ts.push(x)) == view_seq(ts) + seq![x@],
{
    lemma_view_seq(ts.push(x));
    lemma_view_seq(ts);
    assert forall|i: int| 0 <= i < ts.push(x).len() implies view_seq(ts.push(x))[i] == (view_seq(
        ts,
    ) + seq![x@])[i] by {
        assert(view_seq(ts.push(x))[i] == ts.push(x)[i]@);
        if i < ts.len() {
            assert(ts.push(x)[i] == ts[i]);
            assert(view_seq(ts)[i] == ts[i]@);
        } else {
            assert(ts.push(x)[i] == x);
        }
    }
    assert(view_seq(ts.push(x)) =~= view_seq(ts) + seq![x@]);
}

/// Replaces every generic-parameter reference by the placeholder tagged with
/// the same position; placeholders and named types keep their structure.
pub open spec fn spec_subst(t: SpecTypeExpr) -> SpecTypeExpr
    decreases t,
{
    match t {
        SpecTypeExpr::Param(i) => SpecTypeExpr::Placeholder(i),
        SpecTypeExpr::Placeholder(i) => SpecTypeExpr::Placeholder(i),
        SpecTypeExpr::Apply { name, args } => SpecTypeExpr::Apply {
            name,
            args: spec_subst_all(args),
        },
    }
}

pub open spec fn spec_subst_all(ts: Seq<SpecTypeExpr>) -> Seq<SpecTypeExpr>
    decreases ts,
{
    if ts.len() == 0 {
        Seq::empty()
    } else {
        seq![spec_subst(ts[0])] + spec_subst_all(ts.drop_first())
    }
}

pub proof fn lemma_spec_subst_all(ts: Seq<SpecTypeExpr>)
    ensures
        spec_subst_all(ts).len() == ts.len(),
        forall|i: int| 0 <= i < ts.len() ==> spec_subst_all(ts)[i] == spec_subst(#[trigger] ts[i]),
    decreases ts,
{
    if ts.len() > 0 {
        lemma_spec_subst_all(ts.drop_first());
        assert(spec_subst_all(ts) == seq![spec_subst(ts[0])] + spec_subst_all(ts.drop_first()));
        assert forall|i: int| 0 <= i < ts.len() implies spec_subst_all(ts)[i] == spec_subst(
            #[trigger] ts[i],
        ) by {
            if i > 0 {
                assert(ts.drop_first()[i - 1] == ts[i]);
                assert(spec_subst_all(ts)[i] == spec_subst_all(ts.drop_first())[i - 1]);
            }
        }
    } else {
        assert(spec_subst_all(ts) == Seq::<SpecTypeExpr>::empty());
    }
}

/// Rewrites a declared type for the mocked form of its container: every
/// generic-parameter reference becomes the placeholder at the same position.
pub fn subst_type(t: &TypeExpr) -> (r: TypeExpr)
    ensures
        r@ == spec_subst(t@),
    decreases t,
{
    match t {
        TypeExpr::Param(i) => TypeExpr::Placeholder(*i),
        TypeExpr::Placeholder(i) => TypeExpr::Placeholder(*i),
        TypeExpr::Apply { name, args } => {
            let mut out: Vec<TypeExpr> = Vec::new();
            let mut k: usize = 0;
            proof {
                lemma_view_type_args(args@);
                lemma_spec_subst_all(view_type_args(args@));
            }
            while k < args.len()
                invariant
                    t is Apply,
                    *args == t->args,
                    k <= args.len(),
                    view_type_args(args@).len() == args@.len(),
                    forall|i: int|
                        0 <= i < args@.len() ==> view_type_args(args@)[i] == #[trigger] args@[i]@,
                    spec_subst_all(view_type_args(args@)).len() == args@.len(),
                    forall|i: int|
                        0 <= i < args@.len() ==> spec_subst_all(view_type_args(args@))[i]
                            == spec_subst(#[trigger] view_type_args(args@)[i]),
                    out@.len() == k as nat,
                    forall|i: int|
                        0 <= i < k as int ==> #[trigger] out@[i]@ == spec_subst_all(
                            view_type_args(args@),
                        )[i],
                decreases args.len() - k,
            {
                proof {
                    assert(*args == t->args);
                    assert(decreases_to!(*t => t->args));
                    assert(decreases_to!(t->args => t->args@));
                    assert(decreases_to!(t->args@ => t->args@[k as int]));
                    assert(decreases_to!(*t => args@[k as int]));
                }
                let s = subst_type(&args[k]);
                out.push(s);
                k = k + 1;
            }
            proof {
                lemma_view_type_args(out@);
                assert forall|i: int| 0 <= i < out@.len() implies view_type_args(out@)[i]
                    == spec_subst_all(view_type_args(args@))[i] by {
                    assert(view_type_args(out@)[i] == out@[i]@);
                    assert(out@[i]@ == spec_subst_all(view_type_args(args@))[i]);
                }
                assert(view_type_args(out@) =~= spec_subst_all(view_type_args(args@)));
            }
            TypeExpr::Apply { name: clone_string(name), args: out }
        }
    }
}

/// Clones a string; the copy reads the same.
pub fn clone_string(s: &String) -> (r: String)
    ensures
        r@ == s@,
{
    s.clone()
}

/// Copies a type expression; the copy has the same view.
pub fn clone_type(t: &TypeExpr) -> (r: TypeExpr)
    ensures
        r@ == t@,
    decreases t,
{
    match t {
        TypeExpr::Param(i) => TypeExpr::Param(*i),
        TypeExpr::Placeholder(i) => TypeExpr::Placeholder(*i),
        TypeExpr::Apply { name, args } => {
            let mut out: Vec<TypeExpr> = Vec::new();
            let mut k: usize = 0;
            proof {
                lemma_view_type_args(args@);
            }
            while k < args.len()
                invariant
                    t is Apply,
                    *args == t->args,
                    k <= args.len(),
                    view_type_args(args@).len() == args@.len(),
                    forall|i: int|
                        0 <= i < args@.len() ==> view_type_args(args@)[i] == #[trigger] args@[i]@,
                    out@.len() == k as nat,
                    forall|i: int| 0 <= i < k as int ==> #[trigger] out@[i]@ == args@[i]@,
                decreases args.len() - k,
            {
                proof {
                    assert(decreases_to!(*t => t->args));
                    assert(decreases_to!(t->args => t->args@));
                    assert(decreases_to!(t->args@ => t->args@[k as int]));
                    assert(decreases_to!(*t => args@[k as int]));
                }
                let s = clone_type(&args[k]);
                out.push(s);
                k = k + 1;
            }
            proof {
                lemma_view_type_args(out@);
                assert forall|i: int| 0 <= i < out@.len() implies view_type_args(out@)[i]
                    == view_type_args(args@)[i] by {
                    assert(view_type_args(out@)[i] == out@[i]@);
                    assert(out@[i]@ == args@[i]@);
                }
                assert(view_type_args(out@) =~= view_type_args(args@));
            }
            TypeExpr::Apply { name: clone_string(name), args: out }
        }
    }
}

/// The placeholder type standing for the generic parameter at position `i`.
pub fn mk_type_var(i: usize) -> (t: TypeExpr)
    ensures
        t@ == SpecTypeExpr::Placeholder(i as nat),
{
    TypeExpr::Placeholder(i)
}

} // verus!
