//! The generic-parameter normalizer.
//!
//! The generated implementation blocks all share one angle-bracket parameter
//! list: the generic arguments appearing in the new type's parameterization,
//! deduplicated (first occurrence kept) and ordered by kind — const-kind
//! first, then type-kind, then lifetime-kind. Arguments of equal kind keep
//! their first-seen order; no finer order is promised.

use vstd::prelude::*;
use crate::model::{ArgKind, GenericArg, GenericArgV, TypeExpr, TypeExprV};
use crate::model::{args_view, clone_generic_arg, generic_arg_eq};

verus! {

/// The sort rank of a generic argument: const-kind sorts first, lifetime-kind
/// last.
pub open spec fn rank(a: GenericArgV) -> int {
    match a.kind {
        ArgKind::ConstKind => 0,
        ArgKind::TypeKind => 1,
        ArgKind::LifetimeKind => 2,
    }
}

/// The generic arguments that a type's parameterization carries; a type
/// without one carries none.
pub open spec fn args_of(t: TypeExprV) -> Seq<GenericArgV> {
    match t {
        TypeExprV::Parameterized { args, .. } => args,
        _ => Seq::<GenericArgV>::empty(),
    }
}

/// The sequence with every repeated argument collapsed to its first
/// occurrence.
pub open spec fn dedup_first(s: Seq<GenericArgV>) -> Seq<GenericArgV>
    decreases s.len(),
{
    if s.len() == 0 {
        Seq::<GenericArgV>::empty()
    } else {
        let rest = dedup_first(s.drop_last());
        if rest.contains(s.last()) {
            rest
        } else {
            rest.push(s.last())
        }
    }
}

/// The subsequence of arguments of one rank, in order.
pub open spec fn keep_rank(s: Seq<GenericArgV>, k: int) -> Seq<GenericArgV>
    decreases s.len(),
{
    if s.len() == 0 {
        Seq::<GenericArgV>::empty()
    } else {
        let rest = keep_rank(s.drop_last(), k);
        if rank(s.last()) == k {
            rest.push(s.last())
        } else {
            rest
        }
    }
}

/// The normalized generic argument list: deduplicated, then partitioned by
/// rank with first-seen order kept within each rank.
pub open spec fn normalized_of(args: Seq<GenericArgV>) -> Seq<GenericArgV> {
    let d = dedup_first(args);
    keep_rank(d, 0) + keep_rank(d, 1) + keep_rank(d, 2)
}

/// The normalized list implied by the new type's parameterization.
pub open spec fn spec_normalized(t: TypeExprV) -> Seq<GenericArgV> {
    normalized_of(args_of(t))
}

/// Whether a sequence holds no argument twice.
pub open spec fn no_dups(s: Seq<GenericArgV>) -> bool {
    forall|i: int, j: int| 0 <= i < j < s.len() ==> s[i] != s[j]
}

/// The sort rank of a generic argument.
fn rank_exec(a: &GenericArg) -> (r: usize)
    ensures
        r as int == rank(a@),
{
    match a.kind {
        ArgKind::ConstKind => 0,
        ArgKind::TypeKind => 1,
        ArgKind::LifetimeKind => 2,
    }
}

/// Whether the vector holds an argument equal to the given one.
fn args_contain(v: &Vec<GenericArg>, a: &GenericArg) -> (r: bool)
    ensures
        r == args_view(v@).contains(a@),
{
    let mut i: usize = 0;
    while i < v.len()
        invariant
            i <= v@.len(),
            forall|j: int| 0 <= j < i ==> v@[j]@ != a@,
        decreases v@.len() - i,
    {
        if generic_arg_eq(&v[i], a) {
            proof {
                assert(args_view(v@)[i as int] == a@);
            }
            return true;
        }
        i = i + 1;
    }
    proof {
        assert forall|j: int| 0 <= j < args_view(v@).len() implies args_view(v@)[j] != a@ by {
            assert(args_view(v@)[j] == v@[j]@);
        }
    }
    false
}

/// Collapse repeated arguments to their first occurrences.
fn dedup_args(v: &Vec<GenericArg>) -> (r: Vec<GenericArg>)
    ensures
        args_view(r@) == dedup_first(args_view(v@)),
{
    let ghost all = args_view(v@);
    let mut out: Vec<GenericArg> = Vec::new();
    let mut i: usize = 0;
    proof {
        assert(all.take(0) =~= Seq::<GenericArgV>::empty());
        assert(args_view(out@) =~= Seq::<GenericArgV>::empty());
    }
    while i < v.len()
        invariant
            i <= v@.len(),
            all == args_view(v@),
            args_view(out@) == dedup_first(all.take(i as int)),
        decreases v@.len() - i,
    {
        proof {
            assert(all.take(i as int + 1).drop_last() =~= all.take(i as int));
            assert(all.take(i as int + 1).last() == v@[i as int]@);
        }
        if !args_contain(&out, &v[i]) {
            let ghost before = args_view(out@);
            out.push(clone_generic_arg(&v[i]));
            proof {
                assert(args_view(out@) =~= before.push(v@[i as int]@));
            }
        }
        i = i + 1;
    }
    proof {
        assert(all.take(v@.len() as int) =~= all);
    }
    out
}

/// Gather the arguments of one rank, in order.
fn gather_rank(d: &Vec<GenericArg>, k: usize) -> (r: Vec<GenericArg>)
    ensures
        args_view(r@) == keep_rank(args_view(d@), k as int),
{
    let ghost all = args_view(d@);
    let mut out: Vec<GenericArg> = Vec::new();
    let mut i: usize = 0;
    proof {
        assert(all.take(0) =~= Seq::<GenericArgV>::empty());
        assert(args_view(out@) =~= Seq::<GenericArgV>::empty());
    }
    while i < d.len()
        invariant
            i <= d@.len(),
            all == args_view(d@),
            args_view(out@) == keep_rank(all.take(i as int), k as int),
        decreases d@.len() - i,
    {
        proof {
            assert(all.take(i as int + 1).drop_last() =~= all.take(i as int));
            assert(all.take(i as int + 1).last() == d@[i as int]@);
        }
        if rank_exec(&d[i]) == k {
            let ghost before = args_view(out@);
            out.push(clone_generic_arg(&d[i]));
            proof {
                assert(args_view(out@) =~= before.push(d@[i as int]@));
            }
        }
        i = i + 1;
    }
    proof {
        assert(all.take(d@.len() as int) =~= all);
    }
    out
}

/// Compute the normalized generic argument list of the new type's
/// parameterization: its arguments, deduplicated, ordered const-kind first,
/// then type-kind, then lifetime-kind, first-seen order within a kind.
pub fn normalize_generics(name: &TypeExpr) -> (r: Vec<GenericArg>)
    ensures
        args_view(r@) == spec_normalized(name@),
{
    match name {
        TypeExpr::Parameterized { segments: _, args } => {
            let d = dedup_args(args);
            let mut out = gather_rank(&d, 0);
            let mut mid = gather_rank(&d, 1);
            let mut tail = gather_rank(&d, 2);
            let ghost part0 = args_view(out@);
            let ghost part1 = args_view(mid@);
            let ghost part2 = args_view(tail@);
            out.append(&mut mid);
            proof {
                assert(args_view(out@) =~= part0 + part1);
            }
            out.append(&mut tail);
            proof {
                assert(args_view(out@) =~= part0 + part1 + part2);
            }
            out
        },
        _ => {
            let out: Vec<GenericArg> = Vec::new();
            proof {
                assert(args_of(name@) =~= Seq::<GenericArgV>::empty());
                assert(dedup_first(Seq::<GenericArgV>::empty())
                    =~= Seq::<GenericArgV>::empty());
                assert(keep_rank(Seq::<GenericArgV>::empty(), 0)
                    =~= Seq::<GenericArgV>::empty());
                assert(keep_rank(Seq::<GenericArgV>::empty(), 1)
                    =~= Seq::<GenericArgV>::empty());
                assert(keep_rank(Seq::<GenericArgV>::empty(), 2)
                    =~= Seq::<GenericArgV>::empty());
                assert(args_view(out@) =~= spec_normalized(name@));
            }
            out
        },
    }
}

/// Every element of `keep_rank(s, k)` has rank `k`, and an argument stands in
/// `keep_rank(s, k)` exactly when it stands in `s` with rank `k`.
proof fn lemma_keep_rank(s: Seq<GenericArgV>, k: int)
    ensures
        forall|i: int| 0 <= i < keep_rank(s, k).len() ==> rank(#[trigger] keep_rank(s, k)[i])
            == k,
        forall|a: GenericArgV| #[trigger] keep_rank(s, k).contains(a) <==> s.contains(a) && rank(
            a,
        ) == k,
    decreases s.len(),
{
    if s.len() == 0 {
        assert forall|a: GenericArgV| #[trigger]
            keep_rank(s, k).contains(a) <==> s.contains(a) && rank(a) == k by {
            if s.contains(a) {
                let i = choose|i: int| 0 <= i < s.len() && s[i] == a;
            }
        }
    } else {
        let rest = s.drop_last();
        lemma_keep_rank(rest, k);
        assert forall|a: GenericArgV| #[trigger]
            keep_rank(s, k).contains(a) <==> s.contains(a) && rank(a) == k by {
            if keep_rank(s, k).contains(a) {
                if rank(s.last()) == k && a == s.last() {
                    assert(s.contains(a)) by {
                        assert(s[s.len() - 1] == a);
                    }
                } else {
                    if !keep_rank(rest, k).contains(a) {
                        let i = choose|i: int|
                            0 <= i < keep_rank(s, k).len() && keep_rank(s, k)[i] == a;
                    }
                    assert(rest.contains(a));
                    let i = choose|i: int| 0 <= i < rest.len() && rest[i] == a;
                    assert(s[i] == a);
                }
            }
            if s.contains(a) && rank(a) == k {
                let i = choose|i: int| 0 <= i < s.len() && s[i] == a;
                if i < s.len() - 1 {
                    assert(rest[i] == a);
                    assert(keep_rank(rest, k).contains(a));
                    if rank(s.last()) == k {
                        let j = choose|j: int|
                            0 <= j < keep_rank(rest, k).len() && keep_rank(rest, k)[j] == a;
                        assert(keep_rank(s, k)[j] == a);
                    }
                } else {
                    assert(a == s.last());
                    assert(keep_rank(s, k)[keep_rank(s, k).len() - 1] == a);
                }
            }
        }
    }
}

/// `keep_rank` keeps a duplicate-free sequence duplicate-free.
proof fn lemma_keep_rank_no_dups(s: Seq<GenericArgV>, k: int)
    requires
        no_dups(s),
    ensures
        no_dups(keep_rank(s, k)),
    decreases s.len(),
{
    if s.len() > 0 {
        let rest = s.drop_last();
        assert(no_dups(rest)) by {
            assert forall|i: int, j: int| 0 <= i < j < rest.len() implies rest[i] != rest[j] by {
                assert(s[i] == rest[i] && s[j] == rest[j]);
            }
        }
        lemma_keep_rank_no_dups(rest, k);
        lemma_keep_rank(rest, k);
        if rank(s.last()) == k {
            assert(!keep_rank(rest, k).contains(s.last())) by {
                if rest.contains(s.last()) {
                    let i = choose|i: int| 0 <= i < rest.len() && rest[i] == s.last();
                    assert(s[i] == s[s.len() - 1]);
                }
            }
        }
    }
}

/// `dedup_first` yields a duplicate-free sequence holding exactly the
/// arguments of its input.
proof fn lemma_dedup_first(s: Seq<GenericArgV>)
    ensures
        no_dups(dedup_first(s)),
        forall|a: GenericArgV| #[trigger] dedup_first(s).contains(a) <==> s.contains(a),
    decreases s.len(),
{
    if s.len() == 0 {
        assert forall|a: GenericArgV| #[trigger]
            dedup_first(s).contains(a) <==> s.contains(a) by {
            if s.contains(a) {
                let i = choose|i: int| 0 <= i < s.len() && s[i] == a;
            }
        }
    } else {
        let rest = s.drop_last();
        lemma_dedup_first(rest);
        assert forall|a: GenericArgV| #[trigger]
            dedup_first(s).contains(a) <==> s.contains(a) by {
            if dedup_first(s).contains(a) {
                if !dedup_first(rest).contains(a) {
                    let i = choose|i: int|
                        0 <= i < dedup_first(s).len() && dedup_first(s)[i] == a;
                    assert(a == s.last());
                    assert(s[s.len() - 1] == a);
                } else {
                    assert(rest.contains(a));
                    let i = choose|i: int| 0 <= i < rest.len() && rest[i] == a;
                    assert(s[i] == a);
                }
            }
            if s.contains(a) {
                let i = choose|i: int| 0 <= i < s.len() && s[i] == a;
                if i < s.len() - 1 {
                    assert(rest[i] == a);
                    if !dedup_first(rest).contains(a) {
                        assert(false);
                    }
                    if !dedup_first(rest).contains(s.last()) {
                        let j = choose|j: int|
                            0 <= j < dedup_first(rest).len() && dedup_first(rest)[j] == a;
                        assert(dedup_first(s)[j] == a);
                    }
                } else {
                    assert(a == s.last());
                    if dedup_first(rest).contains(a) {
                    } else {
                        assert(dedup_first(s)[dedup_first(s).len() - 1] == a);
                    }
                }
            }
        }
        if !dedup_first(rest).contains(s.last()) {
            assert forall|i: int, j: int|
                0 <= i < j < dedup_first(s).len() implies dedup_first(s)[i] != dedup_first(
                s,
            )[j] by {
                if j < dedup_first(s).len() - 1 {
                    assert(dedup_first(s)[i] == dedup_first(rest)[i]);
                    assert(dedup_first(s)[j] == dedup_first(rest)[j]);
                } else {
                    assert(dedup_first(s)[i] == dedup_first(rest)[i]);
                    assert(dedup_first(rest).contains(dedup_first(rest)[i]));
                }
            }
        }
    }
}

/// Evaluate `dedup_first` and `keep_rank` on a two-argument sequence of
/// distinct arguments.
proof fn lemma_pair_eval(a: GenericArgV, b: GenericArgV, k: int)
    requires
        a != b,
    ensures
        dedup_first(seq![a, b]) == seq![a, b],
        keep_rank(seq![a, b], k) == (if rank(a) == k && rank(b) == k {
            seq![a, b]
        } else if rank(a) == k {
            seq![a]
        } else if rank(b) == k {
            seq![b]
        } else {
            Seq::<GenericArgV>::empty()
        }),
{
    let s = seq![a, b];
    assert(s.drop_last() =~= seq![a]);
    assert(seq![a].drop_last() =~= Seq::<GenericArgV>::empty());
    assert(dedup_first(Seq::<GenericArgV>::empty()) == Seq::<GenericArgV>::empty());
    assert(!Seq::<GenericArgV>::empty().contains(a)) by {
        if Seq::<GenericArgV>::empty().contains(a) {
            let i = choose|i: int|
                0 <= i < Seq::<GenericArgV>::empty().len() && Seq::<GenericArgV>::empty()[i]
                    == a;
        }
    }
    assert(dedup_first(seq![a]) =~= seq![a]);
    assert(!seq![a].contains(b)) by {
        if seq![a].contains(b) {
            let i = choose|i: int| 0 <= i < seq![a].len() && seq![a][i] == b;
        }
    }
    assert(dedup_first(s) =~= dedup_first(seq![a]).push(b));
    assert(dedup_first(s) =~= s);
    assert(keep_rank(Seq::<GenericArgV>::empty(), k) == Seq::<GenericArgV>::empty());
    if rank(a) == k {
        assert(keep_rank(seq![a], k) =~= seq![a]);
    } else {
        assert(keep_rank(seq![a], k) =~= Seq::<GenericArgV>::empty());
    }
    if rank(a) == k && rank(b) == k {
        assert(keep_rank(s, k) =~= seq![a, b]);
    } else if rank(a) == k {
        assert(keep_rank(s, k) =~= seq![a]);
    } else if rank(b) == k {
        assert(keep_rank(s, k) =~= seq![b]);
    } else {
        assert(keep_rank(s, k) =~= Seq::<GenericArgV>::empty());
    }
}

/// Law: a parameterization referencing one type argument and one lifetime
/// argument normalizes to the type argument first, then the lifetime —
/// const-kind absent, type before lifetime — whatever their input order.
pub proof fn lemma_normalize_type_lifetime(t: GenericArgV, l: GenericArgV)
    requires
        t.kind == ArgKind::TypeKind,
        l.kind == ArgKind::LifetimeKind,
    ensures
        normalized_of(seq![l, t]) == seq![t, l],
        normalized_of(seq![t, l]) == seq![t, l],
{
    assert(t != l);
    lemma_pair_eval(l, t, 0);
    lemma_pair_eval(l, t, 1);
    lemma_pair_eval(l, t, 2);
    lemma_pair_eval(t, l, 0);
    lemma_pair_eval(t, l, 1);
    lemma_pair_eval(t, l, 2);
    assert(normalized_of(seq![l, t]) =~= seq![t, l]);
    assert(normalized_of(seq![t, l]) =~= seq![t, l]);
}

/// Law: a parameterization referencing one const argument and one type
/// argument normalizes to the const argument first, then the type, whatever
/// their input order.
pub proof fn lemma_normalize_const_type(k: GenericArgV, t: GenericArgV)
    requires
        k.kind == ArgKind::ConstKind,
        t.kind == ArgKind::TypeKind,
    ensures
        normalized_of(seq![k, t]) == seq![k, t],
        normalized_of(seq![t, k]) == seq![k, t],
{
    assert(k != t);
    lemma_pair_eval(k, t, 0);
    lemma_pair_eval(k, t, 1);
    lemma_pair_eval(k, t, 2);
    lemma_pair_eval(t, k, 0);
    lemma_pair_eval(t, k, 1);
    lemma_pair_eval(t, k, 2);
    assert(normalized_of(seq![k, t]) =~= seq![k, t]);
    assert(normalized_of(seq![t, k]) =~= seq![k, t]);
}

/// The normalized list holds no argument twice, is ordered by kind rank, and
/// holds exactly the distinct arguments of the input parameterization.
pub proof fn lemma_normalized_shape(args: Seq<GenericArgV>)
    ensures
        no_dups(normalized_of(args)),
        forall|i: int, j: int| 0 <= i < j < normalized_of(args).len() ==> rank(
            #[trigger] normalized_of(args)[i],
        ) <= rank(#[trigger] normalized_of(args)[j]),
        forall|a: GenericArgV| #[trigger] normalized_of(args).contains(a) <==> args.contains(a),
{
    let d = dedup_first(args);
    let p0 = keep_rank(d, 0);
    let p1 = keep_rank(d, 1);
    let p2 = keep_rank(d, 2);
    let n = normalized_of(args);
    lemma_dedup_first(args);
    lemma_keep_rank(d, 0);
    lemma_keep_rank(d, 1);
    lemma_keep_rank(d, 2);
    lemma_keep_rank_no_dups(d, 0);
    lemma_keep_rank_no_dups(d, 1);
    lemma_keep_rank_no_dups(d, 2);
    assert forall|i: int| 0 <= i < n.len() implies rank(#[trigger] n[i]) == (
        if i < p0.len() {
            0int
        } else if i < p0.len() + p1.len() {
            1int
        } else {
            2int
        }
    ) by {
        if i < p0.len() {
            assert(n[i] == p0[i]);
        } else if i < p0.len() + p1.len() {
            assert(n[i] == p1[i - p0.len()]);
        } else {
            assert(n[i] == p2[i - p0.len() - p1.len()]);
        }
    }
    assert forall|i: int, j: int| 0 <= i < j < n.len() implies n[i] != n[j] by {
        if i < p0.len() && j < p0.len() {
            assert(n[i] == p0[i] && n[j] == p0[j]);
        } else if p0.len() <= i && i < p0.len() + p1.len() && p0.len() <= j && j < p0.len()
            + p1.len() {
            assert(n[i] == p1[i - p0.len()] && n[j] == p1[j - p0.len()]);
        } else if p0.len() + p1.len() <= i && p0.len() + p1.len() <= j {
            assert(n[i] == p2[i - p0.len() - p1.len()] && n[j] == p2[j - p0.len() - p1.len()]);
        } else {
            assert(rank(n[i]) != rank(n[j]));
        }
    }
    assert forall|a: GenericArgV| #[trigger] n.contains(a) <==> args.contains(a) by {
        if n.contains(a) {
            let i = choose|i: int| 0 <= i < n.len() && n[i] == a;
            if i < p0.len() {
                assert(p0[i] == a);
                assert(p0.contains(a));
            } else if i < p0.len() + p1.len() {
                assert(p1[i - p0.len()] == a);
                assert(p1.contains(a));
            } else {
                assert(p2[i - p0.len() - p1.len()] == a);
                assert(p2.contains(a));
            }
            assert(d.contains(a));
        }
        if args.contains(a) {
            assert(d.contains(a));
            if rank(a) == 0 {
                assert(p0.contains(a));
                let i = choose|i: int| 0 <= i < p0.len() && p0[i] == a;
                assert(n[i] == a);
            } else if rank(a) == 1 {
                assert(p1.contains(a));
                let i = choose|i: int| 0 <= i < p1.len() && p1[i] == a;
                assert(n[p0.len() + i] == a);
            } else {
                assert(p2.contains(a));
                let i = choose|i: int| 0 <= i < p2.len() && p2[i] == a;
                assert(n[p0.len() + p1.len() + i] == a);
            }
        }
    }
}

} // verus!
