use vstd::prelude::*;
use crate::records::{AggregateParameter, F1, F4};

verus! {

/// The station record that an aggregate record becomes once its parameter is
/// set apart.
pub open spec fn as_f1<T>(r: F4<T>) -> F1<T> {
    F1 { station_id: r.station_id, yearly: r.yearly }
}

/// The station records that the aggregates tagged `p` become, the last of
/// them first.
pub open spec fn claimed<T>(s: Seq<F4<T>>, p: AggregateParameter) -> Seq<F1<T>>
    decreases s.len(),
{
    if s.len() == 0 {
        Seq::empty()
    } else {
        let rest = claimed(s.drop_first(), p);
        if s[0].parameter == p {
            rest.push(as_f1(s[0]))
        } else {
            rest
        }
    }
}

/// The aggregates whose parameter is not in `ps`, in their order.
pub open spec fn remaining<T>(s: Seq<F4<T>>, ps: Seq<AggregateParameter>) -> Seq<F4<T>>
    decreases s.len(),
{
    if s.len() == 0 {
        Seq::empty()
    } else {
        let rest = remaining(s.drop_first(), ps);
        if ps.contains(s[0].parameter) {
            rest
        } else {
            seq![s[0]] + rest
        }
    }
}

/// How many aggregates are tagged `p`.
pub open spec fn tagged_count<T>(s: Seq<F4<T>>, p: AggregateParameter) -> nat
    decreases s.len(),
{
    if s.len() == 0 {
        0
    } else {
        tagged_count(s.drop_first(), p) + if s[0].parameter == p {
            1nat
        } else {
            0nat
        }
    }
}

/// How many aggregates are tagged with one of `ps`, counted parameter by
/// parameter.
pub open spec fn tagged_total<T>(s: Seq<F4<T>>, ps: Seq<AggregateParameter>) -> nat
    decreases ps.len(),
{
    if ps.len() == 0 {
        0
    } else {
        tagged_count(s, ps[0]) + tagged_total(s, ps.drop_first())
    }
}

/// The sum of the lengths of what each of `ps` claims.
pub open spec fn claimed_total<T>(s: Seq<F4<T>>, ps: Seq<AggregateParameter>) -> nat
    decreases ps.len(),
{
    if ps.len() == 0 {
        0
    } else {
        claimed(s, ps[0]).len() + claimed_total(s, ps.drop_first())
    }
}

proof fn lemma_drop_first_skip<A>(s: Seq<A>, i: int)
    requires
        0 <= i < s.len(),
    ensures
        s.skip(i).drop_first() == s.skip(i + 1),
        s.skip(i)[0] == s[i],
{
    assert(s.skip(i).drop_first() =~= s.skip(i + 1));
}

/// Setting apart one more parameter leaves what the longer list leaves.
proof fn lemma_remaining_push<T>(s: Seq<F4<T>>, ps: Seq<AggregateParameter>, p: AggregateParameter)
    ensures
        remaining(remaining(s, ps), seq![p]) == remaining(s, ps.push(p)),
    decreases s.len(),
{
    if s.len() > 0 {
        lemma_remaining_push(s.drop_first(), ps, p);
        let r = remaining(s, ps);
        assert(ps.push(p).contains(s[0].parameter) <==> ps.contains(s[0].parameter) || s[0].parameter
            == p) by {
            if ps.push(p).contains(s[0].parameter) {
                let k = choose|k: int| 0 <= k < ps.push(p).len() && ps.push(p)[k] == s[0].parameter;
                if k < ps.len() {
                    assert(ps[k] == s[0].parameter);
                }
            }
            if ps.contains(s[0].parameter) {
                let k = choose|k: int| 0 <= k < ps.len() && ps[k] == s[0].parameter;
                assert(ps.push(p)[k] == s[0].parameter);
            }
            if s[0].parameter == p {
                assert(ps.push(p)[ps.len() as int] == p);
            }
        }
        assert(seq![p].contains(s[0].parameter) <==> s[0].parameter == p) by {
            if s[0].parameter == p {
                assert(seq![p][0] == p);
            }
        }
        if !ps.contains(s[0].parameter) {
            assert(r == seq![s[0]] + remaining(s.drop_first(), ps));
            assert(r.drop_first() =~= remaining(s.drop_first(), ps));
        }
    }
}

/// What a parameter claims is the same before and after other parameters
/// took theirs.
proof fn lemma_claimed_after_others<T>(
    s: Seq<F4<T>>,
    ps: Seq<AggregateParameter>,
    p: AggregateParameter,
)
    requires
        !ps.contains(p),
    ensures
        claimed(remaining(s, ps), p) == claimed(s, p),
    decreases s.len(),
{
    if s.len() > 0 {
        lemma_claimed_after_others(s.drop_first(), ps, p);
        if !ps.contains(s[0].parameter) {
            let r = remaining(s, ps);
            assert(r.drop_first() =~= remaining(s.drop_first(), ps));
        }
    }
}

/// Taking out one parameter more: what is left is what the longer list
/// leaves, and what it claims does not depend on what others took before.
pub proof fn lemma_step<T>(s: Seq<F4<T>>, ps: Seq<AggregateParameter>, p: AggregateParameter)
    requires
        !ps.contains(p),
    ensures
        remaining(remaining(s, ps), seq![p]) == remaining(s, ps.push(p)),
        claimed(remaining(s, ps), p) == claimed(s, p),
{
    lemma_remaining_push(s, ps, p);
    lemma_claimed_after_others(s, ps, p);
}

/// Taking out the aggregates tagged `p`: they become station records, the
/// last first, and the others stay in their order.
pub fn take_parameter<T>(records: &mut Vec<F4<T>>, p: AggregateParameter) -> (taken: Vec<F1<T>>)
    ensures
        taken@ == claimed(old(records)@, p),
        final(records)@ == remaining(old(records)@, seq![p]),
{
    let ghost s = records@;
    let mut taken: Vec<F1<T>> = Vec::new();
    let mut i: usize = records.len();
    assert(s.skip(i as int) =~= Seq::<F4<T>>::empty());
    while i > 0
        invariant
            i <= s.len(),
            records@ == s.take(i as int) + remaining(s.skip(i as int), seq![p]),
            taken@ == claimed(s.skip(i as int), p),
        decreases i,
    {
        i = i - 1;
        proof {
            lemma_drop_first_skip(s, i as int);
        }
        assert(records@[i as int] == s[i as int]);
        if records[i].parameter == p {
            assert(seq![p].contains(s[i as int].parameter)) by {
                assert(seq![p][0] == p);
            }
            let r = records.remove(i);
            taken.push(r.into_f1().0);
            assert(records@ =~= s.take(i as int) + remaining(s.skip(i as int), seq![p]));
        } else {
            assert(!seq![p].contains(s[i as int].parameter));
            assert(s.take(i + 1) =~= s.take(i as int).push(s[i as int]));
            assert(records@ =~= s.take(i as int) + remaining(s.skip(i as int), seq![p]));
        }
    }
    assert(s.take(0) + remaining(s, seq![p]) =~= remaining(s, seq![p]));
    assert(s.skip(0) =~= s);
    taken
}

/// Takes out the aggregates of each parameter of `ps` in turn: `out[j]` holds
/// the station records that the aggregates tagged `ps[j]` become, and the
/// aggregates of no parameter in `ps` are left over.
pub fn split_by_parameters<T>(records: Vec<F4<T>>, ps: &Vec<AggregateParameter>) -> (r: (
    Vec<Vec<F1<T>>>,
    Vec<F4<T>>,
))
    requires
        ps@.no_duplicates(),
    ensures
        r.0@.len() == ps@.len(),
        forall|j: int| 0 <= j < ps@.len() ==> (#[trigger] r.0@[j])@ == claimed(records@, ps@[j]),
        r.1@ == remaining(records@, ps@),
{
    let ghost s = records@;
    let mut rest = records;
    let mut out: Vec<Vec<F1<T>>> = Vec::new();
    let mut j: usize = 0;
    proof {
        assert(remaining(s, ps@.take(0)) == s) by {
            lemma_remaining_none(s, ps@.take(0));
        }
    }
    while j < ps.len()
        invariant
            ps@.no_duplicates(),
            j <= ps@.len(),
            out@.len() == j,
            forall|k: int| 0 <= k < j ==> (#[trigger] out@[k])@ == claimed(s, ps@[k]),
            rest@ == remaining(s, ps@.take(j as int)),
        decreases ps@.len() - j,
    {
        let p = ps[j];
        proof {
            assert(!ps@.take(j as int).contains(p)) by {
                if ps@.take(j as int).contains(p) {
                    let k = choose|k: int| 0 <= k < j && ps@.take(j as int)[k] == p;
                    assert(ps@[k] == ps@[j as int]);
                }
            }
            lemma_claimed_after_others(s, ps@.take(j as int), p);
            lemma_remaining_push(s, ps@.take(j as int), p);
            assert(ps@.take(j as int).push(p) =~= ps@.take(j + 1));
        }
        let taken = take_parameter(&mut rest, p);
        out.push(taken);
        j = j + 1;
    }
    assert(ps@.take(j as int) =~= ps@);
    (out, rest)
}

/// Setting apart no parameter leaves every aggregate.
pub proof fn lemma_remaining_none<T>(s: Seq<F4<T>>, ps: Seq<AggregateParameter>)
    requires
        ps.len() == 0,
    ensures
        remaining(s, ps) == s,
    decreases s.len(),
{
    if s.len() > 0 {
        lemma_remaining_none(s.drop_first(), ps);
        assert(seq![s[0]] + s.drop_first() =~= s);
    }
}

/// Each parameter claims exactly the aggregates tagged with it: each of them,
/// and as many records as there are of them, all drawn from them.
pub proof fn lemma_claimed_count<T>(s: Seq<F4<T>>, p: AggregateParameter)
    ensures
        claimed(s, p).len() == tagged_count(s, p),
        forall|i: int|
            0 <= i < s.len() && (#[trigger] s[i]).parameter == p ==> claimed(s, p).contains(
                as_f1(s[i]),
            ),
        forall|k: int|
            0 <= k < claimed(s, p).len() ==> exists|i: int|
                0 <= i < s.len() && (#[trigger] s[i]).parameter == p && #[trigger] claimed(s, p)[k]
                    == as_f1(s[i]),
    decreases s.len(),
{
    if s.len() > 0 {
        let t = s.drop_first();
        lemma_claimed_count(t, p);
        assert forall|k: int| 0 <= k < claimed(s, p).len() implies exists|i: int|
            0 <= i < s.len() && (#[trigger] s[i]).parameter == p && #[trigger] claimed(s, p)[k]
                == as_f1(s[i]) by {
            if k < claimed(t, p).len() {
                let i = choose|i: int|
                    0 <= i < t.len() && (#[trigger] t[i]).parameter == p && #[trigger] claimed(
                        t,
                        p,
                    )[k] == as_f1(t[i]);
                assert(s[i + 1] == t[i]);
            } else {
                assert(s[0].parameter == p);
            }
        }
        assert forall|i: int| 0 <= i < s.len() && (#[trigger] s[i]).parameter == p implies claimed(
            s,
            p,
        ).contains(as_f1(s[i])) by {
            if i == 0 {
                assert(claimed(s, p)[claimed(t, p).len() as int] == as_f1(s[0]));
            } else {
                assert(t[i - 1] == s[i]);
                let k = choose|k: int| 0 <= k < claimed(t, p).len() && claimed(t, p)[k] == as_f1(t[i - 1]);
                if s[0].parameter == p {
                    assert(claimed(s, p)[k] == claimed(t, p)[k]);
                }
            }
        }
    }
}

proof fn lemma_remaining_len<T>(s: Seq<F4<T>>, ps: Seq<AggregateParameter>)
    requires
        ps.len() > 0,
    ensures
        remaining(s, ps).len() + tagged_count(s, ps[0]) == remaining(
            s,
            ps.drop_first(),
        ).len() + if ps.drop_first().contains(ps[0]) {
            tagged_count(s, ps[0])
        } else {
            0
        },
    decreases s.len(),
{
    if s.len() > 0 {
        lemma_remaining_len(s.drop_first(), ps);
        let x = s[0].parameter;
        assert(ps.contains(x) <==> x == ps[0] || ps.drop_first().contains(x)) by {
            if ps.contains(x) {
                let k = choose|k: int| 0 <= k < ps.len() && ps[k] == x;
                if k > 0 {
                    assert(ps.drop_first()[k - 1] == x);
                }
            }
            if ps.drop_first().contains(x) {
                let k = choose|k: int| 0 <= k < ps.drop_first().len() && ps.drop_first()[k] == x;
                assert(ps[k + 1] == x);
            }
            if x == ps[0] {
                assert(ps[0] == x);
            }
        }
    }
}

/// The split over distinct parameters is a partition: each aggregate tagged
/// with one of `ps` becomes a station record of the output for its own
/// parameter and of no other, so the outputs together hold as many records as
/// there are aggregates tagged with one of `ps`, and those of no parameter in
/// `ps` are what is left over.
pub proof fn lemma_split_partition<T>(s: Seq<F4<T>>, ps: Seq<AggregateParameter>)
    requires
        ps.no_duplicates(),
    ensures
        claimed_total(s, ps) == tagged_total(s, ps),
        claimed_total(s, ps) + remaining(s, ps).len() == s.len(),
        forall|j: int, i: int|
            0 <= j < ps.len() && 0 <= i < s.len() && (#[trigger] s[i]).parameter == ps[j]
                ==> #[trigger] claimed(s, ps[j]).contains(as_f1(s[i])),
        forall|j: int, k: int|
            0 <= j < ps.len() && 0 <= k < claimed(s, ps[j]).len() ==> exists|i: int|
                0 <= i < s.len() && (#[trigger] s[i]).parameter == ps[j] && #[trigger] claimed(
                    s,
                    ps[j],
                )[k] == as_f1(s[i]),
    decreases ps.len(),
{
    if ps.len() == 0 {
        lemma_remaining_none(s, ps);
    } else {
        let rest = ps.drop_first();
        assert(rest.no_duplicates());
        lemma_split_partition(s, rest);
        lemma_claimed_count(s, ps[0]);
        lemma_remaining_len(s, ps);
        assert(!rest.contains(ps[0])) by {
            if rest.contains(ps[0]) {
                let k = choose|k: int| 0 <= k < rest.len() && rest[k] == ps[0];
                assert(ps[k + 1] == ps[0]);
            }
        }
        assert forall|j: int, k: int|
            0 <= j < ps.len() && 0 <= k < claimed(s, ps[j]).len() implies exists|i: int|
            0 <= i < s.len() && (#[trigger] s[i]).parameter == ps[j] && #[trigger] claimed(
                s,
                ps[j],
            )[k] == as_f1(s[i]) by {
            lemma_claimed_count(s, ps[j]);
        }
        assert forall|j: int, i: int|
            0 <= j < ps.len() && 0 <= i < s.len() && (#[trigger] s[i]).parameter == ps[j] implies #[trigger] claimed(
            s,
            ps[j],
        ).contains(as_f1(s[i])) by {
            lemma_claimed_count(s, ps[j]);
        }
    }
}

} // verus!
