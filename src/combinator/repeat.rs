//! What the repetition combinators share: the specification of running a parser several times
//! in a row, and the loops that do it.
use vstd::prelude::*;

use crate::combinator::func::{call_predicate, keep_by, pred_respects_model, pred_total};
use crate::parser::{is_suffix, SpecResult};
use crate::Parser;

verus! {

/// The models of a sequence of outputs of `P`.
pub open spec fn models<'input, P: Parser<'input>>(values: Seq<P::Output>) -> Seq<P::Model> {
    values.map_values(|v: P::Output| P::model(v))
}

/// The predicate that holds of every model.
pub open spec fn keep_all<M>() -> spec_fn(M) -> bool {
    |m: M| true
}

/// `n` runs of `p`, each on what the one before left. The first failure is the error.
pub open spec fn spec_times<'input, P: Parser<'input>>(
    p: P,
    input: Seq<u8>,
    n: nat,
) -> SpecResult<Seq<P::Model>, P::Error>
    decreases n,
{
    if n == 0 {
        Ok((input, Seq::empty()))
    } else {
        match p.spec_parse(input) {
            Err(e) => Err(e),
            Ok((rest, v)) => match spec_times(p, rest, (n - 1) as nat) {
                Err(e) => Err(e),
                Ok((rest2, vs)) => Ok((rest2, seq![v] + vs)),
            },
        }
    }
}

/// Runs of `p`, each on what the one before left, for as long as they succeed and `keep` holds
/// of their value, and at most `max` of them. Where `progress` holds, a run that consumes nothing
/// ends them too. The run that ends them is not taken: what is left is the input it was given.
pub open spec fn spec_greedy<'input, P: Parser<'input>>(
    p: P,
    keep: spec_fn(P::Model) -> bool,
    input: Seq<u8>,
    max: nat,
    progress: bool,
) -> (Seq<u8>, Seq<P::Model>)
    decreases max,
{
    if max == 0 {
        (input, Seq::empty())
    } else {
        match p.spec_parse(input) {
            Ok((rest, v)) => if keep(v) && (!progress || rest.len() < input.len()) {
                let (rest2, vs) = spec_greedy(p, keep, rest, (max - 1) as nat, progress);
                (rest2, seq![v] + vs)
            } else {
                (input, Seq::empty())
            },
            Err(_) => (input, Seq::empty()),
        }
    }
}

/// `acc` followed by the values of `r`.
pub open spec fn prepend<M, E>(acc: Seq<M>, r: SpecResult<Seq<M>, E>) -> SpecResult<Seq<M>, E> {
    match r {
        Ok((rest, vs)) => Ok((rest, acc + vs)),
        Err(e) => Err(e),
    }
}

pub proof fn lemma_suffix_trans(a: Seq<u8>, b: Seq<u8>, c: Seq<u8>)
    requires
        is_suffix(a, b),
        is_suffix(b, c),
    ensures
        is_suffix(a, c),
{
    assert(a =~= c.subrange(c.len() - a.len(), c.len() as int));
}

pub proof fn lemma_suffix_refl(a: Seq<u8>)
    ensures
        is_suffix(a, a),
{
    assert(a =~= a.subrange(0, a.len() as int));
}

/// What `n` runs leave is a suffix of the input, and they produce `n` values.
pub proof fn lemma_times_suffix<'input, P: Parser<'input>>(p: P, input: Seq<u8>, n: nat)
    ensures
        spec_times(p, input, n) matches Ok((rest, vs)) ==> is_suffix(rest, input) && vs.len()
            == n,
    decreases n,
{
    lemma_suffix_refl(input);
    if n > 0 {
        p.lemma_consumes_prefix(input);
        if let Ok((rest, _)) = p.spec_parse(input) {
            lemma_times_suffix(p, rest, (n - 1) as nat);
            if let Ok((rest2, _)) = spec_times(p, rest, (n - 1) as nat) {
                lemma_suffix_trans(rest2, rest, input);
            }
        }
    }
}

/// What greedy runs leave is a suffix of the input; there are at most `max` of them, and where
/// each must consume, no more than the bytes consumed.
pub proof fn lemma_greedy_suffix<'input, P: Parser<'input>>(
    p: P,
    keep: spec_fn(P::Model) -> bool,
    input: Seq<u8>,
    max: nat,
    progress: bool,
)
    ensures
        is_suffix(spec_greedy(p, keep, input, max, progress).0, input),
        spec_greedy(p, keep, input, max, progress).1.len() <= max,
        progress ==> spec_greedy(p, keep, input, max, progress).1.len() <= input.len()
            - spec_greedy(p, keep, input, max, progress).0.len(),
    decreases max,
{
    lemma_suffix_refl(input);
    if max > 0 {
        p.lemma_consumes_prefix(input);
        if let Ok((rest, v)) = p.spec_parse(input) {
            if keep(v) && (!progress || rest.len() < input.len()) {
                lemma_greedy_suffix(p, keep, rest, (max - 1) as nat, progress);
                lemma_suffix_trans(spec_greedy(p, keep, rest, (max - 1) as nat, progress).0, rest, input);
            }
        }
    }
}

/// Runs `parser` `n` times, appending the values to `output`.
pub fn times_collect<'input, P: Parser<'input>>(
    parser: P,
    input: &'input [u8],
    n: usize,
    output: &mut Vec<P::Output>,
) -> (r: Result<&'input [u8], P::Error>)
    requires
        parser.wf(),
    ensures
        match (r, spec_times(parser, input@, n as nat)) {
            (Ok(rest), Ok((rest2, vs))) => rest@ == rest2 && models::<'input, P>(final(output)@)
                == models::<'input, P>(old(output)@) + vs,
            (Err(e), Err(f)) => e == f,
            _ => false,
        },
{
    let ghost start = models::<'input, P>(output@);
    let ghost mut taken: Seq<P::Model> = Seq::empty();
    let mut cur = input;
    let mut i: usize = 0;
    while i < n
        invariant
            parser.wf(),
            i <= n,
            models::<'input, P>(output@) == start + taken,
            spec_times(parser, input@, n as nat) == prepend(taken, spec_times(parser, cur@, (n - i) as nat)),
        decreases n - i,
    {
        let ghost before = output@;
        match parser.parse(cur) {
            Ok(item) => {
                let (rest, value) = item.into_parts();
                proof {
                    let m = P::model(value);
                    match spec_times(parser, rest@, (n - i - 1) as nat) {
                        Ok((rest2, vs)) => {
                            assert(taken + (seq![m] + vs) =~= taken.push(m) + vs);
                        },
                        Err(_) => {},
                    }
                    taken = taken.push(m);
                }
                output.push(value);
                proof {
                    assert(models::<'input, P>(output@) =~= models::<'input, P>(before).push(P::model(value)));
                    assert(start + taken =~= (start + taken.drop_last()).push(P::model(value)));
                }
                cur = rest;
                i = i + 1;
            },
            Err(e) => return Err(e),
        }
    }
    assert(taken + Seq::empty() =~= taken);
    Ok(cur)
}

/// Runs `parser` `n` times and returns what is left.
pub fn times_skip<'input, P: Parser<'input>>(parser: P, input: &'input [u8], n: usize) -> (r: Result<
    &'input [u8],
    P::Error,
>)
    requires
        parser.wf(),
    ensures
        match (r, spec_times(parser, input@, n as nat)) {
            (Ok(rest), Ok((rest2, _))) => rest@ == rest2,
            (Err(e), Err(f)) => e == f,
            _ => false,
        },
{
    let ghost mut taken: Seq<P::Model> = Seq::empty();
    let mut cur = input;
    let mut i: usize = 0;
    while i < n
        invariant
            parser.wf(),
            i <= n,
            spec_times(parser, input@, n as nat) == prepend(taken, spec_times(parser, cur@, (n - i) as nat)),
        decreases n - i,
    {
        match parser.parse(cur) {
            Ok(item) => {
                proof {
                    let m = P::model(item.value);
                    match spec_times(parser, item.input@, (n - i - 1) as nat) {
                        Ok((rest2, vs)) => {
                            assert(taken + (seq![m] + vs) =~= taken.push(m) + vs);
                        },
                        Err(_) => {},
                    }
                    taken = taken.push(m);
                }
                cur = item.input;
                i = i + 1;
            },
            Err(e) => return Err(e),
        }
    }
    Ok(cur)
}

/// `acc` followed by the values of `r`.
pub open spec fn extend<M>(acc: Seq<M>, r: (Seq<u8>, Seq<M>)) -> (Seq<u8>, Seq<M>) {
    (r.0, acc + r.1)
}

/// Runs `parser` greedily, as [`spec_greedy`] says with no predicate, appending the values to
/// `output`; returns what is left.
pub fn greedy_collect<'input, P: Parser<'input>>(
    parser: P,
    input: &'input [u8],
    max: usize,
    progress: bool,
    output: &mut Vec<P::Output>,
) -> (r: &'input [u8])
    requires
        parser.wf(),
    ensures
        r@ == spec_greedy(parser, keep_all(), input@, max as nat, progress).0,
        models::<'input, P>(final(output)@) == models::<'input, P>(old(output)@) + spec_greedy(
            parser,
            keep_all(),
            input@,
            max as nat,
            progress,
        ).1,
{
    let ghost start = models::<'input, P>(output@);
    let ghost mut taken: Seq<P::Model> = Seq::empty();
    let ghost whole = spec_greedy(parser, keep_all(), input@, max as nat, progress);
    let mut cur = input;
    let mut count: usize = 0;
    while count < max
        invariant
            parser.wf(),
            count <= max,
            whole == spec_greedy(parser, keep_all(), input@, max as nat, progress),
            start == models::<'input, P>(old(output)@),
            models::<'input, P>(output@) == start + taken,
            whole == extend(taken, spec_greedy(parser, keep_all(), cur@, (max - count) as nat, progress)),
        decreases max - count,
    {
        let ghost before = output@;
        match parser.parse(cur) {
            Ok(item) => {
                if progress && item.input.len() >= cur.len() {
                    assert(spec_greedy(parser, keep_all(), cur@, (max - count) as nat, progress)
                        == (cur@, Seq::<P::Model>::empty()));
                    assert(taken + Seq::empty() =~= taken);
                    return cur;
                }
                let (rest, value) = item.into_parts();
                proof {
                    let m = P::model(value);
                    let tail = spec_greedy(parser, keep_all(), rest@, (max - count - 1) as nat, progress);
                    assert(taken + (seq![m] + tail.1) =~= taken.push(m) + tail.1);
                    taken = taken.push(m);
                }
                output.push(value);
                proof {
                    assert(models::<'input, P>(output@) =~= models::<'input, P>(before).push(P::model(value)));
                    assert(start + taken =~= (start + taken.drop_last()).push(P::model(value)));
                }
                cur = rest;
                count = count + 1;
            },
            Err(_) => {
                assert(spec_greedy(parser, keep_all(), cur@, (max - count) as nat, progress)
                    == (cur@, Seq::<P::Model>::empty()));
                assert(taken + Seq::empty() =~= taken);
                return cur;
            },
        }
    }
    assert(taken + Seq::empty() =~= taken);
    cur
}

/// Runs `parser` greedily, as [`spec_greedy`] says with no predicate; returns what is left and
/// the number of runs taken.
pub fn greedy_skip<'input, P: Parser<'input>>(
    parser: P,
    input: &'input [u8],
    max: usize,
    progress: bool,
) -> (r: (&'input [u8], usize))
    requires
        parser.wf(),
    ensures
        r.0@ == spec_greedy(parser, keep_all(), input@, max as nat, progress).0,
        r.1 == spec_greedy(parser, keep_all(), input@, max as nat, progress).1.len(),
{
    let ghost mut taken: Seq<P::Model> = Seq::empty();
    let ghost whole = spec_greedy(parser, keep_all(), input@, max as nat, progress);
    let mut cur = input;
    let mut count: usize = 0;
    while count < max
        invariant
            parser.wf(),
            count <= max,
            whole == spec_greedy(parser, keep_all(), input@, max as nat, progress),
            taken.len() == count,
            whole == extend(taken, spec_greedy(parser, keep_all(), cur@, (max - count) as nat, progress)),
        decreases max - count,
    {
        match parser.parse(cur) {
            Ok(item) => {
                if progress && item.input.len() >= cur.len() {
                    assert(spec_greedy(parser, keep_all(), cur@, (max - count) as nat, progress)
                        == (cur@, Seq::<P::Model>::empty()));
                    assert(taken + Seq::empty() =~= taken);
                    return (cur, count);
                }
                proof {
                    let m = P::model(item.value);
                    let tail = spec_greedy(parser, keep_all(), item.input@, (max - count - 1) as nat, progress);
                    assert(taken + (seq![m] + tail.1) =~= taken.push(m) + tail.1);
                    taken = taken.push(m);
                }
                cur = item.input;
                count = count + 1;
            },
            Err(_) => {
                assert(spec_greedy(parser, keep_all(), cur@, (max - count) as nat, progress)
                    == (cur@, Seq::<P::Model>::empty()));
                assert(taken + Seq::empty() =~= taken);
                return (cur, count);
            },
        }
    }
    assert(taken + Seq::empty() =~= taken);
    (cur, count)
}

/// Runs `parser` greedily, while the predicate `f` holds, as [`spec_greedy`] says, appending the values to
/// `output`; returns what is left.
pub fn greedy_while_collect<'input, P: Parser<'input>, F: Fn(&P::Output) -> bool>(
    parser: P,
    f: &F,
    input: &'input [u8],
    max: usize,
    progress: bool,
    output: &mut Vec<P::Output>,
) -> (r: &'input [u8])
    requires
        parser.wf(),
        pred_total(*f),
        pred_respects_model::<'input, P, F>(*f),
    ensures
        r@ == spec_greedy(parser, keep_by::<'input, P, F>(*f), input@, max as nat, progress).0,
        models::<'input, P>(final(output)@) == models::<'input, P>(old(output)@) + spec_greedy(
            parser,
            keep_by::<'input, P, F>(*f),
            input@,
            max as nat,
            progress,
        ).1,
{
    let ghost start = models::<'input, P>(output@);
    let ghost mut taken: Seq<P::Model> = Seq::empty();
    let ghost whole = spec_greedy(parser, keep_by::<'input, P, F>(*f), input@, max as nat, progress);
    let mut cur = input;
    let mut count: usize = 0;
    while count < max
        invariant
            parser.wf(),
            pred_total(*f),
            pred_respects_model::<'input, P, F>(*f),
            count <= max,
            whole == spec_greedy(parser, keep_by::<'input, P, F>(*f), input@, max as nat, progress),
            start == models::<'input, P>(old(output)@),
            models::<'input, P>(output@) == start + taken,
            whole == extend(taken, spec_greedy(parser, keep_by::<'input, P, F>(*f), cur@, (max - count) as nat, progress)),
        decreases max - count,
    {
        let ghost before = output@;
        match parser.parse(cur) {
            Ok(item) => {
                if !call_predicate::<'input, '_, P, F>(f, &item.value) || (progress && item.input.len()
                    >= cur.len()) {
                    assert(spec_greedy(parser, keep_by::<'input, P, F>(*f), cur@, (max - count) as nat, progress)
                        == (cur@, Seq::<P::Model>::empty()));
                    assert(taken + Seq::empty() =~= taken);
                    return cur;
                }
                let (rest, value) = item.into_parts();
                proof {
                    let m = P::model(value);
                    let tail = spec_greedy(parser, keep_by::<'input, P, F>(*f), rest@, (max - count - 1) as nat, progress);
                    assert(taken + (seq![m] + tail.1) =~= taken.push(m) + tail.1);
                    taken = taken.push(m);
                }
                output.push(value);
                proof {
                    assert(models::<'input, P>(output@) =~= models::<'input, P>(before).push(P::model(value)));
                    assert(start + taken =~= (start + taken.drop_last()).push(P::model(value)));
                }
                cur = rest;
                count = count + 1;
            },
            Err(_) => {
                assert(spec_greedy(parser, keep_by::<'input, P, F>(*f), cur@, (max - count) as nat, progress)
                    == (cur@, Seq::<P::Model>::empty()));
                assert(taken + Seq::empty() =~= taken);
                return cur;
            },
        }
    }
    assert(taken + Seq::empty() =~= taken);
    cur
}

/// Runs `parser` greedily, while the predicate `f` holds, as [`spec_greedy`]
/// says; returns what is left and
/// the number of runs taken.
pub fn greedy_while_skip<'input, P: Parser<'input>, F: Fn(&P::Output) -> bool>(
    parser: P,
    f: &F,
    input: &'input [u8],
    max: usize,
    progress: bool,
) -> (r: (&'input [u8], usize))
    requires
        parser.wf(),
        pred_total(*f),
        pred_respects_model::<'input, P, F>(*f),
    ensures
        r.0@ == spec_greedy(parser, keep_by::<'input, P, F>(*f), input@, max as nat, progress).0,
        r.1 == spec_greedy(parser, keep_by::<'input, P, F>(*f), input@, max as nat, progress).1.len(),
{
    let ghost mut taken: Seq<P::Model> = Seq::empty();
    let ghost whole = spec_greedy(parser, keep_by::<'input, P, F>(*f), input@, max as nat, progress);
    let mut cur = input;
    let mut count: usize = 0;
    while count < max
        invariant
            parser.wf(),
            pred_total(*f),
            pred_respects_model::<'input, P, F>(*f),
            count <= max,
            whole == spec_greedy(parser, keep_by::<'input, P, F>(*f), input@, max as nat, progress),
            taken.len() == count,
            whole == extend(taken, spec_greedy(parser, keep_by::<'input, P, F>(*f), cur@, (max - count) as nat, progress)),
        decreases max - count,
    {
        match parser.parse(cur) {
            Ok(item) => {
                if !call_predicate::<'input, '_, P, F>(f, &item.value) || (progress && item.input.len()
                    >= cur.len()) {
                    assert(spec_greedy(parser, keep_by::<'input, P, F>(*f), cur@, (max - count) as nat, progress)
                        == (cur@, Seq::<P::Model>::empty()));
                    assert(taken + Seq::empty() =~= taken);
                    return (cur, count);
                }
                proof {
                    let m = P::model(item.value);
                    let tail = spec_greedy(parser, keep_by::<'input, P, F>(*f), item.input@, (max - count - 1) as nat, progress);
                    assert(taken + (seq![m] + tail.1) =~= taken.push(m) + tail.1);
                    taken = taken.push(m);
                }
                cur = item.input;
                count = count + 1;
            },
            Err(_) => {
                assert(spec_greedy(parser, keep_by::<'input, P, F>(*f), cur@, (max - count) as nat, progress)
                    == (cur@, Seq::<P::Model>::empty()));
                assert(taken + Seq::empty() =~= taken);
                return (cur, count);
            },
        }
    }
    assert(taken + Seq::empty() =~= taken);
    (cur, count)
}

} // verus!
