use vstd::prelude::*;

verus! {

// ----------------------------------------------------------------------------
// Pattern lists: ordered sequences of pattern strings, composed by
// concatenation with duplicates removed, preserving first-seen order.
// ----------------------------------------------------------------------------

/// Appends `p` to `acc` unless an equal pattern already stands in `acc`.
pub open spec fn push_unique(acc: Seq<Seq<char>>, p: Seq<char>) -> Seq<Seq<char>> {
    if acc.contains(p) {
        acc
    } else {
        acc.push(p)
    }
}

/// Appends every pattern of `more` to `acc` in order, skipping the ones
/// already present: first-seen order is preserved and duplicates contribute
/// no new entry.
pub open spec fn compose_patterns(acc: Seq<Seq<char>>, more: Seq<Seq<char>>) -> Seq<Seq<char>>
    decreases more.len(),
{
    if more.len() == 0 {
        acc
    } else {
        compose_patterns(push_unique(acc, more[0]), more.skip(1))
    }
}

/// Composing one more pattern at the end composes the rest first.
pub proof fn lemma_compose_patterns_push(acc: Seq<Seq<char>>, more: Seq<Seq<char>>, p: Seq<char>)
    ensures
        compose_patterns(acc, more.push(p)) == push_unique(compose_patterns(acc, more), p),
    decreases more.len(),
{
    if more.len() == 0 {
        assert(more.push(p)[0] == p);
        assert(more.push(p).skip(1) =~= Seq::<Seq<char>>::empty());
        assert(compose_patterns(acc, more.push(p)) == compose_patterns(
            push_unique(acc, p),
            Seq::<Seq<char>>::empty(),
        ));
        assert(compose_patterns(push_unique(acc, p), Seq::<Seq<char>>::empty()) == push_unique(
            acc,
            p,
        ));
        assert(compose_patterns(acc, more) == acc);
    } else {
        assert(more.push(p)[0] == more[0]);
        assert(more.push(p).skip(1) =~= more.skip(1).push(p));
        assert(compose_patterns(acc, more.push(p)) == compose_patterns(
            push_unique(acc, more[0]),
            more.skip(1).push(p),
        ));
        lemma_compose_patterns_push(push_unique(acc, more[0]), more.skip(1), p);
        assert(compose_patterns(acc, more) == compose_patterns(
            push_unique(acc, more[0]),
            more.skip(1),
        ));
    }
}

/// Membership survives `push_unique` and is created by it.
proof fn lemma_push_unique_membership(acc: Seq<Seq<char>>, x: Seq<char>, p: Seq<char>)
    ensures
        push_unique(acc, x).contains(p) <==> acc.contains(p) || p == x,
{
    if acc.contains(x) {
        if p == x {
            assert(push_unique(acc, x).contains(p));
        }
    } else {
        if acc.contains(p) {
            let i = choose|i: int| 0 <= i < acc.len() && acc[i] == p;
            assert(acc.push(x)[i] == p);
        }
        if p == x {
            assert(acc.push(x)[acc.len() as int] == p);
        }
        if acc.push(x).contains(p) {
            let i = choose|i: int| 0 <= i < acc.push(x).len() && acc.push(x)[i] == p;
            if i < acc.len() {
                assert(acc[i] == p);
            } else {
                assert(p == x);
            }
        }
    }
}

/// A composed list holds exactly the patterns of its two inputs.
pub proof fn lemma_compose_patterns_membership(
    acc: Seq<Seq<char>>,
    more: Seq<Seq<char>>,
    p: Seq<char>,
)
    ensures
        compose_patterns(acc, more).contains(p) <==> acc.contains(p) || more.contains(p),
    decreases more.len(),
{
    if more.len() == 0 {
    } else {
        lemma_compose_patterns_membership(push_unique(acc, more[0]), more.skip(1), p);
        lemma_push_unique_membership(acc, more[0], p);
        // more.contains(p) <==> p == more[0] || more.skip(1).contains(p)
        assert(more.contains(p) <==> p == more[0] || more.skip(1).contains(p)) by {
            if more.contains(p) && p != more[0] {
                let i = choose|i: int| 0 <= i < more.len() && more[i] == p;
                assert(more.skip(1)[i - 1] == p);
            }
            if more.skip(1).contains(p) {
                let i = choose|i: int|
                    0 <= i < more.skip(1).len() && more.skip(1)[i] == p;
                assert(more[i + 1] == p);
            }
            if p == more[0] {
                assert(more[0] == p);
            }
        }
    }
}

/// A sequence without two equal entries.
pub open spec fn has_unique_patterns(s: Seq<Seq<char>>) -> bool {
    forall|i: int, j: int| 0 <= i < j < s.len() ==> s[i] != s[j]
}

/// Composition preserves uniqueness: starting from a duplicate-free list, the
/// composed list is duplicate-free, however often a pattern occurs in the
/// appended input.
pub proof fn lemma_compose_patterns_unique(acc: Seq<Seq<char>>, more: Seq<Seq<char>>)
    requires
        has_unique_patterns(acc),
    ensures
        has_unique_patterns(compose_patterns(acc, more)),
    decreases more.len(),
{
    if more.len() == 0 {
    } else {
        let acc2 = push_unique(acc, more[0]);
        assert(has_unique_patterns(acc2)) by {
            if !acc.contains(more[0]) {
                assert forall|i: int, j: int| 0 <= i < j < acc2.len() implies acc2[i] != acc2[j] by {
                    if j == acc.len() {
                        assert(acc2[j] == more[0]);
                        assert(acc.contains(acc[i]));
                    }
                }
            }
        }
        lemma_compose_patterns_unique(acc2, more.skip(1));
    }
}

// ----------------------------------------------------------------------------
// Executable helpers.
// ----------------------------------------------------------------------------

/// Whether a pattern equal to `p` stands in `patterns`.
pub fn contains_pattern(patterns: &Vec<String>, p: &String) -> (r: bool)
    ensures
        r == patterns.deep_view().contains(p@),
{
    let mut i: usize = 0;
    while i < patterns.len()
        invariant
            i <= patterns@.len(),
            forall|k: int| 0 <= k < i ==> patterns.deep_view()[k] != p@,
        decreases patterns@.len() - i,
    {
        if patterns[i] == *p {
            assert(patterns.deep_view()[i as int] == p@);
            return true;
        }
        i = i + 1;
    }
    false
}

/// Appends every pattern of `src` not already present in `dst`, in order.
pub fn append_unique(dst: &mut Vec<String>, src: &Vec<String>)
    ensures
        final(dst).deep_view() == compose_patterns(old(dst).deep_view(), src.deep_view()),
{
    let ghost base = old(dst).deep_view();
    let ghost src_view = src.deep_view();
    let mut j: usize = 0;
    proof {
        assert(src_view.take(0) =~= Seq::<Seq<char>>::empty());
    }
    while j < src.len()
        invariant
            j <= src@.len(),
            src_view == src.deep_view(),
            dst.deep_view() == compose_patterns(base, src_view.take(j as int)),
        decreases src@.len() - j,
    {
        let ghost pre = dst.deep_view();
        if !contains_pattern(dst, &src[j]) {
            let p = src[j].clone();
            dst.push(p);
            proof {
                assert(dst.deep_view() =~~= pre.push(src_view[j as int]));
            }
        }
        proof {
            assert(dst.deep_view() == push_unique(pre, src_view[j as int]));
            lemma_compose_patterns_push(base, src_view.take(j as int), src_view[j as int]);
            assert(src_view.take(j + 1 as int) =~= src_view.take(j as int).push(
                src_view[j as int],
            ));
        }
        j = j + 1;
    }
    proof {
        assert(src_view.take(src_view.len() as int) =~= src_view);
    }
}

/// A copy of a pattern list, pattern for pattern.
pub fn clone_patterns(patterns: &Vec<String>) -> (r: Vec<String>)
    ensures
        r@ == patterns@,
{
    let r = patterns.clone();
    proof {
        assert forall|i: int| 0 <= i < patterns@.len() implies r@[i] == patterns@[i] by {
            assert(cloned::<String>(patterns[i], r[i]));
        }
        assert(r@ =~= patterns@);
    }
    r
}

/// The pattern list `v`, or an empty list where `v` is absent.
pub fn patterns_or_empty(v: Option<Vec<String>>) -> (r: Vec<String>)
    ensures
        r.deep_view() == match v {
            Some(x) => x.deep_view(),
            None => Seq::<Seq<char>>::empty(),
        },
{
    match v {
        Some(x) => x,
        None => {
            let e: Vec<String> = Vec::new();
            proof {
                assert(e.deep_view() =~= Seq::<Seq<char>>::empty());
            }
            e
        },
    }
}

} // verus!
