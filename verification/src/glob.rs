use vstd::prelude::*;

verus! {

// ----------------------------------------------------------------------------
// Pattern semantics.
//
// A pattern is matched against a forward-slash-separated relative path:
//   - `*` matches zero or more characters within a single path segment,
//   - `**` as a whole segment matches zero or more whole segments,
//   - `?` matches exactly one character, never a separator,
//   - every other character matches itself, and
//   - matching is case-sensitive and anchored: the whole path must match the
//     whole pattern.
// Both the pattern and the path are first split into their `/`-separated
// segments, and matching proceeds segment by segment.
// ----------------------------------------------------------------------------

/// Splitting a character sequence at `/`, with `cur` the (possibly empty)
/// segment accumulated so far.  Splitting never yields an empty result: an
/// empty input contributes one empty segment.
pub open spec fn split_rec(s: Seq<char>, cur: Seq<char>) -> Seq<Seq<char>>
    decreases s.len(),
{
    if s.len() == 0 {
        seq![cur]
    } else if s[0] == '/' {
        seq![cur] + split_rec(s.skip(1), Seq::empty())
    } else {
        split_rec(s.skip(1), cur.push(s[0]))
    }
}

/// The `/`-separated segments of a character sequence.
pub open spec fn split_segments(s: Seq<char>) -> Seq<Seq<char>> {
    split_rec(s, Seq::empty())
}

/// Matching of one pattern segment against one path segment: `*` matches any
/// run of characters, `?` matches one character, anything else is literal.
pub open spec fn seg_match(p: Seq<char>, s: Seq<char>) -> bool
    decreases p.len() + s.len(),
{
    if p.len() == 0 {
        s.len() == 0
    } else if p[0] == '*' {
        seg_match(p.skip(1), s) || (s.len() > 0 && seg_match(p, s.skip(1)))
    } else if p[0] == '?' {
        s.len() > 0 && seg_match(p.skip(1), s.skip(1))
    } else {
        s.len() > 0 && s[0] == p[0] && seg_match(p.skip(1), s.skip(1))
    }
}

/// The segment `**`, which matches any run of whole segments.
pub open spec fn double_star() -> Seq<char> {
    seq!['*', '*']
}

/// Matching of a sequence of pattern segments against a sequence of path
/// segments.  A `**` segment absorbs zero or more whole path segments; any
/// other pattern segment must match exactly one path segment.
pub open spec fn segs_match(ps: Seq<Seq<char>>, ss: Seq<Seq<char>>) -> bool
    decreases ps.len() + ss.len(),
{
    if ps.len() == 0 {
        ss.len() == 0
    } else if ps[0] == double_star() {
        segs_match(ps.skip(1), ss) || (ss.len() > 0 && segs_match(ps, ss.skip(1)))
    } else {
        ss.len() > 0 && seg_match(ps[0], ss[0]) && segs_match(ps.skip(1), ss.skip(1))
    }
}

/// Whether `pattern` matches `path`, both given as character sequences.
pub open spec fn pattern_matches(pattern: Seq<char>, path: Seq<char>) -> bool {
    segs_match(split_segments(pattern), split_segments(path))
}

/// Whether at least one pattern of `patterns` matches `path`.  An empty
/// pattern sequence matches nothing.
pub open spec fn any_pattern_matches(path: Seq<char>, patterns: Seq<Seq<char>>) -> bool {
    exists|i: int| 0 <= i < patterns.len() && pattern_matches(patterns[i], path)
}

// ----------------------------------------------------------------------------
// Executable matcher.
// ----------------------------------------------------------------------------

/// The characters of `s`, as a vector.
fn str_chars(s: &str) -> (v: Vec<char>)
    ensures
        v@ == s@,
{
    let n = s.unicode_len();
    let mut v: Vec<char> = Vec::new();
    let mut i: usize = 0;
    while i < n
        invariant
            n == s@.len(),
            i <= n,
            v@ == s@.take(i as int),
        decreases n - i,
    {
        let c = s.get_char(i);
        v.push(c);
        assert(s@.take(i + 1 as int) =~= s@.take(i as int).push(s@[i as int]));
        i = i + 1;
    }
    assert(s@.take(n as int) =~= s@);
    v
}

/// Splits `s` into its `/`-separated segments.
fn split_chars(s: &Vec<char>) -> (segs: Vec<Vec<char>>)
    ensures
        segs.deep_view() == split_segments(s@),
{
    let mut segs: Vec<Vec<char>> = Vec::new();
    let mut cur: Vec<char> = Vec::new();
    let mut i: usize = 0;
    proof {
        assert(s@.skip(0) =~= s@);
        assert(cur@ =~= Seq::<char>::empty());
        assert(segs.deep_view() =~~= Seq::<Seq<char>>::empty());
        assert(Seq::<Seq<char>>::empty() + split_rec(s@, Seq::empty()) =~= split_rec(
            s@,
            Seq::empty(),
        ));
    }
    while i < s.len()
        invariant
            i <= s.len(),
            split_segments(s@) == segs.deep_view() + split_rec(s@.skip(i as int), cur@),
        decreases s.len() - i,
    {
        let ghost pre_segs = segs.deep_view();
        let ghost pre_cur = cur@;
        let c = s[i];
        assert(s@.skip(i as int)[0] == s@[i as int]);
        assert(s@.skip(i as int).skip(1) =~= s@.skip(i + 1 as int));
        if c == '/' {
            segs.push(cur);
            cur = Vec::new();
            assert(segs.deep_view() =~~= pre_segs.push(pre_cur));
            assert(split_rec(s@.skip(i as int), pre_cur) == seq![pre_cur] + split_rec(
                s@.skip(i + 1 as int),
                Seq::empty(),
            ));
            assert(pre_segs + (seq![pre_cur] + split_rec(s@.skip(i + 1 as int), Seq::empty()))
                =~= pre_segs.push(pre_cur) + split_rec(s@.skip(i + 1 as int), Seq::empty()));
        } else {
            cur.push(c);
        }
        i = i + 1;
    }
    proof {
        assert(s@.skip(s@.len() as int) =~= Seq::<char>::empty());
    }
    let ghost pre_segs = segs.deep_view();
    let ghost pre_cur = cur@;
    segs.push(cur);
    proof {
        assert(segs.deep_view() =~~= pre_segs.push(pre_cur));
        assert(pre_segs + seq![pre_cur] =~= pre_segs.push(pre_cur));
    }
    segs
}

/// Matches the pattern segment `p` (from position `i`) against the path
/// segment `s` (from position `j`).
fn seg_match_at(p: &Vec<char>, s: &Vec<char>, i: usize, j: usize) -> (r: bool)
    requires
        i <= p.len(),
        j <= s.len(),
    ensures
        r == seg_match(p@.skip(i as int), s@.skip(j as int)),
    decreases p.len() - i + s.len() - j,
{
    proof {
        if i < p.len() {
            assert(p@.skip(i as int)[0] == p@[i as int]);
            assert(p@.skip(i as int).skip(1) =~= p@.skip(i + 1 as int));
        }
        if j < s.len() {
            assert(s@.skip(j as int)[0] == s@[j as int]);
            assert(s@.skip(j as int).skip(1) =~= s@.skip(j + 1 as int));
        }
    }
    if i == p.len() {
        j == s.len()
    } else if p[i] == '*' {
        seg_match_at(p, s, i + 1, j) || (j < s.len() && seg_match_at(p, s, i, j + 1))
    } else if p[i] == '?' {
        j < s.len() && seg_match_at(p, s, i + 1, j + 1)
    } else {
        j < s.len() && s[j] == p[i] && seg_match_at(p, s, i + 1, j + 1)
    }
}

/// Whether the segment `p` is exactly `**`.
fn is_double_star(p: &Vec<char>) -> (r: bool)
    ensures
        r == (p@ == double_star()),
{
    let r = p.len() == 2 && p[0] == '*' && p[1] == '*';
    proof {
        if r {
            assert(p@ =~= double_star());
        }
        if p@ == double_star() {
            assert(p@.len() == 2 && p@[0] == '*' && p@[1] == '*');
        }
    }
    r
}

/// Matches the pattern segments `ps` (from position `i`) against the path
/// segments `ss` (from position `j`).
fn segs_match_at(ps: &Vec<Vec<char>>, ss: &Vec<Vec<char>>, i: usize, j: usize) -> (r: bool)
    requires
        i <= ps.len(),
        j <= ss.len(),
    ensures
        r == segs_match(ps.deep_view().skip(i as int), ss.deep_view().skip(j as int)),
    decreases ps.len() - i + ss.len() - j,
{
    proof {
        assert(ps.deep_view().len() == ps@.len());
        assert(ss.deep_view().len() == ss@.len());
        if i < ps.len() {
            assert(ps.deep_view().skip(i as int)[0] == ps@[i as int]@);
            assert(ps.deep_view().skip(i as int).skip(1) =~= ps.deep_view().skip(i + 1 as int));
        }
        if j < ss.len() {
            assert(ss.deep_view().skip(j as int)[0] == ss@[j as int]@);
            assert(ss.deep_view().skip(j as int).skip(1) =~= ss.deep_view().skip(j + 1 as int));
        }
        if i < ps.len() && j < ss.len() {
            assert(ps@[i as int]@.skip(0) =~= ps@[i as int]@);
            assert(ss@[j as int]@.skip(0) =~= ss@[j as int]@);
        }
    }
    if i == ps.len() {
        j == ss.len()
    } else if is_double_star(&ps[i]) {
        segs_match_at(ps, ss, i + 1, j) || (j < ss.len() && segs_match_at(ps, ss, i, j + 1))
    } else {
        j < ss.len() && seg_match_at(&ps[i], &ss[j], 0, 0) && segs_match_at(ps, ss, i + 1, j + 1)
    }
}

/// Whether the glob `pattern` matches `path`: case-sensitive, anchored, and
/// segment-aware (`*` and `?` never cross a `/`; `**` as a whole segment
/// spans any number of segments).
pub fn matches(pattern: &str, path: &str) -> (r: bool)
    ensures
        r == pattern_matches(pattern@, path@),
{
    let pv = str_chars(pattern);
    let sv = str_chars(path);
    let ps = split_chars(&pv);
    let ss = split_chars(&sv);
    proof {
        assert(ps.deep_view().skip(0) =~= ps.deep_view());
        assert(ss.deep_view().skip(0) =~= ss.deep_view());
    }
    segs_match_at(&ps, &ss, 0, 0)
}

/// Whether at least one pattern of `patterns` matches `file_path`.  An empty
/// pattern list matches nothing: absence of patterns means "nothing matches".
pub fn is_path_matching(file_path: &str, patterns: &[String]) -> (r: bool)
    ensures
        r == any_pattern_matches(file_path@, patterns.deep_view()),
        patterns@.len() == 0 ==> !r,
{
    let mut i: usize = 0;
    while i < patterns.len()
        invariant
            i <= patterns@.len(),
            forall|k: int| 0 <= k < i ==> !pattern_matches(patterns.deep_view()[k], file_path@),
        decreases patterns@.len() - i,
    {
        if matches(patterns[i].as_str(), file_path) {
            assert(pattern_matches(patterns.deep_view()[i as int], file_path@));
            return true;
        }
        i = i + 1;
    }
    false
}

// ----------------------------------------------------------------------------
// Laws of the pattern semantics.
// ----------------------------------------------------------------------------

/// Whether `suffix` is a suffix of `s`.
pub open spec fn seq_ends_with(s: Seq<char>, suffix: Seq<char>) -> bool {
    suffix.len() <= s.len() && s.skip(s.len() - suffix.len()) == suffix
}

/// The final `/`-separated segment of a path.
pub open spec fn last_segment(path: Seq<char>) -> Seq<char> {
    let segs = split_segments(path);
    segs[segs.len() - 1]
}

/// A character sequence free of separators and wildcards.
pub open spec fn is_literal_text(s: Seq<char>) -> bool {
    forall|i: int| 0 <= i < s.len() ==> s[i] != '/' && s[i] != '*' && s[i] != '?'
}

/// Splitting yields at least one segment.
proof fn lemma_split_rec_len(s: Seq<char>, cur: Seq<char>)
    ensures
        split_rec(s, cur).len() >= 1,
    decreases s.len(),
{
    if s.len() == 0 {
    } else if s[0] == '/' {
        lemma_split_rec_len(s.skip(1), Seq::empty());
    } else {
        lemma_split_rec_len(s.skip(1), cur.push(s[0]));
    }
}

/// A sequence without separators splits into the single segment it forms
/// together with what was already accumulated.
proof fn lemma_split_rec_no_sep(s: Seq<char>, cur: Seq<char>)
    requires
        forall|i: int| 0 <= i < s.len() ==> s[i] != '/',
    ensures
        split_rec(s, cur) == seq![cur + s],
    decreases s.len(),
{
    if s.len() == 0 {
        assert(cur + s =~= cur);
        assert(split_rec(s, cur) =~~= seq![cur + s]);
    } else {
        lemma_split_rec_no_sep(s.skip(1), cur.push(s[0]));
        assert(cur.push(s[0]) + s.skip(1) =~= cur + s);
    }
}

/// A wildcard-free pattern segment matches exactly itself.
proof fn lemma_seg_match_literal(p: Seq<char>, s: Seq<char>)
    requires
        is_literal_text(p),
    ensures
        seg_match(p, s) <==> p == s,
    decreases p.len() + s.len(),
{
    if p.len() == 0 {
        if s.len() == 0 {
            assert(p =~= s);
        }
    } else {
        if s.len() > 0 && s[0] == p[0] {
            assert(is_literal_text(p.skip(1)));
            lemma_seg_match_literal(p.skip(1), s.skip(1));
            if p.skip(1) == s.skip(1) {
                assert(p.len() == s.len());
                assert forall|i: int| 1 <= i < p.len() implies p[i] == s[i] by {
                    assert(p.skip(1)[i - 1] == s.skip(1)[i - 1]);
                }
                assert(p =~= s);
            }
            if p == s {
                assert(p.skip(1) =~= s.skip(1));
            }
        } else {
            assert(p != s);
        }
    }
}

/// `*` followed by wildcard-free text matches exactly the segments that end
/// with that text.
proof fn lemma_star_suffix_match(ext: Seq<char>, s: Seq<char>)
    requires
        is_literal_text(ext),
    ensures
        seg_match(seq!['*'] + ext, s) <==> seq_ends_with(s, ext),
    decreases s.len(),
{
    let q = seq!['*'] + ext;
    assert(q[0] == '*');
    assert(q.skip(1) =~= ext);
    lemma_seg_match_literal(ext, s);
    if s.len() == 0 {
        assert(seg_match(q, s) <==> seg_match(ext, s));
        if ext.len() == 0 {
            assert(s.skip(0) =~= s);
            assert(s =~= ext);
        }
    } else {
        lemma_star_suffix_match(ext, s.skip(1));
        // seg_match(q, s) <==> (ext == s) || seq_ends_with(s.skip(1), ext)
        if ext == s {
            assert(s.skip(s.len() - ext.len()) =~= s);
            assert(seq_ends_with(s, ext));
        }
        if seq_ends_with(s.skip(1), ext) {
            assert(s.skip(1).skip(s.len() - 1 - ext.len()) =~= s.skip(s.len() - ext.len()));
            assert(seq_ends_with(s, ext));
        }
        if seq_ends_with(s, ext) {
            if ext.len() == s.len() {
                assert(s.skip(0) =~= s);
                assert(ext == s);
            } else {
                assert(s.skip(1).skip(s.len() - 1 - ext.len()) =~= s.skip(s.len() - ext.len()));
                assert(seq_ends_with(s.skip(1), ext));
            }
        }
    }
}

/// A two-segment pattern `**` then `q` (with `q` itself not `**`) matches
/// exactly the segment sequences whose final segment matches `q`.
proof fn lemma_double_star_then_seg(q: Seq<char>, ss: Seq<Seq<char>>)
    requires
        q != double_star(),
    ensures
        segs_match(seq![double_star(), q], ss) <==> ss.len() >= 1 && seg_match(
            q,
            ss[ss.len() - 1],
        ),
    decreases ss.len(),
{
    let ps = seq![double_star(), q];
    assert(ps[0] == double_star());
    assert(ps.skip(1) =~= seq![q]);
    // segs_match(seq![q], ss) <==> ss.len() == 1 && seg_match(q, ss[0])
    assert(seq![q].skip(1) =~= Seq::<Seq<char>>::empty());
    if ss.len() == 0 {
        assert(!segs_match(seq![q], ss));
    } else {
        assert(segs_match(seq![q], ss) <==> ss.len() == 1 && seg_match(q, ss[0])) by {
            assert(seq![q][0] == q);
            if ss.len() > 0 {
                assert(segs_match(Seq::<Seq<char>>::empty(), ss.skip(1)) <==> ss.len() == 1);
            }
        }
        lemma_double_star_then_seg(q, ss.skip(1));
        if ss.len() == 1 {
            assert(ss.skip(1).len() == 0);
        } else {
            assert(ss.skip(1)[ss.len() - 2] == ss[ss.len() - 1]);
        }
    }
}

/// Without a `**` segment, a pattern is confined to paths with the same
/// number of segments: a bare `*` never crosses a separator.
proof fn lemma_segs_match_same_length(ps: Seq<Seq<char>>, ss: Seq<Seq<char>>)
    requires
        forall|i: int| 0 <= i < ps.len() ==> ps[i] != double_star(),
        segs_match(ps, ss),
    ensures
        ps.len() == ss.len(),
    decreases ps.len(),
{
    if ps.len() == 0 {
    } else {
        assert(forall|i: int|
            0 <= i < ps.skip(1).len() ==> ps.skip(1)[i] == ps[i + 1]);
        lemma_segs_match_same_length(ps.skip(1), ss.skip(1));
    }
}

/// A pattern with no `**` segment matches only paths with exactly as many
/// `/`-separated segments as the pattern itself: literal separators are
/// never crossed by a bare `*` or `?`.
pub proof fn lemma_no_double_star_same_segment_count(pattern: Seq<char>, path: Seq<char>)
    requires
        forall|i: int|
            0 <= i < split_segments(pattern).len() ==> split_segments(pattern)[i]
                != double_star(),
        pattern_matches(pattern, path),
    ensures
        split_segments(pattern).len() == split_segments(path).len(),
{
    lemma_segs_match_same_length(split_segments(pattern), split_segments(path));
}

/// For every extension `ext` free of separators and wildcards, the pattern
/// `"**/*"` followed by `ext` matches a path exactly when the path's final
/// segment ends with `ext`, at any directory depth including zero.
pub proof fn lemma_double_star_extension(ext: Seq<char>, path: Seq<char>)
    requires
        is_literal_text(ext),
    ensures
        pattern_matches("**/*"@ + ext, path) <==> seq_ends_with(last_segment(path), ext),
{
    reveal_strlit("**/*");
    let pat = "**/*"@ + ext;
    assert("**/*"@ =~= seq!['*', '*', '/', '*']);
    // Unfold the splitting of the pattern, one character at a time.
    assert(pat[0] == '*' && pat[1] == '*' && pat[2] == '/' && pat[3] == '*');
    let e0 = Seq::<char>::empty();
    assert(split_segments(pat) == split_rec(pat.skip(1), e0.push('*')));
    assert(pat.skip(1)[0] == '*');
    assert(pat.skip(1).skip(1) =~= pat.skip(2));
    assert(split_rec(pat.skip(1), e0.push('*')) == split_rec(pat.skip(2), e0.push('*').push('*')));
    assert(pat.skip(2)[0] == '/');
    assert(pat.skip(2).skip(1) =~= pat.skip(3));
    assert(e0.push('*').push('*') =~= double_star());
    assert(split_rec(pat.skip(2), double_star()) == seq![double_star()] + split_rec(
        pat.skip(3),
        e0,
    ));
    assert(pat.skip(3)[0] == '*');
    assert(pat.skip(3).skip(1) =~= pat.skip(4));
    assert(split_rec(pat.skip(3), e0) == split_rec(pat.skip(4), e0.push('*')));
    assert(pat.skip(4) =~= ext);
    lemma_split_rec_no_sep(ext, e0.push('*'));
    let q = seq!['*'] + ext;
    assert(e0.push('*') + ext =~= q);
    assert(split_segments(pat) =~= seq![double_star(), q]) by {
        assert(split_rec(ext, e0.push('*')) == seq![q]);
        assert(seq![double_star()] + seq![q] =~= seq![double_star(), q]);
    }
    assert(q != double_star()) by {
        if ext.len() == 0 {
            assert(q.len() == 1);
        } else {
            assert(q[1] == ext[0]);
            assert(double_star()[1] == '*');
            assert(ext[0] != '*');
        }
    }
    lemma_double_star_then_seg(q, split_segments(path));
    lemma_split_rec_len(path, Seq::empty());
    lemma_star_suffix_match(ext, last_segment(path));
}

} // verus!
