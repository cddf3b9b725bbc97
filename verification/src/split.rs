//! Finding a pattern in text and splitting text at a separator, the way `str::find` and
//! `str::split` do.
use vstd::prelude::*;

verus! {

/// Whether `p` occurs in `s` at `i`.
pub open spec fn matches_at(s: Seq<char>, p: Seq<char>, i: int) -> bool {
    0 <= i && i + p.len() <= s.len() && s.subrange(i, i + p.len()) == p
}

/// The first index at or after `i` where `p` occurs in `s`.
pub open spec fn find_from(s: Seq<char>, p: Seq<char>, i: int) -> Option<int>
    decreases s.len() + 1 - i,
{
    if i < 0 || i + p.len() > s.len() {
        None
    } else if matches_at(s, p, i) {
        Some(i)
    } else {
        find_from(s, p, i + 1)
    }
}

/// The first index where `p` occurs in `s`.
pub open spec fn find(s: Seq<char>, p: Seq<char>) -> Option<int> {
    find_from(s, p, 0)
}

/// What `find_from` gives is an occurrence at or after `i`, and the first one.
pub proof fn lemma_find_from(s: Seq<char>, p: Seq<char>, i: int)
    requires
        i >= 0,
    ensures
        find_from(s, p, i) matches Some(j) ==> i <= j && j + p.len() <= s.len() && matches_at(
            s,
            p,
            j,
        ) && forall|k: int| i <= k < j ==> !matches_at(s, p, k),
        find_from(s, p, i) is None ==> forall|k: int| i <= k ==> !#[trigger] matches_at(s, p, k),
    decreases s.len() + 1 - i,
{
    if i + p.len() > s.len() {
    } else if !matches_at(s, p, i) {
        lemma_find_from(s, p, i + 1);
    }
}

/// The pieces of `s[start..]` between occurrences of the non-empty `p`.
pub open spec fn split_from(s: Seq<char>, p: Seq<char>, start: int) -> Seq<Seq<char>>
    decreases s.len() - start,
{
    if p.len() == 0 || start < 0 || start > s.len() {
        seq![s.subrange(start, s.len() as int)]
    } else {
        match find_from(s, p, start) {
            None => seq![s.subrange(start, s.len() as int)],
            Some(i) => {
                proof {
                    lemma_find_from(s, p, start);
                }
                seq![s.subrange(start, i)] + split_from(s, p, i + p.len())
            },
        }
    }
}

/// The pieces of `s` between occurrences of the non-empty `p`, in order.
pub open spec fn split(s: Seq<char>, p: Seq<char>) -> Seq<Seq<char>> {
    split_from(s, p, 0)
}

/// The contents of a vector of character vectors.
pub open spec fn pieces_view(v: Seq<Vec<char>>) -> Seq<Seq<char>> {
    Seq::new(v.len(), |i: int| v[i]@)
}

/// The characters `s[a..b]`.
pub fn sub_chars(s: &Vec<char>, a: usize, b: usize) -> (r: Vec<char>)
    requires
        a <= b <= s@.len(),
    ensures
        r@ == s@.subrange(a as int, b as int),
{
    let mut r: Vec<char> = Vec::new();
    let mut i = a;
    while i < b
        invariant
            a <= i <= b,
            b <= s@.len(),
            r@ == s@.subrange(a as int, i as int),
        decreases b - i,
    {
        r.push(s[i]);
        i = i + 1;
        assert(r@ =~= s@.subrange(a as int, i as int));
    }
    r
}

/// Whether `p` occurs in `s` at `i`.
fn matches_at_exec(s: &Vec<char>, p: &Vec<char>, i: usize) -> (r: bool)
    requires
        i + p@.len() <= s@.len(),
    ensures
        r == matches_at(s@, p@, i as int),
{
    let slen = s.len();
    let mut k: usize = 0;
    while k < p.len()
        invariant
            k <= p@.len(),
            i + p@.len() <= s@.len(),
            slen == s@.len(),
            forall|j: int| 0 <= j < k ==> s@[i + j] == p@[j],
        decreases p@.len() - k,
    {
        if s[i + k] != p[k] {
            assert(s@.subrange(i as int, i + p@.len())[k as int] != p@[k as int]);
            return false;
        }
        k = k + 1;
    }
    assert(s@.subrange(i as int, i + p@.len()) =~= p@);
    true
}

/// The first index at or after `from` where `p` occurs in `s`.
pub fn find_in(s: &Vec<char>, p: &Vec<char>, from: usize) -> (r: Option<usize>)
    ensures
        r matches Some(i) ==> find_from(s@, p@, from as int) == Some(i as int),
        r is None ==> find_from(s@, p@, from as int) is None,
{
    let mut i = from;
    if p.len() > s.len() {
        return None;
    }
    let last = s.len() - p.len();
    if i > last {
        return None;
    }
    loop
        invariant
            from <= i <= last,
            last + p@.len() == s@.len(),
            find_from(s@, p@, from as int) == find_from(s@, p@, i as int),
        decreases last - i,
    {
        if matches_at_exec(s, p, i) {
            return Some(i);
        }
        if i == last {
            return None;
        }
        i = i + 1;
    }
}

/// The pieces of `s` between occurrences of the non-empty `p`, in order.
pub fn split_chars(s: &Vec<char>, p: &Vec<char>) -> (r: Vec<Vec<char>>)
    requires
        p@.len() > 0,
    ensures
        pieces_view(r@) == split(s@, p@),
{
    let mut r: Vec<Vec<char>> = Vec::new();
    let mut start: usize = 0;
    let slen = s.len();
    loop
        invariant
            start <= s@.len(),
            slen == s@.len(),
            p@.len() > 0,
            pieces_view(r@) + split_from(s@, p@, start as int) == split(s@, p@),
        decreases s@.len() - start,
    {
        match find_in(s, p, start) {
            None => {
                let piece = sub_chars(s, start, s.len());
                let ghost before = pieces_view(r@);
                r.push(piece);
                assert(pieces_view(r@) =~= before + split_from(s@, p@, start as int));
                return r;
            },
            Some(i) => {
                proof {
                    lemma_find_from(s@, p@, start as int);
                }
                let piece = sub_chars(s, start, i);
                let ghost before = pieces_view(r@);
                r.push(piece);
                let ghost rest = split_from(s@, p@, i + p@.len());
                assert(split_from(s@, p@, start as int) == seq![s@.subrange(start as int, i as int)]
                    + rest);
                assert(pieces_view(r@) =~= before + seq![s@.subrange(start as int, i as int)]);
                assert(pieces_view(r@) + rest =~= before + split_from(s@, p@, start as int));
                start = i + p.len();
            },
        }
    }
}


/// The pieces with `sep` between each two.
pub open spec fn join_with(ps: Seq<Seq<char>>, sep: Seq<char>) -> Seq<char>
    decreases ps.len(),
{
    if ps.len() == 0 {
        Seq::empty()
    } else if ps.len() == 1 {
        ps[0]
    } else {
        join_with(ps.drop_last(), sep) + sep + ps.last()
    }
}

/// Where piece `k` starts in the pieces joined with `sep`.
pub open spec fn piece_start(ps: Seq<Seq<char>>, sep: Seq<char>, k: int) -> int
    decreases k,
{
    if k <= 0 {
        0
    } else {
        piece_start(ps, sep, k - 1) + ps[k - 1].len() + sep.len()
    }
}

/// Whether `p` occurs in `s` at no index from `a` up to, not including, `b`.
pub open spec fn no_match_in(s: Seq<char>, p: Seq<char>, a: int, b: int) -> bool {
    forall|k: int| a <= k < b ==> !#[trigger] matches_at(s, p, k)
}

/// Where pieces of a prefix start is where they start in the whole.
proof fn lemma_piece_start_prefix(ps: Seq<Seq<char>>, qs: Seq<Seq<char>>, sep: Seq<char>, k: int)
    requires
        0 <= k <= ps.len(),
        k <= qs.len(),
        forall|j: int| 0 <= j < k ==> ps[j] == qs[j],
    ensures
        piece_start(ps, sep, k) == piece_start(qs, sep, k),
    decreases k,
{
    if k > 0 {
        lemma_piece_start_prefix(ps, qs, sep, k - 1);
    }
}

/// How pieces joined with `sep` lie: piece `k` at `piece_start(k)`, followed by `sep` but
/// for the last one, which ends the text.
pub proof fn lemma_join_layout(ps: Seq<Seq<char>>, sep: Seq<char>, k: int)
    requires
        0 <= k < ps.len(),
    ensures
        join_with(ps, sep).len() == piece_start(ps, sep, ps.len() - 1) + ps.last().len(),
        0 <= piece_start(ps, sep, k),
        piece_start(ps, sep, k) + ps[k].len() <= join_with(ps, sep).len(),
        k < ps.len() - 1 ==> piece_start(ps, sep, k) + ps[k].len() + sep.len() <= join_with(
            ps,
            sep,
        ).len(),
        join_with(ps, sep).subrange(piece_start(ps, sep, k), piece_start(ps, sep, k) + ps[k].len())
            == ps[k],
        k < ps.len() - 1 ==> matches_at(
            join_with(ps, sep),
            sep,
            piece_start(ps, sep, k) + ps[k].len(),
        ),
    decreases ps.len(),
{
    let j = join_with(ps, sep);
    let n = ps.len() as int;
    lemma_piece_start_nonneg(ps, sep, k);
    if k < n - 1 {
        lemma_piece_start_mono(ps, sep, k, n - 1);
    }
    if n == 1 {
        assert(j.subrange(0, ps[0].len() as int) =~= ps[0]);
    } else {
        let front = ps.drop_last();
        let jf = join_with(front, sep);
        lemma_join_layout(front, sep, n - 2);
        lemma_piece_start_prefix(ps, front, sep, n - 1);
        lemma_piece_start_prefix(ps, front, sep, n - 2);
        if k < n - 1 {
            lemma_join_layout(front, sep, k);
            lemma_piece_start_prefix(ps, front, sep, k);
            let a = piece_start(ps, sep, k);
            assert(j.subrange(a, a + ps[k].len()) =~= jf.subrange(a, a + ps[k].len()));
            let e = a + ps[k].len();
            if k < n - 2 {
                assert(j.subrange(e, e + sep.len()) =~= jf.subrange(e, e + sep.len()));
            } else {
                assert(j.subrange(e, e + sep.len()) =~= sep);
            }
        } else {
            let a = piece_start(ps, sep, k);
            assert(j.subrange(a, a + ps[k].len()) =~= ps[k]);
        }
    }
}

/// `find_from` gives the first occurrence at or after `a`.
pub proof fn lemma_find_first(s: Seq<char>, p: Seq<char>, a: int, e: int)
    requires
        0 <= a <= e,
        matches_at(s, p, e),
        no_match_in(s, p, a, e),
    ensures
        find_from(s, p, a) == Some(e),
    decreases e - a,
{
    if a < e {
        assert(!matches_at(s, p, a));
        lemma_find_first(s, p, a + 1, e);
    }
}

/// `find_from` finds nothing where nothing occurs at or after `a`.
pub proof fn lemma_find_none(s: Seq<char>, p: Seq<char>, a: int)
    requires
        0 <= a,
        no_match_in(s, p, a, s.len() as int + 1),
    ensures
        find_from(s, p, a) is None,
    decreases s.len() + 1 - a,
{
    if a + p.len() <= s.len() {
        assert(!matches_at(s, p, a));
        lemma_find_none(s, p, a + 1);
    }
}

/// Splitting pieces joined with a non-empty `sep` gives them back, from piece `k` on, where
/// `sep` occurs within no piece (nor starts within one and reaches past it).
proof fn lemma_split_join_from(ps: Seq<Seq<char>>, sep: Seq<char>, k: int)
    requires
        sep.len() > 0,
        0 <= k < ps.len(),
        forall|j: int|
            0 <= j < ps.len() - 1 ==> no_match_in(
                join_with(ps, sep),
                sep,
                #[trigger] piece_start(ps, sep, j),
                piece_start(ps, sep, j) + ps[j].len(),
            ),
        no_match_in(
            join_with(ps, sep),
            sep,
            piece_start(ps, sep, ps.len() - 1),
            join_with(ps, sep).len() as int + 1,
        ),
    ensures
        split_from(join_with(ps, sep), sep, piece_start(ps, sep, k)) == ps.subrange(
            k,
            ps.len() as int,
        ),
    decreases ps.len() - k,
{
    let s = join_with(ps, sep);
    let a = piece_start(ps, sep, k);
    lemma_join_layout(ps, sep, k);
    lemma_piece_start_nonneg(ps, sep, k);
    if k == ps.len() - 1 {
        lemma_find_none(s, sep, a);
        assert(ps.subrange(k, ps.len() as int) =~= seq![ps[k]]);
    } else {
        let e = a + ps[k].len();
        lemma_find_first(s, sep, a, e);
        lemma_split_join_from(ps, sep, k + 1);
        assert(ps.subrange(k, ps.len() as int) =~= seq![ps[k]] + ps.subrange(
            k + 1,
            ps.len() as int,
        ));
    }
}

/// A piece, and `sep` after it, end where a later piece starts or before.
proof fn lemma_piece_start_mono(ps: Seq<Seq<char>>, sep: Seq<char>, k: int, m: int)
    requires
        0 <= k < m,
    ensures
        piece_start(ps, sep, k) + ps[k].len() + sep.len() <= piece_start(ps, sep, m),
    decreases m,
{
    if k < m - 1 {
        lemma_piece_start_mono(ps, sep, k, m - 1);
    }
}

/// Where the pieces start is never negative.
proof fn lemma_piece_start_nonneg(ps: Seq<Seq<char>>, sep: Seq<char>, k: int)
    ensures
        piece_start(ps, sep, k) >= 0,
    decreases k,
{
    if k > 0 {
        lemma_piece_start_nonneg(ps, sep, k - 1);
    }
}

/// Splitting pieces joined with a non-empty `sep` gives them back, where `sep` occurs within
/// no piece (nor starts within one and reaches past it).
pub proof fn lemma_split_join(ps: Seq<Seq<char>>, sep: Seq<char>)
    requires
        sep.len() > 0,
        ps.len() > 0,
        forall|j: int|
            0 <= j < ps.len() - 1 ==> no_match_in(
                join_with(ps, sep),
                sep,
                #[trigger] piece_start(ps, sep, j),
                piece_start(ps, sep, j) + ps[j].len(),
            ),
        no_match_in(
            join_with(ps, sep),
            sep,
            piece_start(ps, sep, ps.len() - 1),
            join_with(ps, sep).len() as int + 1,
        ),
    ensures
        split(join_with(ps, sep), sep) == ps,
{
    lemma_split_join_from(ps, sep, 0);
    assert(ps.subrange(0, ps.len() as int) =~= ps);
}

/// Joining two non-empty runs of pieces is joining each, with `sep` between.
pub proof fn lemma_join_append(a: Seq<Seq<char>>, b: Seq<Seq<char>>, sep: Seq<char>)
    requires
        a.len() > 0,
        b.len() > 0,
    ensures
        join_with(a + b, sep) == join_with(a, sep) + sep + join_with(b, sep),
    decreases b.len(),
{
    if b.len() == 1 {
        assert((a + b).drop_last() =~= a);
    } else {
        lemma_join_append(a, b.drop_last(), sep);
        assert((a + b).drop_last() =~= a + b.drop_last());
    }
}

/// Whether `s` holds no character `c`.
pub open spec fn lacks(s: Seq<char>, c: char) -> bool {
    forall|j: int| 0 <= j < s.len() ==> s[j] != c
}

/// Splitting pieces joined with a single character gives them back where no piece holds it.
pub proof fn lemma_split_join_char(ps: Seq<Seq<char>>, c: char)
    requires
        ps.len() > 0,
        forall|j: int| 0 <= j < ps.len() ==> lacks(#[trigger] ps[j], c),
    ensures
        split(join_with(ps, seq![c]), seq![c]) == ps,
{
    let sep = seq![c];
    let s = join_with(ps, sep);
    let n = ps.len() as int;
    assert forall|j: int| 0 <= j < n - 1 implies no_match_in(
        s,
        sep,
        #[trigger] piece_start(ps, sep, j),
        piece_start(ps, sep, j) + ps[j].len(),
    ) by {
        lemma_join_layout(ps, sep, j);
        let a = piece_start(ps, sep, j);
        assert forall|k: int| a <= k < a + ps[j].len() implies !#[trigger] matches_at(s, sep, k) by {
            assert(s.subrange(a, a + ps[j].len())[k - a] == s[k]);
            if matches_at(s, sep, k) {
                assert(s.subrange(k, k + 1)[0] == s[k]);
            }
        }
    }
    let a = piece_start(ps, sep, n - 1);
    lemma_join_layout(ps, sep, n - 1);
    assert forall|k: int| a <= k < s.len() + 1 implies !#[trigger] matches_at(s, sep, k) by {
        if matches_at(s, sep, k) {
            assert(s.subrange(k, k + 1)[0] == s[k]);
            assert(s.subrange(a, a + ps[n - 1].len())[k - a] == s[k]);
        }
    }
    lemma_split_join(ps, sep);
}

} // verus!
