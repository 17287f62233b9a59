//! Comparing two texts line by line: which lines of the one match which
//! lines of the other, and the list of lines, side by side, that the
//! comparison is shown as.

use vstd::prelude::*;
use crate::format::{char_width, columns, spaces};
use crate::text::{chars_of, rows, split_lines, string_of, texts};

verus! {

/// How a line of the comparison relates the two sides.
#[derive(Debug, Clone, Copy, PartialEq, Eq, Structural)]
pub enum DiffLineStatus {
    /// The same line on both sides.
    Same,
    /// A line on the left and another on the right, in the same place.
    Modified,
    /// A line that only the left side has.
    LeftOnly,
    /// A line that only the right side has.
    RightOnly,
}

/// One line of the comparison. Line numbers count from 1.
#[derive(Debug, Clone, PartialEq, Eq)]
pub struct DiffLine {
    pub left_line_no: Option<usize>,
    pub left_content: Option<String>,
    pub right_line_no: Option<usize>,
    pub right_content: Option<String>,
    pub line_status: DiffLineStatus,
}

/// A `DiffLine` with its texts as character sequences.
pub struct DiffLineView {
    pub left_line_no: Option<usize>,
    pub left_content: Option<Seq<char>>,
    pub right_line_no: Option<usize>,
    pub right_content: Option<Seq<char>>,
    pub line_status: DiffLineStatus,
}

impl View for DiffLine {
    type V = DiffLineView;

    open spec fn view(&self) -> DiffLineView {
        DiffLineView {
            left_line_no: self.left_line_no,
            left_content: crate::archive_job::opt_text(self.left_content),
            right_line_no: self.right_line_no,
            right_content: crate::archive_job::opt_text(self.right_content),
            line_status: self.line_status,
        }
    }
}

/// The views of a list of lines of a comparison.
pub open spec fn line_views(v: Seq<DiffLine>) -> Seq<DiffLineView> {
    v.map_values(|l: DiffLine| l@)
}

/// How many bytes at the start of a file are looked at to tell whether it
/// is text.
pub const BINARY_CHECK_LEN: usize = 8192;

/// Whether `data` looks like something other than text: one of its first
/// 8192 bytes is zero.
pub fn is_binary(data: &[u8]) -> (r: bool)
    ensures
        r == exists|i: int| 0 <= i < data@.len() && i < BINARY_CHECK_LEN && data@[i] == 0,
{
    let check_len = if data.len() < BINARY_CHECK_LEN {
        data.len()
    } else {
        BINARY_CHECK_LEN
    };
    let mut i: usize = 0;
    while i < check_len
        invariant
            i <= check_len <= data@.len(),
            check_len <= BINARY_CHECK_LEN,
            check_len == data@.len() || check_len == BINARY_CHECK_LEN,
            forall|j: int| 0 <= j < i ==> data@[j] != 0,
        decreases check_len - i,
    {
        if data[i] == 0 {
            return true;
        }
        i += 1;
    }
    false
}

/// A pairing of lines: each pair holds the index of a line on the left and
/// the index of a line on the right.
pub type Pairs = Seq<(usize, usize)>;

/// `pairs` pairs equal lines of `l` and `r`, going down both sides: each
/// pair lies below the one before it, on the left and on the right.
pub open spec fn is_matching(pairs: Pairs, l: Seq<Seq<char>>, r: Seq<Seq<char>>) -> bool {
    &&& forall|k: int|
        0 <= k < pairs.len() ==> (#[trigger] pairs[k]).0 < l.len() && pairs[k].1 < r.len()
            && l[pairs[k].0 as int] == r[pairs[k].1 as int]
    &&& forall|a: int, b: int|
        0 <= a < b < pairs.len() ==> (#[trigger] pairs[a]).0 < (#[trigger] pairs[b]).0
            && pairs[a].1 < pairs[b].1
}

/// The length of the longest pairing of the first `i` lines of `l` with the
/// first `j` lines of `r`.
pub open spec fn lcs_len(l: Seq<Seq<char>>, r: Seq<Seq<char>>, i: nat, j: nat) -> nat
    decreases i + j,
{
    if i == 0 || j == 0 {
        0
    } else if l[i - 1] == r[j - 1] {
        lcs_len(l, r, (i - 1) as nat, (j - 1) as nat) + 1
    } else {
        let up = lcs_len(l, r, (i - 1) as nat, j);
        let left = lcs_len(l, r, i, (j - 1) as nat);
        if up >= left {
            up
        } else {
            left
        }
    }
}

/// A longest pairing of the first `i` lines of `l` with the first `j` lines
/// of `r`: the one found by going back from the ends and, where the lines at
/// hand differ, giving up the left line unless more pairs are to be had by
/// giving up the right one.
pub open spec fn lcs_pairs(l: Seq<Seq<char>>, r: Seq<Seq<char>>, i: nat, j: nat) -> Pairs
    decreases i + j,
{
    if i == 0 || j == 0 {
        Seq::empty()
    } else if l[i - 1] == r[j - 1] {
        lcs_pairs(l, r, (i - 1) as nat, (j - 1) as nat).push(((i - 1) as usize, (j - 1) as usize))
    } else if lcs_len(l, r, (i - 1) as nat, j) >= lcs_len(l, r, i, (j - 1) as nat) {
        lcs_pairs(l, r, (i - 1) as nat, j)
    } else {
        lcs_pairs(l, r, i, (j - 1) as nat)
    }
}

/// The index of the first line of `r`, from `from` on, that equals `line`.
pub open spec fn first_match(r: Seq<Seq<char>>, line: Seq<char>, from: nat) -> Option<nat>
    decreases r.len() - from,
{
    if from >= r.len() {
        None
    } else if r[from as int] == line {
        Some(from)
    } else {
        first_match(r, line, from + 1)
    }
}

/// The pairing found in one pass: each line of `l`, from `li` on, is paired
/// with the first line of `r` that equals it and lies below `pos` and below
/// every line paired before; a line without such a partner is passed over.
pub open spec fn greedy_pairs(l: Seq<Seq<char>>, r: Seq<Seq<char>>, li: nat, pos: nat) -> Pairs
    decreases l.len() - li,
{
    if li >= l.len() {
        Seq::empty()
    } else {
        match first_match(r, l[li as int], pos) {
            Some(ri) => seq![(li as usize, ri as usize)] + greedy_pairs(l, r, li + 1, ri + 1),
            None => greedy_pairs(l, r, li + 1, pos),
        }
    }
}

/// Above this number of lines, both sides together, the comparison is made
/// in one pass and may find fewer matching lines than there are.
pub const LCS_LIMIT: usize = 20000;

/// The pairing of the lines of `l` and `r` that the comparison rests on.
pub open spec fn matching_of(l: Seq<Seq<char>>, r: Seq<Seq<char>>) -> Pairs {
    if l.len() + r.len() > LCS_LIMIT {
        greedy_pairs(l, r, 0, 0)
    } else {
        lcs_pairs(l, r, l.len(), r.len())
    }
}

pub proof fn lemma_first_match(r: Seq<Seq<char>>, line: Seq<char>, from: nat)
    ensures
        first_match(r, line, from) matches Some(k) ==> from <= k < r.len() && r[k as int] == line,
    decreases r.len() - from,
{
    if from < r.len() && r[from as int] != line {
        lemma_first_match(r, line, from + 1);
    }
}

/// No pairing of the first `i` with the first `j` lines is longer than
/// either number.
pub proof fn lemma_lcs_len_bound(l: Seq<Seq<char>>, r: Seq<Seq<char>>, i: nat, j: nat)
    ensures
        lcs_len(l, r, i, j) <= i,
        lcs_len(l, r, i, j) <= j,
    decreases i + j,
{
    if i == 0 || j == 0 {
    } else if l[i - 1] == r[j - 1] {
        lemma_lcs_len_bound(l, r, (i - 1) as nat, (j - 1) as nat);
    } else {
        lemma_lcs_len_bound(l, r, (i - 1) as nat, j);
        lemma_lcs_len_bound(l, r, i, (j - 1) as nat);
    }
}

/// The pairing found by going back has the length of the longest pairing,
/// pairs equal lines only, and goes down both sides.
pub proof fn lemma_lcs_pairs(l: Seq<Seq<char>>, r: Seq<Seq<char>>, i: nat, j: nat)
    requires
        i <= l.len(),
        j <= r.len(),
        l.len() <= usize::MAX,
        r.len() <= usize::MAX,
    ensures
        lcs_pairs(l, r, i, j).len() == lcs_len(l, r, i, j),
        is_matching(lcs_pairs(l, r, i, j), l, r),
        forall|k: int|
            0 <= k < lcs_pairs(l, r, i, j).len() ==> (#[trigger] lcs_pairs(l, r, i, j)[k]).0 < i
                && lcs_pairs(l, r, i, j)[k].1 < j,
    decreases i + j,
{
    if i == 0 || j == 0 {
    } else if l[i - 1] == r[j - 1] {
        lemma_lcs_pairs(l, r, (i - 1) as nat, (j - 1) as nat);
    } else if lcs_len(l, r, (i - 1) as nat, j) >= lcs_len(l, r, i, (j - 1) as nat) {
        lemma_lcs_pairs(l, r, (i - 1) as nat, j);
    } else {
        lemma_lcs_pairs(l, r, i, (j - 1) as nat);
    }
}

/// No pairing of the first `i` lines of `l` with the first `j` lines of `r`
/// has more pairs than `lcs_len` says: the pairing found by going back is a
/// longest one.
pub proof fn lemma_lcs_is_longest(
    l: Seq<Seq<char>>,
    r: Seq<Seq<char>>,
    pairs: Pairs,
    i: nat,
    j: nat,
)
    requires
        is_matching(pairs, l, r),
        i <= l.len(),
        j <= r.len(),
        forall|k: int| 0 <= k < pairs.len() ==> (#[trigger] pairs[k]).0 < i && pairs[k].1 < j,
    ensures
        pairs.len() <= lcs_len(l, r, i, j),
    decreases i + j,
{
    if pairs.len() == 0 {
    } else if i == 0 || j == 0 {
        assert(pairs[0].0 < i && pairs[0].1 < j);
    } else {
        let last = pairs.last();
        let rest = pairs.drop_last();
        assert(last == pairs[pairs.len() - 1]);
        assert forall|k: int| 0 <= k < rest.len() implies (#[trigger] rest[k]).0 < last.0
            && rest[k].1 < last.1 by {
            assert(rest[k] == pairs[k]);
        }
        assert(is_matching(rest, l, r)) by {
            assert forall|k: int| 0 <= k < rest.len() implies (#[trigger] rest[k]).0 < l.len()
                && rest[k].1 < r.len() && l[rest[k].0 as int] == r[rest[k].1 as int] by {
                assert(rest[k] == pairs[k]);
            }
            assert forall|a: int, b: int| 0 <= a < b < rest.len() implies (#[trigger] rest[a]).0
                < (#[trigger] rest[b]).0 && rest[a].1 < rest[b].1 by {
                assert(rest[a] == pairs[a]);
                assert(rest[b] == pairs[b]);
            }
        }
        if l[i - 1] == r[j - 1] {
            assert forall|k: int| 0 <= k < rest.len() implies (#[trigger] rest[k]).0 < i - 1
                && rest[k].1 < j - 1 by {}
            lemma_lcs_is_longest(l, r, rest, (i - 1) as nat, (j - 1) as nat);
        } else if last.0 < i - 1 {
            assert forall|k: int| 0 <= k < pairs.len() implies (#[trigger] pairs[k]).0 < i - 1
                && pairs[k].1 < j by {
                if k < pairs.len() - 1 {
                    assert(pairs[k] == rest[k]);
                }
            }
            lemma_lcs_is_longest(l, r, pairs, (i - 1) as nat, j);
        } else {
            assert(last.0 == i - 1);
            assert(l[last.0 as int] == r[last.1 as int]);
            assert(last.1 < j - 1);
            assert forall|k: int| 0 <= k < pairs.len() implies (#[trigger] pairs[k]).0 < i
                && pairs[k].1 < j - 1 by {
                if k < pairs.len() - 1 {
                    assert(pairs[k] == rest[k]);
                }
            }
            lemma_lcs_is_longest(l, r, pairs, i, (j - 1) as nat);
        }
    }
}

/// The pairing found in one pass pairs equal lines only and goes down both
/// sides.
pub proof fn lemma_greedy_pairs(l: Seq<Seq<char>>, r: Seq<Seq<char>>, li: nat, pos: nat)
    requires
        l.len() <= usize::MAX,
        r.len() <= usize::MAX,
    ensures
        is_matching(greedy_pairs(l, r, li, pos), l, r),
        forall|k: int|
            0 <= k < greedy_pairs(l, r, li, pos).len() ==> (#[trigger] greedy_pairs(
                l,
                r,
                li,
                pos,
            )[k]).0 >= li && greedy_pairs(l, r, li, pos)[k].1 >= pos,
    decreases l.len() - li,
{
    if li < l.len() {
        lemma_first_match(r, l[li as int], pos);
        match first_match(r, l[li as int], pos) {
            Some(ri) => {
                lemma_greedy_pairs(l, r, li + 1, ri + 1);
                let rest = greedy_pairs(l, r, li + 1, ri + 1);
                let all = seq![(li as usize, ri as usize)] + rest;
                assert forall|k: int| 0 <= k < all.len() implies (#[trigger] all[k]).0 < l.len()
                    && all[k].1 < r.len() && l[all[k].0 as int] == r[all[k].1 as int] by {
                    if k > 0 {
                        assert(all[k] == rest[k - 1]);
                    }
                }
                assert forall|a: int, b: int| 0 <= a < b < all.len() implies (#[trigger] all[a]).0
                    < (#[trigger] all[b]).0 && all[a].1 < all[b].1 by {
                    assert(all[b] == rest[b - 1]);
                    if a > 0 {
                        assert(all[a] == rest[a - 1]);
                    }
                }
                assert forall|k: int| 0 <= k < all.len() implies (#[trigger] all[k]).0 >= li
                    && all[k].1 >= pos by {
                    if k > 0 {
                        assert(all[k] == rest[k - 1]);
                    }
                }
            },
            None => {
                lemma_greedy_pairs(l, r, li + 1, pos);
            },
        }
    }
}

/// The pairing that the comparison rests on pairs equal lines only and goes
/// down both sides, whichever way it was found.
pub proof fn lemma_matching_of(l: Seq<Seq<char>>, r: Seq<Seq<char>>)
    requires
        l.len() <= usize::MAX,
        r.len() <= usize::MAX,
    ensures
        is_matching(matching_of(l, r), l, r),
        l.len() + r.len() <= LCS_LIMIT ==> matching_of(l, r).len() == lcs_len(
            l,
            r,
            l.len(),
            r.len(),
        ),
{
    lemma_lcs_pairs(l, r, l.len(), r.len());
    lemma_greedy_pairs(l, r, 0, 0);
}

/// Up to the limit on the number of lines, no pairing of equal lines that
/// goes down both sides has more pairs than the one the comparison rests on.
pub proof fn lemma_matching_is_longest(l: Seq<Seq<char>>, r: Seq<Seq<char>>, other: Pairs)
    requires
        l.len() + r.len() <= LCS_LIMIT,
        is_matching(other, l, r),
    ensures
        other.len() <= matching_of(l, r).len(),
{
    lemma_matching_of(l, r);
    lemma_lcs_is_longest(l, r, other, l.len(), r.len());
}

/// Pairs the lines of `left` and `right` in one pass: each line of `left`
/// with the first equal line of `right` below every line paired before.
pub fn compute_lcs_simple(left: &[String], right: &[String]) -> (result: Vec<(usize, usize)>)
    ensures
        result@ == greedy_pairs(texts(left@), texts(right@), 0, 0),
{
    let mut result: Vec<(usize, usize)> = Vec::new();
    let mut right_pos: usize = 0;
    let ghost l = texts(left@);
    let ghost r = texts(right@);
    let mut li: usize = 0;
    while li < left.len()
        invariant
            li <= left.len(),
            right_pos <= right.len(),
            l == texts(left@),
            r == texts(right@),
            greedy_pairs(l, r, 0, 0) == result@ + greedy_pairs(l, r, li as nat, right_pos as nat),
        decreases left.len() - li,
    {
        let mut ri: usize = right_pos;
        let mut found = false;
        assert(l[li as int] == left@[li as int]@);
        while ri < right.len() && !found
            invariant
                right_pos <= ri <= right.len(),
                li < left.len(),
                l == texts(left@),
                r == texts(right@),
                !found ==> first_match(r, l[li as int], right_pos as nat) == first_match(
                    r,
                    l[li as int],
                    ri as nat,
                ),
                found ==> ri < right.len() && first_match(r, l[li as int], right_pos as nat)
                    == Some(ri as nat),
            decreases right.len() - ri + (if found { 0int } else { 1 }),
        {
            assert(r[ri as int] == right@[ri as int]@);
            assert(l[li as int] == left@[li as int]@);
            if left[li] == right[ri] {
                found = true;
            } else {
                ri += 1;
            }
        }
        if found {
            let ghost before = result@;
            result.push((li, ri));
            assert(before + (seq![(li, ri)] + greedy_pairs(l, r, (li + 1) as nat, (ri + 1) as nat))
                == result@ + greedy_pairs(l, r, (li + 1) as nat, (ri + 1) as nat));
            right_pos = ri + 1;
        }
        li += 1;
    }
    result
}


/// The pairs of `v` in the opposite order.
fn reversed(v: &Vec<(usize, usize)>) -> (out: Vec<(usize, usize)>)
    ensures
        out@ == v@.reverse(),
{
    let mut out: Vec<(usize, usize)> = Vec::new();
    let mut i: usize = v.len();
    while i > 0
        invariant
            i <= v.len(),
            out.len() == v.len() - i,
            forall|k: int| 0 <= k < out.len() ==> out[k] == v[v.len() - 1 - k],
        decreases i,
    {
        i -= 1;
        out.push(v[i]);
    }
    assert(out@ =~= v@.reverse());
    out
}

/// Pairs the lines of `left` and `right` that match in a longest common
/// run of lines. Where the two sides have more than 20000 lines together
/// the pairing is made in one pass instead, and may be shorter.
pub fn compute_lcs(left: &[String], right: &[String]) -> (result: Vec<(usize, usize)>)
    ensures
        result@ == matching_of(texts(left@), texts(right@)),
        is_matching(result@, texts(left@), texts(right@)),
{
    let n = left.len();
    let m = right.len();
    let ghost l = texts(left@);
    let ghost r = texts(right@);
    proof {
        lemma_matching_of(l, r);
    }
    if n > LCS_LIMIT || m > LCS_LIMIT - n {
        return compute_lcs_simple(left, right);
    }
    let mut dp: Vec<Vec<u32>> = Vec::new();
    let mut first: Vec<u32> = Vec::new();
    while first.len() < m + 1
        invariant
            m <= LCS_LIMIT,
            first.len() <= m + 1,
            forall|b: int| 0 <= b < first.len() ==> first[b] == 0,
        decreases m + 1 - first.len(),
    {
        first.push(0);
    }
    dp.push(first);
    let mut i: usize = 1;
    while i <= n
        invariant
            1 <= i <= n + 1,
            n + m <= LCS_LIMIT,
            n == left.len(),
            m == right.len(),
            l == texts(left@),
            r == texts(right@),
            dp.len() == i,
            forall|a: int| 0 <= a < i ==> (#[trigger] dp[a]).len() == m + 1,
            forall|a: int, b: int|
                0 <= a < i && 0 <= b <= m ==> (#[trigger] dp[a][b]) == lcs_len(
                    l,
                    r,
                    a as nat,
                    b as nat,
                ),
        decreases n + 1 - i,
    {
        let mut row: Vec<u32> = Vec::new();
        row.push(0);
        let mut j: usize = 1;
        while j <= m
            invariant
                1 <= j <= m + 1,
                1 <= i <= n,
                n + m <= LCS_LIMIT,
                n == left.len(),
                m == right.len(),
                l == texts(left@),
                r == texts(right@),
                dp.len() == i,
                row.len() == j,
                forall|a: int| 0 <= a < i ==> (#[trigger] dp[a]).len() == m + 1,
                forall|a: int, b: int|
                    0 <= a < i && 0 <= b <= m ==> (#[trigger] dp[a][b]) == lcs_len(
                        l,
                        r,
                        a as nat,
                        b as nat,
                    ),
                forall|b: int| 0 <= b < j ==> (#[trigger] row[b]) == lcs_len(l, r, i as nat, b as nat),
            decreases m + 1 - j,
        {
            proof {
                lemma_lcs_len_bound(l, r, i as nat, j as nat);
                lemma_lcs_len_bound(l, r, (i - 1) as nat, (j - 1) as nat);
            }
            assert(l[i - 1] == left@[i - 1]@);
            assert(r[j - 1] == right@[j - 1]@);
            let prev = &dp[i - 1];
            assert(prev[j - 1] == lcs_len(l, r, (i - 1) as nat, (j - 1) as nat));
            assert(prev[j as int] == lcs_len(l, r, (i - 1) as nat, j as nat));
            let value: u32 = if left[i - 1] == right[j - 1] {
                prev[j - 1] + 1
            } else {
                let up = prev[j];
                let side = row[j - 1];
                if up >= side {
                    up
                } else {
                    side
                }
            };
            row.push(value);
            j += 1;
        }
        dp.push(row);
        i += 1;
    }
    let mut back: Vec<(usize, usize)> = Vec::new();
    let mut i: usize = n;
    let mut j: usize = m;
    assert(back@.reverse() =~= Seq::<(usize, usize)>::empty());
    while i > 0 && j > 0
        invariant
            i <= n,
            j <= m,
            n == left.len(),
            m == right.len(),
            l == texts(left@),
            r == texts(right@),
            dp.len() == n + 1,
            forall|a: int| 0 <= a <= n ==> (#[trigger] dp[a]).len() == m + 1,
            forall|a: int, b: int|
                0 <= a <= n && 0 <= b <= m ==> (#[trigger] dp[a][b]) == lcs_len(
                    l,
                    r,
                    a as nat,
                    b as nat,
                ),
            lcs_pairs(l, r, n as nat, m as nat) == lcs_pairs(l, r, i as nat, j as nat)
                + back@.reverse(),
        decreases i + j,
    {
        assert(l[i - 1] == left@[i - 1]@);
        assert(r[j - 1] == right@[j - 1]@);
        if left[i - 1] == right[j - 1] {
            let ghost before = back@;
            back.push((i - 1, j - 1));
            assert(back@.reverse() =~= seq![((i - 1) as usize, (j - 1) as usize)] + before.reverse());
            assert(lcs_pairs(l, r, (i - 1) as nat, (j - 1) as nat).push(
                ((i - 1) as usize, (j - 1) as usize),
            ) + before.reverse() =~= lcs_pairs(l, r, (i - 1) as nat, (j - 1) as nat)
                + back@.reverse());
            i -= 1;
            j -= 1;
        } else {
            let up = dp[i - 1][j];
            let side = dp[i][j - 1];
            assert(up == lcs_len(l, r, (i - 1) as nat, j as nat));
            assert(side == lcs_len(l, r, i as nat, (j - 1) as nat));
            if up >= side {
                i -= 1;
            } else {
                j -= 1;
            }
        }
    }
    reversed(&back)
}


/// The `k`-th line of the comparison of a stretch of lines without a match:
/// `left_gap`, whose first line has the index `li` on the left, and
/// `right_gap`, whose first line has the index `ri` on the right. As long as
/// both sides have a line the two are shown side by side as a changed line;
/// what is left over on one side is shown as only there.
pub open spec fn gap_line(
    left_gap: Seq<Seq<char>>,
    right_gap: Seq<Seq<char>>,
    li: nat,
    ri: nat,
    k: int,
) -> DiffLineView {
    if k < left_gap.len() && k < right_gap.len() {
        DiffLineView {
            left_line_no: Some((li + k + 1) as usize),
            left_content: Some(left_gap[k]),
            right_line_no: Some((ri + k + 1) as usize),
            right_content: Some(right_gap[k]),
            line_status: DiffLineStatus::Modified,
        }
    } else if k < left_gap.len() {
        DiffLineView {
            left_line_no: Some((li + k + 1) as usize),
            left_content: Some(left_gap[k]),
            right_line_no: None,
            right_content: None,
            line_status: DiffLineStatus::LeftOnly,
        }
    } else {
        DiffLineView {
            left_line_no: None,
            left_content: None,
            right_line_no: Some((ri + k + 1) as usize),
            right_content: Some(right_gap[k]),
            line_status: DiffLineStatus::RightOnly,
        }
    }
}

/// The longer of two lengths.
pub open spec fn longer(a: nat, b: nat) -> nat {
    if a >= b {
        a
    } else {
        b
    }
}

/// The lines of the comparison of a stretch of lines without a match.
pub open spec fn gap_lines(left_gap: Seq<Seq<char>>, right_gap: Seq<Seq<char>>, li: nat, ri: nat) -> Seq<
    DiffLineView,
> {
    Seq::new(
        longer(left_gap.len(), right_gap.len()),
        |k: int| gap_line(left_gap, right_gap, li, ri, k),
    )
}

/// The places where changes begin, after a stretch without a match whose
/// first line stands at `pos` in the comparison: `pos` is added where the
/// stretch has a line, unless it begins with a changed line and `pos` is
/// the last place noted already.
pub open spec fn changes_after_gap(
    changes: Seq<usize>,
    pos: usize,
    left_count: nat,
    right_count: nat,
) -> Seq<usize> {
    if left_count > 0 && right_count > 0 {
        if changes.len() > 0 && changes.last() == pos {
            changes
        } else {
            changes.push(pos)
        }
    } else if left_count > 0 || right_count > 0 {
        changes.push(pos)
    } else {
        changes
    }
}

fn same_place(changes: &Vec<usize>, pos: usize) -> (r: bool)
    ensures
        r == (changes@.len() > 0 && changes@.last() == pos),
{
    changes.len() > 0 && changes[changes.len() - 1] == pos
}

/// Adds to the comparison the lines of a stretch without a match:
/// `left_gap`, the lines on the left from index `li` on, and `right_gap`,
/// the lines on the right from index `ri` on. Moves `li` and `ri` past the
/// stretch and notes in `change_positions` where the stretch begins.
pub fn emit_gap(
    left_gap: &[String],
    right_gap: &[String],
    li: &mut usize,
    ri: &mut usize,
    diff_lines: &mut Vec<DiffLine>,
    change_positions: &mut Vec<usize>,
)
    requires
        *old(li) + left_gap@.len() <= usize::MAX,
        *old(ri) + right_gap@.len() <= usize::MAX,
    ensures
        *final(li) == *old(li) + left_gap@.len(),
        *final(ri) == *old(ri) + right_gap@.len(),
        line_views(final(diff_lines)@) == line_views(old(diff_lines)@) + gap_lines(
            texts(left_gap@),
            texts(right_gap@),
            *old(li) as nat,
            *old(ri) as nat,
        ),
        final(change_positions)@ == changes_after_gap(
            old(change_positions)@,
            old(diff_lines)@.len() as usize,
            left_gap@.len(),
            right_gap@.len(),
        ),
{
    let ghost lg = texts(left_gap@);
    let ghost rg = texts(right_gap@);
    let ghost li0 = *li as nat;
    let ghost ri0 = *ri as nat;
    let ghost lines0 = line_views(diff_lines@);
    let ghost all = gap_lines(lg, rg, li0, ri0);
    let paired = if left_gap.len() < right_gap.len() {
        left_gap.len()
    } else {
        right_gap.len()
    };
    let start = diff_lines.len();
    assert(lines0.len() == diff_lines@.len());
    if paired > 0 && !same_place(change_positions, start) {
        change_positions.push(start);
    } else if paired == 0 && (left_gap.len() > 0 || right_gap.len() > 0) {
        change_positions.push(start);
    }
    let mut idx: usize = 0;
    assert(line_views(diff_lines@) == lines0 + all.subrange(0, 0));
    while idx < paired
        invariant
            idx <= paired,
            paired <= left_gap@.len(),
            paired <= right_gap@.len(),
            lg == texts(left_gap@),
            rg == texts(right_gap@),
            li0 + left_gap@.len() <= usize::MAX,
            ri0 + right_gap@.len() <= usize::MAX,
            *li == li0 + idx,
            *ri == ri0 + idx,
            all == gap_lines(lg, rg, li0, ri0),
            line_views(diff_lines@) == lines0 + all.subrange(0, idx as int),
        decreases paired - idx,
    {
        let ghost before = line_views(diff_lines@);
        let line = DiffLine {
            left_line_no: Some(*li + 1),
            left_content: Some(left_gap[idx].clone()),
            right_line_no: Some(*ri + 1),
            right_content: Some(right_gap[idx].clone()),
            line_status: DiffLineStatus::Modified,
        };
        assert(lg[idx as int] == left_gap@[idx as int]@);
        assert(rg[idx as int] == right_gap@[idx as int]@);
        assert(line@ == all[idx as int]);
        diff_lines.push(line);
        assert(line_views(diff_lines@) == before.push(all[idx as int]));
        assert(all.subrange(0, idx + 1) == all.subrange(0, idx as int).push(all[idx as int]));
        *li = *li + 1;
        *ri = *ri + 1;
        idx += 1;
    }
    let mut a: usize = paired;
    while a < left_gap.len()
        invariant
            paired <= a <= left_gap@.len(),
            paired <= right_gap@.len(),
            paired == left_gap@.len() || paired == right_gap@.len(),
            lg == texts(left_gap@),
            rg == texts(right_gap@),
            li0 + left_gap@.len() <= usize::MAX,
            *li == li0 + a,
            *ri == ri0 + paired,
            all == gap_lines(lg, rg, li0, ri0),
            line_views(diff_lines@) == lines0 + all.subrange(0, a as int),
        decreases left_gap@.len() - a,
    {
        let ghost before = line_views(diff_lines@);
        let line = DiffLine {
            left_line_no: Some(*li + 1),
            left_content: Some(left_gap[a].clone()),
            right_line_no: None,
            right_content: None,
            line_status: DiffLineStatus::LeftOnly,
        };
        assert(lg[a as int] == left_gap@[a as int]@);
        assert(line@ == all[a as int]);
        diff_lines.push(line);
        assert(line_views(diff_lines@) == before.push(all[a as int]));
        assert(all.subrange(0, a + 1) == all.subrange(0, a as int).push(all[a as int]));
        *li = *li + 1;
        a += 1;
    }
    if left_gap.len() == paired {
        let mut b: usize = paired;
        while b < right_gap.len()
            invariant
                paired <= b <= right_gap@.len(),
                paired == left_gap@.len(),
                lg == texts(left_gap@),
                rg == texts(right_gap@),
                ri0 + right_gap@.len() <= usize::MAX,
                *li == li0 + left_gap@.len(),
                *ri == ri0 + b,
                all == gap_lines(lg, rg, li0, ri0),
                line_views(diff_lines@) == lines0 + all.subrange(0, b as int),
            decreases right_gap@.len() - b,
        {
            let ghost before = line_views(diff_lines@);
            let line = DiffLine {
                left_line_no: None,
                left_content: None,
                right_line_no: Some(*ri + 1),
                right_content: Some(right_gap[b].clone()),
                line_status: DiffLineStatus::RightOnly,
            };
            assert(rg[b as int] == right_gap@[b as int]@);
            assert(line@ == all[b as int]);
            diff_lines.push(line);
            assert(line_views(diff_lines@) == before.push(all[b as int]));
            assert(all.subrange(0, b + 1) == all.subrange(0, b as int).push(all[b as int]));
            *ri = *ri + 1;
            b += 1;
        }
    }
    assert(all.subrange(0, all.len() as int) == all);
}


/// The line of the comparison for a pair of equal lines: the line `cl` on
/// the left and the line `cr` on the right.
pub open spec fn same_line(l: Seq<Seq<char>>, r: Seq<Seq<char>>, cl: nat, cr: nat) -> DiffLineView {
    DiffLineView {
        left_line_no: Some((cl + 1) as usize),
        left_content: Some(l[cl as int]),
        right_line_no: Some((cr + 1) as usize),
        right_content: Some(r[cr as int]),
        line_status: DiffLineStatus::Same,
    }
}

/// A comparison as far as it has got: the next line on each side, the lines
/// shown so far, and the places where changes begin.
pub struct DiffSoFar {
    pub li: nat,
    pub ri: nat,
    pub lines: Seq<DiffLineView>,
    pub changes: Seq<usize>,
}

/// The comparison of `l` and `r` up to and with the `k`-th pair of `lcs`:
/// before each pair come the lines without a match that lie before it, then
/// the pair as one line.
pub open spec fn diff_upto(l: Seq<Seq<char>>, r: Seq<Seq<char>>, lcs: Pairs, k: nat) -> DiffSoFar
    decreases k,
{
    if k == 0 {
        DiffSoFar { li: 0, ri: 0, lines: Seq::empty(), changes: Seq::empty() }
    } else {
        let p = diff_upto(l, r, lcs, (k - 1) as nat);
        let cl = lcs[k - 1].0 as nat;
        let cr = lcs[k - 1].1 as nat;
        let lg = l.subrange(p.li as int, cl as int);
        let rg = r.subrange(p.ri as int, cr as int);
        DiffSoFar {
            li: cl + 1,
            ri: cr + 1,
            lines: p.lines + gap_lines(lg, rg, p.li, p.ri) + seq![same_line(l, r, cl, cr)],
            changes: changes_after_gap(p.changes, p.lines.len() as usize, lg.len(), rg.len()),
        }
    }
}

/// The comparison of `l` and `r` that rests on the pairing `lcs`: its lines,
/// and the places where changes begin.
pub open spec fn diff_of(l: Seq<Seq<char>>, r: Seq<Seq<char>>, lcs: Pairs) -> (
    Seq<DiffLineView>,
    Seq<usize>,
) {
    let p = diff_upto(l, r, lcs, lcs.len());
    let lg = l.subrange(p.li as int, l.len() as int);
    let rg = r.subrange(p.ri as int, r.len() as int);
    (
        p.lines + gap_lines(lg, rg, p.li, p.ri),
        changes_after_gap(p.changes, p.lines.len() as usize, lg.len(), rg.len()),
    )
}

/// Where a comparison stands after the `k`-th pair of a pairing.
pub proof fn lemma_diff_upto_position(l: Seq<Seq<char>>, r: Seq<Seq<char>>, lcs: Pairs, k: nat)
    requires
        is_matching(lcs, l, r),
        k <= lcs.len(),
    ensures
        k == 0 ==> diff_upto(l, r, lcs, k).li == 0 && diff_upto(l, r, lcs, k).ri == 0,
        k > 0 ==> diff_upto(l, r, lcs, k).li == lcs[k - 1].0 + 1 && diff_upto(l, r, lcs, k).ri
            == lcs[k - 1].1 + 1,
{
}

/// What the lines `lines` of a comparison show of one side, the left one
/// where `left` holds: the number and the text of each line that has one
/// there, in the order of the comparison.
pub open spec fn side_of(lines: Seq<DiffLineView>, left: bool) -> Seq<(usize, Seq<char>)>
    decreases lines.len(),
{
    if lines.len() == 0 {
        Seq::empty()
    } else {
        let before = side_of(lines.drop_last(), left);
        let line = lines.last();
        match (if left {
            line.left_line_no
        } else {
            line.right_line_no
        }) {
            Some(n) => before.push(
                (
                    n,
                    match (if left {
                        line.left_content
                    } else {
                        line.right_content
                    }) {
                        Some(text) => text,
                        None => Seq::empty(),
                    },
                ),
            ),
            None => before,
        }
    }
}

/// The lines `g` with their numbers, where the first of them has the index
/// `start` in its file: lines are counted from 1.
pub open spec fn numbered(g: Seq<Seq<char>>, start: nat) -> Seq<(usize, Seq<char>)> {
    Seq::new(g.len(), |k: int| ((start + k + 1) as usize, g[k]))
}

/// What two stretches of a comparison show of one side is what the first
/// shows, then what the second shows.
pub proof fn lemma_side_of_add(a: Seq<DiffLineView>, b: Seq<DiffLineView>, left: bool)
    ensures
        side_of(a + b, left) == side_of(a, left) + side_of(b, left),
    decreases b.len(),
{
    if b.len() == 0 {
        assert(a + b =~= a);
        assert(side_of(a, left) + side_of(b, left) =~= side_of(a, left));
    } else {
        assert((a + b).drop_last() =~= a + b.drop_last());
        assert((a + b).last() == b.last());
        lemma_side_of_add(a, b.drop_last(), left);
        assert(side_of(a + b, left) =~= side_of(a, left) + side_of(b, left));
    }
}

proof fn lemma_side_of_gap_upto(
    left_gap: Seq<Seq<char>>,
    right_gap: Seq<Seq<char>>,
    li: nat,
    ri: nat,
    left: bool,
    m: nat,
)
    requires
        m <= longer(left_gap.len(), right_gap.len()),
    ensures
        side_of(gap_lines(left_gap, right_gap, li, ri).subrange(0, m as int), left) == (if left {
            numbered(left_gap, li)
        } else {
            numbered(right_gap, ri)
        }).subrange(
            0,
            if left {
                if m <= left_gap.len() {
                    m as int
                } else {
                    left_gap.len() as int
                }
            } else {
                if m <= right_gap.len() {
                    m as int
                } else {
                    right_gap.len() as int
                }
            },
        ),
    decreases m,
{
    let all = gap_lines(left_gap, right_gap, li, ri);
    let whole = if left {
        numbered(left_gap, li)
    } else {
        numbered(right_gap, ri)
    };
    let count = if left {
        left_gap.len()
    } else {
        right_gap.len()
    };
    if m == 0 {
        assert(all.subrange(0, 0) =~= Seq::<DiffLineView>::empty());
        assert(whole.subrange(0, 0) =~= Seq::<(usize, Seq<char>)>::empty());
    } else {
        lemma_side_of_gap_upto(left_gap, right_gap, li, ri, left, (m - 1) as nat);
        assert(all.subrange(0, m as int).drop_last() =~= all.subrange(0, m - 1));
        assert(all.subrange(0, m as int).last() == gap_line(left_gap, right_gap, li, ri, m - 1));
        if m <= count {
            assert(whole.subrange(0, m as int) =~= whole.subrange(0, m - 1).push(whole[m - 1]));
        }
    }
}

/// A stretch without a match shows on each side the lines of that side, each
/// once, in their order and with their numbers.
pub proof fn lemma_side_of_gap(
    left_gap: Seq<Seq<char>>,
    right_gap: Seq<Seq<char>>,
    li: nat,
    ri: nat,
    left: bool,
)
    ensures
        side_of(gap_lines(left_gap, right_gap, li, ri), left) == (if left {
            numbered(left_gap, li)
        } else {
            numbered(right_gap, ri)
        }),
{
    let all = gap_lines(left_gap, right_gap, li, ri);
    lemma_side_of_gap_upto(left_gap, right_gap, li, ri, left, all.len());
    assert(all.subrange(0, all.len() as int) =~= all);
    let whole = if left {
        numbered(left_gap, li)
    } else {
        numbered(right_gap, ri)
    };
    assert(whole.subrange(0, whole.len() as int) =~= whole);
}

proof fn lemma_numbered_step(g: Seq<Seq<char>>, a: nat, b: nat)
    requires
        a <= b < g.len(),
    ensures
        numbered(g.subrange(0, (b + 1) as int), 0) == numbered(g.subrange(0, a as int), 0)
            + numbered(g.subrange(a as int, b as int), a) + seq![((b + 1) as usize, g[b as int])],
{
    assert(numbered(g.subrange(0, (b + 1) as int), 0) =~= numbered(g.subrange(0, a as int), 0)
        + numbered(g.subrange(a as int, b as int), a) + seq![((b + 1) as usize, g[b as int])]);
}

proof fn lemma_side_of_same(l: Seq<Seq<char>>, r: Seq<Seq<char>>, cl: nat, cr: nat, left: bool)
    ensures
        side_of(seq![same_line(l, r, cl, cr)], left) == (if left {
            seq![((cl + 1) as usize, l[cl as int])]
        } else {
            seq![((cr + 1) as usize, r[cr as int])]
        }),
{
    let same = seq![same_line(l, r, cl, cr)];
    assert(same.drop_last() =~= Seq::<DiffLineView>::empty());
    assert(side_of(same.drop_last(), left) =~= Seq::<(usize, Seq<char>)>::empty());
    assert(same.last() == same_line(l, r, cl, cr));
    if left {
        assert(side_of(same, left) =~= seq![((cl + 1) as usize, l[cl as int])]);
    } else {
        assert(side_of(same, left) =~= seq![((cr + 1) as usize, r[cr as int])]);
    }
}

proof fn lemma_side_of_step(
    l: Seq<Seq<char>>,
    r: Seq<Seq<char>>,
    lines: Seq<DiffLineView>,
    li: nat,
    ri: nat,
    cl: nat,
    cr: nat,
    left: bool,
)
    requires
        li <= cl < l.len(),
        ri <= cr < r.len(),
        side_of(lines, left) == (if left {
            numbered(l.subrange(0, li as int), 0)
        } else {
            numbered(r.subrange(0, ri as int), 0)
        }),
    ensures
        side_of(
            lines + gap_lines(
                l.subrange(li as int, cl as int),
                r.subrange(ri as int, cr as int),
                li,
                ri,
            ) + seq![same_line(l, r, cl, cr)],
            left,
        ) == (if left {
            numbered(l.subrange(0, (cl + 1) as int), 0)
        } else {
            numbered(r.subrange(0, (cr + 1) as int), 0)
        }),
{
    let lg = l.subrange(li as int, cl as int);
    let rg = r.subrange(ri as int, cr as int);
    let gap = gap_lines(lg, rg, li, ri);
    let same = seq![same_line(l, r, cl, cr)];
    lemma_side_of_add(lines + gap, same, left);
    lemma_side_of_add(lines, gap, left);
    lemma_side_of_gap(lg, rg, li, ri, left);
    lemma_side_of_same(l, r, cl, cr, left);
    if left {
        lemma_numbered_step(l, li, cl);
    } else {
        lemma_numbered_step(r, ri, cr);
    }
}

proof fn lemma_side_of_diff_upto(
    l: Seq<Seq<char>>,
    r: Seq<Seq<char>>,
    lcs: Pairs,
    k: nat,
    left: bool,
)
    requires
        is_matching(lcs, l, r),
        k <= lcs.len(),
    ensures
        diff_upto(l, r, lcs, k).li <= l.len(),
        diff_upto(l, r, lcs, k).ri <= r.len(),
        side_of(diff_upto(l, r, lcs, k).lines, left) == (if left {
            numbered(l.subrange(0, diff_upto(l, r, lcs, k).li as int), 0)
        } else {
            numbered(r.subrange(0, diff_upto(l, r, lcs, k).ri as int), 0)
        }),
    decreases k,
{
    if k == 0 {
        assert(numbered(l.subrange(0, 0), 0) =~= Seq::<(usize, Seq<char>)>::empty());
        assert(numbered(r.subrange(0, 0), 0) =~= Seq::<(usize, Seq<char>)>::empty());
    } else {
        lemma_side_of_diff_upto(l, r, lcs, (k - 1) as nat, left);
        lemma_diff_upto_position(l, r, lcs, (k - 1) as nat);
        let p = diff_upto(l, r, lcs, (k - 1) as nat);
        let cl = lcs[k - 1].0 as nat;
        let cr = lcs[k - 1].1 as nat;
        assert(p.li <= cl < l.len() && p.ri <= cr < r.len()) by {
            assert(lcs[k - 1].0 < l.len() && lcs[k - 1].1 < r.len());
            if k >= 2 {
                assert(lcs[k - 2].0 < lcs[k - 1].0 && lcs[k - 2].1 < lcs[k - 1].1);
            }
        }
        lemma_side_of_step(l, r, p.lines, p.li, p.ri, cl, cr, left);
    }
}

/// A comparison shows every line of each file exactly once, in the order of
/// the file and with its number in the file, counted from 1: what it shows
/// of the left side is the left file line by line, and what it shows of the
/// right side is the right file line by line.
pub proof fn lemma_comparison_numbers_every_line(l: Seq<Seq<char>>, r: Seq<Seq<char>>, lcs: Pairs)
    requires
        is_matching(lcs, l, r),
    ensures
        side_of(diff_of(l, r, lcs).0, true) == numbered(l, 0),
        side_of(diff_of(l, r, lcs).0, false) == numbered(r, 0),
{
    let p = diff_upto(l, r, lcs, lcs.len());
    lemma_side_of_diff_upto(l, r, lcs, lcs.len(), true);
    lemma_side_of_diff_upto(l, r, lcs, lcs.len(), false);
    let lg = l.subrange(p.li as int, l.len() as int);
    let rg = r.subrange(p.ri as int, r.len() as int);
    let gap = gap_lines(lg, rg, p.li, p.ri);
    lemma_side_of_add(p.lines, gap, true);
    lemma_side_of_add(p.lines, gap, false);
    lemma_side_of_gap(lg, rg, p.li, p.ri, true);
    lemma_side_of_gap(lg, rg, p.li, p.ri, false);
    assert(numbered(l, 0) =~= numbered(l.subrange(0, p.li as int), 0) + numbered(lg, p.li));
    assert(numbered(r, 0) =~= numbered(r.subrange(0, p.ri as int), 0) + numbered(rg, p.ri));
}

/// Lays out the comparison of `left_lines` and `right_lines` that rests on
/// the pairing `lcs`. Returns its lines, and the places in it where changes
/// begin.
pub fn build_diff_lines(left_lines: &[String], right_lines: &[String], lcs: &[(usize, usize)]) -> (out:
    (Vec<DiffLine>, Vec<usize>))
    requires
        is_matching(lcs@, texts(left_lines@), texts(right_lines@)),
    ensures
        line_views(out.0@) == diff_of(texts(left_lines@), texts(right_lines@), lcs@).0,
        out.1@ == diff_of(texts(left_lines@), texts(right_lines@), lcs@).1,
{
    let ghost l = texts(left_lines@);
    let ghost r = texts(right_lines@);
    let mut diff_lines: Vec<DiffLine> = Vec::new();
    let mut change_positions: Vec<usize> = Vec::new();
    let mut li: usize = 0;
    let mut ri: usize = 0;
    let mut k: usize = 0;
    assert(line_views(diff_lines@) =~= Seq::<DiffLineView>::empty());
    assert(l.len() == left_lines@.len());
    assert(r.len() == right_lines@.len());
    let left_count = left_lines.len();
    let right_count = right_lines.len();
    while k < lcs.len()
        invariant
            k <= lcs@.len(),
            is_matching(lcs@, l, r),
            l == texts(left_lines@),
            r == texts(right_lines@),
            l.len() == left_lines@.len(),
            r.len() == right_lines@.len(),
            left_lines@.len() == left_count,
            right_lines@.len() == right_count,
            li == diff_upto(l, r, lcs@, k as nat).li,
            ri == diff_upto(l, r, lcs@, k as nat).ri,
            line_views(diff_lines@) == diff_upto(l, r, lcs@, k as nat).lines,
            change_positions@ == diff_upto(l, r, lcs@, k as nat).changes,
        decreases lcs@.len() - k,
    {
        proof {
            lemma_diff_upto_position(l, r, lcs@, k as nat);
        }
        let pair = lcs[k];
        let lcs_li = pair.0;
        let lcs_ri = pair.1;
        assert(lcs@[k as int] == pair);
        assert(k > 0 ==> lcs@[k - 1].0 < lcs@[k as int].0 && lcs@[k - 1].1 < lcs@[k as int].1);
        assert(li <= lcs_li < left_lines@.len());
        assert(ri <= lcs_ri < right_lines@.len());
        let left_gap = &left_lines[li..lcs_li];
        let right_gap = &right_lines[ri..lcs_ri];
        assert(texts(left_gap@) =~= l.subrange(li as int, lcs_li as int));
        assert(texts(right_gap@) =~= r.subrange(ri as int, lcs_ri as int));
        assert(line_views(diff_lines@).len() == diff_lines@.len());
        emit_gap(left_gap, right_gap, &mut li, &mut ri, &mut diff_lines, &mut change_positions);
        let ghost before = line_views(diff_lines@);
        let line = DiffLine {
            left_line_no: Some(li + 1),
            left_content: Some(left_lines[lcs_li].clone()),
            right_line_no: Some(ri + 1),
            right_content: Some(right_lines[lcs_ri].clone()),
            line_status: DiffLineStatus::Same,
        };
        assert(l[lcs_li as int] == left_lines@[lcs_li as int]@);
        assert(r[lcs_ri as int] == right_lines@[lcs_ri as int]@);
        assert(line@ == same_line(l, r, lcs_li as nat, lcs_ri as nat));
        diff_lines.push(line);
        assert(line_views(diff_lines@) == before + seq![same_line(l, r, lcs_li as nat, lcs_ri as nat)]);
        li = lcs_li + 1;
        ri = lcs_ri + 1;
        k += 1;
    }
    proof {
        lemma_diff_upto_position(l, r, lcs@, k as nat);
    }
    assert(li <= left_lines@.len());
    assert(ri <= right_lines@.len());
    let left_gap = &left_lines[li..left_lines.len()];
    let right_gap = &right_lines[ri..right_lines.len()];
    assert(texts(left_gap@) =~= l.subrange(li as int, l.len() as int));
    assert(texts(right_gap@) =~= r.subrange(ri as int, r.len() as int));
    assert(line_views(diff_lines@).len() == diff_lines@.len());
    emit_gap(left_gap, right_gap, &mut li, &mut ri, &mut diff_lines, &mut change_positions);
    (diff_lines, change_positions)
}


/// The spaces that a tab stands for at column `used` of a field `width`
/// columns wide: up to the next multiple of four, but no further than the
/// end of the field.
pub open spec fn tab_fill(used: nat, width: nat) -> nat {
    let to_stop = (4 - used % 4) as nat;
    if used >= width {
        0
    } else if to_stop <= width - used {
        to_stop
    } else {
        (width - used) as nat
    }
}

/// What fits of `s` into a field `width` columns wide of which `used` are
/// taken, and the columns taken after it. A tab is written as spaces; a
/// control character takes no column; the text ends before the first
/// character that does not fit.
pub open spec fn fitted(s: Seq<char>, width: nat, used: nat) -> (Seq<char>, nat)
    decreases s.len(),
{
    if s.len() == 0 {
        (Seq::empty(), used)
    } else if s[0] == '\t' {
        let n = tab_fill(used, width);
        let rest = fitted(s.drop_first(), width, used + n);
        (spaces(n) + rest.0, rest.1)
    } else {
        let w = columns(s[0], 0);
        if used + w > width {
            (Seq::empty(), used)
        } else {
            let rest = fitted(s.drop_first(), width, used + w);
            (seq![s[0]] + rest.0, rest.1)
        }
    }
}

/// `s` cut or filled to exactly `width` terminal columns, tabs written as
/// spaces.
pub open spec fn fitted_and_filled(s: Seq<char>, width: nat) -> Seq<char> {
    let f = fitted(s, width, 0);
    f.0 + spaces((width - f.1) as nat)
}

/// Cuts `s` to `width` terminal columns where it is wider, and fills it
/// with spaces where it is narrower. A tab goes to the next multiple of four
/// columns; a wide character takes two.
pub fn truncate_or_pad(s: &str, width: usize) -> (out: String)
    ensures
        out@ == fitted_and_filled(s@, width as nat),
{
    let v = chars_of(s);
    let mut out: Vec<char> = Vec::new();
    let mut used: usize = 0;
    let mut i: usize = 0;
    let mut full = false;
    let ghost all = fitted(v@, width as nat, 0);
    assert(v@.subrange(0, v.len() as int) == v@);
    while i < v.len() && !full
        invariant
            i <= v.len(),
            used <= width,
            all == fitted(v@, width as nat, 0),
            !full ==> all.0 == out@ + fitted(
                v@.subrange(i as int, v.len() as int),
                width as nat,
                used as nat,
            ).0,
            !full ==> all.1 == fitted(
                v@.subrange(i as int, v.len() as int),
                width as nat,
                used as nat,
            ).1,
            full ==> all.0 == out@ && all.1 == used,
        decreases v.len() - i + (if full { 0int } else { 1 }),
    {
        let ch = v[i];
        let ghost rest = v@.subrange(i as int, v.len() as int);
        assert(rest[0] == ch);
        assert(rest.drop_first() == v@.subrange(i + 1, v.len() as int));
        if ch == '\t' {
            let to_stop = 4 - (used % 4);
            let n = if to_stop <= width - used {
                to_stop
            } else {
                width - used
            };
            assert(n == tab_fill(used as nat, width as nat));
            let ghost before = out@;
            let mut k: usize = 0;
            assert(out@ == before + spaces(0));
            while k < n
                invariant
                    k <= n,
                    out@ == before + spaces(k as nat),
                decreases n - k,
            {
                out.push(' ');
                k += 1;
                assert(out@ == before + spaces(k as nat));
            }
            used += n;
            i += 1;
            assert(before + (spaces(n as nat) + fitted(
                rest.drop_first(),
                width as nat,
                used as nat,
            ).0) == out@ + fitted(rest.drop_first(), width as nat, used as nat).0);
        } else {
            let w: usize = match char_width(ch) {
                Some(w) => w,
                None => 0,
            };
            if w > width - used {
                full = true;
                assert(out@ + Seq::<char>::empty() == out@);
            } else {
                let ghost before = out@;
                out.push(ch);
                used += w;
                i += 1;
                assert(before + (seq![ch] + fitted(
                    rest.drop_first(),
                    width as nat,
                    used as nat,
                ).0) == out@ + fitted(rest.drop_first(), width as nat, used as nat).0);
            }
        }
    }
    proof {
        if !full {
            assert(v@.subrange(i as int, v.len() as int).len() == 0);
            assert(out@ + Seq::<char>::empty() == out@);
        }
    }
    let fill = width - used;
    let ghost before = out@;
    let mut k: usize = 0;
    assert(out@ == before + spaces(0));
    while k < fill
        invariant
            k <= fill,
            out@ == before + spaces(k as nat),
        decreases fill - k,
    {
        out.push(' ');
        k += 1;
        assert(out@ == before + spaces(k as nat));
    }
    string_of(&out)
}

/// The characters of `s` from column `col` on, each tab written as the
/// spaces that take it to the next multiple of four columns.
pub open spec fn expanded(s: Seq<char>, col: nat) -> Seq<char>
    decreases s.len(),
{
    if s.len() == 0 {
        Seq::empty()
    } else if s[0] == '\t' {
        let n = (4 - col % 4) as nat;
        spaces(n) + expanded(s.drop_first(), col + n)
    } else {
        seq![s[0]] + expanded(s.drop_first(), col + columns(s[0], 0))
    }
}

/// Only the column's remainder by four bears on how tabs are written.
pub proof fn lemma_expanded_by_remainder(s: Seq<char>, a: nat, b: nat)
    requires
        a % 4 == b % 4,
    ensures
        expanded(s, a) == expanded(s, b),
    decreases s.len(),
{
    if s.len() > 0 {
        if s[0] == '\t' {
            let n = (4 - a % 4) as nat;
            lemma_expanded_by_remainder(s.drop_first(), a + n, b + n);
        } else {
            let w = columns(s[0], 0);
            lemma_expanded_by_remainder(s.drop_first(), a + w, b + w);
        }
    }
}

/// The characters of `s` with its tabs written as spaces.
pub fn expand_chars(s: &str) -> (out: Vec<char>)
    ensures
        out@ == expanded(s@, 0),
{
    let v = chars_of(s);
    let mut out: Vec<char> = Vec::new();
    let mut col: usize = 0;
    let mut i: usize = 0;
    assert(v@.subrange(0, v.len() as int) == v@);
    while i < v.len()
        invariant
            i <= v.len(),
            col < 4,
            expanded(v@, 0) == out@ + expanded(v@.subrange(i as int, v.len() as int), col as nat),
        decreases v.len() - i,
    {
        let ch = v[i];
        let ghost rest = v@.subrange(i as int, v.len() as int);
        assert(rest[0] == ch);
        assert(rest.drop_first() == v@.subrange(i + 1, v.len() as int));
        let ghost before = out@;
        if ch == '\t' {
            let n = 4 - col;
            let mut k: usize = 0;
            assert(out@ == before + spaces(0));
            while k < n
                invariant
                    k <= n,
                    out@ == before + spaces(k as nat),
                decreases n - k,
            {
                out.push(' ');
                k += 1;
                assert(out@ == before + spaces(k as nat));
            }
            proof {
                lemma_expanded_by_remainder(rest.drop_first(), (col + n) as nat, 0);
            }
            col = 0;
            assert(before + (spaces(n as nat) + expanded(rest.drop_first(), 0)) == out@ + expanded(
                rest.drop_first(),
                0,
            ));
        } else {
            let w: usize = match char_width(ch) {
                Some(w) => w,
                None => 0,
            };
            out.push(ch);
            let next = (col + w % 4) % 4;
            proof {
                lemma_expanded_by_remainder(rest.drop_first(), (col + w) as nat, next as nat);
            }
            col = next;
            assert(before + (seq![ch] + expanded(rest.drop_first(), col as nat)) == out@
                + expanded(rest.drop_first(), col as nat));
        }
        i += 1;
    }
    assert(v@.subrange(v.len() as int, v.len() as int).len() == 0);
    assert(out@ + Seq::<char>::empty() == out@);
    out
}


/// The text that a file's bytes stand for, with every stretch of bytes that
/// is no UTF-8 replaced by the replacement character, as the standard
/// library does it.
pub uninterp spec fn lossy_text_of(bytes: Seq<u8>) -> Seq<char>;

/// The text that `data` stands for.
///
/// Trusted: this is `String::from_utf8_lossy` of the standard library, made
/// into an owned string. The result depends on the bytes alone; the contract
/// gives it the name `lossy_text_of` and says nothing more of it.
#[verifier::external_body]
pub(crate) fn lossy_text(data: &[u8]) -> (s: String)
    ensures
        s@ == lossy_text_of(data@),
{
    String::from_utf8_lossy(data).into_owned()
}

/// What is shown of the comparison of two files.
#[derive(Debug, Clone, PartialEq, Eq)]
pub struct DiffFileViewState {
    pub left_path: String,
    pub right_path: String,
    pub diff_lines: Vec<DiffLine>,
    /// The index of the first line shown.
    pub scroll: usize,
    /// How many lines fit on the screen.
    pub visible_height: usize,
    pub left_total_lines: usize,
    pub right_total_lines: usize,
    /// The indices of the lines where changes begin.
    pub change_positions: Vec<usize>,
    /// Which of `change_positions` the user is at.
    pub current_change: usize,
    pub file_name: String,
}

/// A key that means something while a comparison is shown.
#[derive(Debug, Clone, Copy, PartialEq, Eq, Structural)]
pub enum DiffKey {
    Up,
    Down,
    PageUp,
    PageDown,
    Home,
    End,
    /// Go to the next place where a change begins.
    NextChange,
    /// Go to the place before.
    PreviousChange,
    /// Leave the comparison.
    Close,
    /// Any other key.
    Other,
}

/// Whether the bytes of a file, where there is a file, look like something
/// other than text.
pub open spec fn looks_binary(data: Option<Seq<u8>>) -> bool {
    match data {
        Some(d) => exists|i: int| 0 <= i < d.len() && i < BINARY_CHECK_LEN && d[i] == 0,
        None => false,
    }
}

/// The lines of a file; none where there is no file.
pub open spec fn file_lines(data: Option<Seq<u8>>) -> Seq<Seq<char>> {
    match data {
        Some(d) => crate::text::lines(lossy_text_of(d)),
        None => Seq::empty(),
    }
}

/// The one line shown in place of a comparison where a file is no text.
pub open spec fn binary_notice() -> DiffLineView {
    DiffLineView {
        left_line_no: None,
        left_content: Some("Binary file"@),
        right_line_no: None,
        right_content: Some("Binary file"@),
        line_status: DiffLineStatus::Same,
    }
}

/// The bytes of an optional buffer.
pub open spec fn opt_bytes(data: Option<Vec<u8>>) -> Option<Seq<u8>> {
    match data {
        Some(d) => Some(d@),
        None => None,
    }
}

fn lines_of_file(data: &Option<Vec<u8>>) -> (out: Vec<String>)
    ensures
        texts(out@) == file_lines(opt_bytes(*data)),
{
    let mut out: Vec<String> = Vec::new();
    match data {
        None => {
            assert(texts(out@) =~= Seq::<Seq<char>>::empty());
            out
        },
        Some(d) => {
            let text = lossy_text(d.as_slice());
            let ls = split_lines(&chars_of(text.as_str()));
            let mut i: usize = 0;
            assert(texts(out@) =~= rows(ls@).subrange(0, 0));
            while i < ls.len()
                invariant
                    i <= ls.len(),
                    texts(out@) == rows(ls@).subrange(0, i as int),
                decreases ls.len() - i,
            {
                let ghost before = texts(out@);
                out.push(string_of(&ls[i]));
                assert(texts(out@) == before.push(ls@[i as int]@));
                assert(rows(ls@).subrange(0, i + 1) == rows(ls@).subrange(0, i as int).push(
                    ls@[i as int]@,
                ));
                i += 1;
            }
            assert(rows(ls@).subrange(0, ls.len() as int) == rows(ls@));
            out
        },
    }
}

impl DiffFileViewState {
    /// What holds of every state that `new` makes and `handle_input` keeps:
    /// the user is at one of the places where changes begin, where there is
    /// such a place.
    pub open spec fn wf(&self) -> bool {
        self.change_positions@.len() == 0 || self.current_change < self.change_positions@.len()
    }

    /// Compares the file at `left_path`, whose bytes are `left_data`, with
    /// the file at `right_path`, whose bytes are `right_data`; `None` stands
    /// for a file that is not there or cannot be read, and counts as empty.
    /// Where one of the files is no text a single line says so.
    pub fn new(
        left_path: String,
        right_path: String,
        file_name: String,
        left_data: Option<Vec<u8>>,
        right_data: Option<Vec<u8>>,
    ) -> (state: DiffFileViewState)
        ensures
            state.wf(),
            state.left_path == left_path,
            state.right_path == right_path,
            state.file_name == file_name,
            state.scroll == 0,
            state.visible_height == 0,
            state.current_change == 0,
            looks_binary(opt_bytes(left_data)) || looks_binary(opt_bytes(right_data)) ==> {
                &&& line_views(state.diff_lines@) == seq![binary_notice()]
                &&& state.change_positions@.len() == 0
                &&& state.left_total_lines == 0
                &&& state.right_total_lines == 0
            },
            !(looks_binary(opt_bytes(left_data)) || looks_binary(opt_bytes(right_data))) ==> ({
                let l = file_lines(opt_bytes(left_data));
                let r = file_lines(opt_bytes(right_data));
                &&& state.left_total_lines == l.len()
                &&& state.right_total_lines == r.len()
                &&& line_views(state.diff_lines@) == diff_of(l, r, matching_of(l, r)).0
                &&& state.change_positions@ == diff_of(l, r, matching_of(l, r)).1
            }),
    {
        let left_is_binary = match &left_data {
            Some(d) => is_binary(d.as_slice()),
            None => false,
        };
        let right_is_binary = match &right_data {
            Some(d) => is_binary(d.as_slice()),
            None => false,
        };
        if left_is_binary || right_is_binary {
            let mut diff_lines: Vec<DiffLine> = Vec::new();
            let line = DiffLine {
                left_line_no: None,
                left_content: Some(String::from_str("Binary file")),
                right_line_no: None,
                right_content: Some(String::from_str("Binary file")),
                line_status: DiffLineStatus::Same,
            };
            assert(line@ == binary_notice());
            diff_lines.push(line);
            assert(line_views(diff_lines@) =~= seq![binary_notice()]);
            return DiffFileViewState {
                left_path,
                right_path,
                diff_lines,
                scroll: 0,
                visible_height: 0,
                left_total_lines: 0,
                right_total_lines: 0,
                change_positions: Vec::new(),
                current_change: 0,
                file_name,
            };
        }
        let left_lines = lines_of_file(&left_data);
        let right_lines = lines_of_file(&right_data);
        assert(texts(left_lines@).len() == left_lines@.len());
        assert(texts(right_lines@).len() == right_lines@.len());
        let lcs = compute_lcs(left_lines.as_slice(), right_lines.as_slice());
        let (diff_lines, change_positions) = build_diff_lines(
            left_lines.as_slice(),
            right_lines.as_slice(),
            lcs.as_slice(),
        );
        DiffFileViewState {
            left_path,
            right_path,
            diff_lines,
            scroll: 0,
            visible_height: 0,
            left_total_lines: left_lines.len(),
            right_total_lines: right_lines.len(),
            change_positions,
            current_change: 0,
            file_name,
        }
    }
}

/// `a - b`, or 0 where `b` is the larger.
pub open spec fn minus(a: usize, b: usize) -> usize {
    if a >= b {
        (a - b) as usize
    } else {
        0
    }
}

/// The smaller of two numbers.
pub open spec fn smaller(a: usize, b: usize) -> usize {
    if a <= b {
        a
    } else {
        b
    }
}

/// The first line shown after the user has gone to the change at `target`:
/// a quarter of the screen above it, but never past the last screenful.
pub open spec fn scroll_for(target: usize, visible: usize, max_scroll: usize) -> usize {
    smaller(minus(target, (visible / 4) as usize), max_scroll)
}

fn sub_or_zero(a: usize, b: usize) -> (r: usize)
    ensures
        r == minus(a, b),
{
    if a >= b {
        a - b
    } else {
        0
    }
}

fn lesser(a: usize, b: usize) -> (r: usize)
    ensures
        r == smaller(a, b),
{
    if a <= b {
        a
    } else {
        b
    }
}

/// Takes a key while the comparison is shown: scrolls, or goes to the next
/// or the previous place where a change begins. Returns whether the user
/// asked to leave the comparison.
pub fn handle_input(state: &mut DiffFileViewState, key: DiffKey) -> (close: bool)
    requires
        old(state).wf(),
    ensures
        final(state).wf(),
        close == (key == DiffKey::Close),
        final(state).diff_lines == old(state).diff_lines,
        final(state).change_positions == old(state).change_positions,
        final(state).visible_height == old(state).visible_height,
        final(state).left_total_lines == old(state).left_total_lines,
        final(state).right_total_lines == old(state).right_total_lines,
        final(state).left_path == old(state).left_path,
        final(state).right_path == old(state).right_path,
        final(state).file_name == old(state).file_name,
        ({
            let visible = old(state).visible_height;
            let max_scroll = minus(old(state).diff_lines@.len() as usize, visible);
            let scroll = old(state).scroll;
            let n = old(state).change_positions@.len();
            let cur = old(state).current_change;
            match key {
                DiffKey::Up => final(state).scroll == minus(scroll, 1) && final(state).current_change
                    == cur,
                DiffKey::Down => final(state).scroll == (if scroll < max_scroll {
                    (scroll + 1) as usize
                } else {
                    scroll
                }) && final(state).current_change == cur,
                DiffKey::PageUp => final(state).scroll == minus(scroll, visible)
                    && final(state).current_change == cur,
                DiffKey::PageDown => final(state).scroll == (if scroll + visible <= max_scroll {
                    (scroll + visible) as usize
                } else {
                    max_scroll
                }) && final(state).current_change == cur,
                DiffKey::Home => final(state).scroll == 0 && final(state).current_change == cur,
                DiffKey::End => final(state).scroll == max_scroll && final(state).current_change
                    == cur,
                DiffKey::NextChange => if n == 0 {
                    final(state).scroll == scroll && final(state).current_change == cur
                } else {
                    &&& final(state).current_change == (if cur + 1 < n {
                        (cur + 1) as usize
                    } else {
                        cur
                    })
                    &&& final(state).scroll == scroll_for(
                        old(state).change_positions@[final(state).current_change as int],
                        visible,
                        max_scroll,
                    )
                },
                DiffKey::PreviousChange => if n == 0 {
                    final(state).scroll == scroll && final(state).current_change == cur
                } else {
                    &&& final(state).current_change == minus(cur, 1)
                    &&& final(state).scroll == scroll_for(
                        old(state).change_positions@[final(state).current_change as int],
                        visible,
                        max_scroll,
                    )
                },
                DiffKey::Close => final(state).scroll == scroll && final(state).current_change
                    == cur,
                DiffKey::Other => final(state).scroll == scroll && final(state).current_change
                    == cur,
            }
        }),
{
    let visible = state.visible_height;
    let total = state.diff_lines.len();
    let max_scroll = sub_or_zero(total, visible);
    match key {
        DiffKey::Up => {
            state.scroll = sub_or_zero(state.scroll, 1);
        },
        DiffKey::Down => {
            if state.scroll < max_scroll {
                state.scroll = state.scroll + 1;
            }
        },
        DiffKey::PageUp => {
            state.scroll = sub_or_zero(state.scroll, visible);
        },
        DiffKey::PageDown => {
            state.scroll = if state.scroll <= max_scroll && visible <= max_scroll - state.scroll {
                state.scroll + visible
            } else {
                max_scroll
            };
        },
        DiffKey::Home => {
            state.scroll = 0;
        },
        DiffKey::End => {
            state.scroll = max_scroll;
        },
        DiffKey::NextChange => {
            if state.change_positions.len() > 0 {
                if state.current_change + 1 < state.change_positions.len() {
                    state.current_change = state.current_change + 1;
                }
                let target = state.change_positions[state.current_change];
                state.scroll = lesser(sub_or_zero(target, visible / 4), max_scroll);
            }
        },
        DiffKey::PreviousChange => {
            if state.change_positions.len() > 0 {
                if state.current_change > 0 {
                    state.current_change = state.current_change - 1;
                }
                let target = state.change_positions[state.current_change];
                state.scroll = lesser(sub_or_zero(target, visible / 4), max_scroll);
            }
        },
        DiffKey::Close => {
            return true;
        },
        DiffKey::Other => {},
    }
    false
}

} // verus!
