use vstd::prelude::*;
use crate::config::Direction;
use crate::rng::{drew, lemma_drew_then, Rng};
use crate::store::HighScoreStore;

verus! {

pub const MAX_GRID_SIZE: usize = 5;
pub const MAX_CELLS: usize = 25;

#[derive(Debug, Clone, Copy, PartialEq, Eq, Structural)]
pub enum GridSize {
    Small,
    Classic,
    Large,
}

impl GridSize {
    pub open spec fn spec_size(self) -> usize {
        match self {
            GridSize::Small => 3,
            GridSize::Classic => 4,
            GridSize::Large => 5,
        }
    }

    /// Cells per side.
    pub fn size(self) -> (r: usize)
        ensures
            r == self.spec_size(),
            3 <= r <= MAX_GRID_SIZE,
    {
        match self {
            GridSize::Small => 3,
            GridSize::Classic => 4,
            GridSize::Large => 5,
        }
    }

    pub open spec fn spec_index(self) -> usize {
        match self {
            GridSize::Small => 0,
            GridSize::Classic => 1,
            GridSize::Large => 2,
        }
    }

    pub fn index(self) -> (r: usize)
        ensures
            r == self.spec_index(),
            r < 3,
    {
        match self {
            GridSize::Small => 0,
            GridSize::Classic => 1,
            GridSize::Large => 2,
        }
    }

    pub open spec fn spec_from_index(index: usize) -> GridSize {
        match index {
            0 => GridSize::Small,
            1 => GridSize::Classic,
            _ => GridSize::Large,
        }
    }

    /// The size of an index; indices past the last give `Large`.
    pub fn from_index(index: usize) -> (r: Self)
        ensures
            r == Self::spec_from_index(index),
    {
        match index {
            0 => GridSize::Small,
            1 => GridSize::Classic,
            _ => GridSize::Large,
        }
    }

    pub open spec fn spec_label(self) -> Seq<char> {
        match self {
            GridSize::Small => "3X3"@,
            GridSize::Classic => "4X4"@,
            GridSize::Large => "5X5"@,
        }
    }

    pub fn label(self) -> (r: &'static str)
        ensures
            r@ == self.spec_label(),
    {
        match self {
            GridSize::Small => "3X3",
            GridSize::Classic => "4X4",
            GridSize::Large => "5X5",
        }
    }
}

/// `from_index` undoes `index`.
pub proof fn lemma_grid_size_index_round_trip(size: GridSize)
    ensures
        GridSize::spec_from_index(size.spec_index()) == size,
{
}

#[derive(Debug, Clone, Copy, PartialEq, Eq, Structural)]
pub enum Game2048Mode {
    Choosing,
    Playing,
    Paused,
    GameOver,
}

#[derive(Debug, Clone, Copy, PartialEq, Eq, Structural)]
pub enum PauseAction {
    Continue,
    Exit,
}

#[derive(Debug, Clone, Copy, PartialEq, Eq, Structural)]
pub enum Game2048ChoosingField {
    Size,
    Exit,
}

#[derive(Debug, Clone, Copy, PartialEq, Eq, Structural)]
pub enum Game2048GameOverAction {
    Restart,
    Exit,
}

// ---------------------------------------------------------------------------
// The sliding rule on one line.

/// A merged tile: twice the value, in 16-bit arithmetic.
pub open spec fn doubled(v: u16) -> u16 {
    ((2 * v) % 0x1_0000) as u16
}

/// The non-empty tiles of a line, in order.
pub open spec fn compact(s: Seq<u16>) -> Seq<u16>
    decreases s.len(),
{
    if s.len() == 0 {
        seq![]
    } else if s.last() == 0 {
        compact(s.drop_last())
    } else {
        compact(s.drop_last()).push(s.last())
    }
}

/// Equal neighbours merge pairwise from the front; a merged tile does not
/// merge again.
pub open spec fn merged(s: Seq<u16>) -> Seq<u16>
    decreases s.len(),
{
    if s.len() == 0 {
        seq![]
    } else if s.len() >= 2 && s[0] == s[1] {
        seq![doubled(s[0])] + merged(s.skip(2))
    } else {
        seq![s[0]] + merged(s.skip(1))
    }
}

/// The points of the merges: the sum of the merged tiles.
pub open spec fn merge_score(s: Seq<u16>) -> int
    decreases s.len(),
{
    if s.len() == 0 {
        0
    } else if s.len() >= 2 && s[0] == s[1] {
        doubled(s[0]) + merge_score(s.skip(2))
    } else {
        merge_score(s.skip(1))
    }
}

/// `s` followed by zeros up to length `n`.
pub open spec fn pad_zeros(s: Seq<u16>, n: nat) -> Seq<u16> {
    Seq::new(n, |j: int| if j < s.len() { s[j] } else { 0u16 })
}

/// A line after sliding towards its front.
pub open spec fn slid(s: Seq<u16>) -> Seq<u16> {
    pad_zeros(merged(compact(s)), s.len())
}

/// The points a line scores when it slides.
pub open spec fn line_score(s: Seq<u16>) -> int {
    merge_score(compact(s))
}

/// Compacting a compacted line changes nothing.
proof fn lemma_compact_idempotent(s: Seq<u16>)
    ensures
        compact(compact(s)) == compact(s),
    decreases s.len(),
{
    if s.len() > 0 {
        lemma_compact_idempotent(s.drop_last());
        let c = compact(s.drop_last());
        if s.last() != 0 {
            assert(c.push(s.last()).drop_last() =~= c);
        }
    }
}

/// Sliding a line depends only on its tiles in order, not on the gaps
/// between them: the slid line starts with the compacted line slid (and
/// is zeros after it), and both score alike. So `[a, 0, a, 0]` slides like
/// `[a, a]`, to `[2a, 0, 0, 0]` scoring `2a`.
pub proof fn law_slide_ignores_gaps(s: Seq<u16>)
    ensures
        slid(s).take(compact(s).len() as int) == slid(compact(s)),
        forall|j: int| compact(s).len() <= j < s.len() ==> #[trigger] slid(s)[j] == 0,
        line_score(s) == line_score(compact(s)),
{
    lemma_compact_idempotent(s);
    lemma_compact_len(s);
    lemma_merged_len(compact(s));
    assert(slid(s).take(compact(s).len() as int) =~= slid(compact(s)));
}

/// A line of `k` tiles, each `a`.
pub open spec fn equal_tiles(a: u16, k: nat) -> Seq<u16> {
    Seq::new(k, |j: int| a)
}

/// A line of `k` equal tiles `a` pairs up from the front: it slides to
/// `k / 2` tiles `2a`, then one `a` when `k` is odd, then empty cells, and
/// scores `2a` for each pair. A merged tile never merges again, so four
/// `2`s give two `4`s, not one `8`, and three give `[4, 2]`, not `[2, 4]`.
pub proof fn law_equal_tiles_pair_up(a: u16, k: nat)
    requires
        0 < a < 0x8000,
    ensures
        slid(equal_tiles(a, k)).len() == k,
        forall|j: int| 0 <= j < k ==> #[trigger] slid(equal_tiles(a, k))[j] == (if j < k / 2 {
            2 * a
        } else if j < (k + 1) / 2 {
            a as int
        } else {
            0
        }),
        line_score(equal_tiles(a, k)) == (k / 2) * (2 * a),
{
    let line = equal_tiles(a, k);
    lemma_compact_all_tiles(a, k);
    lemma_merged_equal_tiles(a, k);
}

proof fn lemma_compact_all_tiles(a: u16, k: nat)
    requires
        a != 0,
    ensures
        compact(equal_tiles(a, k)) == equal_tiles(a, k),
    decreases k,
{
    if k > 0 {
        lemma_compact_all_tiles(a, (k - 1) as nat);
        assert(equal_tiles(a, k).drop_last() == equal_tiles(a, (k - 1) as nat));
        assert(equal_tiles(a, (k - 1) as nat).push(a) == equal_tiles(a, k));
    }
}

proof fn lemma_merged_equal_tiles(a: u16, k: nat)
    requires
        0 < a < 0x8000,
    ensures
        merged(equal_tiles(a, k)) == Seq::new(k / 2, |j: int| (2 * a) as u16) + Seq::new(k % 2, |j: int| a),
        merge_score(equal_tiles(a, k)) == (k / 2) * (2 * a),
    decreases k,
{
    let line = equal_tiles(a, k);
    if k >= 2 {
        lemma_merged_equal_tiles(a, (k - 2) as nat);
        assert(line.skip(2) == equal_tiles(a, (k - 2) as nat));
        assert(doubled(a) == (2 * a) as u16);
        assert(doubled(a) as int == 2 * a);
        assert(seq![(2 * a) as u16] + Seq::new(((k - 2) as nat) / 2, |j: int| (2 * a) as u16) == Seq::new(k / 2, |j: int| (2 * a) as u16));
        assert(((k - 2) as nat) % 2 == k % 2);
        assert(merged(line) == seq![doubled(a)] + merged(line.skip(2)));
        assert(merge_score(line) == doubled(a) + merge_score(line.skip(2)));
        let h: int = ((k - 2) as nat / 2) as int;
        assert(k / 2 == h + 1);
        assert((h + 1) * (2 * a) == 2 * a + h * (2 * a)) by (nonlinear_arith);
        assert(merge_score(line.skip(2)) == h * (2 * a));
        assert(merge_score(line) == (k / 2) * (2 * a));
        assert(merged(line) == Seq::new(k / 2, |j: int| (2 * a) as u16) + Seq::new(k % 2, |j: int| a));
    } else if k == 1 {
        assert(line.skip(1) == Seq::<u16>::empty());
        assert(merged(line) == seq![a] + merged(line.skip(1)));
        assert(merge_score(line) == merge_score(line.skip(1)));
        assert(merge_score(line.skip(1)) == 0);
        assert(k / 2 == 0);
        assert((k / 2) * (2 * a) == 0);
        assert(merge_score(line) == (k / 2) * (2 * a));
        assert(merged(line) == Seq::new(k / 2, |j: int| (2 * a) as u16) + Seq::new(k % 2, |j: int| a));
    } else {
        assert(merged(line) == Seq::new(k / 2, |j: int| (2 * a) as u16) + Seq::new(k % 2, |j: int| a));
    }
}

proof fn lemma_compact_len(s: Seq<u16>)
    ensures
        compact(s).len() <= s.len(),
    decreases s.len(),
{
    if s.len() > 0 {
        lemma_compact_len(s.drop_last());
    }
}

proof fn lemma_merged_len(s: Seq<u16>)
    ensures
        merged(s).len() <= s.len(),
    decreases s.len(),
{
    if s.len() >= 2 && s[0] == s[1] {
        lemma_merged_len(s.skip(2));
    } else if s.len() > 0 {
        lemma_merged_len(s.skip(1));
    }
}

proof fn lemma_merge_score_bound(s: Seq<u16>)
    ensures
        0 <= merge_score(s) <= 0xFFFF * s.len(),
    decreases s.len(),
{
    if s.len() >= 2 && s[0] == s[1] {
        lemma_merge_score_bound(s.skip(2));
    } else if s.len() > 0 {
        lemma_merge_score_bound(s.skip(1));
    }
}

/// The total of the tiles of a line.
pub open spec fn line_sum(s: Seq<u16>) -> int
    decreases s.len(),
{
    if s.len() == 0 {
        0
    } else {
        line_sum(s.drop_last()) + s.last()
    }
}

/// Every tile is below `bound`.
pub open spec fn tiles_below(s: Seq<u16>, bound: int) -> bool {
    forall|i: int| 0 <= i < s.len() ==> s[i] < bound
}

proof fn lemma_line_sum_single(x: u16)
    ensures
        line_sum(seq![x]) == x,
{
    assert(seq![x].drop_last() =~= Seq::<u16>::empty());
    assert(line_sum(Seq::<u16>::empty()) == 0);
}

proof fn lemma_line_sum_concat(a: Seq<u16>, b: Seq<u16>)
    ensures
        line_sum(a + b) == line_sum(a) + line_sum(b),
    decreases b.len(),
{
    if b.len() == 0 {
        assert(a + b =~= a);
    } else {
        assert((a + b).drop_last() =~= a + b.drop_last());
        lemma_line_sum_concat(a, b.drop_last());
    }
}

proof fn lemma_compact_keeps_sum(s: Seq<u16>, bound: int)
    ensures
        line_sum(compact(s)) == line_sum(s),
        tiles_below(s, bound) ==> tiles_below(compact(s), bound),
    decreases s.len(),
{
    if s.len() > 0 {
        lemma_compact_keeps_sum(s.drop_last(), bound);
        if s.last() != 0 {
            assert(compact(s).drop_last() =~= compact(s.drop_last()));
        }
        if tiles_below(s, bound) {
            assert(tiles_below(s.drop_last(), bound));
        }
    }
}

proof fn lemma_merged_keeps_sum(s: Seq<u16>)
    requires
        tiles_below(s, 0x8000),
    ensures
        line_sum(merged(s)) == line_sum(s),
    decreases s.len(),
{
    if s.len() == 0 {
    } else if s.len() >= 2 && s[0] == s[1] {
        assert(tiles_below(s.skip(2), 0x8000));
        lemma_merged_keeps_sum(s.skip(2));
        lemma_line_sum_concat(seq![doubled(s[0])], merged(s.skip(2)));
        assert(s =~= seq![s[0], s[1]] + s.skip(2));
        lemma_line_sum_concat(seq![s[0], s[1]], s.skip(2));
        assert(seq![s[0], s[1]].drop_last() =~= seq![s[0]]);
        assert(seq![s[0]].drop_last() =~= Seq::<u16>::empty());
        assert(seq![doubled(s[0])].drop_last() =~= Seq::<u16>::empty());
        assert(doubled(s[0]) == 2 * s[0]);
        lemma_line_sum_single(s[0]);
        lemma_line_sum_single(doubled(s[0]));
        lemma_line_sum_concat(seq![s[0]], seq![s[1]]);
        lemma_line_sum_single(s[1]);
        assert(seq![s[0]] + seq![s[1]] =~= seq![s[0], s[1]]);
        assert(merged(s) == seq![doubled(s[0])] + merged(s.skip(2)));
    } else {
        assert(tiles_below(s.skip(1), 0x8000));
        lemma_merged_keeps_sum(s.skip(1));
        lemma_line_sum_concat(seq![s[0]], merged(s.skip(1)));
        assert(s =~= seq![s[0]] + s.skip(1));
        lemma_line_sum_concat(seq![s[0]], s.skip(1));
        assert(seq![s[0]].drop_last() =~= Seq::<u16>::empty());
        lemma_line_sum_single(s[0]);
        assert(merged(s) == seq![s[0]] + merged(s.skip(1)));
    }
}

proof fn lemma_pad_keeps_sum(s: Seq<u16>, n: nat)
    requires
        s.len() <= n,
    ensures
        line_sum(pad_zeros(s, n)) == line_sum(s),
    decreases n,
{
    if n > s.len() {
        assert(pad_zeros(s, n).drop_last() =~= pad_zeros(s, (n - 1) as nat));
        lemma_pad_keeps_sum(s, (n - 1) as nat);
    } else {
        assert(pad_zeros(s, n) =~= s);
    }
}

/// Sliding a line keeps the total of its tiles: merging two tiles makes
/// one of their sum. (Tiles are 16-bit, so this holds while every tile is
/// below 32768, where no merge wraps around.)
pub proof fn law_slide_keeps_tile_sum(s: Seq<u16>)
    requires
        tiles_below(s, 0x8000),
    ensures
        line_sum(slid(s)) == line_sum(s),
{
    lemma_compact_keeps_sum(s, 0x8000);
    lemma_merged_keeps_sum(compact(s));
    lemma_compact_len(s);
    lemma_merged_len(compact(s));
    lemma_pad_keeps_sum(merged(compact(s)), s.len());
}

/// Slides one line of `size` tiles towards index 0 and returns the points.
fn slide_line(line: &mut [u16; 5], size: usize) -> (score: u32)
    requires
        size <= MAX_GRID_SIZE,
    ensures
        final(line)@.take(size as int) == slid(old(line)@.take(size as int)),
        final(line)@.skip(size as int) == old(line)@.skip(size as int),
        score == line_score(old(line)@.take(size as int)),
{
    let ghost input = line@.take(size as int);
    let mut compacted: [u16; 5] = [0, 0, 0, 0, 0];
    let mut compact_len: usize = 0;
    let mut k: usize = 0;
    while k < size
        invariant
            k <= size <= 5,
            line@.take(size as int) == input,
            compact_len <= k,
            compacted@.take(compact_len as int) == compact(input.take(k as int)),
        decreases size - k,
    {
        let value = line[k];
        proof {
            assert(input.take(k + 1).drop_last() == input.take(k as int));
            assert(input.take(k + 1).last() == value);
        }
        if value != 0 {
            compacted[compact_len] = value;
            assert(compacted@.take(compact_len + 1) == compacted@.take(compact_len as int).push(value));
            compact_len = compact_len + 1;
        }
        k = k + 1;
    }
    assert(input.take(size as int) == input);
    let ghost c = compacted@.take(compact_len as int);
    proof {
        lemma_compact_len(input);
        lemma_merged_len(c);
        lemma_merge_score_bound(c);
    }
    let mut result: [u16; 5] = [0, 0, 0, 0, 0];
    assert(c.skip(0) =~= c);
    assert(result@.take(0) =~= Seq::<u16>::empty());
    let mut result_len: usize = 0;
    let mut score: u32 = 0;
    let mut i: usize = 0;
    while i < compact_len
        invariant
            compact_len <= size <= 5,
            c == compacted@.take(compact_len as int),
            i <= compact_len,
            result_len <= i,
            merged(c) == result@.take(result_len as int) + merged(c.skip(i as int)),
            merge_score(c) == score + merge_score(c.skip(i as int)),
            0 <= merge_score(c) <= 0xFFFF * 5,
            forall|j: int| result_len <= j < 5 ==> result@[j] == 0,
        decreases compact_len - i,
    {
        let ghost rest = c.skip(i as int);
        proof {
            lemma_merge_score_bound(c.skip(i as int));
        }
        if i + 1 < compact_len && compacted[i] == compacted[i + 1] {
            let merged_tile = compacted[i].wrapping_mul(2);
            proof {
                assert(rest[0] == compacted@[i as int] && rest[1] == compacted@[i + 1]);
                assert(rest.skip(2) == c.skip(i + 2));
                assert(merged_tile == doubled(rest[0]));
                lemma_merge_score_bound(c.skip(i + 2));
            }
            let ghost before = result@.take(result_len as int);
            result[result_len] = merged_tile;
            assert(result@.take(result_len + 1) == before.push(merged_tile));
            score = score + merged_tile as u32;
            i = i + 2;
        } else {
            let value = compacted[i];
            proof {
                assert(rest[0] == value);
                assert(rest.skip(1) == c.skip(i + 1));
            }
            let ghost before = result@.take(result_len as int);
            result[result_len] = value;
            assert(result@.take(result_len + 1) == before.push(value));
            i = i + 1;
        }
        result_len = result_len + 1;
    }
    assert(c.skip(compact_len as int) =~= Seq::<u16>::empty());
    assert(merged(c) == result@.take(result_len as int));
    let ghost old_line = line@;
    let mut j: usize = 0;
    while j < size
        invariant
            j <= size <= 5,
            result_len <= size,
            merged(c) == result@.take(result_len as int),
            forall|t: int| result_len <= t < 5 ==> result@[t] == 0,
            forall|t: int| 0 <= t < j ==> line@[t] == result@[t],
            forall|t: int| j <= t < 5 ==> line@[t] == old_line[t],
        decreases size - j,
    {
        line[j] = result[j];
        j = j + 1;
    }
    proof {
        assert(c == compact(input));
        let m = merged(c);
        assert(m.len() == result_len);
        assert forall|t: int| 0 <= t < size implies line@.take(size as int)[t] == slid(input)[t] by {
            assert(line@[t] == result@[t]);
            if t < result_len {
                assert(m[t] == result@.take(result_len as int)[t]);
            }
        }
    }
    assert(line@.take(size as int) =~= slid(input));
    assert(line@.skip(size as int) =~= old_line.skip(size as int));
    score
}

// ---------------------------------------------------------------------------
// Lines of the grid.

/// The grid index of position `j` of line `k` when sliding in `dir`:
/// position 0 is the edge the tiles slide towards.
pub open spec fn line_index(size: int, dir: Direction, k: int, j: int) -> int {
    match dir {
        Direction::Left => k * 5 + j,
        Direction::Right => k * 5 + (size - 1 - j),
        Direction::Up => j * 5 + k,
        Direction::Down => (size - 1 - j) * 5 + k,
    }
}

/// Line `k` of the grid, read towards the sliding edge.
pub open spec fn grid_line(grid: Seq<u16>, size: int, dir: Direction, k: int) -> Seq<u16> {
    Seq::new(size as nat, |j: int| grid[line_index(size, dir, k, j)])
}

/// Which line a cell belongs to, and its position in it.
pub open spec fn cell_line(size: int, dir: Direction, row: int, col: int) -> (int, int) {
    match dir {
        Direction::Left => (row, col),
        Direction::Right => (row, size - 1 - col),
        Direction::Up => (col, row),
        Direction::Down => (col, size - 1 - row),
    }
}

/// The grid after every line slides in `dir`; cells outside the playing
/// area stay as they are.
pub open spec fn slid_grid(grid: Seq<u16>, size: int, dir: Direction) -> Seq<u16> {
    Seq::new(25, |p: int| {
        let row = p / 5;
        let col = p % 5;
        if row < size && col < size {
            let (k, j) = cell_line(size, dir, row, col);
            slid(grid_line(grid, size, dir, k))[j]
        } else {
            grid[p]
        }
    })
}

/// The points of all lines sliding in `dir`.
pub open spec fn grid_score(grid: Seq<u16>, size: int, dir: Direction, lines: int) -> int
    decreases lines,
{
    if lines <= 0 {
        0
    } else {
        grid_score(grid, size, dir, lines - 1) + line_score(grid_line(grid, size, dir, lines - 1))
    }
}

proof fn lemma_line_index_bounds(size: int, dir: Direction, k: int, j: int)
    requires
        3 <= size <= 5,
        0 <= k < size,
        0 <= j < size,
    ensures
        0 <= line_index(size, dir, k, j) < 25,
        line_index(size, dir, k, j) / 5 < size,
        line_index(size, dir, k, j) % 5 < size,
        cell_line(size, dir, line_index(size, dir, k, j) / 5, line_index(size, dir, k, j) % 5) == (k, j),
{
    let p = line_index(size, dir, k, j);
    match dir {
        Direction::Left => {
            assert(p / 5 == k && p % 5 == j) by {
                vstd::arithmetic::div_mod::lemma_fundamental_div_mod_converse(p, 5, k, j);
            }
        },
        Direction::Right => {
            assert(p / 5 == k && p % 5 == size - 1 - j) by {
                vstd::arithmetic::div_mod::lemma_fundamental_div_mod_converse(p, 5, k, size - 1 - j);
            }
        },
        Direction::Up => {
            assert(p / 5 == j && p % 5 == k) by {
                vstd::arithmetic::div_mod::lemma_fundamental_div_mod_converse(p, 5, j, k);
            }
        },
        Direction::Down => {
            assert(p / 5 == size - 1 - j && p % 5 == k) by {
                vstd::arithmetic::div_mod::lemma_fundamental_div_mod_converse(p, 5, size - 1 - j, k);
            }
        },
    }
}

proof fn lemma_cell_line_inverse(size: int, dir: Direction, p: int)
    requires
        3 <= size <= 5,
        0 <= p < 25,
        p / 5 < size,
        p % 5 < size,
    ensures
        ({
            let (k, j) = cell_line(size, dir, p / 5, p % 5);
            0 <= k < size && 0 <= j < size && line_index(size, dir, k, j) == p
        }),
{
    vstd::arithmetic::div_mod::lemma_fundamental_div_mod(p, 5);
}

/// Copies position `j` of line `k` into a line buffer.
fn extract_line(grid: &[u16; 25], size: usize, dir: Direction, k: usize) -> (line: [u16; 5])
    requires
        3 <= size <= 5,
        k < size,
    ensures
        line@.take(size as int) == grid_line(grid@, size as int, dir, k as int),
        forall|t: int| size <= t < 5 ==> line@[t] == 0,
{
    let mut line: [u16; 5] = [0, 0, 0, 0, 0];
    let mut j: usize = 0;
    while j < size
        invariant
            3 <= size <= 5,
            k < size,
            j <= size,
            forall|t: int| 0 <= t < j ==> line@[t] == grid@[line_index(size as int, dir, k as int, t)],
            forall|t: int| j <= t < 5 ==> line@[t] == 0,
        decreases size - j,
    {
        proof { lemma_line_index_bounds(size as int, dir, k as int, j as int); }
        let idx = grid_index(size, dir, k, j);
        line[j] = grid[idx];
        j = j + 1;
    }
    assert(line@.take(size as int) =~= grid_line(grid@, size as int, dir, k as int));
    line
}

fn grid_index(size: usize, dir: Direction, k: usize, j: usize) -> (r: usize)
    requires
        3 <= size <= 5,
        k < size,
        j < size,
    ensures
        r == line_index(size as int, dir, k as int, j as int),
        r < 25,
{
    proof { lemma_line_index_bounds(size as int, dir, k as int, j as int); }
    match dir {
        Direction::Left => k * 5 + j,
        Direction::Right => k * 5 + (size - 1 - j),
        Direction::Up => j * 5 + k,
        Direction::Down => (size - 1 - j) * 5 + k,
    }
}

/// Writes a line buffer back into line `k`.
fn write_line(grid: &mut [u16; 25], size: usize, dir: Direction, k: usize, line: &[u16; 5])
    requires
        3 <= size <= 5,
        k < size,
    ensures
        forall|p: int| 0 <= p < 25 ==> #[trigger] final(grid)@[p] == ({
            let (lk, lj) = cell_line(size as int, dir, p / 5, p % 5);
            if p / 5 < size && p % 5 < size && lk == k {
                line@[lj]
            } else {
                old(grid)@[p]
            }
        }),
{
    let ghost before = grid@;
    let mut j: usize = 0;
    while j < size
        invariant
            3 <= size <= 5,
            k < size,
            j <= size,
            forall|p: int| 0 <= p < 25 ==> #[trigger] grid@[p] == ({
                let (lk, lj) = cell_line(size as int, dir, p / 5, p % 5);
                if p / 5 < size && p % 5 < size && lk == k && lj < j {
                    line@[lj]
                } else {
                    before[p]
                }
            }),
        decreases size - j,
    {
        let idx = grid_index(size, dir, k, j);
        proof { lemma_line_index_bounds(size as int, dir, k as int, j as int); }
        grid[idx] = line[j];
        proof {
            assert forall|p: int| 0 <= p < 25 implies #[trigger] grid@[p] == ({
                let (lk, lj) = cell_line(size as int, dir, p / 5, p % 5);
                if p / 5 < size && p % 5 < size && lk == k && lj < j + 1 {
                    line@[lj]
                } else {
                    before[p]
                }
            }) by {
                if p / 5 < size && p % 5 < size {
                    lemma_cell_line_inverse(size as int, dir, p);
                }
            }
        }
        j = j + 1;
    }
}

/// The abstract state of a 2048 game. The grid is kept 5 by 5; a smaller
/// game uses its top-left corner.
pub struct Game2048State {
    pub grid: Seq<u16>,
    pub score: u32,
    pub best_score: u32,
    pub grid_size: GridSize,
    pub mode: Game2048Mode,
    pub pause_action: PauseAction,
    pub choosing_field: Game2048ChoosingField,
    pub game_over_action: Game2048GameOverAction,
}

#[derive(Debug, Clone)]
pub struct Game2048 {
    grid: [u16; 25],
    score: u32,
    best_score: u32,
    grid_size: GridSize,
    mode: Game2048Mode,
    pause_action: PauseAction,
    choosing_field: Game2048ChoosingField,
    game_over_action: Game2048GameOverAction,
}

impl View for Game2048 {
    type V = Game2048State;

    closed spec fn view(&self) -> Game2048State {
        Game2048State {
            grid: self.grid@,
            score: self.score,
            best_score: self.best_score,
            grid_size: self.grid_size,
            mode: self.mode,
            pause_action: self.pause_action,
            choosing_field: self.choosing_field,
            game_over_action: self.game_over_action,
        }
    }
}

/// An empty 5 by 5 grid.
pub open spec fn empty_grid() -> Seq<u16> {
    Seq::new(25, |p: int| 0u16)
}

/// A cell of the playing area is empty.
pub open spec fn has_empty_cell(grid: Seq<u16>, size: int) -> bool {
    exists|r: int, c: int| 0 <= r < size && 0 <= c < size && #[trigger] grid[r * 5 + c] == 0
}

/// Two neighbours in a row or a column of the playing area are equal.
pub open spec fn has_equal_neighbours(grid: Seq<u16>, size: int) -> bool {
    exists|r: int, c: int|
        0 <= r < size && 0 <= c < size && (
            (c + 1 < size && #[trigger] grid[r * 5 + c] == grid[r * 5 + c + 1])
            || (r + 1 < size && grid[r * 5 + c] == grid[(r + 1) * 5 + c]))
}

/// Neither an empty cell nor two equal neighbours are left: no move can
/// change the board.
pub open spec fn spec_is_game_over(s: Game2048State) -> bool {
    let size = s.grid_size.spec_size() as int;
    !has_empty_cell(s.grid, size) && !has_equal_neighbours(s.grid, size)
}

/// The state after sliding toward `dir`: the slid grid, and the merged
/// values added to the score (wrapping at 2^32).
pub open spec fn spec_slid(s: Game2048State, dir: Direction) -> Game2048State {
    let size = s.grid_size.spec_size() as int;
    Game2048State {
        grid: slid_grid(s.grid, size, dir),
        score: ((s.score + grid_score(s.grid, size, dir, size)) % 0x1_0000_0000) as u32,
        ..s
    }
}

/// `after` is `before` with one empty cell of the playing area turned into
/// a 2 or a 4; with no empty cell left, `after` is `before`.
/// Cell `p` of the grid lies in the playing area of `size` columns and rows.
pub open spec fn in_area(p: int, size: int) -> bool {
    0 <= p < 25 && p / 5 < size && p % 5 < size
}

/// The empty cells of the playing area among the first `p` grid cells, in
/// order.
pub open spec fn empty_upto(grid: Seq<u16>, size: int, p: int) -> Seq<usize>
    decreases p,
{
    if p <= 0 {
        Seq::empty()
    } else {
        let prev = empty_upto(grid, size, p - 1);
        if in_area(p - 1, size) && grid[p - 1] == 0 { prev.push((p - 1) as usize) } else { prev }
    }
}

/// The empty cells of the playing area, as grid indices in row-major order.
pub open spec fn empty_cells(grid: Seq<u16>, size: int) -> Seq<usize> {
    empty_upto(grid, size, 25)
}

/// The game after the draws put a tile: the `cell`-th empty cell becomes 4
/// when `value_draw` is 0, and 2 otherwise.
pub open spec fn spec_place_from_draws(s: Game2048State, cell: int, value_draw: int) -> Game2048State {
    let p = empty_cells(s.grid, s.grid_size.spec_size() as int)[cell] as int;
    Game2048State { grid: s.grid.update(p, if value_draw == 0 { 4u16 } else { 2u16 }), ..s }
}

/// Cells outside the playing area add nothing to the list.
proof fn lemma_empty_upto_skip(grid: Seq<u16>, size: int, from: int, to: int)
    requires
        from <= to,
        forall|q: int| from <= q < to ==> !#[trigger] in_area(q, size),
    ensures
        empty_upto(grid, size, to) == empty_upto(grid, size, from),
    decreases to - from,
{
    if to > from {
        lemma_empty_upto_skip(grid, size, from, to - 1);
        assert(!in_area(to - 1, size));
    }
}

/// The cells past the playing area's columns at the end of a row add nothing.
proof fn lemma_empty_upto_row_end(grid: Seq<u16>, size: int, row: int)
    requires
        3 <= size <= 5,
        0 <= row < 5,
    ensures
        empty_upto(grid, size, row * 5 + 5) == empty_upto(grid, size, row * 5 + size),
{
    assert forall|q: int| row * 5 + size <= q < row * 5 + 5 implies !#[trigger] in_area(q, size) by {
        vstd::arithmetic::div_mod::lemma_fundamental_div_mod_converse(q, 5, row, q - row * 5);
    }
    lemma_empty_upto_skip(grid, size, row * 5 + size, row * 5 + 5);
}

/// The rows past the playing area add nothing.
proof fn lemma_empty_upto_past_area(grid: Seq<u16>, size: int)
    requires
        3 <= size <= 5,
    ensures
        empty_upto(grid, size, 25) == empty_upto(grid, size, size * 5),
{
    assert forall|q: int| size * 5 <= q < 25 implies !#[trigger] in_area(q, size) by {
        vstd::arithmetic::div_mod::lemma_fundamental_div_mod(q, 5);
    }
    lemma_empty_upto_skip(grid, size, size * 5, 25);
}

/// Each listed cell is an empty cell of the playing area.
proof fn lemma_empty_upto_cells(grid: Seq<u16>, size: int, p: int)
    requires
        p <= 25,
    ensures
        forall|t: int| 0 <= t < empty_upto(grid, size, p).len() ==> {
            let q = #[trigger] empty_upto(grid, size, p)[t] as int;
            in_area(q, size) && grid[q] == 0
        },
    decreases p,
{
    if p > 0 {
        lemma_empty_upto_cells(grid, size, p - 1);
        let prev = empty_upto(grid, size, p - 1);
        let cur = empty_upto(grid, size, p);
        assert forall|t: int| 0 <= t < cur.len() implies {
            let q = #[trigger] cur[t] as int;
            in_area(q, size) && grid[q] == 0
        } by {
            if t < prev.len() {
                assert(cur[t] == prev[t]);
            }
        }
    }
}

/// An empty cell of the playing area before `p` is listed.
proof fn lemma_empty_upto_complete(grid: Seq<u16>, size: int, p: int)
    requires
        p <= 25,
    ensures
        forall|q: int| 0 <= q < p && in_area(q, size) && grid[q] == 0 ==> #[trigger] empty_upto(grid, size, p).contains(q as usize),
    decreases p,
{
    if p > 0 {
        lemma_empty_upto_complete(grid, size, p - 1);
        let prev = empty_upto(grid, size, p - 1);
        assert forall|q: int| 0 <= q < p && in_area(q, size) && grid[q] == 0 implies #[trigger] empty_upto(grid, size, p).contains(q as usize) by {
            if q < p - 1 {
                assert(prev.contains(q as usize));
                let t = choose|t: int| 0 <= t < prev.len() && prev[t] == q as usize;
                assert(empty_upto(grid, size, p)[t] == q as usize);
            } else {
                assert(empty_upto(grid, size, p)[prev.len() as int] == q as usize);
            }
        }
    }
}

pub open spec fn spec_placed(before: Game2048State, after: Game2048State) -> bool {
    let size = before.grid_size.spec_size() as int;
    if !has_empty_cell(before.grid, size) {
        after == before
    } else {
        exists|r: int, c: int| #![trigger before.grid[r * 5 + c]] {
            &&& 0 <= r < size && 0 <= c < size
            &&& before.grid[r * 5 + c] == 0
            &&& (after.grid[r * 5 + c] == 2 || after.grid[r * 5 + c] == 4)
            &&& after == (Game2048State { grid: before.grid.update(r * 5 + c, after.grid[r * 5 + c]), ..before })
        }
    }
}

/// The better of the score and the best score kept as the best.
pub open spec fn spec_best_kept(s: Game2048State) -> Game2048State {
    Game2048State { best_score: if s.score > s.best_score { s.score } else { s.best_score }, ..s }
}

/// The store after the score of `s` was offered as its grid size's best.
pub open spec fn spec_store_offered<H: HighScoreStore>(s: Game2048State, before: &H, after: &H) -> bool {
    &&& forall|i: int| #[trigger] after.game2048_best(i) == (
        if i == s.grid_size.spec_index() && s.score > before.game2048_best(i) {
            s.score
        } else {
            before.game2048_best(i)
        })
    &&& after.flags_best() == before.flags_best()
    &&& forall|i: int| #[trigger] after.snake_best(i) == before.snake_best(i)
    &&& after.flappy_best() == before.flappy_best()
    &&& after.mario_best() == before.mario_best()
}

/// A fresh game on the grid size of `s`: two tiles on an empty board, the
/// score zero and the size's stored best.
pub open spec fn spec_started<H: HighScoreStore>(s: Game2048State, after: Game2048State, store: &H) -> bool {
    let blank = Game2048State {
        grid: empty_grid(),
        score: 0,
        mode: Game2048Mode::Playing,
        best_score: store.game2048_best(s.grid_size.spec_index() as int),
        ..s
    };
    exists|mid: Game2048State| spec_placed(blank, mid) && #[trigger] spec_placed(mid, after)
}

impl Default for Game2048 {
    /// An empty 4 by 4 game in its setup screen.
    fn default() -> (r: Self)
        ensures
            r@ == (Game2048State {
                grid: empty_grid(),
                score: 0,
                best_score: 0,
                grid_size: GridSize::Classic,
                mode: Game2048Mode::Choosing,
                pause_action: PauseAction::Continue,
                choosing_field: Game2048ChoosingField::Size,
                game_over_action: Game2048GameOverAction::Restart,
            }),
    {
        let r = Game2048 {
            grid: [0; 25],
            score: 0,
            best_score: 0,
            grid_size: GridSize::Classic,
            mode: Game2048Mode::Choosing,
            pause_action: PauseAction::Continue,
            choosing_field: Game2048ChoosingField::Size,
            game_over_action: Game2048GameOverAction::Restart,
        };
        assert(r.grid@ =~= empty_grid());
        r
    }
}

impl Game2048 {
    /// Back to the setup screen with the best score of the grid size.
    pub fn enter_choosing<H: HighScoreStore>(&mut self, high_scores: &H)
        ensures
            final(self)@ == (Game2048State {
                mode: Game2048Mode::Choosing,
                best_score: high_scores.game2048_best(old(self)@.grid_size.spec_index() as int),
                pause_action: PauseAction::Continue,
                choosing_field: Game2048ChoosingField::Size,
                game_over_action: Game2048GameOverAction::Restart,
                ..old(self)@
            }),
    {
        self.mode = Game2048Mode::Choosing;
        self.refresh_best_score(high_scores);
        self.pause_action = PauseAction::Continue;
        self.choosing_field = Game2048ChoosingField::Size;
        self.game_over_action = Game2048GameOverAction::Restart;
    }

    pub fn refresh_best_score<H: HighScoreStore>(&mut self, high_scores: &H)
        ensures
            final(self)@ == (Game2048State {
                best_score: high_scores.game2048_best(old(self)@.grid_size.spec_index() as int),
                ..old(self)@
            }),
    {
        self.best_score = high_scores.game2048_best_score(self.grid_size);
    }

    pub fn mode(&self) -> (r: Game2048Mode)
        ensures
            r == self@.mode,
    {
        self.mode
    }

    pub fn grid_size(&self) -> (r: GridSize)
        ensures
            r == self@.grid_size,
    {
        self.grid_size
    }

    pub fn score(&self) -> (r: u32)
        ensures
            r == self@.score,
    {
        self.score
    }

    pub fn best_score(&self) -> (r: u32)
        ensures
            r == self@.best_score,
    {
        self.best_score
    }

    pub fn pause_action(&self) -> (r: PauseAction)
        ensures
            r == self@.pause_action,
    {
        self.pause_action
    }

    pub fn choosing_field(&self) -> (r: Game2048ChoosingField)
        ensures
            r == self@.choosing_field,
    {
        self.choosing_field
    }

    pub fn game_over_action(&self) -> (r: Game2048GameOverAction)
        ensures
            r == self@.game_over_action,
    {
        self.game_over_action
    }

    pub fn grid(&self) -> (r: &[u16; 25])
        ensures
            r@ == self@.grid,
    {
        &self.grid
    }

    /// The tile at a row and column of the 5 by 5 grid; 0 is empty.
    pub fn cell(&self, row: usize, col: usize) -> (r: u16)
        requires
            row < MAX_GRID_SIZE,
            col < MAX_GRID_SIZE,
        ensures
            r == self@.grid[row * 5 + col],
    {
        self.grid[row * MAX_GRID_SIZE + col]
    }

    /// Replaces the whole grid.
    pub fn set_grid(&mut self, grid: [u16; 25])
        ensures
            final(self)@ == (Game2048State { grid: grid@, ..old(self)@ }),
    {
        self.grid = grid;
    }

    pub fn set_grid_size(&mut self, grid_size: GridSize)
        ensures
            final(self)@ == (Game2048State { grid_size, ..old(self)@ }),
    {
        self.grid_size = grid_size;
    }

    pub fn set_mode(&mut self, mode: Game2048Mode)
        ensures
            final(self)@ == (Game2048State { mode, ..old(self)@ }),
    {
        self.mode = mode;
    }

    pub fn set_pause_action(&mut self, pause_action: PauseAction)
        ensures
            final(self)@ == (Game2048State { pause_action, ..old(self)@ }),
    {
        self.pause_action = pause_action;
    }

    pub fn set_choosing_field(&mut self, choosing_field: Game2048ChoosingField)
        ensures
            final(self)@ == (Game2048State { choosing_field, ..old(self)@ }),
    {
        self.choosing_field = choosing_field;
    }

    pub fn set_game_over_action(&mut self, game_over_action: Game2048GameOverAction)
        ensures
            final(self)@ == (Game2048State { game_over_action, ..old(self)@ }),
    {
        self.game_over_action = game_over_action;
    }

    pub fn set_score(&mut self, score: u32)
        ensures
            final(self)@ == (Game2048State { score, ..old(self)@ }),
    {
        self.score = score;
    }

    /// Steps the grid size by `delta`, stopping at the smallest and largest.
    pub fn adjust_grid_size(&mut self, delta: i32) -> (r: bool)
        ensures
            ({
                let idx = old(self)@.grid_size.spec_index() + delta;
                let new_idx = if idx < 0 { 0 } else if idx > 2 { 2 } else { idx };
                let new_size = GridSize::spec_from_index(new_idx as usize);
                &&& r == (new_size != old(self)@.grid_size)
                &&& final(self)@ == (Game2048State { grid_size: new_size, ..old(self)@ })
            }),
    {
        let current_index = self.grid_size.index() as i64;
        let wanted = current_index + delta as i64;
        let new_index: usize = if wanted < 0 {
            0
        } else if wanted > 2 {
            2
        } else {
            wanted as usize
        };
        let new_size = GridSize::from_index(new_index);
        if new_size == self.grid_size {
            return false;
        }
        self.grid_size = new_size;
        true
    }

    /// The switch starts a game from setup, pauses a game, acts on the pause
    /// menu, and leaves a finished game for setup. It always reports a change.
    pub fn press_switch<H: HighScoreStore, R: Rng>(&mut self, high_scores: &mut H, rng: &mut R) -> (r: bool)
        ensures
            r,
            *final(high_scores) == *old(high_scores),
            old(self)@.mode == Game2048Mode::Choosing ==> spec_started(old(self)@, final(self)@, old(high_scores)),
            old(self)@.mode == Game2048Mode::Playing ==> final(self)@ == (Game2048State {
                mode: Game2048Mode::Paused,
                pause_action: PauseAction::Continue,
                ..old(self)@
            }),
            old(self)@.mode == Game2048Mode::Paused && old(self)@.pause_action == PauseAction::Continue
                ==> final(self)@ == (Game2048State { mode: Game2048Mode::Playing, ..old(self)@ }),
            (old(self)@.mode == Game2048Mode::GameOver || (old(self)@.mode == Game2048Mode::Paused
                && old(self)@.pause_action == PauseAction::Exit)) ==> final(self)@ == (Game2048State {
                mode: Game2048Mode::Choosing,
                best_score: old(high_scores).game2048_best(old(self)@.grid_size.spec_index() as int),
                pause_action: PauseAction::Continue,
                choosing_field: Game2048ChoosingField::Size,
                game_over_action: Game2048GameOverAction::Restart,
                ..old(self)@
            }),
    {
        match self.mode {
            Game2048Mode::Choosing => {
                self.start_new_game(high_scores, rng);
                true
            },
            Game2048Mode::Playing => {
                self.mode = Game2048Mode::Paused;
                self.pause_action = PauseAction::Continue;
                true
            },
            Game2048Mode::Paused => {
                match self.pause_action {
                    PauseAction::Continue => {
                        self.mode = Game2048Mode::Playing;
                    },
                    PauseAction::Exit => {
                        self.enter_choosing(high_scores);
                    },
                }
                true
            },
            Game2048Mode::GameOver => {
                self.enter_choosing(high_scores);
                true
            },
        }
    }

    pub fn cycle_pause_action(&mut self)
        ensures
            final(self)@ == (Game2048State {
                pause_action: if old(self)@.pause_action == PauseAction::Continue {
                    PauseAction::Exit
                } else {
                    PauseAction::Continue
                },
                ..old(self)@
            }),
    {
        self.pause_action = match self.pause_action {
            PauseAction::Continue => PauseAction::Exit,
            PauseAction::Exit => PauseAction::Continue,
        };
    }

    pub fn cycle_choosing_field(&mut self)
        ensures
            final(self)@ == (Game2048State {
                choosing_field: if old(self)@.choosing_field == Game2048ChoosingField::Size {
                    Game2048ChoosingField::Exit
                } else {
                    Game2048ChoosingField::Size
                },
                ..old(self)@
            }),
    {
        self.choosing_field = match self.choosing_field {
            Game2048ChoosingField::Size => Game2048ChoosingField::Exit,
            Game2048ChoosingField::Exit => Game2048ChoosingField::Size,
        };
    }

    pub fn cycle_game_over_action(&mut self)
        ensures
            final(self)@ == (Game2048State {
                game_over_action: if old(self)@.game_over_action == Game2048GameOverAction::Restart {
                    Game2048GameOverAction::Exit
                } else {
                    Game2048GameOverAction::Restart
                },
                ..old(self)@
            }),
    {
        self.game_over_action = match self.game_over_action {
            Game2048GameOverAction::Restart => Game2048GameOverAction::Exit,
            Game2048GameOverAction::Exit => Game2048GameOverAction::Restart,
        };
    }

    /// Moves the setup cursor from the size down to exit.
    pub fn select_next_choosing_field(&mut self) -> (r: bool)
        ensures
            r == (old(self)@.choosing_field == Game2048ChoosingField::Size),
            final(self)@ == (Game2048State { choosing_field: Game2048ChoosingField::Exit, ..old(self)@ }),
    {
        if self.choosing_field == Game2048ChoosingField::Size {
            self.choosing_field = Game2048ChoosingField::Exit;
            true
        } else {
            false
        }
    }

    /// Moves the setup cursor from exit up to the size.
    pub fn select_previous_choosing_field(&mut self) -> (r: bool)
        ensures
            r == (old(self)@.choosing_field == Game2048ChoosingField::Exit),
            final(self)@ == (Game2048State { choosing_field: Game2048ChoosingField::Size, ..old(self)@ }),
    {
        if self.choosing_field == Game2048ChoosingField::Exit {
            self.choosing_field = Game2048ChoosingField::Size;
            true
        } else {
            false
        }
    }

    /// Slides all tiles of the playing area towards `direction`, merging
    /// equal neighbours once. When the grid changes, the merges' points are
    /// added to the score and the move counts; otherwise nothing changes.
    pub fn slide(&mut self, direction: Direction) -> (r: bool)
        ensures
            old(self)@.mode != Game2048Mode::Playing ==> !r && final(self)@ == old(self)@,
            old(self)@.mode == Game2048Mode::Playing ==> ({
                let size = old(self)@.grid_size.spec_size() as int;
                let new_grid = slid_grid(old(self)@.grid, size, direction);
                let points = grid_score(old(self)@.grid, size, direction, size);
                &&& r == (new_grid != old(self)@.grid)
                &&& r ==> final(self)@ == (Game2048State {
                    grid: new_grid,
                    score: ((old(self)@.score + points) % 0x1_0000_0000) as u32,
                    ..old(self)@
                })
                &&& !r ==> final(self)@ == old(self)@
            }),
    {
        if self.mode != Game2048Mode::Playing {
            return false;
        }
        let size = self.grid_size.size();
        let old_grid = self.grid;
        let ghost g0 = self.grid@;
        let mut grid = self.grid;
        let mut total_score: u32 = 0;
        let mut k: usize = 0;
        while k < size
            invariant
                3 <= size <= 5,
                k <= size,
                g0.len() == 25,
                0 <= total_score == grid_score(g0, size as int, direction, k as int) <= 0xFFFF * 5 * k,
                forall|p: int| 0 <= p < 25 ==> #[trigger] grid@[p] == ({
                    let (lk, lj) = cell_line(size as int, direction, p / 5, p % 5);
                    if p / 5 < size && p % 5 < size && lk < k {
                        slid(grid_line(g0, size as int, direction, lk))[lj]
                    } else {
                        g0[p]
                    }
                }),
            decreases size - k,
        {
            let mut line = extract_line(&grid, size, direction, k);
            proof {
                assert(grid_line(grid@, size as int, direction, k as int) =~= grid_line(g0, size as int, direction, k as int)) by {
                    assert forall|j: int| 0 <= j < size implies grid@[line_index(size as int, direction, k as int, j)]
                        == g0[line_index(size as int, direction, k as int, j)] by {
                        lemma_line_index_bounds(size as int, direction, k as int, j);
                    }
                }
                lemma_merge_score_bound(compact(grid_line(g0, size as int, direction, k as int)));
                lemma_compact_len(grid_line(g0, size as int, direction, k as int));
            }
            let line_points = slide_line(&mut line, size);
            let ghost before = grid@;
            write_line(&mut grid, size, direction, k, &line);
            proof {
                assert forall|p: int| 0 <= p < 25 implies #[trigger] grid@[p] == ({
                    let (lk, lj) = cell_line(size as int, direction, p / 5, p % 5);
                    if p / 5 < size && p % 5 < size && lk < k + 1 {
                        slid(grid_line(g0, size as int, direction, lk))[lj]
                    } else {
                        g0[p]
                    }
                }) by {
                    if p / 5 < size && p % 5 < size {
                        lemma_cell_line_inverse(size as int, direction, p);
                        let (lk, lj) = cell_line(size as int, direction, p / 5, p % 5);
                        if lk == k {
                            assert(line@.take(size as int)[lj] == line@[lj]);
                        }
                    }
                }
            }
            total_score = total_score + line_points;
            k = k + 1;
        }
        proof {
            assert(grid@ =~= slid_grid(g0, size as int, direction)) by {
                assert forall|p: int| 0 <= p < 25 implies grid@[p] == slid_grid(g0, size as int, direction)[p] by {
                    if p / 5 < size && p % 5 < size {
                        lemma_cell_line_inverse(size as int, direction, p);
                    }
                }
            }
        }
        if !grids_equal(&grid, &old_grid) {
            self.grid = grid;
            self.score = self.score.wrapping_add(total_score);
            true
        } else {
            false
        }
    }

    /// The empty cells of the playing area, in row-major order.
    fn empty_cell_list(&self) -> (r: Vec<usize>)
        ensures
            r@ == empty_cells(self@.grid, self@.grid_size.spec_size() as int),
    {
        let size = self.grid_size.size();
        let ghost g = self@.grid;
        let mut empty_indices: Vec<usize> = Vec::new();
        let mut row: usize = 0;
        while row < size
            invariant
                3 <= size <= 5,
                size == self@.grid_size.spec_size(),
                g == self@.grid,
                row <= size,
                empty_indices@ == empty_upto(g, size as int, row * 5),
            decreases size - row,
        {
            let mut col: usize = 0;
            while col < size
                invariant
                    3 <= size <= 5,
                    size == self@.grid_size.spec_size(),
                    g == self@.grid,
                    row < size,
                    col <= size,
                    empty_indices@ == empty_upto(g, size as int, row * 5 + col),
                decreases size - col,
            {
                let idx = row * MAX_GRID_SIZE + col;
                proof {
                    vstd::arithmetic::div_mod::lemma_fundamental_div_mod_converse(idx as int, 5, row as int, col as int);
                }
                if self.grid[idx] == 0 {
                    empty_indices.push(idx);
                }
                col = col + 1;
            }
            proof { lemma_empty_upto_row_end(g, size as int, row as int); }
            row = row + 1;
        }
        proof { lemma_empty_upto_past_area(g, size as int); }
        empty_indices
    }

    /// Puts the tile that the draws pick: the `cell_draw`-th empty cell of
    /// the playing area (in row-major order) becomes 4 when `value_draw` is
    /// 0, and 2 otherwise.
    pub fn place_tile_from_draws(&mut self, cell_draw: usize, value_draw: usize)
        requires
            cell_draw < empty_cells(old(self)@.grid, old(self)@.grid_size.spec_size() as int).len(),
        ensures
            final(self)@ == spec_place_from_draws(old(self)@, cell_draw as int, value_draw as int),
            spec_placed(old(self)@, final(self)@),
    {
        let empty = self.empty_cell_list();
        let pos = empty[cell_draw];
        let value: u16 = if value_draw == 0 { 4 } else { 2 };
        proof {
            let size = self@.grid_size.spec_size() as int;
            lemma_empty_upto_cells(self@.grid, size, 25);
            assert(in_area(pos as int, size) && self@.grid[pos as int] == 0);
            vstd::arithmetic::div_mod::lemma_fundamental_div_mod(pos as int, 5);
        }
        let ghost before = self@;
        self.grid[pos] = value;
        proof {
            let r = pos as int / 5;
            let c = pos as int % 5;
            assert(r * 5 + c == pos);
            assert(before.grid[r * 5 + c] == 0);
            assert(self@.grid =~= before.grid.update(pos as int, value));
            assert(self@ == (Game2048State { grid: before.grid.update(r * 5 + c, self@.grid[r * 5 + c]), ..before }));
        }
    }

    /// Puts a 2 (nine times in ten) or a 4 on a random empty cell of the
    /// playing area; a full area stays as it is and draws nothing.
    pub fn place_random_tile<R: Rng>(&mut self, rng: &mut R)
        ensures
            spec_placed(old(self)@, final(self)@),
            empty_cells(old(self)@.grid, old(self)@.grid_size.spec_size() as int).len() == 0
                ==> final(self)@ == old(self)@ && *final(rng) == *old(rng),
            ({
                let empty = empty_cells(old(self)@.grid, old(self)@.grid_size.spec_size() as int);
                empty.len() > 0 && old(rng).predictable() ==> {
                    &&& drew(*old(rng), *final(rng), 2)
                    &&& final(self)@ == spec_place_from_draws(old(self)@,
                        old(rng).upcoming(0) as int % empty.len() as int, old(rng).upcoming(1) as int % 10)
                }
            }),
    {
        let count = self.empty_cell_list().len();
        if count == 0 {
            proof {
                let size = self@.grid_size.spec_size() as int;
                lemma_empty_upto_complete(self@.grid, size, 25);
                if has_empty_cell(self@.grid, size) {
                    let (r, c) = choose|r: int, c: int| 0 <= r < size && 0 <= c < size && #[trigger] self@.grid[r * 5 + c] == 0;
                    vstd::arithmetic::div_mod::lemma_fundamental_div_mod_converse(r * 5 + c, 5, r, c);
                    assert(in_area(r * 5 + c, size));
                    assert(empty_upto(self@.grid, size, 25).contains((r * 5 + c) as usize));
                }
            }
            return;
        }
        let ghost r0 = *rng;
        let cell_draw = rng.index(count);
        let ghost r1 = *rng;
        let value_draw = rng.index(10);
        proof {
            if r0.predictable() {
                assert(r1.upcoming(0) == r0.upcoming(1));
                lemma_drew_then(r0, r1, *rng, 1, 1);
            }
        }
        self.place_tile_from_draws(cell_draw, value_draw);
    }

    /// No empty cell and no equal neighbours remain in the playing area.
    pub fn is_game_over(&self) -> (r: bool)
        ensures
            r == (!has_empty_cell(self@.grid, self@.grid_size.spec_size() as int)
                && !has_equal_neighbours(self@.grid, self@.grid_size.spec_size() as int)),
    {
        let size = self.grid_size.size();
        let mut row: usize = 0;
        while row < size
            invariant
                3 <= size <= 5,
                size == self@.grid_size.spec_size(),
                row <= size,
                forall|r: int, c: int| 0 <= r < row && 0 <= c < size ==> #[trigger] self.grid@[r * 5 + c] != 0,
                forall|r: int, c: int| 0 <= r < row && 0 <= c < size ==> (
                    (c + 1 < size ==> #[trigger] self.grid@[r * 5 + c] != self.grid@[r * 5 + c + 1])
                    && (r + 1 < size ==> self.grid@[r * 5 + c] != self.grid@[(r + 1) * 5 + c])),
            decreases size - row,
        {
            let mut col: usize = 0;
            while col < size
                invariant
                    3 <= size <= 5,
                    size == self@.grid_size.spec_size(),
                    row < size,
                    col <= size,
                    forall|r: int, c: int| 0 <= r < row && 0 <= c < size ==> #[trigger] self.grid@[r * 5 + c] != 0,
                    forall|r: int, c: int| 0 <= r < row && 0 <= c < size ==> (
                        (c + 1 < size ==> #[trigger] self.grid@[r * 5 + c] != self.grid@[r * 5 + c + 1])
                        && (r + 1 < size ==> self.grid@[r * 5 + c] != self.grid@[(r + 1) * 5 + c])),
                    forall|c: int| 0 <= c < col ==> #[trigger] self.grid@[row * 5 + c] != 0,
                    forall|c: int| 0 <= c < col ==> (
                        (c + 1 < size ==> #[trigger] self.grid@[row * 5 + c] != self.grid@[row * 5 + c + 1])
                        && (row + 1 < size ==> self.grid@[row * 5 + c] != self.grid@[(row + 1) * 5 + c])),
                decreases size - col,
            {
                let idx = row * MAX_GRID_SIZE + col;
                if self.grid[idx] == 0 {
                    assert(self.grid@[row * 5 + col] == 0);
                    return false;
                }
                if col + 1 < size && self.grid[idx] == self.grid[row * MAX_GRID_SIZE + col + 1] {
                    assert(self.grid@[row * 5 + col] == self.grid@[row * 5 + col + 1]);
                    return false;
                }
                if row + 1 < size && self.grid[idx] == self.grid[(row + 1) * MAX_GRID_SIZE + col] {
                    assert(self.grid@[row * 5 + col] == self.grid@[(row + 1) * 5 + col]);
                    return false;
                }
                col = col + 1;
            }
            row = row + 1;
        }
        true
    }

    /// Ends the game: keeps the better score and records it in the store.
    pub fn enter_game_over<H: HighScoreStore>(&mut self, high_scores: &mut H)
        ensures
            final(self)@ == (Game2048State {
                mode: Game2048Mode::GameOver,
                best_score: if old(self)@.score > old(self)@.best_score {
                    old(self)@.score
                } else {
                    old(self)@.best_score
                },
                ..old(self)@
            }),
            spec_store_offered(old(self)@, old(high_scores), final(high_scores)),
    {
        self.mode = Game2048Mode::GameOver;
        if self.score > self.best_score {
            self.best_score = self.score;
        }
        high_scores.update_game2048_best_score(self.score, self.grid_size);
    }

    /// Keeps the better score and records it in the store.
    pub fn update_best_score<H: HighScoreStore>(&mut self, high_scores: &mut H)
        ensures
            final(self)@ == (Game2048State {
                best_score: if old(self)@.score > old(self)@.best_score {
                    old(self)@.score
                } else {
                    old(self)@.best_score
                },
                ..old(self)@
            }),
            spec_store_offered(old(self)@, old(high_scores), final(high_scores)),
    {
        if self.score > self.best_score {
            self.best_score = self.score;
        }
        high_scores.update_game2048_best_score(self.score, self.grid_size);
    }

    fn start_new_game<H: HighScoreStore, R: Rng>(&mut self, high_scores: &mut H, rng: &mut R)
        ensures
            spec_started(old(self)@, final(self)@, old(high_scores)),
            *final(high_scores) == *old(high_scores),
    {
        self.grid = [0; 25];
        self.score = 0;
        self.mode = Game2048Mode::Playing;
        self.best_score = high_scores.game2048_best_score(self.grid_size);
        proof { assert(self.grid@ =~= empty_grid()); }
        let ghost mid0 = self@;
        self.place_random_tile(rng);
        let ghost mid = self@;
        self.place_random_tile(rng);
        proof { assert(spec_placed(mid0, mid) && spec_placed(mid, self@)); }
    }
}

fn grids_equal(a: &[u16; 25], b: &[u16; 25]) -> (r: bool)
    ensures
        r == (a@ == b@),
{
    let mut i: usize = 0;
    while i < 25
        invariant
            i <= 25,
            forall|t: int| 0 <= t < i ==> a@[t] == b@[t],
        decreases 25 - i,
    {
        if a[i] != b[i] {
            return false;
        }
        i = i + 1;
    }
    assert(a@ =~= b@);
    true
}

} // verus!
