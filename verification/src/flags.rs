use vstd::prelude::*;
use crate::config::{spec_wrap_index, wrap_index, Direction};
use crate::rng::{drew, lemma_drew_nothing, lemma_drew_then, Rng};
use crate::store::HighScoreStore;

verus! {

pub const FLAGS_OPTION_COUNT: usize = 4;
pub const FLAGS_QUIZ_ROUNDS: u32 = 20;
pub const FLAGS_FEEDBACK_MS: u64 = 900;
/// Number of flags in the asset table.
pub const FLAG_ASSET_COUNT: usize = 5;

/// Where a flag image lies in the flag image blob, and its labels.
#[derive(Debug, Clone, Copy, PartialEq, Eq)]
pub struct FlagAsset {
    pub code: &'static str,
    pub name: &'static str,
    pub width: u16,
    pub height: u16,
    pub offset: u32,
}

pub open spec fn spec_flag_code(index: int) -> Seq<char> {
    if index == 0 {
        "AD"@
    } else if index == 1 {
        "AE"@
    } else if index == 2 {
        "AF"@
    } else if index == 3 {
        "AG"@
    } else {
        "AI"@
    }
}

pub open spec fn spec_flag_offset(index: int) -> u32 {
    if index == 0 {
        0
    } else if index == 1 {
        30_784
    } else if index == 2 {
        56_384
    } else if index == 3 {
        88_624
    } else {
        120_864
    }
}

/// The country's name of flag `index`.
pub open spec fn spec_flag_name(index: int) -> Seq<char> {
    if index == 0 {
        "ANDORRA"@
    } else if index == 1 {
        "UNITED ARAB EMIRATES"@
    } else if index == 2 {
        "AFGHANISTAN"@
    } else if index == 3 {
        "ANTIGUA AND BARBUDA"@
    } else {
        "ANGUILLA"@
    }
}

/// The picture size of flag `index`: width and height in pixels.
pub open spec fn spec_flag_size(index: int) -> (u16, u16) {
    if index == 0 || index == 2 || index == 3 {
        (if index == 0 { 148u16 } else { 155u16 }, 104u16)
    } else {
        (160u16, 80u16)
    }
}

/// Entry `index` of the flag asset table.
pub fn flag_asset(index: usize) -> (r: FlagAsset)
    requires
        index < FLAG_ASSET_COUNT,
    ensures
        r.code@ == spec_flag_code(index as int),
        r.name@ == spec_flag_name(index as int),
        (r.width, r.height) == spec_flag_size(index as int),
        r.offset == spec_flag_offset(index as int),
{
    match index {
        0 => FlagAsset { code: "AD", name: "ANDORRA", width: 148, height: 104, offset: 0 },
        1 => FlagAsset { code: "AE", name: "UNITED ARAB EMIRATES", width: 160, height: 80, offset: 30_784 },
        2 => FlagAsset { code: "AF", name: "AFGHANISTAN", width: 155, height: 104, offset: 56_384 },
        3 => FlagAsset { code: "AG", name: "ANTIGUA AND BARBUDA", width: 155, height: 104, offset: 88_624 },
        _ => FlagAsset { code: "AI", name: "ANGUILLA", width: 160, height: 80, offset: 120_864 },
    }
}

#[derive(Debug, Clone, Copy, PartialEq, Eq, Structural)]
pub enum FlagsMode {
    Practice,
    Quiz20,
    DeathMatch,
}

#[derive(Debug, Clone, Copy, PartialEq, Eq, Structural)]
pub enum FlagsState {
    ChoosingMode,
    Question,
    Feedback,
    Paused,
    Results,
    Over,
}

#[derive(Debug, Clone, Copy, PartialEq, Eq, Structural)]
pub enum FlagsResultAction {
    Restart,
    Exit,
}

#[derive(Debug, Clone, Copy, PartialEq, Eq, Structural)]
pub enum FlagsPauseAction {
    Continue,
    Exit,
}

#[derive(Debug, Clone, Copy, PartialEq, Eq, Structural)]
pub enum FlagsChoosingAction {
    Mode(FlagsMode),
    Exit,
}

/// How many entries of `s` below `n` are set.
pub open spec fn count_used(s: Seq<bool>, n: int) -> int
    decreases n,
{
    if n <= 0 {
        0
    } else {
        count_used(s, n - 1) + if s[n - 1] { 1int } else { 0int }
    }
}

/// How many entries of `s` below `n` are clear.
pub open spec fn count_unused(s: Seq<bool>, n: int) -> int
    decreases n,
{
    if n <= 0 {
        0
    } else {
        count_unused(s, n - 1) + if s[n - 1] { 0int } else { 1int }
    }
}

proof fn lemma_counts_add_up(s: Seq<bool>, n: int)
    requires
        n >= 0,
    ensures
        count_used(s, n) + count_unused(s, n) == n,
        count_used(s, n) >= 0,
        count_unused(s, n) >= 0,
    decreases n,
{
    if n > 0 {
        lemma_counts_add_up(s, n - 1);
    }
}

proof fn lemma_count_used_stable(s: Seq<bool>, n: int, m: int)
    requires
        0 <= n <= m,
        forall|i: int| n <= i < m ==> !s[i],
    ensures
        count_used(s, m) == count_used(s, n),
    decreases m - n,
{
    if m > n {
        lemma_count_used_stable(s, n, m - 1);
    }
}

proof fn lemma_count_used_update(s: Seq<bool>, n: int, k: int)
    requires
        0 <= k < n <= s.len(),
        !s[k],
    ensures
        count_used(s.update(k, true), n) == count_used(s, n) + 1,
    decreases n,
{
    if n - 1 > k {
        lemma_count_used_update(s, n - 1, k);
    } else {
        assert forall|i: int| 0 <= i < k implies s.update(k, true)[i] == s[i] by {}
        lemma_count_used_same_prefix(s, s.update(k, true), k);
    }
}

proof fn lemma_count_used_same_prefix(a: Seq<bool>, b: Seq<bool>, n: int)
    requires
        n >= 0,
        forall|i: int| 0 <= i < n ==> a[i] == b[i],
    ensures
        count_used(a, n) == count_used(b, n),
    decreases n,
{
    if n > 0 {
        lemma_count_used_same_prefix(a, b, n - 1);
    }
}

proof fn lemma_count_used_all_clear(s: Seq<bool>, n: int)
    requires
        n >= 0,
        forall|i: int| 0 <= i < n ==> !s[i],
    ensures
        count_used(s, n) == 0,
    decreases n,
{
    if n > 0 {
        lemma_count_used_all_clear(s, n - 1);
    }
}

/// The abstract state of a Flags game.
pub struct FlagsView {
    pub flag_count: usize,
    pub state: FlagsState,
    pub selected_mode: FlagsMode,
    pub active_mode: FlagsMode,
    pub result_action: FlagsResultAction,
    pub pause_action: FlagsPauseAction,
    pub choosing_action: FlagsChoosingAction,
    /// The flags offered as answers, by tile.
    pub answer_indices: Seq<usize>,
    /// Flags already asked since the question history was last cleared.
    pub used: Seq<bool>,
    pub used_count: usize,
    pub correct_flag_index: usize,
    pub selected_answer: usize,
    pub correct_answer: usize,
    pub last_answer_correct: bool,
    pub score: u32,
    pub round: u32,
    pub best_score: u32,
}

/// The four answers are different flags and exactly the correct tile shows
/// the asked flag.
pub open spec fn question_well_formed(v: FlagsView) -> bool {
    &&& v.answer_indices[v.correct_answer as int] == v.correct_flag_index
    &&& forall|i: int, j: int| 0 <= i < j < 4 ==> v.answer_indices[i] != v.answer_indices[j]
}

/// What every Flags game keeps true.
pub open spec fn flags_valid(v: FlagsView) -> bool {
    &&& FLAGS_OPTION_COUNT <= v.flag_count <= FLAG_ASSET_COUNT
    &&& v.answer_indices.len() == 4
    &&& v.used.len() == FLAG_ASSET_COUNT
    &&& forall|i: int| 0 <= i < 4 ==> #[trigger] v.answer_indices[i] < v.flag_count
    &&& forall|i: int| 0 <= i < FLAG_ASSET_COUNT && #[trigger] v.used[i] ==> i < v.flag_count
    &&& v.used_count == count_used(v.used, FLAG_ASSET_COUNT as int)
    &&& v.correct_flag_index < v.flag_count
    &&& v.selected_answer < 4
    &&& v.correct_answer < 4
}

/// The next question after `o`: a new flag, its place among four distinct
/// answers, the cursor on the first answer, one more round, and the flag
/// recorded as used (the record starting over once every flag was shown).
pub open spec fn spec_next_question(o: FlagsView, f: FlagsView) -> bool {
    &&& flags_valid(f)
    &&& question_well_formed(f)
    &&& f.state == FlagsState::Question
    &&& f.selected_answer == 0
    &&& f.round == o.round.wrapping_add(1)
    &&& f.used_count == (if o.used_count >= o.flag_count { 1 } else { o.used_count + 1 })
    &&& f == (FlagsView {
        state: f.state,
        selected_answer: f.selected_answer,
        round: f.round,
        correct_flag_index: f.correct_flag_index,
        correct_answer: f.correct_answer,
        answer_indices: f.answer_indices,
        used: f.used,
        used_count: f.used_count,
        ..o
    })
}

/// The flag `k` places on among those of `i..n` not asked yet (the `k`-th
/// unused flag, counting from 0), or `n` when there are not that many.
pub open spec fn nth_unused_from(used: Seq<bool>, n: int, i: int, k: int) -> int
    decreases n - i,
{
    if i >= n {
        n
    } else if !used[i] {
        if k <= 0 { i } else { nth_unused_from(used, n, i + 1, k - 1) }
    } else {
        nth_unused_from(used, n, i + 1, k)
    }
}

/// The answers of tiles `i` on, from `answers`, with the draws of `r` from
/// `k` draws ahead: the asked flag on its tile, each other tile the flag
/// that `drawn_other` draws for it.
pub open spec fn others_from<R: Rng>(r: R, k: nat, flag_count: int, correct: int, correct_answer: int, answers: Seq<usize>, i: int) -> Seq<usize>
    decreases 4 - i,
{
    if i >= 4 || i < 0 {
        answers
    } else if i == correct_answer {
        others_from(r, k, flag_count, correct, correct_answer, answers.update(i, correct as usize), i + 1)
    } else {
        let d = drawn_other(r, k, flag_count, correct, answers, i, ANSWER_ATTEMPTS as nat);
        others_from(r, d.1, flag_count, correct, correct_answer, answers.update(i, d.0 as usize), i + 1)
    }
}

/// The question drawn from `o` with the draws of `r`: once every flag was
/// asked the history starts over; the first draw picks the asked flag among
/// the unused ones, the second its tile, and the draws after them the
/// other tiles' flags in tile order.
pub open spec fn question_drawn<R: Rng>(o: FlagsView, f: FlagsView, r: R) -> bool {
    let fresh = o.used_count >= o.flag_count;
    let used = if fresh { Seq::new(5, |i: int| false) } else { o.used };
    let asked: int = if fresh { 0 } else { o.used_count as int };
    &&& f.correct_flag_index == nth_unused_from(used, o.flag_count as int, 0, r.upcoming(0) as int % (o.flag_count - asked))
    &&& f.correct_answer == r.upcoming(1) as int % 4
    &&& f.answer_indices == others_from(r, 2, o.flag_count as int, f.correct_flag_index as int, f.correct_answer as int,
        seq![0usize, 0, 0, 0], 0)
}

/// With nothing asked yet, the `k`-th unused flag from `i` is flag `i + k`.
pub proof fn lemma_nth_unused_fresh(n: int, i: int, k: int)
    requires
        0 <= i,
        0 <= k,
        i + k < n <= 5,
    ensures
        nth_unused_from(Seq::new(5, |j: int| false), n, i, k) == i + k,
    decreases k,
{
    if k > 0 {
        lemma_nth_unused_fresh(n, i + 1, k - 1);
    }
}

/// The end of the feedback on an answer, from `o` to `f`, the store going
/// from `h0` to `h1`: a wrong answer in death match ends the game and
/// offers its score as the best; the last round of a quiz shows the
/// results; otherwise the next question comes.
pub open spec fn spec_feedback_finished<H: HighScoreStore>(o: FlagsView, f: FlagsView, h0: &H, h1: &H) -> bool {
    if o.active_mode == FlagsMode::DeathMatch && !o.last_answer_correct {
        &&& h1.flags_best() == (if o.score > h0.flags_best() { o.score } else { h0.flags_best() })
        &&& forall|i: int| #[trigger] h1.snake_best(i) == h0.snake_best(i)
        &&& forall|i: int| #[trigger] h1.game2048_best(i) == h0.game2048_best(i)
        &&& h1.flappy_best() == h0.flappy_best()
        &&& h1.mario_best() == h0.mario_best()
        &&& f == (FlagsView { best_score: h1.flags_best(), state: FlagsState::Over, ..o })
    } else if o.active_mode == FlagsMode::Quiz20 && o.round >= FLAGS_QUIZ_ROUNDS {
        f == (FlagsView { state: FlagsState::Results, ..o }) && *h1 == *h0
    } else {
        spec_next_question(o, f) && *h1 == *h0
    }
}

#[derive(Debug, Clone)]
pub struct FlagsGame {
    flag_count: usize,
    state: FlagsState,
    selected_mode: FlagsMode,
    active_mode: FlagsMode,
    result_action: FlagsResultAction,
    pause_action: FlagsPauseAction,
    choosing_action: FlagsChoosingAction,
    answer_indices: [usize; 4],
    used_correct_flags: [bool; 5],
    correct_flag_index: usize,
    selected_answer: usize,
    correct_answer: usize,
    last_answer_correct: bool,
    score: u32,
    round: u32,
    best_score: u32,
    used_correct_flag_count: usize,
}

impl View for FlagsGame {
    type V = FlagsView;

    closed spec fn view(&self) -> FlagsView {
        FlagsView {
            flag_count: self.flag_count,
            state: self.state,
            selected_mode: self.selected_mode,
            active_mode: self.active_mode,
            result_action: self.result_action,
            pause_action: self.pause_action,
            choosing_action: self.choosing_action,
            answer_indices: self.answer_indices@,
            used: self.used_correct_flags@,
            used_count: self.used_correct_flag_count,
            correct_flag_index: self.correct_flag_index,
            selected_answer: self.selected_answer,
            correct_answer: self.correct_answer,
            last_answer_correct: self.last_answer_correct,
            score: self.score,
            round: self.round,
            best_score: self.best_score,
        }
    }
}

impl FlagsGame {
    /// A game over the first `flag_count` flags, in its mode menu.
    pub fn new(flag_count: usize) -> (r: Self)
        requires
            FLAGS_OPTION_COUNT <= flag_count <= FLAG_ASSET_COUNT,
        ensures
            flags_valid(r@),
            r@.flag_count == flag_count,
            r@.state == FlagsState::ChoosingMode,
            r@.selected_mode == FlagsMode::Practice,
            r@.active_mode == FlagsMode::Practice,
            r@.result_action == FlagsResultAction::Restart,
            r@.pause_action == FlagsPauseAction::Continue,
            r@.choosing_action == FlagsChoosingAction::Mode(FlagsMode::Practice),
            r@.selected_answer == 0,
            r@.correct_answer == 0,
            !r@.last_answer_correct,
            r@.score == 0,
            r@.round == 0,
            r@.best_score == 0,
            r@.used_count == 0,
    {
        let r = FlagsGame {
            flag_count,
            state: FlagsState::ChoosingMode,
            selected_mode: FlagsMode::Practice,
            active_mode: FlagsMode::Practice,
            result_action: FlagsResultAction::Restart,
            pause_action: FlagsPauseAction::Continue,
            choosing_action: FlagsChoosingAction::Mode(FlagsMode::Practice),
            answer_indices: [0, 0, 0, 0],
            used_correct_flags: [false, false, false, false, false],
            correct_flag_index: 0,
            selected_answer: 0,
            correct_answer: 0,
            last_answer_correct: false,
            score: 0,
            round: 0,
            best_score: 0,
            used_correct_flag_count: 0,
        };
        proof { lemma_count_used_all_clear(r.used_correct_flags@, 5); }
        r
    }

    /// Back to the mode menu, with the score cleared.
    pub fn enter_choosing<H: HighScoreStore>(&mut self, high_scores: &H)
        requires
            flags_valid(old(self)@),
        ensures
            flags_valid(final(self)@),
            final(self)@ == (FlagsView {
                state: FlagsState::ChoosingMode,
                result_action: FlagsResultAction::Restart,
                pause_action: FlagsPauseAction::Continue,
                choosing_action: FlagsChoosingAction::Mode(old(self)@.selected_mode),
                score: 0,
                round: 0,
                best_score: high_scores.flags_best(),
                ..old(self)@
            }),
    {
        self.state = FlagsState::ChoosingMode;
        self.result_action = FlagsResultAction::Restart;
        self.pause_action = FlagsPauseAction::Continue;
        self.choosing_action = FlagsChoosingAction::Mode(self.selected_mode);
        self.score = 0;
        self.round = 0;
        self.refresh_best_score(high_scores);
    }

    /// Starts the selected mode: fresh score and question history, then the
    /// first question.
    pub fn start_selected_mode<H: HighScoreStore, R: Rng>(&mut self, high_scores: &H, rng: &mut R)
        requires
            flags_valid(old(self)@),
        ensures
            flags_valid(final(self)@),
            question_well_formed(final(self)@),
            final(self)@.state == FlagsState::Question,
            final(self)@.active_mode == old(self)@.selected_mode,
            final(self)@.selected_mode == old(self)@.selected_mode,
            final(self)@.result_action == FlagsResultAction::Restart,
            final(self)@.score == 0,
            final(self)@.round == 1,
            final(self)@.selected_answer == 0,
            final(self)@.best_score == high_scores.flags_best(),
            final(self)@.used_count == 1,
            final(self)@.flag_count == old(self)@.flag_count,
            final(self)@.pause_action == old(self)@.pause_action,
            final(self)@.choosing_action == old(self)@.choosing_action,
            final(self)@.last_answer_correct == old(self)@.last_answer_correct,
            old(rng).predictable() ==> {
                &&& final(self)@.correct_flag_index == old(rng).upcoming(0) as int % old(self)@.flag_count as int
                &&& final(self)@.correct_answer == old(rng).upcoming(1) as int % 4
                &&& final(self)@.answer_indices == others_from(*old(rng), 2, old(self)@.flag_count as int,
                    final(self)@.correct_flag_index as int, final(self)@.correct_answer as int, seq![0usize, 0, 0, 0], 0)
            },
    {
        self.active_mode = self.selected_mode;
        self.result_action = FlagsResultAction::Restart;
        self.score = 0;
        self.round = 0;
        self.reset_question_history();
        self.refresh_best_score(high_scores);
        let ghost mid = self@;
        self.next_question(rng);
        proof {
            if old(rng).predictable() {
                let n = mid.flag_count as int;
                let k = old(rng).upcoming(0) as int % n;
                lemma_nth_unused_fresh(n, 0, k);
                assert(mid.used =~= Seq::new(5, |i: int| false));
            }
        }
    }

    /// Steps the selected mode by `detents` in the mode menu.
    pub fn cycle_mode(&mut self, detents: i32) -> (r: bool)
        requires
            old(self)@.state == FlagsState::ChoosingMode && detents != 0
                ==> spec_flags_mode_index(old(self)@.selected_mode) + detents <= i32::MAX,
        ensures
            ({
                let next = if old(self)@.state == FlagsState::ChoosingMode && detents != 0 {
                    spec_cycle_mode_from(old(self)@.selected_mode, detents)
                } else {
                    old(self)@.selected_mode
                };
                &&& r == (next != old(self)@.selected_mode)
                &&& final(self)@ == (FlagsView { selected_mode: next, ..old(self)@ })
            }),
    {
        if self.state != FlagsState::ChoosingMode || detents == 0 {
            return false;
        }
        let next = cycle_mode_from(self.selected_mode, detents);
        if next == self.selected_mode {
            false
        } else {
            self.selected_mode = next;
            true
        }
    }

    pub fn select_previous_mode(&mut self) -> (r: bool)
        ensures
            ({
                let next = if old(self)@.state == FlagsState::ChoosingMode {
                    spec_cycle_mode_from(old(self)@.selected_mode, -1i32)
                } else {
                    old(self)@.selected_mode
                };
                &&& r == (next != old(self)@.selected_mode)
                &&& final(self)@ == (FlagsView { selected_mode: next, ..old(self)@ })
            }),
    {
        self.cycle_mode(-1)
    }

    pub fn select_next_mode(&mut self) -> (r: bool)
        ensures
            ({
                let next = if old(self)@.state == FlagsState::ChoosingMode {
                    spec_cycle_mode_from(old(self)@.selected_mode, 1)
                } else {
                    old(self)@.selected_mode
                };
                &&& r == (next != old(self)@.selected_mode)
                &&& final(self)@ == (FlagsView { selected_mode: next, ..old(self)@ })
            }),
    {
        self.cycle_mode(1)
    }

    /// Moves the answer cursor on the two-by-two tile grid; it stops at the
    /// edges.
    pub fn move_answer_selection(&mut self, direction: Direction) -> (r: bool)
        requires
            flags_valid(old(self)@),
        ensures
            flags_valid(final(self)@),
            ({
                let s = old(self)@.selected_answer;
                let next = if old(self)@.state != FlagsState::Question {
                    s
                } else {
                    match direction {
                        Direction::Up => if s >= 2 { (s - 2) as usize } else { s },
                        Direction::Down => if s < 2 { (s + 2) as usize } else { s },
                        Direction::Left => if s % 2 == 1 { (s - 1) as usize } else { s },
                        Direction::Right => if s % 2 == 0 { (s + 1) as usize } else { s },
                    }
                };
                &&& r == (next != s)
                &&& final(self)@ == (FlagsView { selected_answer: next, ..old(self)@ })
            }),
    {
        if self.state != FlagsState::Question {
            return false;
        }
        let previous = self.selected_answer;
        match direction {
            Direction::Up => {
                if self.selected_answer >= 2 {
                    self.selected_answer = self.selected_answer - 2;
                }
            },
            Direction::Down => {
                if self.selected_answer < 2 {
                    self.selected_answer = self.selected_answer + 2;
                }
            },
            Direction::Left => {
                if self.selected_answer % 2 == 1 {
                    self.selected_answer = self.selected_answer - 1;
                }
            },
            Direction::Right => {
                if self.selected_answer % 2 == 0 {
                    self.selected_answer = self.selected_answer + 1;
                }
            },
        }
        previous != self.selected_answer
    }

    /// Turns the answer cursor by `detents` tiles, wrapping around.
    pub fn cycle_answer_selection(&mut self, detents: i32) -> (r: bool)
        requires
            flags_valid(old(self)@),
            old(self)@.state == FlagsState::Question && detents != 0 ==> old(self)@.selected_answer + detents <= i32::MAX,
        ensures
            flags_valid(final(self)@),
            r == (old(self)@.state == FlagsState::Question && detents != 0),
            final(self)@ == (FlagsView {
                selected_answer: if r {
                    spec_wrap_index(old(self)@.selected_answer + detents, 4) as usize
                } else {
                    old(self)@.selected_answer
                },
                ..old(self)@
            }),
    {
        if self.state != FlagsState::Question || detents == 0 {
            return false;
        }
        self.selected_answer = wrap_index(self.selected_answer as i32 + detents, 4) as usize;
        true
    }

    /// Answers with the selected tile; a right answer scores a point.
    pub fn confirm_answer(&mut self)
        ensures
            old(self)@.state != FlagsState::Question ==> final(self)@ == old(self)@,
            old(self)@.state == FlagsState::Question ==> ({
                let correct = old(self)@.selected_answer == old(self)@.correct_answer;
                final(self)@ == (FlagsView {
                    last_answer_correct: correct,
                    score: if correct { old(self)@.score.wrapping_add(1) } else { old(self)@.score },
                    state: FlagsState::Feedback,
                    ..old(self)@
                })
            }),
    {
        if self.state != FlagsState::Question {
            return;
        }
        self.last_answer_correct = self.selected_answer == self.correct_answer;
        if self.last_answer_correct {
            self.score = self.score.wrapping_add(1);
        }
        self.state = FlagsState::Feedback;
    }

    /// After the answer was shown: a wrong answer ends a death match and
    /// records its score; a quiz ends after its last round; otherwise the
    /// next question comes.
    pub fn finish_feedback<H: HighScoreStore, R: Rng>(&mut self, high_scores: &mut H, rng: &mut R)
        requires
            flags_valid(old(self)@),
        ensures
            flags_valid(final(self)@),
            old(self)@.state != FlagsState::Feedback ==> final(self)@ == old(self)@
                && *final(high_scores) == *old(high_scores),
            old(self)@.state == FlagsState::Feedback
                ==> spec_feedback_finished(old(self)@, final(self)@, old(high_scores), final(high_scores)),
            old(self)@.state == FlagsState::Feedback && final(self)@.state == FlagsState::Question
                && old(rng).predictable() ==> question_drawn(old(self)@, final(self)@, *old(rng)),
    {
        if self.state != FlagsState::Feedback {
            return;
        }
        if self.active_mode == FlagsMode::DeathMatch && !self.last_answer_correct {
            high_scores.update_flags_death_match_best_score(self.score);
            self.refresh_best_score(high_scores);
            self.state = FlagsState::Over;
            return;
        }
        if self.active_mode == FlagsMode::Quiz20 && self.round >= FLAGS_QUIZ_ROUNDS {
            self.state = FlagsState::Results;
            return;
        }
        self.next_question(rng);
    }

    /// Toggles between restart and exit on the results screens.
    pub fn select_next_result_action(&mut self) -> (r: bool)
        ensures
            r == (old(self)@.state == FlagsState::Results || old(self)@.state == FlagsState::Over),
            final(self)@ == (FlagsView {
                result_action: if !r {
                    old(self)@.result_action
                } else if old(self)@.result_action == FlagsResultAction::Restart {
                    FlagsResultAction::Exit
                } else {
                    FlagsResultAction::Restart
                },
                ..old(self)@
            }),
    {
        if self.state != FlagsState::Results && self.state != FlagsState::Over {
            return false;
        }
        self.result_action = match self.result_action {
            FlagsResultAction::Restart => FlagsResultAction::Exit,
            FlagsResultAction::Exit => FlagsResultAction::Restart,
        };
        true
    }

    /// Same as [`Self::select_next_result_action`]: there are two actions.
    pub fn select_previous_result_action(&mut self) -> (r: bool)
        ensures
            r == (old(self)@.state == FlagsState::Results || old(self)@.state == FlagsState::Over),
            final(self)@ == (FlagsView {
                result_action: if !r {
                    old(self)@.result_action
                } else if old(self)@.result_action == FlagsResultAction::Restart {
                    FlagsResultAction::Exit
                } else {
                    FlagsResultAction::Restart
                },
                ..old(self)@
            }),
    {
        self.select_next_result_action()
    }

    /// Any turn of the knob toggles the result action.
    pub fn cycle_result_action(&mut self, detents: i32) -> (r: bool)
        ensures
            r == (detents != 0 && (old(self)@.state == FlagsState::Results || old(self)@.state == FlagsState::Over)),
            final(self)@ == (FlagsView {
                result_action: if !r {
                    old(self)@.result_action
                } else if old(self)@.result_action == FlagsResultAction::Restart {
                    FlagsResultAction::Exit
                } else {
                    FlagsResultAction::Restart
                },
                ..old(self)@
            }),
    {
        if detents == 0 {
            false
        } else {
            self.select_next_result_action()
        }
    }

    pub fn state(&self) -> (r: FlagsState)
        ensures
            r == self@.state,
    {
        self.state
    }

    pub fn selected_mode(&self) -> (r: FlagsMode)
        ensures
            r == self@.selected_mode,
    {
        self.selected_mode
    }

    pub fn active_mode(&self) -> (r: FlagsMode)
        ensures
            r == self@.active_mode,
    {
        self.active_mode
    }

    pub fn result_action(&self) -> (r: FlagsResultAction)
        ensures
            r == self@.result_action,
    {
        self.result_action
    }

    pub fn pause_action(&self) -> (r: FlagsPauseAction)
        ensures
            r == self@.pause_action,
    {
        self.pause_action
    }

    pub fn choosing_action(&self) -> (r: FlagsChoosingAction)
        ensures
            r == self@.choosing_action,
    {
        self.choosing_action
    }

    pub fn selected_answer(&self) -> (r: usize)
        ensures
            r == self@.selected_answer,
    {
        self.selected_answer
    }

    pub fn correct_answer(&self) -> (r: usize)
        ensures
            r == self@.correct_answer,
    {
        self.correct_answer
    }

    pub fn last_answer_correct(&self) -> (r: bool)
        ensures
            r == self@.last_answer_correct,
    {
        self.last_answer_correct
    }

    pub fn answer_indices(&self) -> (r: [usize; 4])
        ensures
            r@ == self@.answer_indices,
    {
        self.answer_indices
    }

    pub fn score(&self) -> (r: u32)
        ensures
            r == self@.score,
    {
        self.score
    }

    pub fn round(&self) -> (r: u32)
        ensures
            r == self@.round,
    {
        self.round
    }

    pub fn best_score(&self) -> (r: u32)
        ensures
            r == self@.best_score,
    {
        self.best_score
    }

    /// The flag being asked about.
    pub fn current_flag(&self) -> (r: FlagAsset)
        requires
            flags_valid(self@),
        ensures
            r.code@ == spec_flag_code(self@.correct_flag_index as int),
            r.name@ == spec_flag_name(self@.correct_flag_index as int),
            (r.width, r.height) == spec_flag_size(self@.correct_flag_index as int),
            r.offset == spec_flag_offset(self@.correct_flag_index as int),
    {
        flag_asset(self.correct_flag_index)
    }

    /// The flag shown on answer tile `index`.
    pub fn answer_flag(&self, index: usize) -> (r: FlagAsset)
        requires
            flags_valid(self@),
            index < FLAGS_OPTION_COUNT,
        ensures
            r.code@ == spec_flag_code(self@.answer_indices[index as int] as int),
            r.name@ == spec_flag_name(self@.answer_indices[index as int] as int),
            (r.width, r.height) == spec_flag_size(self@.answer_indices[index as int] as int),
            r.offset == spec_flag_offset(self@.answer_indices[index as int] as int),
    {
        flag_asset(self.answer_indices[index])
    }

    /// Moves the mode-menu cursor down: the three modes, then exit, then
    /// around. A mode under the cursor becomes the selected mode.
    pub fn cycle_choosing_action_down(&mut self) -> (r: bool)
        ensures
            r == (old(self)@.state == FlagsState::ChoosingMode),
            ({
                let next = spec_choosing_action_down(old(self)@.choosing_action);
                final(self)@ == if !r {
                    old(self)@
                } else {
                    FlagsView {
                        choosing_action: next,
                        selected_mode: match next {
                            FlagsChoosingAction::Mode(m) => m,
                            FlagsChoosingAction::Exit => old(self)@.selected_mode,
                        },
                        ..old(self)@
                    }
                }
            }),
    {
        if self.state != FlagsState::ChoosingMode {
            return false;
        }
        self.choosing_action = match self.choosing_action {
            FlagsChoosingAction::Mode(FlagsMode::Practice) => FlagsChoosingAction::Mode(FlagsMode::Quiz20),
            FlagsChoosingAction::Mode(FlagsMode::Quiz20) => FlagsChoosingAction::Mode(FlagsMode::DeathMatch),
            FlagsChoosingAction::Mode(FlagsMode::DeathMatch) => FlagsChoosingAction::Exit,
            FlagsChoosingAction::Exit => FlagsChoosingAction::Mode(FlagsMode::Practice),
        };
        if let FlagsChoosingAction::Mode(mode) = self.choosing_action {
            self.selected_mode = mode;
        }
        true
    }

    /// Moves the mode-menu cursor up, the reverse of
    /// [`Self::cycle_choosing_action_down`].
    pub fn cycle_choosing_action_up(&mut self) -> (r: bool)
        ensures
            r == (old(self)@.state == FlagsState::ChoosingMode),
            ({
                let next = spec_choosing_action_up(old(self)@.choosing_action);
                final(self)@ == if !r {
                    old(self)@
                } else {
                    FlagsView {
                        choosing_action: next,
                        selected_mode: match next {
                            FlagsChoosingAction::Mode(m) => m,
                            FlagsChoosingAction::Exit => old(self)@.selected_mode,
                        },
                        ..old(self)@
                    }
                }
            }),
    {
        if self.state != FlagsState::ChoosingMode {
            return false;
        }
        self.choosing_action = match self.choosing_action {
            FlagsChoosingAction::Mode(FlagsMode::Practice) => FlagsChoosingAction::Exit,
            FlagsChoosingAction::Mode(FlagsMode::Quiz20) => FlagsChoosingAction::Mode(FlagsMode::Practice),
            FlagsChoosingAction::Mode(FlagsMode::DeathMatch) => FlagsChoosingAction::Mode(FlagsMode::Quiz20),
            FlagsChoosingAction::Exit => FlagsChoosingAction::Mode(FlagsMode::DeathMatch),
        };
        if let FlagsChoosingAction::Mode(mode) = self.choosing_action {
            self.selected_mode = mode;
        }
        true
    }

    pub fn cycle_pause_action(&mut self)
        ensures
            final(self)@ == (FlagsView {
                pause_action: if old(self)@.pause_action == FlagsPauseAction::Continue {
                    FlagsPauseAction::Exit
                } else {
                    FlagsPauseAction::Continue
                },
                ..old(self)@
            }),
    {
        self.pause_action = match self.pause_action {
            FlagsPauseAction::Continue => FlagsPauseAction::Exit,
            FlagsPauseAction::Exit => FlagsPauseAction::Continue,
        };
    }

    /// Pauses a question or its feedback, with "continue" selected.
    pub fn enter_paused(&mut self)
        ensures
            final(self)@ == if old(self)@.state == FlagsState::Question || old(self)@.state == FlagsState::Feedback {
                FlagsView { state: FlagsState::Paused, pause_action: FlagsPauseAction::Continue, ..old(self)@ }
            } else {
                old(self)@
            },
    {
        if self.state == FlagsState::Question || self.state == FlagsState::Feedback {
            self.state = FlagsState::Paused;
            self.pause_action = FlagsPauseAction::Continue;
        }
    }

    /// Returns from the pause to the question.
    pub fn resume_from_pause(&mut self)
        ensures
            final(self)@ == if old(self)@.state == FlagsState::Paused {
                FlagsView { state: FlagsState::Question, ..old(self)@ }
            } else {
                old(self)@
            },
    {
        if self.state == FlagsState::Paused {
            self.state = FlagsState::Question;
        }
    }

    pub fn set_selected_mode(&mut self, mode: FlagsMode)
        ensures
            final(self)@ == (FlagsView { selected_mode: mode, ..old(self)@ }),
    {
        self.selected_mode = mode;
    }

    fn refresh_best_score<H: HighScoreStore>(&mut self, high_scores: &H)
        ensures
            final(self)@ == (FlagsView { best_score: high_scores.flags_best(), ..old(self)@ }),
    {
        self.best_score = high_scores.flags_death_match_best_score();
    }

    fn reset_question_history(&mut self)
        requires
            flags_valid(old(self)@),
        ensures
            flags_valid(final(self)@),
            final(self)@ == (FlagsView {
                used: Seq::new(5, |i: int| false),
                used_count: 0,
                ..old(self)@
            }),
    {
        self.used_correct_flags = [false, false, false, false, false];
        self.used_correct_flag_count = 0;
        proof {
            assert(self.used_correct_flags@ =~= Seq::new(5, |i: int| false));
            lemma_count_used_all_clear(self.used_correct_flags@, 5);
        }
    }

    /// Asks a new question: a correct flag not asked since the history was
    /// cleared, on a random tile, and three other different flags.
    fn next_question<R: Rng>(&mut self, rng: &mut R)
        requires
            flags_valid(old(self)@),
        ensures
            spec_next_question(old(self)@, final(self)@),
            old(rng).predictable() ==> question_drawn(old(self)@, final(self)@, *old(rng)),
    {
        let ghost r0 = *rng;
        self.state = FlagsState::Question;
        self.selected_answer = 0;
        self.round = self.round.wrapping_add(1);
        self.correct_flag_index = self.select_next_correct_flag(rng);
        let ghost r1 = *rng;
        self.correct_answer = rng.index(FLAGS_OPTION_COUNT);
        proof {
            if r0.predictable() {
                assert(r1.upcoming(0) == r0.upcoming(1));
                lemma_drew_then(r0, r1, *rng, 1, 1);
            }
        }
        let correct = self.correct_flag_index;
        let correct_answer = self.correct_answer;
        let mut answers: [usize; 4] = [0, 0, 0, 0];
        let ghost n = self.flag_count as int;
        let ghost target = others_from(r0, 2, n, correct as int, correct_answer as int, seq![0usize, 0, 0, 0], 0);
        let ghost mut k: nat = 2;
        proof { assert(answers@ =~= seq![0usize, 0, 0, 0]); }
        let mut i: usize = 0;
        while i < 4
            invariant
                n == self.flag_count,
                answers@.len() == 4,
                r0.predictable() ==> drew(r0, *rng, k)
                    && others_from(r0, k, n, correct as int, correct_answer as int, answers@, i as int) == target,
                i <= 4,
                correct < self.flag_count,
                FLAGS_OPTION_COUNT <= self.flag_count <= FLAG_ASSET_COUNT,
                correct_answer < 4,
                forall|t: int| 0 <= t < i ==> #[trigger] answers@[t] < self.flag_count,
                forall|t: int| 0 <= t < i && t != correct_answer ==> #[trigger] answers@[t] != correct,
                correct_answer < i ==> answers@[correct_answer as int] == correct,
                forall|a: int, b: int| 0 <= a < b < i ==> answers@[a] != answers@[b],
            decreases 4 - i,
        {
            if i == correct_answer {
                answers[i] = correct;
            } else {
                assert(i == 3 ==> answers@[correct_answer as int] == correct);
                let ghost before = *rng;
                let ghost prev = answers@;
                let candidate = pick_other_answer(rng, self.flag_count, correct, &answers, i);
                proof {
                    if r0.predictable() {
                        let d = drawn_other(before, 0, n, correct as int, prev, i as int, ANSWER_ATTEMPTS as nat);
                        lemma_drawn_other_shift(r0, before, k, 0, n, correct as int, prev, i as int, ANSWER_ATTEMPTS as nat);
                        lemma_drew_then(r0, before, *rng, k, d.1);
                        k = k + d.1;
                    }
                }
                answers[i] = candidate;
            }
            i = i + 1;
        }
        self.answer_indices = answers;
    }

    /// Picks a flag that has not been asked since the history was cleared,
    /// clearing the history first once every flag was asked.
    fn select_next_correct_flag<R: Rng>(&mut self, rng: &mut R) -> (selected: usize)
        requires
            flags_valid(old(self)@),
        ensures
            flags_valid(final(self)@),
            selected < old(self)@.flag_count,
            ({
                let before = if old(self)@.used_count >= old(self)@.flag_count {
                    Seq::new(5, |i: int| false)
                } else {
                    old(self)@.used
                };
                &&& !before[selected as int]
                &&& final(self)@.used == before.update(selected as int, true)
            }),
            final(self)@.used_count == (if old(self)@.used_count >= old(self)@.flag_count { 1 } else { old(self)@.used_count + 1 }),
            final(self)@ == (FlagsView { used: final(self)@.used, used_count: final(self)@.used_count, ..old(self)@ }),
            old(rng).predictable() ==> {
                let fresh = old(self)@.used_count >= old(self)@.flag_count;
                let before = if fresh { Seq::new(5, |i: int| false) } else { old(self)@.used };
                let asked: int = if fresh { 0 } else { old(self)@.used_count as int };
                &&& drew(*old(rng), *final(rng), 1)
                &&& selected == nth_unused_from(before, old(self)@.flag_count as int, 0,
                    old(rng).upcoming(0) as int % (old(self)@.flag_count - asked))
            },
    {
        let ghost r0 = *rng;
        if self.used_correct_flag_count >= self.flag_count {
            self.reset_question_history();
        }
        let ghost mid = self@;
        let ghost used = self.used_correct_flags@;
        let n = self.flag_count;
        proof {
            lemma_count_used_stable(used, n as int, 5);
            lemma_counts_add_up(used, n as int);
            lemma_counts_add_up(used, 5);
        }
        let offset0 = rng.index(n - self.used_correct_flag_count);
        let mut unused_offset = offset0;
        let mut index: usize = 0;
        while index < n
            invariant
                self@ == mid,
                self.used_correct_flags@ == used,
                flags_valid(self@),
                n == self.flag_count,
                n <= 5,
                index <= n,
                mid == (FlagsView { used: mid.used, used_count: mid.used_count, ..old(self)@ }),
                used == (if old(self)@.used_count >= old(self)@.flag_count {
                    Seq::new(5, |i: int| false)
                } else {
                    old(self)@.used
                }),
                mid.used_count == (if old(self)@.used_count >= old(self)@.flag_count { 0 } else { old(self)@.used_count }),
                unused_offset + count_unused(used, index as int) == offset0,
                offset0 < count_unused(used, n as int),
                count_used(used, 5) < n,
                nth_unused_from(used, n as int, index as int, unused_offset as int) == nth_unused_from(used, n as int, 0, offset0 as int),
                r0 == *old(rng),
                r0.predictable() ==> drew(r0, *rng, 1) && offset0 as int == r0.upcoming(0) as int % (n - mid.used_count),
            decreases n - index,
        {
            assert(count_unused(used, index + 1) == count_unused(used, index as int) + if used[index as int] { 0int } else { 1int });
            if !self.used_correct_flags[index] {
                if unused_offset == 0 {
                    let ghost before = self.used_correct_flags@;
                    self.used_correct_flags[index] = true;
                    proof {
                        lemma_count_used_update(before, 5, index as int);
                    }
                    self.used_correct_flag_count = self.used_correct_flag_count + 1;
                    proof {
                        assert(nth_unused_from(used, n as int, index as int, 0) == index);
                        let fresh = old(self)@.used_count >= old(self)@.flag_count;
                        let before = if fresh { Seq::new(5, |i: int| false) } else { old(self)@.used };
                        assert(before =~= used);
                    }
                    return index;
                }
                unused_offset = unused_offset - 1;
            }
            index = index + 1;
        }
        proof { assert(false); }
        0
    }
}

/// A flag for answer tile `i`: neither the asked flag nor one already on
/// an earlier tile. Random tries come first; should they all miss, the
/// smallest free flag is taken.
fn pick_other_answer<R: Rng>(rng: &mut R, flag_count: usize, correct: usize, answers: &[usize; 4], i: usize) -> (r: usize)
    requires
        FLAGS_OPTION_COUNT <= flag_count,
        i < 4,
        i == 3 ==> exists|t: int| 0 <= t < 3 && answers@[t] == correct,
    ensures
        r < flag_count,
        r != correct,
        forall|t: int| 0 <= t < i ==> answers@[t] != r,
        old(rng).predictable() ==> {
            let d = drawn_other(*old(rng), 0, flag_count as int, correct as int, answers@, i as int, ANSWER_ATTEMPTS as nat);
            &&& r == d.0
            &&& drew(*old(rng), *final(rng), d.1)
        },
{
    let ghost r0 = *rng;
    let ghost whole = drawn_other(r0, 0, flag_count as int, correct as int, answers@, i as int, ANSWER_ATTEMPTS as nat);
    proof {
        if r0.predictable() {
            lemma_drew_nothing(r0);
        }
    }
    let mut attempts: u32 = 0;
    while attempts < ANSWER_ATTEMPTS
        invariant
            FLAGS_OPTION_COUNT <= flag_count,
            i < 4,
            attempts <= ANSWER_ATTEMPTS,
            r0 == *old(rng),
            whole == drawn_other(r0, 0, flag_count as int, correct as int, answers@, i as int, ANSWER_ATTEMPTS as nat),
            r0.predictable() ==> drew(r0, *rng, attempts as nat)
                && whole == drawn_other(r0, attempts as nat, flag_count as int, correct as int, answers@, i as int,
                    (ANSWER_ATTEMPTS - attempts) as nat),
        decreases ANSWER_ATTEMPTS - attempts,
    {
        let ghost before = *rng;
        let candidate = rng.index(flag_count);
        proof {
            if r0.predictable() {
                assert(before.upcoming(0) == r0.upcoming(attempts as nat));
                lemma_drew_then(r0, before, *rng, attempts as nat, 1);
                assert(candidate == r0.upcoming(attempts as nat) as int % flag_count as int);
                assert(taken(answers@, i as int, correct as int, candidate as int) <==> (candidate == correct
                    || exists|t: int| 0 <= t < i && answers@[t] == candidate));
            }
        }
        if candidate != correct && !contains_prefix(answers, i, candidate) {
            return candidate;
        }
        attempts = attempts + 1;
    }
    let mut candidate: usize = 0;
    while candidate < flag_count && candidate < 5
        invariant
            FLAGS_OPTION_COUNT <= flag_count,
            i < 4,
            candidate <= 5,
            forall|c: int| 0 <= c < candidate ==> #[trigger] taken(answers@, i as int, correct as int, c),
            first_free(answers@, i as int, correct as int, flag_count as int, candidate as int)
                == first_free(answers@, i as int, correct as int, flag_count as int, 0),
            r0 == *old(rng),
            whole == drawn_other(r0, 0, flag_count as int, correct as int, answers@, i as int, ANSWER_ATTEMPTS as nat),
            r0.predictable() ==> drew(r0, *rng, ANSWER_ATTEMPTS as nat)
                && whole == drawn_other(r0, ANSWER_ATTEMPTS as nat, flag_count as int, correct as int, answers@, i as int, 0),
        decreases 5 - candidate,
    {
        if candidate != correct && !contains_prefix(answers, i, candidate) {
            return candidate;
        }
        candidate = candidate + 1;
    }
    proof {
        assert(candidate >= 4);
        assert(taken(answers@, i as int, correct as int, 0));
        assert(taken(answers@, i as int, correct as int, 1));
        assert(taken(answers@, i as int, correct as int, 2));
        assert(taken(answers@, i as int, correct as int, 3));
        lemma_four_not_all_taken(answers@, i as int, correct as int);
    }
    0
}

/// The smallest flag from `c` on that is below `flag_count` (and five)
/// and not taken, or 0 when there is none.
pub open spec fn first_free(answers: Seq<usize>, i: int, correct: int, flag_count: int, c: int) -> int
    decreases 5 - c,
{
    if c >= flag_count || c >= 5 {
        0
    } else if !taken(answers, i, correct, c) {
        c
    } else {
        first_free(answers, i, correct, flag_count, c + 1)
    }
}

/// The flag drawn for tile `i` from the draws of `r` starting `k` draws
/// ahead, with `tries` random tries left: the first drawn flag that is
/// free, else the smallest free flag once the tries run out. Gives the flag
/// and the position of the draw after the last one used.
pub open spec fn drawn_other<R: Rng>(r: R, k: nat, flag_count: int, correct: int, answers: Seq<usize>, i: int, tries: nat) -> (int, nat)
    decreases tries,
{
    if tries == 0 {
        (first_free(answers, i, correct, flag_count, 0), k)
    } else {
        let c = r.upcoming(k) as int % flag_count;
        if !taken(answers, i, correct, c) {
            (c, k + 1)
        } else {
            drawn_other(r, k + 1, flag_count, correct, answers, i, (tries - 1) as nat)
        }
    }
}

/// Draws further on in a source moved on by `m` draws are those `m` later.
pub proof fn lemma_drawn_other_shift<R: Rng>(r0: R, r1: R, m: nat, k: nat, flag_count: int, correct: int, answers: Seq<usize>, i: int, tries: nat)
    requires
        drew(r0, r1, m),
    ensures
        drawn_other(r1, k, flag_count, correct, answers, i, tries).0 == drawn_other(r0, k + m, flag_count, correct, answers, i, tries).0,
        drawn_other(r1, k, flag_count, correct, answers, i, tries).1 + m == drawn_other(r0, k + m, flag_count, correct, answers, i, tries).1,
    decreases tries,
{
    if tries > 0 {
        assert(r1.upcoming(k) == r0.upcoming(k + m));
        lemma_drawn_other_shift(r0, r1, m, k + 1, flag_count, correct, answers, i, (tries - 1) as nat);
        assert(k + 1 + m == (k + m) + 1);
    }
}

/// The flag is the asked one or already on one of the first `i` tiles.
pub open spec fn taken(answers: Seq<usize>, i: int, correct: int, c: int) -> bool {
    c == correct || exists|t: int| 0 <= t < i && answers[t] == c
}

/// At most three flags are taken, so one of four is free.
proof fn lemma_four_not_all_taken(answers: Seq<usize>, i: int, correct: int)
    requires
        0 <= i < 4,
        answers.len() == 4,
        i == 3 ==> exists|t: int| 0 <= t < 3 && answers[t] == correct,
    ensures
        !(taken(answers, i, correct, 0) && taken(answers, i, correct, 1) && taken(answers, i, correct, 2)
            && taken(answers, i, correct, 3)),
{
    if i == 3 && taken(answers, i, correct, 0) && taken(answers, i, correct, 1) && taken(answers, i, correct, 2)
        && taken(answers, i, correct, 3) {
        assert(false);
    }
}

/// Random tries for a distinct answer before scanning in order.
pub const ANSWER_ATTEMPTS: u32 = 4096;

fn contains_prefix(answers: &[usize; 4], n: usize, value: usize) -> (r: bool)
    requires
        n <= 4,
    ensures
        r == exists|t: int| 0 <= t < n && answers@[t] == value,
{
    let mut t: usize = 0;
    while t < n
        invariant
            t <= n <= 4,
            forall|k: int| 0 <= k < t ==> answers@[k] != value,
        decreases n - t,
    {
        if answers[t] == value {
            return true;
        }
        t = t + 1;
    }
    false
}

pub open spec fn spec_choosing_action_down(a: FlagsChoosingAction) -> FlagsChoosingAction {
    match a {
        FlagsChoosingAction::Mode(FlagsMode::Practice) => FlagsChoosingAction::Mode(FlagsMode::Quiz20),
        FlagsChoosingAction::Mode(FlagsMode::Quiz20) => FlagsChoosingAction::Mode(FlagsMode::DeathMatch),
        FlagsChoosingAction::Mode(FlagsMode::DeathMatch) => FlagsChoosingAction::Exit,
        FlagsChoosingAction::Exit => FlagsChoosingAction::Mode(FlagsMode::Practice),
    }
}

pub open spec fn spec_choosing_action_up(a: FlagsChoosingAction) -> FlagsChoosingAction {
    match a {
        FlagsChoosingAction::Mode(FlagsMode::Practice) => FlagsChoosingAction::Exit,
        FlagsChoosingAction::Mode(FlagsMode::Quiz20) => FlagsChoosingAction::Mode(FlagsMode::Practice),
        FlagsChoosingAction::Mode(FlagsMode::DeathMatch) => FlagsChoosingAction::Mode(FlagsMode::Quiz20),
        FlagsChoosingAction::Exit => FlagsChoosingAction::Mode(FlagsMode::DeathMatch),
    }
}

/// Moving the mode-menu cursor down and then up returns to where it was.
pub proof fn law_choosing_action_down_up(a: FlagsChoosingAction)
    ensures
        spec_choosing_action_up(spec_choosing_action_down(a)) == a,
        spec_choosing_action_down(spec_choosing_action_up(a)) == a,
{
}

pub open spec fn spec_flags_mode_name(mode: FlagsMode) -> Seq<char> {
    match mode {
        FlagsMode::Practice => "PRACTICE"@,
        FlagsMode::Quiz20 => "QUIZ 20"@,
        FlagsMode::DeathMatch => "DEATH MATCH"@,
    }
}

pub fn flags_mode_name(mode: FlagsMode) -> (r: &'static str)
    ensures
        r@ == spec_flags_mode_name(mode),
{
    match mode {
        FlagsMode::Practice => "PRACTICE",
        FlagsMode::Quiz20 => "QUIZ 20",
        FlagsMode::DeathMatch => "DEATH MATCH",
    }
}

pub open spec fn spec_flags_state_title(state: FlagsState) -> Seq<char> {
    match state {
        FlagsState::ChoosingMode => "FLAGS"@,
        FlagsState::Question => "FLAGS"@,
        FlagsState::Feedback => "ANSWER"@,
        FlagsState::Paused => "PAUSED"@,
        FlagsState::Results => "RESULTS"@,
        FlagsState::Over => "GAME OVER"@,
    }
}

pub fn flags_state_title(state: FlagsState) -> (r: &'static str)
    ensures
        r@ == spec_flags_state_title(state),
{
    match state {
        FlagsState::ChoosingMode => "FLAGS",
        FlagsState::Question => "FLAGS",
        FlagsState::Feedback => "ANSWER",
        FlagsState::Paused => "PAUSED",
        FlagsState::Results => "RESULTS",
        FlagsState::Over => "GAME OVER",
    }
}

pub open spec fn spec_flags_result_action_name(action: FlagsResultAction) -> Seq<char> {
    match action {
        FlagsResultAction::Restart => "RESTART"@,
        FlagsResultAction::Exit => "EXIT"@,
    }
}

pub fn flags_result_action_name(action: FlagsResultAction) -> (r: &'static str)
    ensures
        r@ == spec_flags_result_action_name(action),
{
    match action {
        FlagsResultAction::Restart => "RESTART",
        FlagsResultAction::Exit => "EXIT",
    }
}

pub open spec fn spec_flags_mode_index(mode: FlagsMode) -> i32 {
    match mode {
        FlagsMode::Practice => 0,
        FlagsMode::Quiz20 => 1,
        FlagsMode::DeathMatch => 2,
    }
}

fn flags_mode_index(mode: FlagsMode) -> (r: i32)
    ensures
        r == spec_flags_mode_index(mode),
{
    match mode {
        FlagsMode::Practice => 0,
        FlagsMode::Quiz20 => 1,
        FlagsMode::DeathMatch => 2,
    }
}

pub open spec fn spec_flags_mode_from_index(index: i32) -> FlagsMode {
    match index {
        0 => FlagsMode::Practice,
        1 => FlagsMode::Quiz20,
        2 => FlagsMode::DeathMatch,
        _ => FlagsMode::Practice,
    }
}

fn flags_mode_from_index(index: i32) -> (r: FlagsMode)
    ensures
        r == spec_flags_mode_from_index(index),
{
    match index {
        0 => FlagsMode::Practice,
        1 => FlagsMode::Quiz20,
        2 => FlagsMode::DeathMatch,
        _ => FlagsMode::Practice,
    }
}

pub open spec fn spec_cycle_mode_from(mode: FlagsMode, detents: i32) -> FlagsMode {
    spec_flags_mode_from_index(spec_wrap_index(spec_flags_mode_index(mode) + detents, 3) as i32)
}

/// The mode `detents` steps on, cycling through the three modes.
pub fn cycle_mode_from(mode: FlagsMode, detents: i32) -> (r: FlagsMode)
    requires
        spec_flags_mode_index(mode) + detents <= i32::MAX,
    ensures
        r == spec_cycle_mode_from(mode, detents),
{
    flags_mode_from_index(wrap_index(flags_mode_index(mode) + detents, 3))
}

/// One step forward and one back give the mode back.
pub proof fn law_cycle_mode_inverse(mode: FlagsMode)
    ensures
        spec_cycle_mode_from(spec_cycle_mode_from(mode, 1), -1i32) == mode,
        spec_cycle_mode_from(mode, 3) == mode,
{
}

} // verus!
