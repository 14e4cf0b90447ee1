use vstd::prelude::*;
use crate::game2048::GridSize;
use crate::snake::{BorderMode, SpeedTier};

verus! {

pub const HIGH_SCORE_BUCKET_COUNT: usize = 8;
pub const GAME2048_SCORE_BUCKET_COUNT: usize = 3;

/// Best scores kept across games: one per Snake speed and border setting,
/// one for the Flags death match, one per 2048 grid size.
pub trait HighScoreStore {
    /// The best Snake score of bucket `index` (see [`high_score_index`]).
    spec fn snake_best(&self, index: int) -> u32;

    /// The best Flags death-match score.
    spec fn flags_best(&self) -> u32;

    /// The best 2048 score of grid `index` (see [`GridSize::index`]).
    spec fn game2048_best(&self, index: int) -> u32;

    /// The best Flappy score.
    spec fn flappy_best(&self) -> u32;

    /// The best Mario score.
    spec fn mario_best(&self) -> u32;

    fn best_score(&self, speed: SpeedTier, border: BorderMode) -> (r: u32)
        ensures
            r == self.snake_best(spec_high_score_index(speed, border) as int),
    ;

    /// Keeps `score` as the best of its bucket when it beats the stored one.
    fn update_if_better(&mut self, score: u32, speed: SpeedTier, border: BorderMode)
        ensures
            forall|i: int| #[trigger] final(self).snake_best(i) == (
                if i == spec_high_score_index(speed, border) && score > old(self).snake_best(i) {
                    score
                } else {
                    old(self).snake_best(i)
                }),
            final(self).flags_best() == old(self).flags_best(),
            forall|i: int| #[trigger] final(self).game2048_best(i) == old(self).game2048_best(i),
            final(self).flappy_best() == old(self).flappy_best(),
            final(self).mario_best() == old(self).mario_best(),
    ;

    fn flags_death_match_best_score(&self) -> (r: u32)
        ensures
            r == self.flags_best(),
    ;

    fn update_flags_death_match_best_score(&mut self, score: u32)
        ensures
            final(self).flags_best() == (if score > old(self).flags_best() {
                score
            } else {
                old(self).flags_best()
            }),
            forall|i: int| #[trigger] final(self).snake_best(i) == old(self).snake_best(i),
            forall|i: int| #[trigger] final(self).game2048_best(i) == old(self).game2048_best(i),
            final(self).flappy_best() == old(self).flappy_best(),
            final(self).mario_best() == old(self).mario_best(),
    ;

    fn game2048_best_score(&self, grid_size: GridSize) -> (r: u32)
        ensures
            r == self.game2048_best(grid_size.spec_index() as int),
    ;

    fn update_game2048_best_score(&mut self, score: u32, grid_size: GridSize)
        ensures
            forall|i: int| #[trigger] final(self).game2048_best(i) == (
                if i == grid_size.spec_index() && score > old(self).game2048_best(i) {
                    score
                } else {
                    old(self).game2048_best(i)
                }),
            final(self).flags_best() == old(self).flags_best(),
            forall|i: int| #[trigger] final(self).snake_best(i) == old(self).snake_best(i),
            final(self).flappy_best() == old(self).flappy_best(),
            final(self).mario_best() == old(self).mario_best(),
    ;

    fn flappy_best_score(&self) -> (r: u32)
        ensures
            r == self.flappy_best(),
    ;

    /// Keeps `score` as the best Flappy score when it beats the stored one.
    fn update_flappy_best_score(&mut self, score: u32)
        ensures
            final(self).flappy_best() == (if score > old(self).flappy_best() {
                score
            } else {
                old(self).flappy_best()
            }),
            forall|i: int| #[trigger] final(self).snake_best(i) == old(self).snake_best(i),
            final(self).flags_best() == old(self).flags_best(),
            forall|i: int| #[trigger] final(self).game2048_best(i) == old(self).game2048_best(i),
            final(self).mario_best() == old(self).mario_best(),
    ;

    fn mario_best_score(&self) -> (r: u32)
        ensures
            r == self.mario_best(),
    ;

    /// Keeps `score` as the best Mario score when it beats the stored one.
    fn update_mario_best_score(&mut self, score: u32)
        ensures
            final(self).mario_best() == (if score > old(self).mario_best() {
                score
            } else {
                old(self).mario_best()
            }),
            forall|i: int| #[trigger] final(self).snake_best(i) == old(self).snake_best(i),
            final(self).flags_best() == old(self).flags_best(),
            forall|i: int| #[trigger] final(self).game2048_best(i) == old(self).game2048_best(i),
            final(self).flappy_best() == old(self).flappy_best(),
    ;
}

/// High scores held in memory only.
#[derive(Debug)]
pub struct MemoryHighScoreStore {
    snake: [u32; 8],
    flags_death_match: u32,
    game2048: [u32; 3],
    flappy: u32,
    mario: u32,
}

impl MemoryHighScoreStore {
    /// Every best score starts at zero.
    pub fn new() -> (r: Self)
        ensures
            forall|i: int| #[trigger] r.snake_best(i) == 0,
            r.flags_best() == 0,
            forall|i: int| #[trigger] r.game2048_best(i) == 0,
            r.flappy_best() == 0,
            r.mario_best() == 0,
    {
        MemoryHighScoreStore {
            snake: [0, 0, 0, 0, 0, 0, 0, 0],
            flags_death_match: 0,
            game2048: [0, 0, 0],
            flappy: 0,
            mario: 0,
        }
    }
}

impl Default for MemoryHighScoreStore {
    fn default() -> (r: Self)
        ensures
            forall|i: int| #[trigger] r.snake_best(i) == 0,
            r.flags_best() == 0,
            forall|i: int| #[trigger] r.game2048_best(i) == 0,
            r.flappy_best() == 0,
            r.mario_best() == 0,
    {
        Self::new()
    }
}

impl HighScoreStore for MemoryHighScoreStore {
    /// Buckets outside the store read as zero.
    closed spec fn snake_best(&self, index: int) -> u32 {
        if 0 <= index < self.snake@.len() { self.snake@[index] } else { 0 }
    }

    closed spec fn flags_best(&self) -> u32 {
        self.flags_death_match
    }

    closed spec fn game2048_best(&self, index: int) -> u32 {
        if 0 <= index < self.game2048@.len() { self.game2048@[index] } else { 0 }
    }

    closed spec fn flappy_best(&self) -> u32 {
        self.flappy
    }

    closed spec fn mario_best(&self) -> u32 {
        self.mario
    }

    fn flappy_best_score(&self) -> (r: u32) {
        self.flappy
    }

    fn update_flappy_best_score(&mut self, score: u32) {
        if score > self.flappy {
            self.flappy = score;
        }
    }

    fn mario_best_score(&self) -> (r: u32) {
        self.mario
    }

    fn update_mario_best_score(&mut self, score: u32) {
        if score > self.mario {
            self.mario = score;
        }
    }

    fn best_score(&self, speed: SpeedTier, border: BorderMode) -> (r: u32) {
        self.snake[high_score_index(speed, border)]
    }

    fn update_if_better(&mut self, score: u32, speed: SpeedTier, border: BorderMode) {
        let index = high_score_index(speed, border);
        if score > self.snake[index] {
            self.snake[index] = score;
        }
    }

    fn flags_death_match_best_score(&self) -> (r: u32) {
        self.flags_death_match
    }

    fn update_flags_death_match_best_score(&mut self, score: u32) {
        if score > self.flags_death_match {
            self.flags_death_match = score;
        }
    }

    fn game2048_best_score(&self, grid_size: GridSize) -> (r: u32) {
        self.game2048[grid_size.index()]
    }

    fn update_game2048_best_score(&mut self, score: u32, grid_size: GridSize) {
        let index = grid_size.index();
        if score > self.game2048[index] {
            self.game2048[index] = score;
        }
    }
}

/// The Snake bucket of a speed and border setting: two per speed.
pub open spec fn spec_high_score_index(speed: SpeedTier, border: BorderMode) -> usize {
    (speed.spec_index() * 2 + border.spec_index()) as usize
}

pub fn high_score_index(speed: SpeedTier, border: BorderMode) -> (r: usize)
    ensures
        r == spec_high_score_index(speed, border),
        r < HIGH_SCORE_BUCKET_COUNT,
{
    speed.index() * 2 + border.index()
}

/// The persistent-storage key of a Snake bucket; empty past the last bucket.
pub fn high_score_key(index: usize) -> (r: &'static str)
    ensures
        index == 0 ==> r@ == "bs_slow_b"@,
        index == 1 ==> r@ == "bs_slow_w"@,
        index == 2 ==> r@ == "bs_norm_b"@,
        index == 3 ==> r@ == "bs_norm_w"@,
        index == 4 ==> r@ == "bs_fast_b"@,
        index == 5 ==> r@ == "bs_fast_w"@,
        index == 6 ==> r@ == "bs_expr_b"@,
        index == 7 ==> r@ == "bs_expr_w"@,
        index > 7 ==> r@ == ""@,
{
    match index {
        0 => "bs_slow_b",
        1 => "bs_slow_w",
        2 => "bs_norm_b",
        3 => "bs_norm_w",
        4 => "bs_fast_b",
        5 => "bs_fast_w",
        6 => "bs_expr_b",
        7 => "bs_expr_w",
        _ => "",
    }
}

/// The persistent-storage key of a 2048 grid bucket; empty past the last.
pub fn game2048_score_key(index: usize) -> (r: &'static str)
    ensures
        index == 0 ==> r@ == "best_3x3"@,
        index == 1 ==> r@ == "best_4x4"@,
        index == 2 ==> r@ == "best_5x5"@,
        index > 2 ==> r@ == ""@,
{
    match index {
        0 => "best_3x3",
        1 => "best_4x4",
        2 => "best_5x5",
        _ => "",
    }
}

} // verus!
