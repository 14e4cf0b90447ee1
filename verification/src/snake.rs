use vstd::prelude::*;
use crate::config::{
    on_board, spec_on_board, spec_wrap_index, spec_wrapped_cell, wrap_index, wrapped_cell, Cell,
    Direction, spec_opposite, BOARD_CELLS, BOARD_COLS, BOARD_ROWS,
};
use crate::rng::Rng;
use crate::store::{spec_high_score_index, HighScoreStore};

verus! {

#[derive(Debug, Clone, Copy, PartialEq, Eq, Structural)]
pub enum GameMode {
    Choosing,
    Playing,
    Paused,
    Over,
}

#[derive(Debug, Clone, Copy, PartialEq, Eq, Structural)]
pub enum SpeedTier {
    Slow,
    Normal,
    Fast,
    Expert,
}

impl SpeedTier {
    pub open spec fn spec_index(self) -> usize {
        match self {
            SpeedTier::Slow => 0,
            SpeedTier::Normal => 1,
            SpeedTier::Fast => 2,
            SpeedTier::Expert => 3,
        }
    }

    pub fn index(self) -> (r: usize)
        ensures
            r == self.spec_index(),
            r < 4,
    {
        match self {
            SpeedTier::Slow => 0,
            SpeedTier::Normal => 1,
            SpeedTier::Fast => 2,
            SpeedTier::Expert => 3,
        }
    }

    /// The tier of an index; unknown indices give `Normal`.
    pub open spec fn spec_from_index(index: usize) -> SpeedTier {
        match index {
            0 => SpeedTier::Slow,
            1 => SpeedTier::Normal,
            2 => SpeedTier::Fast,
            3 => SpeedTier::Expert,
            _ => SpeedTier::Normal,
        }
    }

    pub fn from_index(index: usize) -> (r: Self)
        ensures
            r == Self::spec_from_index(index),
    {
        match index {
            0 => SpeedTier::Slow,
            1 => SpeedTier::Normal,
            2 => SpeedTier::Fast,
            3 => SpeedTier::Expert,
            _ => SpeedTier::Normal,
        }
    }
}

/// `from_index` undoes `index`.
pub proof fn lemma_speed_tier_index_round_trip(tier: SpeedTier)
    ensures
        SpeedTier::spec_from_index(tier.spec_index()) == tier,
{
}

#[derive(Debug, Clone, Copy, PartialEq, Eq, Structural)]
pub enum BorderMode {
    Borders,
    Wrap,
}

impl BorderMode {
    pub open spec fn spec_index(self) -> usize {
        match self {
            BorderMode::Borders => 0,
            BorderMode::Wrap => 1,
        }
    }

    pub fn index(self) -> (r: usize)
        ensures
            r == self.spec_index(),
            r < 2,
    {
        match self {
            BorderMode::Borders => 0,
            BorderMode::Wrap => 1,
        }
    }
}

#[derive(Debug, Clone, Copy, PartialEq, Eq, Structural)]
pub enum SelectionField {
    Speed,
    Border,
    Exit,
}

/// The setup row below `f`, wrapping from exit to speed.
pub open spec fn spec_next_field(f: SelectionField) -> SelectionField {
    match f {
        SelectionField::Speed => SelectionField::Border,
        SelectionField::Border => SelectionField::Exit,
        SelectionField::Exit => SelectionField::Speed,
    }
}

/// The setup row above `f`, wrapping from speed to exit.
pub open spec fn spec_previous_field(f: SelectionField) -> SelectionField {
    match f {
        SelectionField::Speed => SelectionField::Exit,
        SelectionField::Border => SelectionField::Speed,
        SelectionField::Exit => SelectionField::Border,
    }
}

/// Moving the setup cursor down and then up, or up and then down, returns
/// to the same row; three moves the same way come round to it.
pub proof fn law_setup_cursor_round_trip(f: SelectionField)
    ensures
        spec_previous_field(spec_next_field(f)) == f,
        spec_next_field(spec_previous_field(f)) == f,
        spec_next_field(spec_next_field(spec_next_field(f))) == f,
{
}

#[derive(Debug, Clone, Copy, PartialEq, Eq)]
pub struct SpeedConfig {
    pub name: &'static str,
    pub tick_ms: u32,
    pub points: u32,
}

pub open spec fn spec_speed_name(tier: SpeedTier) -> Seq<char> {
    match tier {
        SpeedTier::Slow => "SLOW"@,
        SpeedTier::Normal => "NORMAL"@,
        SpeedTier::Fast => "FAST"@,
        SpeedTier::Expert => "EXPERT"@,
    }
}

/// Milliseconds between two moves of the snake.
pub open spec fn spec_tick_ms(tier: SpeedTier) -> u32 {
    match tier {
        SpeedTier::Slow => 320,
        SpeedTier::Normal => 180,
        SpeedTier::Fast => 120,
        SpeedTier::Expert => 80,
    }
}

/// Points for one apple.
pub open spec fn spec_points(tier: SpeedTier) -> u32 {
    match tier {
        SpeedTier::Slow => 1,
        SpeedTier::Normal => 2,
        SpeedTier::Fast => 3,
        SpeedTier::Expert => 4,
    }
}

pub fn speed_config(tier: SpeedTier) -> (r: SpeedConfig)
    ensures
        r.name@ == spec_speed_name(tier),
        r.tick_ms == spec_tick_ms(tier),
        r.points == spec_points(tier),
{
    match tier {
        SpeedTier::Slow => SpeedConfig { name: "SLOW", tick_ms: 320, points: 1 },
        SpeedTier::Normal => SpeedConfig { name: "NORMAL", tick_ms: 180, points: 2 },
        SpeedTier::Fast => SpeedConfig { name: "FAST", tick_ms: 120, points: 3 },
        SpeedTier::Expert => SpeedConfig { name: "EXPERT", tick_ms: 80, points: 4 },
    }
}

pub open spec fn spec_border_mode_name(mode: BorderMode) -> Seq<char> {
    match mode {
        BorderMode::Borders => "BORDERS"@,
        BorderMode::Wrap => "WRAP"@,
    }
}

pub fn border_mode_name(mode: BorderMode) -> (r: &'static str)
    ensures
        r@ == spec_border_mode_name(mode),
{
    match mode {
        BorderMode::Borders => "BORDERS",
        BorderMode::Wrap => "WRAP",
    }
}

/// The abstract state of a Snake game.
pub struct SnakeState {
    /// The snake from head to tail.
    pub body: Seq<Cell>,
    pub food: Cell,
    pub direction: Direction,
    pub pending_direction: Direction,
    pub mode: GameMode,
    pub speed_tier: SpeedTier,
    pub border_mode: BorderMode,
    pub selected_field: SelectionField,
    pub score: u32,
    pub best_score: u32,
    pub tick_ms: u32,
    pub last_tick_us: i64,
}

/// The cell next to `head` in `direction` (before any wrapping).
pub open spec fn spec_step(head: Cell, direction: Direction) -> Cell {
    match direction {
        Direction::Up => Cell { x: head.x, y: (head.y - 1) as i16 },
        Direction::Down => Cell { x: head.x, y: (head.y + 1) as i16 },
        Direction::Left => Cell { x: (head.x - 1) as i16, y: head.y },
        Direction::Right => Cell { x: (head.x + 1) as i16, y: head.y },
    }
}

/// The food marker used when no apple is on the board.
pub open spec fn no_food() -> Cell {
    Cell { x: -1i16, y: -1i16 }
}

/// Where the head goes on the next move, or `None` when it leaves a
/// bordered board.
pub open spec fn spec_next_head(s: SnakeState) -> Option<Cell> {
    let raw = spec_step(s.body[0], s.pending_direction);
    if s.border_mode == BorderMode::Wrap {
        Some(spec_wrapped_cell(raw))
    } else if spec_on_board(raw) {
        Some(raw)
    } else {
        None
    }
}

/// The food placement promised after the snake grew or restarted: a board
/// cell outside the snake, or no food at all once the snake fills the board.
pub open spec fn food_placed(body: Seq<Cell>, food: Cell) -> bool {
    if body.len() >= BOARD_CELLS {
        food == no_food()
    } else {
        spec_on_board(food) && !body.contains(food)
    }
}

/// The board cell numbered `i`, row by row.
pub open spec fn board_cell(i: int) -> Cell {
    Cell { x: (i % 20) as i16, y: (i / 20) as i16 }
}

/// A snake of distinct board cells that is shorter than the board leaves a
/// board cell free.
pub proof fn lemma_free_cell(body: Seq<Cell>)
    requires
        body.len() < BOARD_CELLS,
        distinct_cells(body),
        forall|i: int| 0 <= i < body.len() ==> spec_on_board(#[trigger] body[i]),
    ensures
        exists|c: Cell| spec_on_board(c) && !body.contains(c),
{
    if forall|c: Cell| spec_on_board(c) ==> body.contains(c) {
        let idx = body.map_values(|c: Cell| c.y * 20 + c.x);
        assert(idx.no_duplicates()) by {
            assert forall|i: int, j: int| 0 <= i < idx.len() && 0 <= j < idx.len() && i != j implies idx[i] != idx[j] by {
                let (a, b) = if i < j { (i, j) } else { (j, i) };
                assert(body[a] != body[b]);
                assert(spec_on_board(body[a]) && spec_on_board(body[b]));
            }
        }
        idx.unique_seq_to_set();
        vstd::set_lib::lemma_int_range(0, 280);
        assert(vstd::set_lib::set_int_range(0, 280).subset_of(idx.to_set())) by {
            assert forall|i: int| vstd::set_lib::set_int_range(0, 280).contains(i) implies idx.to_set().contains(i) by {
                let c = board_cell(i);
                assert(spec_on_board(c));
                assert(body.contains(c));
                let t = choose|t: int| 0 <= t < body.len() && body[t] == c;
                assert(idx[t] == i);
            }
        }
        vstd::set_lib::lemma_len_subset(vstd::set_lib::set_int_range(0, 280), idx.to_set());
        assert(false);
    }
}

/// The starting snake: four cells leftwards from the board centre.
pub open spec fn start_body() -> Seq<Cell> {
    seq![
        Cell { x: 10, y: 7 },
        Cell { x: 9, y: 7 },
        Cell { x: 8, y: 7 },
        Cell { x: 7, y: 7 },
    ]
}

/// Cells of the snake are pairwise different.
pub open spec fn distinct_cells(body: Seq<Cell>) -> bool {
    forall|i: int, j: int| 0 <= i < j < body.len() ==> body[i] != body[j]
}

/// What every Snake game keeps true.
pub open spec fn snake_valid(s: SnakeState) -> bool {
    &&& s.body.len() <= BOARD_CELLS
    &&& forall|i: int| 0 <= i < s.body.len() ==> spec_on_board(#[trigger] s.body[i])
    &&& distinct_cells(s.body)
    &&& s.mode != GameMode::Choosing ==> s.body.len() >= 1
    &&& !s.body.contains(s.food)
    &&& s.body.len() >= BOARD_CELLS ==> s.food == no_food()
    &&& s.tick_ms == spec_tick_ms(s.speed_tier)
    &&& s.score <= 4 * s.body.len()
}

/// The setup screen again: the cursor on the speed row, no snake and no
/// apple, and the best score of the current bucket.
pub open spec fn spec_to_choosing<H: HighScoreStore>(o: SnakeState, store: &H) -> SnakeState {
    SnakeState {
        mode: GameMode::Choosing,
        selected_field: SelectionField::Speed,
        score: 0,
        body: Seq::empty(),
        food: no_food(),
        best_score: store.snake_best(spec_high_score_index(o.speed_tier, o.border_mode) as int),
        ..o
    }
}

/// A round started from `o` at `now_us`: the four-cell snake heading right,
/// an apple on a free cell, the score zero and the bucket's best score.
pub open spec fn spec_reset<H: HighScoreStore>(o: SnakeState, f: SnakeState, store: &H, now_us: i64) -> bool {
    &&& food_placed(f.body, f.food)
    &&& f == (SnakeState {
        body: start_body(),
        direction: Direction::Right,
        pending_direction: Direction::Right,
        mode: GameMode::Playing,
        score: 0,
        best_score: store.snake_best(spec_high_score_index(o.speed_tier, o.border_mode) as int),
        tick_ms: spec_tick_ms(o.speed_tier),
        last_tick_us: now_us,
        food: f.food,
        ..o
    })
}

/// The knob on the setup screen turns the selected value, speed or border
/// (nothing elsewhere); a changed bucket loads its best score. Says whether
/// a value changed.
pub open spec fn spec_setup_knob<H: HighScoreStore>(o: SnakeState, detents: i32, store: &H) -> (SnakeState, bool) {
    let speed = if o.mode == GameMode::Choosing && detents != 0 && o.selected_field == SelectionField::Speed {
        spec_cycle_speed_tier(o.speed_tier, detents)
    } else {
        o.speed_tier
    };
    let border = if o.mode == GameMode::Choosing && detents != 0 && o.selected_field == SelectionField::Border {
        spec_cycle_border_mode(o.border_mode, detents)
    } else {
        o.border_mode
    };
    let changed = speed != o.speed_tier || border != o.border_mode;
    (SnakeState {
        speed_tier: speed,
        border_mode: border,
        tick_ms: spec_tick_ms(speed),
        best_score: if changed {
            store.snake_best(spec_high_score_index(speed, border) as int)
        } else {
            o.best_score
        },
        ..o
    }, changed)
}

/// One move of the snake from `o` to `f`, the store going from `h0` to
/// `h1`: nothing outside play; else the queued turn takes effect, leaving
/// a bordered board or biting itself ends the round, and eating the apple
/// grows the snake, scores the tier's points, offers the score as the
/// bucket's best and places a new apple.
pub open spec fn spec_ticked<H: HighScoreStore>(o: SnakeState, f: SnakeState, h0: &H, h1: &H) -> bool {
    if o.mode != GameMode::Playing {
        f == o && *h1 == *h0
    } else {
        match spec_next_head(SnakeState { direction: o.pending_direction, ..o }) {
            None => f == (SnakeState { direction: o.pending_direction, mode: GameMode::Over, ..o })
                && *h1 == *h0,
            Some(head) => {
                let eating = head == o.food;
                let keep = if eating { o.body.len() as int } else { o.body.len() - 1 };
                if o.body.take(keep).contains(head) {
                    f == (SnakeState { direction: o.pending_direction, mode: GameMode::Over, ..o })
                        && *h1 == *h0
                } else if !eating {
                    f == (SnakeState {
                        direction: o.pending_direction,
                        body: seq![head] + o.body.take(keep),
                        ..o
                    }) && *h1 == *h0
                } else {
                    let score = (o.score + spec_points(o.speed_tier)) as u32;
                    let idx = spec_high_score_index(o.speed_tier, o.border_mode);
                    &&& f.body == seq![head] + o.body
                    &&& f.direction == o.pending_direction
                    &&& f.score == score
                    &&& food_placed(f.body, f.food)
                    &&& forall|i: int| #[trigger] h1.snake_best(i) == (
                        if i == idx && score > h0.snake_best(i) {
                            score
                        } else {
                            h0.snake_best(i)
                        })
                    &&& f.best_score == h1.snake_best(idx as int)
                    &&& h1.flags_best() == h0.flags_best()
                    &&& forall|i: int| #[trigger] h1.game2048_best(i) == h0.game2048_best(i)
                    &&& h1.flappy_best() == h0.flappy_best()
                    &&& h1.mario_best() == h0.mario_best()
                    &&& f == (SnakeState {
                        body: f.body,
                        food: f.food,
                        direction: f.direction,
                        score: f.score,
                        best_score: f.best_score,
                        ..o
                    })
                }
            },
        }
    }
}

#[derive(Debug)]
pub struct SnakeGame {
    body: Vec<Cell>,
    food: Cell,
    direction: Direction,
    pending_direction: Direction,
    mode: GameMode,
    speed_tier: SpeedTier,
    border_mode: BorderMode,
    selected_field: SelectionField,
    score: u32,
    best_score: u32,
    tick_ms: u32,
    last_tick_us: i64,
}

impl View for SnakeGame {
    type V = SnakeState;

    closed spec fn view(&self) -> SnakeState {
        SnakeState {
            body: self.body@,
            food: self.food,
            direction: self.direction,
            pending_direction: self.pending_direction,
            mode: self.mode,
            speed_tier: self.speed_tier,
            border_mode: self.border_mode,
            selected_field: self.selected_field,
            score: self.score,
            best_score: self.best_score,
            tick_ms: self.tick_ms,
            last_tick_us: self.last_tick_us,
        }
    }
}

impl Default for SnakeGame {
    /// A game waiting in the setup screen, at normal speed with borders.
    fn default() -> (r: Self)
        ensures
            r@ == (SnakeState {
                body: Seq::empty(),
                food: no_food(),
                direction: Direction::Right,
                pending_direction: Direction::Right,
                mode: GameMode::Choosing,
                speed_tier: SpeedTier::Normal,
                border_mode: BorderMode::Borders,
                selected_field: SelectionField::Speed,
                score: 0,
                best_score: 0,
                tick_ms: 180,
                last_tick_us: 0,
            }),
            snake_valid(r@),
    {
        SnakeGame {
            body: Vec::new(),
            food: Cell::new(-1, -1),
            direction: Direction::Right,
            pending_direction: Direction::Right,
            mode: GameMode::Choosing,
            speed_tier: SpeedTier::Normal,
            border_mode: BorderMode::Borders,
            selected_field: SelectionField::Speed,
            score: 0,
            best_score: 0,
            tick_ms: 180,
            last_tick_us: 0,
        }
    }
}

impl SnakeGame {
    /// Back to the setup screen, with the best score of the chosen settings.
    pub fn enter_choosing<H: HighScoreStore>(&mut self, high_scores: &H)
        requires
            snake_valid(old(self)@),
        ensures
            final(self)@ == spec_to_choosing(old(self)@, high_scores),
            snake_valid(final(self)@),
    {
        self.mode = GameMode::Choosing;
        self.selected_field = SelectionField::Speed;
        self.score = 0;
        self.body = Vec::new();
        self.food = Cell::new(-1, -1);
        self.best_score = high_scores.best_score(self.speed_tier, self.border_mode);
    }

    /// Starts a round: a four-cell snake in the middle heading right, and an
    /// apple on a free cell.
    pub fn reset<H: HighScoreStore, R: Rng>(&mut self, high_scores: &H, rng: &mut R, now_us: i64)
        requires
            snake_valid(old(self)@),
        ensures
            spec_reset(old(self)@, final(self)@, high_scores, now_us),
            snake_valid(final(self)@),
    {
        let mut body: Vec<Cell> = Vec::new();
        body.push(Cell::new(10, 7));
        body.push(Cell::new(9, 7));
        body.push(Cell::new(8, 7));
        body.push(Cell::new(7, 7));
        assert(body@ == start_body());
        self.body = body;
        self.food = Cell::new(-1, -1);
        self.direction = Direction::Right;
        self.pending_direction = Direction::Right;
        self.mode = GameMode::Playing;
        self.score = 0;
        self.best_score = high_scores.best_score(self.speed_tier, self.border_mode);
        self.tick_ms = speed_config(self.speed_tier).tick_ms;
        self.last_tick_us = now_us;
        self.place_food(rng);
    }

    /// The switch starts a round from setup, leaves a finished round for
    /// setup, and toggles pause while playing. It always reports a change.
    pub fn press_switch<H: HighScoreStore, R: Rng>(
        &mut self,
        high_scores: &H,
        rng: &mut R,
        now_us: i64,
    ) -> (r: bool)
        requires
            snake_valid(old(self)@),
        ensures
            r,
            old(self)@.mode == GameMode::Choosing ==> spec_reset(old(self)@, final(self)@, high_scores, now_us),
            old(self)@.mode == GameMode::Over ==> final(self)@ == spec_to_choosing(old(self)@, high_scores),
            old(self)@.mode == GameMode::Paused ==> final(self)@ == (SnakeState {
                mode: GameMode::Playing,
                last_tick_us: now_us,
                ..old(self)@
            }),
            old(self)@.mode == GameMode::Playing ==> final(self)@ == (SnakeState {
                mode: GameMode::Paused,
                ..old(self)@
            }),
            snake_valid(final(self)@),
    {
        match self.mode {
            GameMode::Choosing => {
                self.reset(high_scores, rng, now_us);
                true
            },
            GameMode::Over => {
                self.enter_choosing(high_scores);
                true
            },
            GameMode::Paused => {
                self.mode = GameMode::Playing;
                self.last_tick_us = now_us;
                true
            },
            GameMode::Playing => {
                self.mode = GameMode::Paused;
                true
            },
        }
    }

    /// Queues a turn for the next move; a turn straight back is ignored.
    pub fn request_direction(&mut self, direction: Direction)
        requires
            snake_valid(old(self)@),
        ensures
            final(self)@ == (SnakeState {
                pending_direction: if direction == spec_opposite(old(self)@.direction) {
                    old(self)@.pending_direction
                } else {
                    direction
                },
                ..old(self)@
            }),
            snake_valid(final(self)@),
    {
        if !self.direction.is_opposite(direction) {
            self.pending_direction = direction;
        }
    }

    /// Moves the setup cursor down: speed, border, exit, then speed again;
    /// always a change.
    pub fn select_next_field(&mut self) -> (r: bool)
        requires
            snake_valid(old(self)@),
        ensures
            r,
            final(self)@ == (SnakeState {
                selected_field: spec_next_field(old(self)@.selected_field),
                ..old(self)@
            }),
            snake_valid(final(self)@),
    {
        let next = match self.selected_field {
            SelectionField::Speed => SelectionField::Border,
            SelectionField::Border => SelectionField::Exit,
            SelectionField::Exit => SelectionField::Speed,
        };
        let changed = next != self.selected_field;
        self.selected_field = next;
        changed
    }

    /// Moves the setup cursor up, the other way round; always a change.
    pub fn select_previous_field(&mut self) -> (r: bool)
        requires
            snake_valid(old(self)@),
        ensures
            r,
            final(self)@ == (SnakeState {
                selected_field: spec_previous_field(old(self)@.selected_field),
                ..old(self)@
            }),
            snake_valid(final(self)@),
    {
        let previous = match self.selected_field {
            SelectionField::Speed => SelectionField::Exit,
            SelectionField::Border => SelectionField::Speed,
            SelectionField::Exit => SelectionField::Border,
        };
        let changed = previous != self.selected_field;
        self.selected_field = previous;
        changed
    }

    /// Sets the mode directly; a round needs a snake on the board.
    pub fn set_mode(&mut self, mode: GameMode)
        requires
            snake_valid(old(self)@),
            mode == GameMode::Choosing || old(self)@.body.len() >= 1,
        ensures
            final(self)@ == (SnakeState { mode, ..old(self)@ }),
            snake_valid(final(self)@),
    {
        self.mode = mode;
    }

    /// Turns the selected setup value by `detents` steps, in setup only.
    pub fn adjust_selected_value<H: HighScoreStore>(&mut self, high_scores: &H, detents: i32) -> (r: bool)
        requires
            old(self)@.mode == GameMode::Choosing && detents != 0 ==> match old(self)@.selected_field {
                SelectionField::Speed => old(self)@.speed_tier.spec_index() + detents <= i32::MAX,
                SelectionField::Border => old(self)@.border_mode.spec_index() + detents <= i32::MAX,
                SelectionField::Exit => true,
            },
            snake_valid(old(self)@),
        ensures
            (final(self)@, r) == spec_setup_knob(old(self)@, detents, high_scores),
            snake_valid(final(self)@),
    {
        if self.mode != GameMode::Choosing || detents == 0 {
            return false;
        }
        let changed = match self.selected_field {
            SelectionField::Speed => self.set_speed_tier(cycle_speed_tier(self.speed_tier, detents)),
            SelectionField::Border => {
                let next = cycle_border_mode(self.border_mode, detents);
                if next == self.border_mode {
                    false
                } else {
                    self.border_mode = next;
                    true
                }
            },
            SelectionField::Exit => false,
        };
        if changed {
            self.best_score = high_scores.best_score(self.speed_tier, self.border_mode);
        }
        changed
    }

    /// Turns the speed by `detents` tiers during a round.
    pub fn adjust_speed<H: HighScoreStore>(&mut self, high_scores: &H, detents: i32) -> (r: bool)
        requires
            old(self)@.mode == GameMode::Playing && detents != 0 ==> old(self)@.speed_tier.spec_index() + detents <= i32::MAX,
            snake_valid(old(self)@),
        ensures
            ({
                let o = old(self)@;
                let speed = if o.mode == GameMode::Playing && detents != 0 {
                    spec_cycle_speed_tier(o.speed_tier, detents)
                } else {
                    o.speed_tier
                };
                &&& r == (speed != o.speed_tier)
                &&& final(self)@ == (SnakeState {
                    speed_tier: speed,
                    tick_ms: spec_tick_ms(speed),
                    best_score: if r {
                        high_scores.snake_best(spec_high_score_index(speed, o.border_mode) as int)
                    } else {
                        o.best_score
                    },
                    ..o
                })
            }),
            snake_valid(final(self)@),
    {
        if self.mode != GameMode::Playing || detents == 0 {
            return false;
        }
        let changed = self.set_speed_tier(cycle_speed_tier(self.speed_tier, detents));
        if changed {
            self.best_score = high_scores.best_score(self.speed_tier, self.border_mode);
        }
        changed
    }

    /// One move of the snake while playing. The queued turn takes effect;
    /// leaving a bordered board or biting itself ends the round; eating the
    /// apple grows the snake, scores the tier's points, records the best
    /// score and places a new apple.
    pub fn tick<H: HighScoreStore, R: Rng>(&mut self, high_scores: &mut H, rng: &mut R)
        requires
            snake_valid(old(self)@),
        ensures
            spec_ticked(old(self)@, final(self)@, old(high_scores), final(high_scores)),
            snake_valid(final(self)@),
    {
        if self.mode != GameMode::Playing {
            return;
        }
        self.direction = self.pending_direction;
        let raw = self.next_head_for(self.direction);
        let mut new_head = raw;
        if self.border_mode == BorderMode::Wrap {
            new_head = wrapped_cell(raw);
        } else if !on_board(raw) {
            self.mode = GameMode::Over;
            return;
        }
        let eating = new_head == self.food;
        let len = self.body.len();
        let collision_limit = if eating { len } else { len - 1 };
        if self.contains(new_head, collision_limit) {
            self.mode = GameMode::Over;
            return;
        }
        let ghost old_body = self.body@;
        let mut new_body: Vec<Cell> = Vec::new();
        new_body.push(new_head);
        let mut i: usize = 0;
        while i < collision_limit
            invariant
                collision_limit <= self.body@.len(),
                self.body@ == old_body,
                i <= collision_limit,
                new_body@ == seq![new_head] + old_body.take(i as int),
            decreases collision_limit - i,
        {
            new_body.push(self.body[i]);
            i = i + 1;
            assert(old_body.take(i as int) == old_body.take((i - 1) as int).push(old_body[i - 1]));
        }
        proof {
            let nb = new_body@;
            assert forall|a: int, b: int| 0 <= a < b < nb.len() implies nb[a] != nb[b] by {
                if a == 0 {
                    assert(old_body.take(collision_limit as int)[b - 1] == nb[b]);
                }
            }
            assert forall|k: int| 0 <= k < nb.len() implies spec_on_board(#[trigger] nb[k]) by {
                if k > 0 {
                    assert(nb[k] == old_body[k - 1]);
                }
            }
            if !eating {
                assert(!nb.contains(self.food)) by {
                    if nb.contains(self.food) {
                        let k = choose|k: int| 0 <= k < nb.len() && nb[k] == self.food;
                        if k > 0 {
                            assert(old_body.contains(self.food)) by {
                                assert(old_body[k - 1] == self.food);
                            }
                        }
                    }
                }
            } else {
                assert(old_body.take(len as int) == old_body);
            }
        }
        self.body = new_body;
        if eating {
            self.score = self.score + speed_config(self.speed_tier).points;
            high_scores.update_if_better(self.score, self.speed_tier, self.border_mode);
            self.best_score = high_scores.best_score(self.speed_tier, self.border_mode);
            self.place_food(rng);
        }
    }

    /// A move is due once the tick period has passed since the last move.
    pub fn due_for_tick(&self, now_us: i64) -> (r: bool)
        ensures
            r == (self@.mode == GameMode::Playing && now_us - self@.last_tick_us >= self@.tick_ms * 1000),
    {
        self.mode == GameMode::Playing
            && (now_us as i128) - (self.last_tick_us as i128) >= (self.tick_ms as i128) * 1000
    }

    pub fn mark_ticked(&mut self, now_us: i64)
        requires
            snake_valid(old(self)@),
        ensures
            final(self)@ == (SnakeState { last_tick_us: now_us, ..old(self)@ }),
            snake_valid(final(self)@),
    {
        self.last_tick_us = now_us;
    }

    pub fn mode(&self) -> (r: GameMode)
        ensures
            r == self@.mode,
    {
        self.mode
    }

    pub fn score(&self) -> (r: u32)
        ensures
            r == self@.score,
    {
        self.score
    }

    pub fn best_score(&self) -> (r: u32)
        ensures
            r == self@.best_score,
    {
        self.best_score
    }

    pub fn length(&self) -> (r: usize)
        ensures
            r == self@.body.len(),
    {
        self.body.len()
    }

    pub fn head(&self) -> (r: Cell)
        requires
            self@.body.len() > 0,
        ensures
            r == self@.body[0],
    {
        self.body[0]
    }

    pub fn tail(&self) -> (r: Cell)
        requires
            self@.body.len() > 0,
        ensures
            r == self@.body.last(),
    {
        self.body[self.body.len() - 1]
    }

    pub fn snake_at(&self, index: usize) -> (r: Cell)
        requires
            index < self@.body.len(),
        ensures
            r == self@.body[index as int],
    {
        self.body[index]
    }

    pub fn direction(&self) -> (r: Direction)
        ensures
            r == self@.direction,
    {
        self.direction
    }

    pub fn food(&self) -> (r: Cell)
        ensures
            r == self@.food,
    {
        self.food
    }

    pub fn speed_tier(&self) -> (r: SpeedTier)
        ensures
            r == self@.speed_tier,
    {
        self.speed_tier
    }

    pub fn border_mode(&self) -> (r: BorderMode)
        ensures
            r == self@.border_mode,
    {
        self.border_mode
    }

    pub fn selected_field(&self) -> (r: SelectionField)
        ensures
            r == self@.selected_field,
    {
        self.selected_field
    }

    /// Chooses speed and border and loads the matching best score.
    pub fn set_options<H: HighScoreStore>(&mut self, speed: SpeedTier, border: BorderMode, high_scores: &H)
        requires
            snake_valid(old(self)@),
        ensures
            final(self)@ == (SnakeState {
                speed_tier: speed,
                border_mode: border,
                tick_ms: spec_tick_ms(speed),
                best_score: high_scores.snake_best(spec_high_score_index(speed, border) as int),
                ..old(self)@
            }),
            snake_valid(final(self)@),
    {
        self.speed_tier = speed;
        self.border_mode = border;
        self.tick_ms = speed_config(speed).tick_ms;
        self.best_score = high_scores.best_score(self.speed_tier, self.border_mode);
    }

    fn next_head_for(&self, direction: Direction) -> (r: Cell)
        requires
            self@.body.len() > 0,
            spec_on_board(self@.body[0]),
        ensures
            r == spec_step(self@.body[0], direction),
    {
        let head = self.body[0];
        match direction {
            Direction::Up => Cell::new(head.x, head.y - 1),
            Direction::Down => Cell::new(head.x, head.y + 1),
            Direction::Left => Cell::new(head.x - 1, head.y),
            Direction::Right => Cell::new(head.x + 1, head.y),
        }
    }

    fn set_speed_tier(&mut self, tier: SpeedTier) -> (r: bool)
        requires
            snake_valid(old(self)@),
        ensures
            r == (tier != old(self)@.speed_tier),
            final(self)@ == (SnakeState { speed_tier: tier, tick_ms: spec_tick_ms(tier), ..old(self)@ }),
            snake_valid(final(self)@),
    {
        if tier == self.speed_tier {
            return false;
        }
        self.speed_tier = tier;
        self.tick_ms = speed_config(tier).tick_ms;
        true
    }

    fn contains(&self, cell: Cell, limit: usize) -> (r: bool)
        requires
            limit <= self@.body.len(),
        ensures
            r == self@.body.take(limit as int).contains(cell),
    {
        let mut i: usize = 0;
        while i < limit
            invariant
                i <= limit <= self.body@.len(),
                forall|k: int| 0 <= k < i ==> self.body@[k] != cell,
            decreases limit - i,
        {
            if self.body[i] == cell {
                assert(self.body@.take(limit as int)[i as int] == cell);
                return true;
            }
            i = i + 1;
        }
        assert forall|k: int| 0 <= k < limit implies self.body@.take(limit as int)[k] != cell by {}
        false
    }

    fn place_food<R: Rng>(&mut self, rng: &mut R)
        requires
            old(self)@.body.len() <= BOARD_CELLS,
            forall|i: int| 0 <= i < old(self)@.body.len() ==> spec_on_board(#[trigger] old(self)@.body[i]),
            distinct_cells(old(self)@.body),
        ensures
            final(self)@ == (SnakeState { food: final(self)@.food, ..old(self)@ }),
            food_placed(final(self)@.body, final(self)@.food),
    {
        if self.body.len() >= BOARD_CELLS {
            self.food = Cell::new(-1, -1);
            return;
        }
        let mut attempts: u32 = 0;
        while attempts < FOOD_ATTEMPTS
            invariant
                self@ == (SnakeState { food: self@.food, ..old(self)@ }),
                self.body@.len() < BOARD_CELLS,
            decreases FOOD_ATTEMPTS - attempts,
        {
            let x = rng.index(20) as i16;
            let y = rng.index(14) as i16;
            let food = Cell::new(x, y);
            if !self.contains(food, self.body.len()) {
                assert(self.body@.take(self.body@.len() as int) == self.body@);
                self.food = food;
                return;
            }
            attempts = attempts + 1;
        }
        let mut y: i16 = 0;
        while y < BOARD_ROWS
            invariant
                self@ == (SnakeState { food: self@.food, ..old(self)@ }),
                self.body@.len() < BOARD_CELLS,
                0 <= y <= BOARD_ROWS,
                forall|c: Cell| spec_on_board(c) && c.y < y ==> self@.body.contains(c),
            decreases BOARD_ROWS - y,
        {
            let mut x: i16 = 0;
            while x < BOARD_COLS
                invariant
                    self@ == (SnakeState { food: self@.food, ..old(self)@ }),
                    self.body@.len() < BOARD_CELLS,
                    0 <= y < BOARD_ROWS,
                    0 <= x <= BOARD_COLS,
                    forall|c: Cell| spec_on_board(c) && (c.y < y || (c.y == y && c.x < x)) ==> self@.body.contains(c),
                decreases BOARD_COLS - x,
            {
                let food = Cell::new(x, y);
                if !self.contains(food, self.body.len()) {
                    assert(self.body@.take(self.body@.len() as int) == self.body@);
                    self.food = food;
                    return;
                }
                x = x + 1;
            }
            y = y + 1;
        }
        proof { lemma_free_cell(self@.body); }
        self.food = Cell::new(-1, -1);
    }
}

/// Random tries for a free apple cell before the board is scanned in order.
pub const FOOD_ATTEMPTS: u32 = 4096;

pub open spec fn spec_cycle_speed_tier(tier: SpeedTier, detents: i32) -> SpeedTier {
    SpeedTier::spec_from_index(spec_wrap_index(tier.spec_index() + detents, 4) as usize)
}

/// The tier `detents` steps on, cycling through the four tiers.
pub fn cycle_speed_tier(tier: SpeedTier, detents: i32) -> (r: SpeedTier)
    requires
        tier.spec_index() + detents <= i32::MAX,
    ensures
        r == spec_cycle_speed_tier(tier, detents),
{
    SpeedTier::from_index(wrap_index(tier.index() as i32 + detents, 4) as usize)
}

pub open spec fn spec_cycle_border_mode(mode: BorderMode, detents: i32) -> BorderMode {
    if detents == 0 {
        mode
    } else if spec_wrap_index(mode.spec_index() + detents, 2) == 0 {
        BorderMode::Borders
    } else {
        BorderMode::Wrap
    }
}

/// The border mode `detents` steps on: odd steps flip it.
pub fn cycle_border_mode(mode: BorderMode, detents: i32) -> (r: BorderMode)
    requires
        detents != 0 ==> mode.spec_index() + detents <= i32::MAX,
    ensures
        r == spec_cycle_border_mode(mode, detents),
{
    if detents == 0 {
        return mode;
    }
    match wrap_index(mode.index() as i32 + detents, 2) {
        0 => BorderMode::Borders,
        _ => BorderMode::Wrap,
    }
}


/// Turning the speed by some steps and back by as many gives the tier
/// back, and a whole turn of four steps changes nothing.
pub proof fn law_cycle_speed_tier_round_trip(tier: SpeedTier, detents: i32)
    requires
        detents > i32::MIN,
    ensures
        spec_cycle_speed_tier(spec_cycle_speed_tier(tier, detents), (-detents) as i32) == tier,
        spec_cycle_speed_tier(tier, 4) == tier,
{
    let i = tier.spec_index() as int;
    let d = detents as int;
    let j = (i + d) % 4;
    assert(0 <= j < 4) by { vstd::arithmetic::div_mod::lemma_mod_bound(i + d, 4); }
    assert(SpeedTier::spec_from_index(j as usize).spec_index() == j);
    assert((j + (-d)) % 4 == i) by {
        vstd::arithmetic::div_mod::lemma_add_mod_noop(i + d, -d, 4);
        vstd::arithmetic::div_mod::lemma_mod_twice(i + d, 4);
        vstd::arithmetic::div_mod::lemma_add_mod_noop(j, -d, 4);
        vstd::arithmetic::div_mod::lemma_small_mod(i as nat, 4);
    }
    assert((i + 4) % 4 == i) by {
        vstd::arithmetic::div_mod::lemma_mod_add_multiples_vanish(i, 4);
        vstd::arithmetic::div_mod::lemma_small_mod(i as nat, 4);
    }
}


/// A move in play keeps the game sound. Either the snake hit a wall or
/// itself and the game is over with the snake and score as they were, or
/// the game goes on: the head is the cell next to the old head in the new
/// direction (across the edge on a wrapping board), the snake's cells stay
/// distinct and on the board, the apple is not on the snake, and the snake
/// grows by one and the score by the speed's points exactly when the apple
/// was eaten (else both stay).
pub proof fn law_snake_tick<H: HighScoreStore>(o: SnakeState, f: SnakeState, h0: &H, h1: &H)
    requires
        snake_valid(o),
        o.mode == GameMode::Playing,
        spec_ticked(o, f, h0, h1),
    ensures
        f.mode == GameMode::Over || f.mode == GameMode::Playing,
        f.mode == GameMode::Over ==> f.body == o.body && f.score == o.score,
        f.mode == GameMode::Playing ==> {
            &&& f.direction == o.pending_direction
            &&& f.body[0] == if o.border_mode == BorderMode::Wrap {
                spec_wrapped_cell(spec_step(o.body[0], f.direction))
            } else {
                spec_step(o.body[0], f.direction)
            }
            &&& distinct_cells(f.body)
            &&& forall|i: int| 0 <= i < f.body.len() ==> spec_on_board(#[trigger] f.body[i])
            &&& !f.body.contains(f.food)
            &&& if f.body[0] == o.food {
                f.body.len() == o.body.len() + 1 && f.score == o.score + spec_points(o.speed_tier)
            } else {
                f.body.len() == o.body.len() && f.score == o.score
            }
        },
{
    match spec_next_head(o) {
        None => {},
        Some(head) => {
            let eating = head == o.food;
            let keep = if eating { o.body.len() as int } else { o.body.len() - 1 };
            let kept = o.body.take(keep);
            if !kept.contains(head) {
                assert(spec_on_board(head));
                let nb = seq![head] + kept;
                assert(f.body == nb);
                assert forall|i: int, j: int| 0 <= i < j < nb.len() implies nb[i] != nb[j] by {
                    if i == 0 {
                        assert(nb[j] == kept[j - 1]);
                    } else {
                        assert(nb[i] == o.body[i - 1] && nb[j] == o.body[j - 1]);
                    }
                }
                assert forall|i: int| 0 <= i < nb.len() implies spec_on_board(#[trigger] nb[i]) by {
                    if i > 0 {
                        assert(nb[i] == o.body[i - 1]);
                    }
                }
                if nb.contains(f.food) {
                    let t = choose|t: int| 0 <= t < nb.len() && nb[t] == f.food;
                    if eating {
                        if nb.len() < BOARD_CELLS {
                            assert(!nb.contains(f.food));
                        } else {
                            assert(f.food == no_food());
                            assert(spec_on_board(nb[t]));
                        }
                    } else {
                        assert(f.food == o.food);
                        if t > 0 {
                            assert(nb[t] == o.body[t - 1]);
                            assert(o.body.contains(o.food));
                        }
                    }
                }
            }
        },
    }
}

} // verus!
