//! The state of a pong game that the rules act on: paddles' columns and
//! reach, scores, the play field, the plotting marker and the ball trail.

use vstd::prelude::*;
use std::collections::VecDeque;

verus! {

/// Columns between a paddle and the edge of the field it guards.
pub const PADDLE_DISTANCE_FROM_EDGE: u16 = 2;

/// Half of a paddle's height, in cells.
pub const PADDLE_HALF_HEIGHT: u16 = 2;

/// How many ball positions the trail remembers.
pub const MAX_TRAIL: usize = 16;

/// How many collision sparks are shown at most.
pub const SPARK_LIMIT: usize = 8;

/// The horizontal speed, in cells per second, of a ball put back in play.
pub const RESET_BALL_SPEED: i32 = 18;

/// The vertical speed, in cells per second, of a ball put back in play.
pub const RESET_VERTICAL_VEL: i32 = 6;

/// The play field before the first frame tells its real size.
pub const DEFAULT_WIDTH: u16 = 40;

/// The play field before the first frame tells its real size.
pub const DEFAULT_HEIGHT: u16 = 20;

/// The way a ball put back in play travels.
#[derive(Debug, Clone, Copy, PartialEq, Eq, Structural)]
pub enum BallDirection {
    Left,
    Right,
}

/// One of the two players' sides.
#[derive(Debug, Clone, Copy, PartialEq, Eq, Structural)]
pub enum PaddleSide {
    Left,
    Right,
}

/// How points are plotted on the field; these are the markers of
/// ratatui's canvas.
#[derive(Debug, Clone, Copy, PartialEq, Eq, Structural)]
pub enum Marker {
    Dot,
    Block,
    Bar,
    Braille,
    HalfBlock,
}

/// The fixed part of a paddle: its half height and its column.
#[derive(Debug, Clone, Copy, PartialEq, Eq, Structural)]
pub struct Paddle {
    /// Half of the paddle height (in cells).
    pub half_height: u16,
    /// The column (in cells) of the paddle in the playfield.
    pub horizontal_pos: u16,
}

impl Paddle {
    /// A paddle of half height 2, two columns from the left edge.
    pub fn default() -> (p: Self)
        ensures
            p == (Paddle { half_height: PADDLE_HALF_HEIGHT, horizontal_pos: PADDLE_DISTANCE_FROM_EDGE }),
    {
        Paddle { half_height: PADDLE_HALF_HEIGHT, horizontal_pos: PADDLE_DISTANCE_FROM_EDGE }
    }
}

/// The points of the two players.
#[derive(Debug, Clone, Copy, PartialEq, Eq, Structural)]
pub struct Scores {
    left_score: u32,
    right_score: u32,
}

impl Scores {
    pub closed spec fn spec_left_score(&self) -> u32 {
        self.left_score
    }

    pub closed spec fn spec_right_score(&self) -> u32 {
        self.right_score
    }

    /// No points for either player.
    pub fn default() -> (s: Self)
        ensures
            s.left_score() == 0,
            s.right_score() == 0,
    {
        Scores { left_score: 0, right_score: 0 }
    }

    /// The left player's points.
    #[verifier::when_used_as_spec(spec_left_score)]
    pub fn left_score(&self) -> (r: u32)
        ensures
            r == self.left_score(),
    {
        self.left_score
    }

    /// The right player's points.
    #[verifier::when_used_as_spec(spec_right_score)]
    pub fn right_score(&self) -> (r: u32)
        ensures
            r == self.right_score(),
    {
        self.right_score
    }
}

/// The size of the play field, in cells.
#[derive(Debug, Clone, Copy, PartialEq, Eq, Structural)]
pub struct PlayArea {
    pub width: u16,
    pub height: u16,
}

impl PlayArea {
    /// A field of 40 by 20 cells.
    pub fn default() -> (a: Self)
        ensures
            a == (PlayArea { width: DEFAULT_WIDTH, height: DEFAULT_HEIGHT }),
    {
        PlayArea { width: DEFAULT_WIDTH, height: DEFAULT_HEIGHT }
    }
}

/// Where, and how fast, a ball is put back in play: the centre of the
/// field, and velocities in cells per second.
#[derive(Debug, Clone, Copy, PartialEq, Eq, Structural)]
pub struct BallReset {
    pub horizontal_pos: u16,
    pub vertical_pos: u16,
    pub horizontal_vel: i32,
    pub vertical_vel: i32,
}

/// The ball put back at the centre of `area`, moving the given way.
pub open spec fn ball_reset(area: PlayArea, direction: BallDirection) -> BallReset {
    BallReset {
        horizontal_pos: area.width / 2,
        vertical_pos: area.height / 2,
        horizontal_vel: match direction {
            BallDirection::Left => (-RESET_BALL_SPEED) as i32,
            BallDirection::Right => RESET_BALL_SPEED,
        },
        vertical_vel: RESET_VERTICAL_VEL,
    }
}

/// What the game holds, seen as plain values.
#[verifier::ext_equal]
pub struct PongView<P> {
    pub left_paddle: Paddle,
    pub right_paddle: Paddle,
    pub scores: Scores,
    pub play_area: PlayArea,
    pub marker: Marker,
    pub trail_enabled: bool,
    /// The remembered ball positions, oldest first.
    pub trail: Seq<P>,
}

/// The last `n` items of `s` (all of them where there are fewer).
pub open spec fn latest<T>(s: Seq<T>, n: nat) -> Seq<T> {
    if s.len() > n {
        s.subrange(s.len() - n, s.len() as int)
    } else {
        s
    }
}

impl<P> PongView<P> {
    /// What every game keeps: the trail is at most 16 positions long and
    /// empty while it is switched off; the marker is a block or a dot; the
    /// left paddle sits two columns from the left edge; both paddles have
    /// half height 2.
    pub open spec fn valid(self) -> bool {
        &&& self.trail.len() <= MAX_TRAIL
        &&& !self.trail_enabled ==> self.trail.len() == 0
        &&& (self.marker == Marker::Block || self.marker == Marker::Dot)
        &&& self.left_paddle == (Paddle {
            half_height: PADDLE_HALF_HEIGHT,
            horizontal_pos: PADDLE_DISTANCE_FROM_EDGE,
        })
        &&& self.right_paddle.half_height == PADDLE_HALF_HEIGHT
    }

    /// A fresh game: both paddles two columns from the left edge, no
    /// points, a 40 by 20 field, block marker, trail on and empty.
    pub open spec fn is_initial(self) -> bool {
        &&& self.left_paddle == (Paddle {
            half_height: PADDLE_HALF_HEIGHT,
            horizontal_pos: PADDLE_DISTANCE_FROM_EDGE,
        })
        &&& self.right_paddle == (Paddle {
            half_height: PADDLE_HALF_HEIGHT,
            horizontal_pos: PADDLE_DISTANCE_FROM_EDGE,
        })
        &&& self.scores.left_score() == 0
        &&& self.scores.right_score() == 0
        &&& self.play_area == (PlayArea { width: DEFAULT_WIDTH, height: DEFAULT_HEIGHT })
        &&& self.marker == Marker::Block
        &&& self.trail_enabled
        &&& self.trail == Seq::<P>::empty()
    }

    /// The game with the trail switched the other way; switching it off
    /// forgets the trail.
    pub open spec fn toggled_trail(self) -> Self {
        PongView {
            trail_enabled: !self.trail_enabled,
            trail: if self.trail_enabled {
                Seq::empty()
            } else {
                self.trail
            },
            ..self
        }
    }

    /// The game plotting with a dot after a block, and with a block otherwise.
    pub open spec fn toggled_marker(self) -> Self {
        PongView {
            marker: if self.marker == Marker::Block {
                Marker::Dot
            } else {
                Marker::Block
            },
            ..self
        }
    }

    /// The game after the ball reached `point`: the point is remembered,
    /// the oldest one forgotten when 16 are held, while the trail is on.
    pub open spec fn with_trail_point(self, point: P) -> Self {
        PongView {
            trail: if self.trail_enabled {
                latest(self.trail.push(point), MAX_TRAIL as nat)
            } else {
                Seq::empty()
            },
            ..self
        }
    }

    /// The paddle that a ball in column `col` is level with or behind, if any.
    pub open spec fn paddle_facing(self, col: u16) -> Option<PaddleSide> {
        if col <= self.left_paddle.horizontal_pos {
            Some(PaddleSide::Left)
        } else if col >= self.right_paddle.horizontal_pos {
            Some(PaddleSide::Right)
        } else {
            None
        }
    }
}

/// The way a ball travels after the player on `conceding` side lost a point.
pub open spec fn toward(conceding: PaddleSide) -> BallDirection {
    match conceding {
        PaddleSide::Left => BallDirection::Left,
        PaddleSide::Right => BallDirection::Right,
    }
}

/// `n / 3`, rounded up.
pub open spec fn ceil_third(n: nat) -> nat {
    (n + 2) / 3
}

/// `2 n / 3`, rounded up.
pub open spec fn ceil_two_thirds(n: nat) -> nat {
    (2 * n + 2) / 3
}

/// Where the oldest third of a trail of `len` positions ends, and where
/// its middle third ends: `len / 3` and `2 len / 3`, each rounded up.
pub fn trail_bands(len: usize) -> (bands: (usize, usize))
    ensures
        bands.0 == ceil_third(len as nat),
        bands.1 == ceil_two_thirds(len as nat),
        bands.0 <= bands.1 <= len,
{
    let third = len / 3;
    let older = if len % 3 == 0 {
        third
    } else {
        third + 1
    };
    let middle = len - third;
    (older, middle)
}

/// Adds a spark and keeps the 8 most recent ones.
pub fn push_spark<S>(sparks: &mut Vec<S>, spark: S)
    ensures
        final(sparks)@ == latest(old(sparks)@.push(spark), SPARK_LIMIT as nat),
{
    sparks.push(spark);
    if sparks.len() > SPARK_LIMIT {
        let excess = sparks.len() - SPARK_LIMIT;
        let kept = sparks.split_off(excess);
        *sparks = kept;
    }
}

/// Switching the marker twice gives the marker back.
pub proof fn lemma_toggle_marker_twice<P>(v: PongView<P>)
    requires
        v.valid(),
    ensures
        v.toggled_marker().toggled_marker() == v,
{
    assert(v.toggled_marker().toggled_marker() =~= v);
}

/// Switching the trail twice gives the switch back, with the trail forgotten.
pub proof fn lemma_toggle_trail_twice<P>(v: PongView<P>)
    requires
        v.valid(),
    ensures
        v.toggled_trail().toggled_trail() == (PongView { trail: Seq::<P>::empty(), ..v }),
{
    assert(v.toggled_trail().toggled_trail() =~= (PongView { trail: Seq::<P>::empty(), ..v }));
}

/// While the trail is on, a new ball position is kept as the newest one
/// and the trail never grows past 16 positions; switched off, it stays empty.
pub proof fn lemma_trail_keeps_newest<P>(v: PongView<P>, point: P)
    requires
        v.valid(),
    ensures
        v.with_trail_point(point).valid(),
        v.trail_enabled ==> v.with_trail_point(point).trail.last() == point,
        v.trail_enabled ==> v.with_trail_point(point).trail.len() == if v.trail.len() < MAX_TRAIL {
            v.trail.len() + 1
        } else {
            MAX_TRAIL as nat
        },
        !v.trail_enabled ==> v.with_trail_point(point).trail.len() == 0,
{
}

/// After a resize the two paddles stand as far from their edges.
pub proof fn lemma_paddles_symmetric<P>(v: PongView<P>, width: u16, height: u16)
    requires
        v.valid(),
        width >= 1 + PADDLE_DISTANCE_FROM_EDGE,
    ensures
        ({
            let w = PongView {
                play_area: PlayArea { width, height },
                right_paddle: Paddle {
                    horizontal_pos: (width - 1 - PADDLE_DISTANCE_FROM_EDGE) as u16,
                    ..v.right_paddle
                },
                ..v
            };
            &&& w.valid()
            &&& w.left_paddle.horizontal_pos == (width - 1) - w.right_paddle.horizontal_pos
        }),
{
}

/// Only a point changes the scores: switching the trail or the marker and
/// remembering a ball position leave them as they are.
pub proof fn lemma_scores_change_only_on_points<P>(v: PongView<P>, point: P)
    ensures
        v.toggled_trail().scores == v.scores,
        v.toggled_marker().scores == v.scores,
        v.with_trail_point(point).scores == v.scores,
{
}

/// After a point the ball starts inside the field, at its centre, and
/// heads towards the player who lost the point.
pub proof fn lemma_reset_heads_to_loser(area: PlayArea, conceding: PaddleSide)
    requires
        area.width > 0,
        area.height > 0,
    ensures
        ball_reset(area, toward(conceding)).horizontal_pos < area.width,
        ball_reset(area, toward(conceding)).vertical_pos < area.height,
        (ball_reset(area, toward(conceding)).horizontal_vel < 0) <==> conceding == PaddleSide::Left,
        ball_reset(area, toward(conceding)).horizontal_vel != 0,
{
}

/// A ball put back in play stands at the centre of the field it is put
/// on (half the width and half the height, rounded down), whatever the
/// field's size, and moves 18 cells a second towards the side it is sent
/// to and 6 cells a second downwards.
pub proof fn lemma_reset_at_centre(area: PlayArea, direction: BallDirection)
    ensures
        2 * ball_reset(area, direction).horizontal_pos <= area.width <= 2 * ball_reset(
            area,
            direction,
        ).horizontal_pos + 1,
        2 * ball_reset(area, direction).vertical_pos <= area.height <= 2 * ball_reset(
            area,
            direction,
        ).vertical_pos + 1,
        direction == BallDirection::Left ==> ball_reset(area, direction).horizontal_vel == -18,
        direction == BallDirection::Right ==> ball_reset(area, direction).horizontal_vel == 18,
        ball_reset(area, direction).vertical_vel == 6,
{
}

/// The reach of a paddle's centre keeps the whole paddle inside the field
/// and gives it every row that does: at the lowest centre row the paddle's
/// top touches row 0, at the highest its bottom touches the last row.
pub proof fn lemma_paddle_travel_fills_field(paddle: Paddle, field_h: u16)
    requires
        field_h >= 2 * paddle.half_height + 1,
    ensures
        paddle_travel(paddle, field_h).0 - paddle.half_height == 0,
        paddle_travel(paddle, field_h).1 + paddle.half_height == field_h - 1,
        paddle_travel(paddle, field_h).0 <= paddle_travel(paddle, field_h).1,
{
}

/// A ball faces the left paddle exactly when its column is at or left of
/// that paddle's, the right paddle exactly when it is right of the left
/// paddle and at or right of the right paddle's column, and neither while
/// it is strictly between them.
pub proof fn lemma_paddle_facing_by_column<P>(v: PongView<P>, col: u16)
    ensures
        (v.paddle_facing(col) == Some(PaddleSide::Left)) <==> col <= v.left_paddle.horizontal_pos,
        (v.paddle_facing(col) == Some(PaddleSide::Right)) <==> (v.left_paddle.horizontal_pos < col
            && col >= v.right_paddle.horizontal_pos),
        v.paddle_facing(col) is None <==> (v.left_paddle.horizontal_pos < col && col
            < v.right_paddle.horizontal_pos),
{
}

/// At most 8 sparks are kept, the newest last.
pub proof fn lemma_sparks_bounded<S>(sparks: Seq<S>, spark: S)
    ensures
        latest(sparks.push(spark), SPARK_LIMIT as nat).len() <= SPARK_LIMIT,
        latest(sparks.push(spark), SPARK_LIMIT as nat).last() == spark,
        sparks.len() < SPARK_LIMIT ==> latest(sparks.push(spark), SPARK_LIMIT as nat)
            == sparks.push(spark),
        sparks.len() >= SPARK_LIMIT ==> latest(sparks.push(spark), SPARK_LIMIT as nat).len()
            == SPARK_LIMIT,
        forall|i: int|
            0 <= i < latest(sparks.push(spark), SPARK_LIMIT as nat).len() ==> #[trigger] latest(
                sparks.push(spark),
                SPARK_LIMIT as nat,
            )[i] == sparks.push(spark)[sparks.len() + 1 - latest(
                sparks.push(spark),
                SPARK_LIMIT as nat,
            ).len() + i],
{
}

/// Switching the trail flips the switch, forgets the trail when switching
/// it off, and leaves everything else as it was; switching the marker
/// always changes it, between block and dot, and leaves everything else.
pub proof fn lemma_toggles_flip<P>(v: PongView<P>)
    requires
        v.valid(),
    ensures
        v.toggled_trail().trail_enabled == !v.trail_enabled,
        v.trail_enabled ==> v.toggled_trail().trail.len() == 0,
        !v.trail_enabled ==> v.toggled_trail().trail == v.trail,
        v.toggled_trail().marker == v.marker,
        v.toggled_trail().play_area == v.play_area,
        v.toggled_trail().left_paddle == v.left_paddle,
        v.toggled_trail().right_paddle == v.right_paddle,
        v.toggled_marker().marker != v.marker,
        v.marker == Marker::Block ==> v.toggled_marker().marker == Marker::Dot,
        v.marker == Marker::Dot ==> v.toggled_marker().marker == Marker::Block,
        v.toggled_marker().trail == v.trail,
        v.toggled_marker().trail_enabled == v.trail_enabled,
        v.toggled_marker().play_area == v.play_area,
{
}

/// A new ball position never disturbs the others: below 16 positions
/// they all stay and the new one follows them; at 16 the oldest one goes
/// and the rest move up by one.
pub proof fn lemma_trail_shifts<P>(v: PongView<P>, point: P)
    requires
        v.valid(),
        v.trail_enabled,
    ensures
        v.trail.len() < MAX_TRAIL ==> forall|i: int|
            0 <= i < v.trail.len() ==> #[trigger] v.with_trail_point(point).trail[i] == v.trail[i],
        v.trail.len() == MAX_TRAIL ==> forall|i: int|
            0 <= i < MAX_TRAIL - 1 ==> #[trigger] v.with_trail_point(point).trail[i] == v.trail[i
                + 1],
        v.with_trail_point(point).trail[v.with_trail_point(point).trail.len() - 1] == point,
        v.with_trail_point(point).scores == v.scores,
        v.with_trail_point(point).trail_enabled,
{
}

/// The thirds of a trail of `n` positions: the oldest third ends at the
/// smallest `a` with `3 a >= n`, the middle third at the smallest `b` with
/// `3 b >= 2 n`.
pub proof fn lemma_trail_thirds(n: nat)
    ensures
        3 * ceil_third(n) >= n,
        3 * ceil_third(n) < n + 3,
        3 * ceil_two_thirds(n) >= 2 * n,
        3 * ceil_two_thirds(n) < 2 * n + 3,
        ceil_third(n) <= ceil_two_thirds(n) <= n,
{
}

/// The lowest and highest centre rows that keep a paddle inside a field of
/// height `field_h`.
pub open spec fn paddle_travel(paddle: Paddle, field_h: u16) -> (u16, u16) {
    (paddle.half_height, (field_h - 1 - paddle.half_height) as u16)
}

/// A pong game's rule-bound state; `P` is what the trail remembers of
/// each ball position.
#[derive(Debug)]
pub struct PongGame<P> {
    left_paddle: Paddle,
    right_paddle: Paddle,
    scores: Scores,
    play_area: PlayArea,
    marker: Marker,
    trail_enabled: bool,
    ball_trail: VecDeque<P>,
    max_trail: usize,
}

impl<P> View for PongGame<P> {
    type V = PongView<P>;

    closed spec fn view(&self) -> PongView<P> {
        PongView {
            left_paddle: self.left_paddle,
            right_paddle: self.right_paddle,
            scores: self.scores,
            play_area: self.play_area,
            marker: self.marker,
            trail_enabled: self.trail_enabled,
            trail: self.ball_trail@,
        }
    }
}

impl<P> PongGame<P> {
    /// The game keeps its view valid and remembers at most 16 positions.
    pub closed spec fn wf(&self) -> bool {
        &&& self@.valid()
        &&& self.max_trail == MAX_TRAIL
    }

    /// A fresh game: both paddles two columns from the left edge, no
    /// points, a 40 by 20 field, block marker, trail on and empty.
    pub fn new() -> (g: Self)
        ensures
            g.wf(),
            g@.valid(),
            g@.is_initial(),
            g@.marker == Marker::Block,
            g@.trail_enabled,
            g@.trail.len() == 0,
            g@.scores.left_score() == 0 && g@.scores.right_score() == 0,
            g@.play_area.width == 40 && g@.play_area.height == 20,
            g@.left_paddle.horizontal_pos == 2 && g@.right_paddle.horizontal_pos == 2,
            g@.left_paddle.half_height == 2 && g@.right_paddle.half_height == 2,
    {
        PongGame {
            left_paddle: Paddle::default(),
            right_paddle: Paddle::default(),
            scores: Scores::default(),
            play_area: PlayArea::default(),
            marker: Marker::Block,
            trail_enabled: true,
            ball_trail: VecDeque::with_capacity(MAX_TRAIL),
            max_trail: MAX_TRAIL,
        }
    }

    /// Sets the field's size and moves the right paddle two columns from
    /// the right edge. A field narrower than 3 columns has no such column.
    pub fn set_play_area(&mut self, width: u16, height: u16)
        requires
            old(self).wf(),
            width >= 1 + PADDLE_DISTANCE_FROM_EDGE,
        ensures
            final(self)@ == (PongView {
                play_area: PlayArea { width, height },
                right_paddle: Paddle {
                    horizontal_pos: (width - 1 - PADDLE_DISTANCE_FROM_EDGE) as u16,
                    ..old(self)@.right_paddle
                },
                ..old(self)@
            }),
            final(self).wf(),
            final(self)@.valid(),
    {
        self.play_area = PlayArea { width, height };
        let right_edge = width - 1;
        self.right_paddle.horizontal_pos = right_edge - PADDLE_DISTANCE_FROM_EDGE;
    }

    /// Switches the trail on or off; switching it off forgets it.
    pub fn toggle_trail(&mut self)
        requires
            old(self).wf(),
        ensures
            final(self)@ == old(self)@.toggled_trail(),
            final(self).wf(),
            final(self)@.valid(),
    {
        let enabled = !self.trail_enabled;
        if !enabled {
            self.ball_trail.clear();
        }
        self.trail_enabled = enabled;
    }

    /// Switches from block to dot plotting and back.
    pub fn toggle_marker(&mut self)
        requires
            old(self).wf(),
        ensures
            final(self)@ == old(self)@.toggled_marker(),
            final(self).wf(),
            final(self)@.valid(),
    {
        self.marker = match self.marker {
            Marker::Block => Marker::Dot,
            _ => Marker::Block,
        };
    }

    /// Whether the trail is on.
    pub fn trail_enabled(&self) -> (r: bool)
        ensures
            r == self@.trail_enabled,
    {
        self.trail_enabled
    }

    /// How points are plotted.
    pub fn marker(&self) -> (r: Marker)
        ensures
            r == self@.marker,
    {
        self.marker
    }

    /// The players' points.
    pub fn scores(&self) -> (r: Scores)
        ensures
            r == self@.scores,
    {
        self.scores
    }

    /// The field's size.
    pub fn play_area(&self) -> (r: PlayArea)
        ensures
            r == self@.play_area,
    {
        self.play_area
    }

    /// The left paddle's fixed part.
    pub fn left_paddle(&self) -> (r: Paddle)
        ensures
            r == self@.left_paddle,
    {
        self.left_paddle
    }

    /// The right paddle's fixed part.
    pub fn right_paddle(&self) -> (r: Paddle)
        ensures
            r == self@.right_paddle,
    {
        self.right_paddle
    }

    /// The lowest and highest centre rows that keep `paddle` inside a field
    /// of height `field_h`. A field lower than the paddle has none.
    pub fn clamp_bounds(paddle: Paddle, field_h: u16) -> (r: (u16, u16))
        requires
            field_h >= 2 * paddle.half_height + 1,
        ensures
            r == paddle_travel(paddle, field_h),
            r.0 <= r.1,
            r.0 == paddle.half_height,
            r.1 + paddle.half_height == field_h - 1,
    {
        let min_y = paddle.half_height;
        let max_y = field_h - 1 - paddle.half_height;
        (min_y, max_y)
    }

    /// The row of the bottom wall.
    pub fn bottom_row(&self) -> (r: u16)
        requires
            self@.play_area.height >= 1,
        ensures
            r == self@.play_area.height - 1,
    {
        self.play_area.height - 1
    }

    /// The paddle that a ball in column `ball_col` is level with or behind:
    /// the left one first.
    pub fn paddle_facing(&self, ball_col: u16) -> (r: Option<PaddleSide>)
        ensures
            r == self@.paddle_facing(ball_col),
            (r == Some(PaddleSide::Left)) <==> ball_col <= self@.left_paddle.horizontal_pos,
            (r == Some(PaddleSide::Right)) <==> (self@.left_paddle.horizontal_pos < ball_col
                && ball_col >= self@.right_paddle.horizontal_pos),
            r is None <==> (self@.left_paddle.horizontal_pos < ball_col && ball_col
                < self@.right_paddle.horizontal_pos),
    {
        if ball_col <= self.left_paddle.horizontal_pos {
            Some(PaddleSide::Left)
        } else if ball_col >= self.right_paddle.horizontal_pos {
            Some(PaddleSide::Right)
        } else {
            None
        }
    }

    /// Remembers where the ball is, while the trail is on.
    pub fn update_trail(&mut self, point: P)
        requires
            old(self).wf(),
        ensures
            final(self)@ == old(self)@.with_trail_point(point),
            final(self).wf(),
            final(self)@.valid(),
    {
        if self.trail_enabled {
            if self.ball_trail.len() >= self.max_trail {
                self.ball_trail.pop_front();
            }
            self.ball_trail.push_back(point);
        } else {
            self.ball_trail.clear();
        }
    }

    /// Where the ball goes back into play after a point: the centre of
    /// the field, moving the given way.
    fn reset_ball(&self, direction: BallDirection) -> (r: BallReset)
        ensures
            r == ball_reset(self@.play_area, direction),
    {
        let horizontal_vel: i32 = match direction {
            BallDirection::Left => -RESET_BALL_SPEED,
            BallDirection::Right => RESET_BALL_SPEED,
        };
        BallReset {
            horizontal_pos: self.play_area.width / 2,
            vertical_pos: self.play_area.height / 2,
            horizontal_vel,
            vertical_vel: RESET_VERTICAL_VEL,
        }
    }

    /// The player on the other side of `conceding` wins a point: the
    /// trail is forgotten and the ball goes back to the centre, towards
    /// the player who lost the point. A score already at `u32::MAX` cannot
    /// grow.
    pub fn score_point(&mut self, conceding: PaddleSide) -> (reset: BallReset)
        requires
            old(self).wf(),
            conceding == PaddleSide::Left ==> old(self)@.scores.right_score() < u32::MAX,
            conceding == PaddleSide::Right ==> old(self)@.scores.left_score() < u32::MAX,
        ensures
            final(self).wf(),
            final(self)@.valid(),
            final(self)@.scores.left_score() == old(self)@.scores.left_score() + if conceding
                == PaddleSide::Right {
                1int
            } else {
                0int
            },
            final(self)@.scores.right_score() == old(self)@.scores.right_score() + if conceding
                == PaddleSide::Left {
                1int
            } else {
                0int
            },
            final(self)@ == (PongView {
                scores: final(self)@.scores,
                trail: Seq::empty(),
                ..old(self)@
            }),
            reset == ball_reset(old(self)@.play_area, toward(conceding)),
            2 * reset.horizontal_pos <= old(self)@.play_area.width <= 2 * reset.horizontal_pos + 1,
            2 * reset.vertical_pos <= old(self)@.play_area.height <= 2 * reset.vertical_pos + 1,
            reset.horizontal_vel == if conceding == PaddleSide::Left {
                -18i32
            } else {
                18i32
            },
            reset.vertical_vel == 6,
    {
        let reset = match conceding {
            PaddleSide::Left => {
                self.scores.right_score = self.scores.right_score + 1;
                self.reset_ball(BallDirection::Left)
            },
            PaddleSide::Right => {
                self.scores.left_score = self.scores.left_score + 1;
                self.reset_ball(BallDirection::Right)
            },
        };
        self.ball_trail.clear();
        reset
    }

    /// The trail split for fading: its oldest third, its middle third
    /// and its most recent third (each rounded as `trail_bands` says).
    pub fn trail_layers(&self) -> (layers: (Vec<P>, Vec<P>, Vec<P>))
        where
            P: Copy,
        ensures
            layers.0@ == self@.trail.subrange(0, ceil_third(self@.trail.len()) as int),
            layers.1@ == self@.trail.subrange(
                ceil_third(self@.trail.len()) as int,
                ceil_two_thirds(self@.trail.len()) as int,
            ),
            layers.2@ == self@.trail.subrange(
                ceil_two_thirds(self@.trail.len()) as int,
                self@.trail.len() as int,
            ),
            layers.0@ + layers.1@ + layers.2@ == self@.trail,
    {
        let n = self.ball_trail.len();
        let (older, middle) = trail_bands(n);
        let mut older_points: Vec<P> = Vec::new();
        let mut middle_points: Vec<P> = Vec::new();
        let mut recent_points: Vec<P> = Vec::new();
        let mut i: usize = 0;
        while i < older
            invariant
                n == self@.trail.len(),
                older <= middle <= n,
                0 <= i <= older,
                older_points@ == self@.trail.subrange(0, i as int),
            decreases older - i,
        {
            older_points.push(self.ball_trail[i]);
            i = i + 1;
        }
        while i < middle
            invariant
                n == self@.trail.len(),
                older <= middle <= n,
                older <= i <= middle,
                middle_points@ == self@.trail.subrange(older as int, i as int),
            decreases middle - i,
        {
            middle_points.push(self.ball_trail[i]);
            i = i + 1;
        }
        while i < n
            invariant
                n == self@.trail.len(),
                middle <= i <= n,
                recent_points@ == self@.trail.subrange(middle as int, i as int),
            decreases n - i,
        {
            recent_points.push(self.ball_trail[i]);
            i = i + 1;
        }
        assert(older_points@ + middle_points@ + recent_points@ =~= self@.trail);
        (older_points, middle_points, recent_points)
    }
}

} // verus!
