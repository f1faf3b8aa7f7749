//! What each screen shows, as a list of shapes in drawing order; turning
//! them into pixels is the display's business.
use vstd::prelude::*;
use crate::field::{Block, BLOCK_WIDTH, N_BLOCKS};
use crate::game::{Game, MAX_BLOCK_HEIGHT, PLAYER_LEFT_PADDING, PLAYER_RADIUS, SCREEN_HEIGHT};

verus! {

/// Gap between neighbouring blocks, in pixels.
pub const BLOCK_GAP: u32 = 2;

/// Height of the bonus sprite above its block's top.
pub const BONUS_RISE: i32 = 18;

/// Where the score's text starts.
pub const SCORE_X: i32 = 104;
pub const SCORE_Y: i32 = 9;

/// Where the pause and end banners start.
pub const PAUSED_X: i32 = 30;
pub const GAME_OVER_X: i32 = 20;
pub const BANNER_Y: i32 = 10;

/// One shape of a frame. Coordinates are the top-left corner; `y` grows
/// downward.
#[derive(Debug, PartialEq, Eq)]
pub enum DrawCommand {
    /// A filled rectangle.
    Rect { x: i32, y: i32, width: u32, height: u32 },
    /// The bonus sprite.
    Bonus { x: i32, y: i32 },
    /// A circle inside the square of side `diameter`, filled or outlined.
    Circle { x: i32, y: i32, diameter: u32, filled: bool },
    /// ASCII text, in the large font or the small one.
    Text { text: Vec<u8>, x: i32, y: i32, large: bool },
}

/// Something that can say what it shows.
pub trait Draw {
    /// Whether the state is one that `draw` accepts.
    spec fn draw_ready(&self) -> bool;

    /// The shapes of one frame, in drawing order.
    fn draw(&self) -> (r: Vec<DrawCommand>)
        requires
            self.draw_ready(),
    ;
}

/// The shapes of block `i` of a field at `offset`: its rectangle, then its
/// bonus if it has one.
pub open spec fn block_shapes(b: Block, i: int, offset: int) -> Seq<DrawCommand> {
    let x = (offset + i * BLOCK_WIDTH) as i32;
    let y = SCREEN_HEIGHT - b.0;
    let rect = DrawCommand::Rect { x, y: y as i32, width: (BLOCK_WIDTH - BLOCK_GAP) as u32, height: b.0 };
    if b.1 {
        seq![rect, DrawCommand::Bonus { x, y: (y - BONUS_RISE) as i32 }]
    } else {
        seq![rect]
    }
}

/// The shapes of the first `n` blocks, left to right.
pub open spec fn blocks_shapes(blocks: Seq<Block>, offset: int, n: nat) -> Seq<DrawCommand>
    decreases n,
{
    if n == 0 {
        Seq::empty()
    } else {
        blocks_shapes(blocks, offset, (n - 1) as nat) + block_shapes(blocks[n - 1], n - 1, offset)
    }
}

/// The player's shapes at `position`: an outlined circle and two eyes.
pub open spec fn player_shapes(position: int) -> Seq<DrawCommand> {
    seq![
        DrawCommand::Circle { x: PLAYER_LEFT_PADDING, y: position as i32, diameter: (2 * PLAYER_RADIUS) as u32, filled: false },
        DrawCommand::Circle { x: (PLAYER_LEFT_PADDING + 3) as i32, y: (position + 3) as i32, diameter: 2, filled: true },
        DrawCommand::Circle { x: (PLAYER_LEFT_PADDING + 6) as i32, y: (position + 3) as i32, diameter: 2, filled: true },
    ]
}

/// The ASCII digit of `d`.
pub open spec fn digit_byte(d: int) -> u8 {
    (48 + d) as u8
}

/// The score as four decimal digits with leading zeros; a score too large
/// for four digits shows nothing.
pub open spec fn score_text(score: u32) -> Seq<u8> {
    if score < 10000 {
        seq![
            digit_byte(score as int / 1000),
            digit_byte((score as int / 100) % 10),
            digit_byte((score as int / 10) % 10),
            digit_byte(score as int % 10),
        ]
    } else {
        Seq::empty()
    }
}

/// Whether `cmds` is the frame of game `g`: the blocks with their bonuses,
/// then the player, then the score in the small font.
pub open spec fn shows_game(g: Game, cmds: Seq<DrawCommand>) -> bool {
    let b = blocks_shapes(g.field.blocks_view(), g.field.offset as int, N_BLOCKS as nat);
    &&& cmds.len() == b.len() + 4
    &&& cmds.subrange(0, b.len() as int) == b
    &&& cmds.subrange(b.len() as int, b.len() as int + 3) == player_shapes(g.player.position as int)
    &&& cmds[b.len() as int + 3] matches DrawCommand::Text { text, x, y, large }
        && text@ == score_text(g.score) && x == SCORE_X && y == SCORE_Y && !large
}

/// Whether `cmds` is one banner of text `t` in the large font, starting at
/// `x` on the banner line.
pub open spec fn shows_banner(cmds: Seq<DrawCommand>, t: Seq<u8>, x: i32) -> bool {
    &&& cmds.len() == 1
    &&& cmds[0] matches DrawCommand::Text { text, x: tx, y, large }
        && text@ == t && tx == x && y == BANNER_Y && large
}

/// The score text, as `score_text` says.
pub fn format_score(score: u32) -> (r: Vec<u8>)
    ensures
        r@ == score_text(score),
{
    if score < 10000 {
        vec![
            48 + (score / 1000) as u8,
            48 + ((score / 100) % 10) as u8,
            48 + ((score / 10) % 10) as u8,
            48 + (score % 10) as u8,
        ]
    } else {
        Vec::new()
    }
}

impl Game {
    /// Appends each block's rectangle, and its bonus if it has one, left to
    /// right.
    fn draw_blocks(&self, out: &mut Vec<DrawCommand>)
        requires
            self.wf(),
        ensures
            final(out)@ == old(out)@ + blocks_shapes(
                self.field.blocks_view(),
                self.field.offset as int,
                N_BLOCKS as nat,
            ),
    {
        let ghost start = out@;
        let mut i: usize = 0;
        while i < N_BLOCKS
            invariant
                self.wf(),
                i <= N_BLOCKS,
                out@ == start + blocks_shapes(self.field.blocks_view(), self.field.offset as int, i as nat),
            decreases N_BLOCKS - i,
        {
            let (height, has_bonus) = self.field.block(i);
            assert(height <= MAX_BLOCK_HEIGHT);
            let x = self.field.offset + (i as i32) * BLOCK_WIDTH;
            let y = SCREEN_HEIGHT - height as i32;
            out.push(DrawCommand::Rect { x, y, width: (BLOCK_WIDTH as u32) - BLOCK_GAP, height });
            if has_bonus {
                out.push(DrawCommand::Bonus { x, y: y - BONUS_RISE });
            }
            i = i + 1;
            assert(out@ =~= start + blocks_shapes(self.field.blocks_view(), self.field.offset as int, i as nat));
        }
    }

    /// Appends the player's outline and eyes.
    fn draw_player(&self, out: &mut Vec<DrawCommand>)
        requires
            self.wf(),
        ensures
            final(out)@ == old(out)@ + player_shapes(self.player.position as int),
    {
        let p = self.player.position;
        out.push(DrawCommand::Circle { x: PLAYER_LEFT_PADDING, y: p, diameter: (2 * PLAYER_RADIUS) as u32, filled: false });
        out.push(DrawCommand::Circle { x: PLAYER_LEFT_PADDING + 3, y: p + 3, diameter: 2, filled: true });
        out.push(DrawCommand::Circle { x: PLAYER_LEFT_PADDING + 6, y: p + 3, diameter: 2, filled: true });
        assert(final(out)@ =~= old(out)@ + player_shapes(p as int));
    }

    /// Appends the score in the small font.
    fn draw_score(&self, out: &mut Vec<DrawCommand>)
        ensures
            final(out)@.len() == old(out)@.len() + 1,
            final(out)@.subrange(0, old(out)@.len() as int) == old(out)@,
            final(out)@.last() matches DrawCommand::Text { text, x, y, large }
                && text@ == score_text(self.score) && x == SCORE_X && y == SCORE_Y && !large,
    {
        let text = format_score(self.score);
        out.push(DrawCommand::Text { text, x: SCORE_X, y: SCORE_Y, large: false });
        assert(final(out)@.subrange(0, old(out)@.len() as int) =~= old(out)@);
    }
}

impl Draw for Game {
    open spec fn draw_ready(&self) -> bool {
        self.wf()
    }

    /// The blocks with their bonuses, then the player, then the score.
    fn draw(&self) -> (r: Vec<DrawCommand>)
        ensures
            shows_game(*self, r@),
    {
        let mut out: Vec<DrawCommand> = Vec::new();
        self.draw_blocks(&mut out);
        let ghost k: int = out@.len() as int;
        self.draw_player(&mut out);
        let ghost mid = out@;
        assert(mid.subrange(k, k + 3) =~= player_shapes(self.player.position as int));
        self.draw_score(&mut out);
        assert(out@.subrange(0, k + 3) == mid);
        assert(out@.subrange(k, k + 3) =~= mid.subrange(k, k + 3));
        let ghost b = blocks_shapes(self.field.blocks_view(), self.field.offset as int, N_BLOCKS as nat);
        assert(out@.subrange(0, k) =~= b);
        out
    }
}

/// The screen shown while the game is paused.
pub struct PauseScreen {}

/// The screen shown once the game is over.
pub struct EndScreen {}

/// The pause banner's text: `PAUSED` in ASCII.
pub open spec fn paused_text() -> Seq<u8> {
    seq![80u8, 65, 85, 83, 69, 68]
}

/// The end banner's text: `GAME OVER` in ASCII.
pub open spec fn game_over_text() -> Seq<u8> {
    seq![71u8, 65, 77, 69, 32, 79, 86, 69, 82]
}

impl PauseScreen {
    pub fn new() -> Self {
        PauseScreen {}
    }
}

impl EndScreen {
    pub fn new() -> Self {
        EndScreen {}
    }
}

impl Draw for PauseScreen {
    open spec fn draw_ready(&self) -> bool {
        true
    }

    /// The word PAUSED in the large font.
    fn draw(&self) -> (r: Vec<DrawCommand>)
        ensures
            shows_banner(r@, paused_text(), PAUSED_X),
    {
        let text: Vec<u8> = vec![80u8, 65, 85, 83, 69, 68];
        assert(text@ =~= paused_text());
        vec![DrawCommand::Text { text, x: PAUSED_X, y: BANNER_Y, large: true }]
    }
}

impl Draw for EndScreen {
    open spec fn draw_ready(&self) -> bool {
        true
    }

    /// The words GAME OVER in the large font.
    fn draw(&self) -> (r: Vec<DrawCommand>)
        ensures
            shows_banner(r@, game_over_text(), GAME_OVER_X),
    {
        let text: Vec<u8> = vec![71u8, 65, 77, 69, 32, 79, 86, 69, 82];
        assert(text@ =~= game_over_text());
        vec![DrawCommand::Text { text, x: GAME_OVER_X, y: BANNER_Y, large: true }]
    }
}

} // verus!
