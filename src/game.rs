//! The game: the player, the obstacle field and the score, advanced one tick
//! at a time.
use vstd::prelude::*;
use crate::Tick;
use crate::field::{advanced_blocks, advanced_offset, shifts_at, Block, ObstacleField, DEFAULT_BLOCK_HEIGHT, N_BLOCKS};
use crate::player::{booped, integrable, integrated, Player, POSITION_FLOOR, START_POSITION};

verus! {

/// Height of the screen, in pixels.
pub const SCREEN_HEIGHT: i32 = 64;

/// Width of the screen, in pixels.
pub const SCREEN_WIDTH: i32 = 128;

/// Radius of the player's circle.
pub const PLAYER_RADIUS: i32 = 5;

/// Horizontal distance of the player from the left edge.
pub const PLAYER_LEFT_PADDING: i32 = 15;

/// How far above a block's top its bonus can be picked up.
pub const PICKUP_MARGIN: i32 = 20;

/// How far above a block's top the player collides with it.
pub const COLLISION_MARGIN: i32 = 10;

/// Points a bonus is worth.
pub const BONUS_REWARD: u32 = 10;

/// Tallest block that random input can produce.
pub const MAX_BLOCK_HEIGHT: u32 = 31;

/// Index of the block tested for pickup and collision: one ahead of the block
/// the player is over.
pub const CHECKED_BLOCK: usize = 1;

/// Whether a player at `position` has hit a block of height `height`.
pub open spec fn collides(position: int, height: int) -> bool {
    position > SCREEN_HEIGHT - height - COLLISION_MARGIN
}

/// Whether a player at `position` reaches the bonus above a block of height
/// `height`.
pub open spec fn reaches_bonus(position: int, height: int) -> bool {
    position + 2 * PLAYER_RADIUS > SCREEN_HEIGHT - height - PICKUP_MARGIN
}

/// The score after one more bonus, held at the largest `u32`.
pub open spec fn rewarded(score: u32) -> u32 {
    if score as int + BONUS_REWARD <= u32::MAX {
        (score + BONUS_REWARD) as u32
    } else {
        u32::MAX
    }
}

/// The game's simulation state.
pub struct Game {
    pub player: Player,
    pub field: ObstacleField,
    pub score: u32,
}

/// Whether a tick on `g` picks up the bonus of the checked block.
pub open spec fn picks_bonus(g: Game) -> bool {
    let b = g.field.blocks_view()[CHECKED_BLOCK as int];
    b.1 && reaches_bonus(g.player.position as int, b.0 as int)
}

/// Whether a tick on `g` ends the game.
pub open spec fn ends_game(g: Game) -> bool {
    collides(g.player.position as int, g.field.blocks_view()[CHECKED_BLOCK as int].0 as int)
}

/// The blocks after the pickup check of a tick on `g`.
pub open spec fn blocks_after_pickup(g: Game) -> Seq<Block> {
    let blocks = g.field.blocks_view();
    if picks_bonus(g) {
        blocks.update(CHECKED_BLOCK as int, (blocks[CHECKED_BLOCK as int].0, false))
    } else {
        blocks
    }
}

/// The score after the pickup check of a tick on `g`.
pub open spec fn score_after_pickup(g: Game) -> u32 {
    if picks_bonus(g) {
        rewarded(g.score)
    } else {
        g.score
    }
}

/// The player of `g` after the boop check.
pub open spec fn player_after_boop(g: Game, boop: bool) -> Player {
    if boop {
        booped(g.player)
    } else {
        g.player
    }
}

/// Whether `g2` is what one tick makes of `g` on the given input: the
/// pickup check always applies; if the game ends, the rest stays; otherwise
/// the player integrates and the field advances.
pub open spec fn ticked(g: Game, g2: Game, random_byte: u8, random_bool: bool, boop: bool) -> bool {
    &&& g2.score == score_after_pickup(g)
    &&& ends_game(g) ==> {
        &&& g2.player == player_after_boop(g, boop)
        &&& g2.field.blocks_view() == blocks_after_pickup(g)
        &&& g2.field.offset == g.field.offset
    }
    &&& !ends_game(g) ==> {
        &&& g2.player == integrated(player_after_boop(g, boop))
        &&& g2.field.blocks_view() == advanced_blocks(
            blocks_after_pickup(g),
            g.field.offset as int,
            random_byte,
            random_bool,
        )
        &&& g2.field.offset == advanced_offset(g.field.offset as int)
    }
}

/// Whether `g` is a game as it starts: the player at rest at the start
/// position without gravity, eight default blocks without bonus at offset
/// zero, and no score.
pub open spec fn is_new_game(g: Game) -> bool {
    &&& g.player == (Player { position: START_POSITION, velocity: 0, acceleration: 0 })
    &&& g.field.offset == 0
    &&& g.field.blocks_view() == Seq::new(N_BLOCKS as nat, |i: int| (DEFAULT_BLOCK_HEIGHT, false))
    &&& g.score == 0
}

impl Game {
    /// The states a game can reach: eight blocks no taller than random input
    /// makes them; the player's position no less than `POSITION_FLOOR` and
    /// bounded above, since a tick from past the collision line ends the
    /// game; gravity off or on; a velocity no less than the boop's, and at
    /// most 105 more than the position, since it only grows while the
    /// player falls.
    pub open spec fn wf(&self) -> bool {
        &&& self.field.wf()
        &&& forall|i: int| 0 <= i < N_BLOCKS ==> #[trigger] self.field.blocks_view()[i].0 <= MAX_BLOCK_HEIGHT
        &&& POSITION_FLOOR <= self.player.position <= 1000
        &&& -4 <= self.player.velocity <= self.player.position + 105
        &&& 0 <= self.player.acceleration <= 1
    }

    /// A new game: the player at rest at the start, a default field, no score.
    pub fn new() -> (r: Self)
        ensures
            r.wf(),
            is_new_game(r),
    {
        Game { player: Player::new(), field: ObstacleField::new(), score: 0 }
    }
}

/// Whether a tick ends the game depends on the player's position and the
/// checked block's height alone: the game ends exactly when the position is
/// below `SCREEN_HEIGHT - height - COLLISION_MARGIN`, whatever the velocity,
/// the acceleration, or the other blocks.
pub proof fn lemma_game_over_condition(g: Game, g2: Game)
    requires
        g.field.wf(),
        g2.field.wf(),
        g.player.position == g2.player.position,
        g.field.blocks_view()[CHECKED_BLOCK as int].0 == g2.field.blocks_view()[CHECKED_BLOCK as int].0,
    ensures
        ends_game(g) == ends_game(g2),
        ends_game(g) == (g.player.position > SCREEN_HEIGHT - g.field.blocks_view()[CHECKED_BLOCK as int].0
            - COLLISION_MARGIN),
{
}

/// A tick that ends the game, without a boop and with no bonus on the
/// checked block, leaves the score, the player, the blocks and the offset
/// as they were.
pub proof fn lemma_game_over_freezes(g: Game, g2: Game, random_byte: u8, random_bool: bool)
    requires
        g.wf(),
        ticked(g, g2, random_byte, random_bool, false),
        ends_game(g),
        !g.field.blocks_view()[CHECKED_BLOCK as int].1,
    ensures
        g2.score == g.score,
        g2.player == g.player,
        g2.field.blocks_view() == g.field.blocks_view(),
        g2.field.offset == g.field.offset,
{
}

/// A bonus is awarded once: after a tick that does not shift the field, the
/// checked block has no bonus if it had none or if it was just picked up;
/// and a tick on a checked block without bonus leaves the score alone.
pub proof fn lemma_bonus_awarded_once(g: Game, g2: Game, random_byte: u8, random_bool: bool, boop: bool)
    requires
        g.wf(),
        ticked(g, g2, random_byte, random_bool, boop),
    ensures
        !g.field.blocks_view()[CHECKED_BLOCK as int].1 ==> g2.score == g.score,
        (ends_game(g) || !shifts_at(g.field.offset as int)) && (
        !g.field.blocks_view()[CHECKED_BLOCK as int].1 || picks_bonus(g))
            ==> !g2.field.blocks_view()[CHECKED_BLOCK as int].1,
{
}

impl Tick for Game {
    open spec fn tick_ready(&self) -> bool {
        self.wf()
    }

    /// One step of play. A boop applies the impulse; the bonus of the checked
    /// block is picked up if the player reaches it; if the player has hit
    /// that block the game is over and nothing more happens; otherwise the
    /// player integrates and the field advances.
    fn tick(&mut self, frame_count: u32, random_byte: u8, random_bool: bool, boop: bool) -> (over: bool)
        ensures
            over == ends_game(*old(self)),
            ticked(*old(self), *final(self), random_byte, random_bool, boop),
    {
        if boop {
            self.player.apply_impulse();
        }
        let (height, has_bonus) = self.field.block(CHECKED_BLOCK);
        let pickup_threshold = SCREEN_HEIGHT - height as i32 - PICKUP_MARGIN;
        if has_bonus && self.player.position + 2 * PLAYER_RADIUS > pickup_threshold {
            self.score = if self.score <= u32::MAX - BONUS_REWARD {
                self.score + BONUS_REWARD
            } else {
                u32::MAX
            };
            self.field.clear_bonus(CHECKED_BLOCK);
        }
        let collision_threshold = SCREEN_HEIGHT - height as i32 - COLLISION_MARGIN;
        if self.player.position > collision_threshold {
            return true;
        }
        assert(integrable(self.player));
        self.player.integrate();
        self.field.advance(random_byte, random_bool);
        assert forall|i: int| 0 <= i < N_BLOCKS implies #[trigger] self.field.blocks_view()[i].0
            <= MAX_BLOCK_HEIGHT by {
            assert(random_byte / 8 <= 31);
        }
        false
    }
}

} // verus!
