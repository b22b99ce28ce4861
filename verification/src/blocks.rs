//! Block tiers: their colours, how much damage removes them, and the
//! removal pass that takes the destroyed blocks out of the game.

use rand::rngs::ThreadRng;
use rand::Rng;
use vstd::prelude::*;

use crate::board::Point;
use crate::custom_commands::{Command, SpawnPowerup};
use crate::{Damage, Entity, Powerup};

verus! {

/// The tier of a block, which decides its colour and how many hits it takes.
#[derive(Debug, Clone, Copy, PartialEq, Eq, Structural)]
pub enum Block {
    White,
    Orange,
    LightBlue,
    Green,
    Red,
    Blue,
    Pink,
    Yellow,
    Silver,
    Gold,
}

/// A display colour: one of two named colours, or red, green and blue parts.
#[derive(Debug, Clone, Copy, PartialEq, Eq, Structural)]
pub enum Color {
    White,
    Gold,
    Rgb(u8, u8, u8),
}

/// A block in play: its name, its centre, its damage and its tier.
#[derive(Debug, Clone, Copy, PartialEq, Eq, Structural)]
pub struct BlockEntity {
    pub entity: Entity,
    pub position: Point,
    pub damage: Damage,
    pub block: Block,
}

/// Hits that remove a silver block.
pub const SILVER_THRESHOLD: u8 = 5;

/// Hits that remove a block of an ordinary tier.
pub const COMMON_THRESHOLD: u8 = 1;

/// How many draws there are, all alike: a removed block draws one of them.
pub const POWERUP_ODDS: i32 = 10;

/// The one draw at which a removed block drops a powerup.
pub const POWERUP_DRAW: i32 = 5;

impl Block {
    /// The colour in which a block of this tier is drawn.
    pub open spec fn spec_color(self) -> Color {
        match self {
            Block::White => Color::White,
            Block::Orange => Color::Rgb(0xfe, 0xf2, 0xc6),
            Block::LightBlue => Color::Rgb(0xc6, 0xee, 0xfe),
            Block::Green => Color::Rgb(0xc6, 0xfe, 0xd6),
            Block::Red => Color::Rgb(0xfe, 0xc6, 0xd2),
            Block::Blue => Color::Rgb(0xc6, 0xd2, 0xfe),
            Block::Pink => Color::Rgb(0xfe, 0xc6, 0xee),
            Block::Yellow => Color::Rgb(0xee, 0xfe, 0xc6),
            Block::Silver => Color::Rgb(0xda, 0xe5, 0xea),
            Block::Gold => Color::Gold,
        }
    }

    /// The damage at which a block of this tier is removed; `None` for a
    /// tier that no damage removes.
    pub open spec fn threshold(self) -> Option<u8> {
        match self {
            Block::Silver => Some(SILVER_THRESHOLD),
            Block::Gold => None,
            _ => Some(COMMON_THRESHOLD),
        }
    }

    /// Whether a block of this tier with this damage is removed.
    pub open spec fn destroyed_at(self, damage: Damage) -> bool {
        match self.threshold() {
            Some(threshold) => damage.0 >= threshold,
            None => false,
        }
    }

    /// The colour in which a block of this tier is drawn.
    pub fn color(&self) -> (color: Color)
        ensures
            color == self.spec_color(),
    {
        match self {
            Block::White => Color::White,
            Block::Orange => Color::Rgb(0xfe, 0xf2, 0xc6),
            Block::LightBlue => Color::Rgb(0xc6, 0xee, 0xfe),
            Block::Green => Color::Rgb(0xc6, 0xfe, 0xd6),
            Block::Red => Color::Rgb(0xfe, 0xc6, 0xd2),
            Block::Blue => Color::Rgb(0xc6, 0xd2, 0xfe),
            Block::Pink => Color::Rgb(0xfe, 0xc6, 0xee),
            Block::Yellow => Color::Rgb(0xee, 0xfe, 0xc6),
            Block::Silver => Color::Rgb(0xda, 0xe5, 0xea),
            Block::Gold => Color::Gold,
        }
    }

    /// Whether a block of this tier with this damage is removed: a silver
    /// block from five hits on, a gold block never, any other from the
    /// first hit on.
    pub fn is_destroyed(&self, damage: &Damage) -> (destroyed: bool)
        ensures
            destroyed == self.destroyed_at(*damage),
            *self == Block::Silver ==> destroyed == (damage.0 >= 5),
            *self == Block::Gold ==> !destroyed,
            *self != Block::Silver && *self != Block::Gold ==> destroyed == (damage.0 >= 1),
    {
        match self {
            Block::Silver => damage.0 >= SILVER_THRESHOLD,
            Block::Gold => false,
            _ => damage.0 >= COMMON_THRESHOLD,
        }
    }
}

/// `rand::rngs::ThreadRng`, the random number generator of a thread.
#[verifier::external_type_specification]
#[verifier::external_body]
pub struct ExThreadRng(rand::rngs::ThreadRng);

/// `rand::thread_rng` hands out the generator of the current thread. The
/// generator seeds itself from the operating system when the thread first
/// asks for it, and gives up where that fails.
pub assume_specification[ rand::thread_rng ]() -> (rng: ThreadRng);

/// `Rng::gen_range` on the range from `low` up to, but not including,
/// `high`: a number of that range, drawn anew at every call. It gives up on
/// an empty range.
#[verifier::external_body]
fn gen_range(rng: &mut ThreadRng, low: i32, high: i32) -> (draw: i32)
    requires
        low < high,
    ensures
        low <= draw < high,
{
    rng.gen_range(low..high)
}

/// What the removal pass asks for one block, given the draw made for it:
/// nothing while the block stands; else its despawn, followed at the one
/// draw in ten by a triple-ball powerup where the block was.
pub open spec fn removal_of(block: BlockEntity, draw: i32) -> Seq<Command> {
    if !block.block.destroyed_at(block.damage) {
        Seq::empty()
    } else if draw == POWERUP_DRAW {
        seq![
            Command::Despawn(block.entity),
            Command::SpawnPowerup(
                SpawnPowerup { position: block.position, powerup: Powerup::TripleBall },
            ),
        ]
    } else {
        seq![Command::Despawn(block.entity)]
    }
}

/// What the removal pass asks for `blocks`, block by block, where
/// `draws[i]` is the draw made for block `i`.
pub open spec fn removals(blocks: Seq<BlockEntity>, draws: Seq<i32>) -> Seq<Command>
    decreases blocks.len(),
{
    if blocks.len() == 0 {
        Seq::empty()
    } else {
        removals(blocks.drop_last(), draws) + removal_of(blocks.last(), draws[blocks.len() - 1])
    }
}

/// What the removal pass asks for one block, given the draw made for it.
pub fn remove_block(block: &BlockEntity, draw: i32) -> (commands: Vec<Command>)
    ensures
        commands@ == removal_of(*block, draw),
{
    let mut commands: Vec<Command> = Vec::new();
    if block.block.is_destroyed(&block.damage) {
        commands.push(Command::Despawn(block.entity));
        if draw == POWERUP_DRAW {
            commands.push(
                Command::SpawnPowerup(
                    SpawnPowerup { position: block.position, powerup: Powerup::TripleBall },
                ),
            );
        }
    }
    assert(commands@ =~= removal_of(*block, draw));
    commands
}

/// The removal pass: despawns every block whose damage has reached the
/// threshold of its tier, and for each of them draws one number in ten to
/// decide whether it drops a triple-ball powerup. The blocks are taken in
/// order; what is asked is `removals` for some draws from 0 to 9.
pub fn block_removal(blocks: &Vec<BlockEntity>) -> (commands: Vec<Command>)
    ensures
        exists|draws: Seq<i32>|
            {
                &&& draws.len() == blocks.len()
                &&& forall|i: int| 0 <= i < draws.len() ==> 0 <= #[trigger] draws[i] < POWERUP_ODDS
                &&& commands@ == removals(blocks@, draws)
            },
{
    let mut rng = rand::thread_rng();
    let mut commands: Vec<Command> = Vec::new();
    let ghost mut draws: Seq<i32> = Seq::empty();
    let mut i: usize = 0;
    while i < blocks.len()
        invariant
            i <= blocks.len(),
            draws.len() == i,
            forall|k: int| 0 <= k < draws.len() ==> 0 <= #[trigger] draws[k] < POWERUP_ODDS,
            commands@ == removals(blocks@.take(i as int), draws),
        decreases blocks.len() - i,
    {
        let block = &blocks[i];
        let ghost earlier = draws;
        if block.block.is_destroyed(&block.damage) {
            let draw = gen_range(&mut rng, 0, POWERUP_ODDS);
            let mut more = remove_block(block, draw);
            commands.append(&mut more);
            proof {
                draws = draws.push(draw);
            }
        } else {
            proof {
                draws = draws.push(0);
            }
        }
        proof {
            assert(blocks@.take(i + 1).drop_last() =~= blocks@.take(i as int));
            removals_read_their_own_draws(blocks@.take(i as int), earlier, draws);
            assert(commands@ =~= removals(blocks@.take(i + 1), draws));
        }
        i += 1;
    }
    proof {
        assert(blocks@.take(blocks.len() as int) =~= blocks@);
    }
    commands
}

/// The removal pass reads no draw but those made for its blocks.
proof fn removals_read_their_own_draws(blocks: Seq<BlockEntity>, one: Seq<i32>, other: Seq<i32>)
    requires
        forall|i: int| 0 <= i < blocks.len() ==> one[i] == other[i],
    ensures
        removals(blocks, one) == removals(blocks, other),
    decreases blocks.len(),
{
    if blocks.len() > 0 {
        removals_read_their_own_draws(blocks.drop_last(), one, other);
    }
}

/// Every block whose damage has reached the threshold of its tier is
/// despawned by the removal pass, whatever is drawn.
pub proof fn destroyed_blocks_are_removed(blocks: Seq<BlockEntity>, draws: Seq<i32>, i: int)
    requires
        0 <= i < blocks.len(),
        blocks[i].block.destroyed_at(blocks[i].damage),
    ensures
        removals(blocks, draws).contains(Command::Despawn(blocks[i].entity)),
    decreases blocks.len(),
{
    let before = removals(blocks.drop_last(), draws);
    let last = removal_of(blocks.last(), draws[blocks.len() - 1]);
    let command = Command::Despawn(blocks[i].entity);
    if i == blocks.len() - 1 {
        assert(last[0] == command);
        assert((before + last)[before.len() as int] == command);
    } else {
        destroyed_blocks_are_removed(blocks.drop_last(), draws, i);
        let at = choose|at: int| 0 <= at < before.len() && before[at] == command;
        assert((before + last)[at] == command);
    }
}

/// Whatever the removal pass asks for, it asks for a block whose damage has
/// reached the threshold of its tier: it despawns that block, or it drops a
/// triple-ball powerup where that block was. So a block below its threshold
/// stays, and a gold block always does.
pub proof fn removed_blocks_were_destroyed(blocks: Seq<BlockEntity>, draws: Seq<i32>, at: int)
    requires
        0 <= at < removals(blocks, draws).len(),
    ensures
        exists|i: int|
            {
                &&& 0 <= i < blocks.len()
                &&& (#[trigger] blocks[i]).block.destroyed_at(blocks[i].damage)
                &&& blocks[i].block != Block::Gold
                &&& removals(blocks, draws)[at] == Command::Despawn(blocks[i].entity)
                    || (draws[i] == POWERUP_DRAW && removals(blocks, draws)[at]
                    == Command::SpawnPowerup(
                    SpawnPowerup { position: blocks[i].position, powerup: Powerup::TripleBall },
                ))
            },
    decreases blocks.len(),
{
    let before = removals(blocks.drop_last(), draws);
    if at < before.len() {
        removed_blocks_were_destroyed(blocks.drop_last(), draws, at);
        let i = choose|i: int|
            {
                &&& 0 <= i < blocks.drop_last().len()
                &&& (#[trigger] blocks.drop_last()[i]).block.destroyed_at(
                    blocks.drop_last()[i].damage,
                )
                &&& blocks.drop_last()[i].block != Block::Gold
                &&& before[at] == Command::Despawn(blocks.drop_last()[i].entity) || (draws[i]
                    == POWERUP_DRAW && before[at] == Command::SpawnPowerup(
                    SpawnPowerup {
                        position: blocks.drop_last()[i].position,
                        powerup: Powerup::TripleBall,
                    },
                ))
            };
        assert(blocks[i] == blocks.drop_last()[i]);
    } else {
        let i = blocks.len() - 1;
        assert(blocks[i].block.destroyed_at(blocks[i].damage));
    }
}

} // verus!
