//! Game state model.
//!
//! Defines the persistent [`Game`] record, the per-combatant state types
//! ([`PlayerState`], [`EnemyState`], [`Health`]), the [`Combatant`] trait
//! that drives combat calculations, and the event types broadcast to SSE
//! clients during a live session.
use std::collections::HashMap;
use vstd::prelude::*;

use crate::{
    enemys::{get_random_enemy, is_fighting_enemy, AnyEnemy, Enemy, EnemyType},
    models::new_id,
    providers::is_hyphenated_uuid,
};

pub mod combatant;
pub mod leaderboard;
pub mod status;

pub use self::leaderboard::LeaderboardEntry;

verus! {

/// Whether a mathematical integer is representable as an `i64`.
pub open spec fn fits_i64(x: int) -> bool {
    i64::MIN <= x <= i64::MAX
}

/// Current and maximum hit points for a combatant.
#[derive(Debug, Clone, Copy, PartialEq, Eq, Structural)]
pub struct Health {
    /// Current HP. Clamped to `[0, max]` by the combat engine.
    pub current: i64,
    /// Maximum HP.
    pub max: i64,
}

impl Health {
    /// The health invariant the combat engine maintains: `0 <= current <= max`.
    pub open spec fn is_valid(self) -> bool {
        0 <= self.current <= self.max
    }
}

/// Live combat state for the player.
///
/// Includes cumulative statistics used to build a post-game summary.
#[derive(Debug)]
pub struct PlayerState {
    /// ID of the owning user.
    pub player_id: String,
    /// ID of the character being used in this game.
    pub character_id: String,
    /// The turn value on which the player will next act, or `None` if not yet
    /// calculated for this round.
    pub next_turn: Option<i64>,
    /// Current and maximum HP.
    pub health: Health,
    /// Damage the player will absorb before taking HP loss this turn.
    pub block: i64,
    /// Cumulative HP lost over the entire game.
    pub damage_taken: i64,
    /// Cumulative HP restored over the entire game.
    pub damage_healed: i64,
    /// Cumulative damage prevented by blocking over the entire game.
    pub damage_blocked: i64,
    /// Cumulative damage avoided through dodge mechanics over the entire game.
    pub damage_dodged: i64,
    /// Cumulative damage dealt to enemies over the entire game.
    pub damage_dealt: i64,
}

impl Clone for PlayerState {
    fn clone(&self) -> (r: Self)
        ensures
            r == *self,
    {
        PlayerState {
            player_id: self.player_id.clone(),
            character_id: self.character_id.clone(),
            next_turn: self.next_turn,
            health: self.health,
            block: self.block,
            damage_taken: self.damage_taken,
            damage_healed: self.damage_healed,
            damage_blocked: self.damage_blocked,
            damage_dodged: self.damage_dodged,
            damage_dealt: self.damage_dealt,
        }
    }
}

/// Live combat state for the current enemy.
#[derive(Debug, Clone, Copy, PartialEq, Eq, Structural)]
pub struct EnemyState {
    /// The turn value on which the enemy will next act, or `None` if not yet
    /// calculated.
    pub next_turn: Option<i64>,
    /// Enemy-specific internal state counter used to implement multi-turn
    /// behaviour patterns (e.g., attack/defend cycles).
    pub state: i64,
    /// Current and maximum HP.
    pub health: Health,
    /// Damage the enemy will absorb before taking HP loss this turn.
    pub block: i64,
    /// Which enemy type this state belongs to.
    pub enemy_type: EnemyType,
}

/// A game record stored in the database.
///
/// Tracks the full combat state across multiple rounds. A new enemy is
/// spawned for each round; the game ends when the player reaches 0 HP.
///
/// `enemies_defeated` is keyed by [`EnemyType::code`].
#[derive(Debug)]
pub struct Game {
    /// Unique game identifier (UUID v7).
    pub id: String,
    /// Whether the game has ended (player died or won).
    pub complete: bool,
    /// `Some(true)` if the player won, `Some(false)` if they lost, `None`
    /// while the game is still in progress.
    pub win: Option<bool>,
    /// Current round number (incremented each time an enemy is defeated).
    pub round: i64,
    /// Monotonically-increasing turn counter used by the turn-order system.
    pub turn: i64,
    /// Snapshot of the player's in-game state.
    pub player_state: PlayerState,
    /// Snapshot of the current enemy's in-game state.
    pub enemy_state: EnemyState,
    /// Running tally of how many of each enemy type the player has defeated,
    /// keyed by the enemy type's code.
    pub enemies_defeated: HashMap<u64, i64>,
}

impl Game {
    /// `self` holds the same record as `other`: every field is equal, and the
    /// tally of defeated enemies has the same contents.
    pub open spec fn is_copy_of(self, other: Game) -> bool {
        &&& self.id == other.id
        &&& self.complete == other.complete
        &&& self.win == other.win
        &&& self.round == other.round
        &&& self.turn == other.turn
        &&& self.player_state == other.player_state
        &&& self.enemy_state == other.enemy_state
        &&& self.enemies_defeated@ == other.enemies_defeated@
    }
}

impl PlayerState {
    /// The player's state at the start of a game: 100 of 100 HP, no turn
    /// scheduled, no block and all statistics zero.
    pub open spec fn starting(player_id: String, character_id: String) -> PlayerState {
        PlayerState {
            player_id,
            character_id,
            next_turn: None,
            health: Health { current: 100, max: 100 },
            block: 0,
            damage_taken: 0,
            damage_healed: 0,
            damage_blocked: 0,
            damage_dodged: 0,
            damage_dealt: 0,
        }
    }
}

/// `state` is the starting state of an enemy of one of the five fighting
/// types.
pub open spec fn is_fresh_fighting_enemy(state: EnemyState) -> bool {
    exists|t: EnemyType| is_fighting_enemy(t) && state == AnyEnemy::fresh(t).new_state_spec()
}

/// The starting state of a randomly selected fighting enemy.
fn random_enemy_state() -> (r: EnemyState)
    ensures
        is_fresh_fighting_enemy(r),
{
    let mut enemy = get_random_enemy();
    enemy.get_new_state()
}

impl Game {
    /// Create a new game for the given player and character with starting HP
    /// of 100, a randomly selected first enemy, and all counters zeroed.
    pub fn new(player: String, character: String) -> (r: Self)
        ensures
            is_hyphenated_uuid(r.id@),
            !r.complete,
            r.win is None,
            r.round == 0,
            r.turn == 0,
            r.player_state == PlayerState::starting(player, character),
            is_fresh_fighting_enemy(r.enemy_state),
            r.enemies_defeated@ == Map::<u64, i64>::empty(),
    {
        Game {
            id: new_id(),
            complete: false,
            win: None,
            round: 0,
            turn: 0,
            player_state: PlayerState {
                player_id: player,
                character_id: character,
                next_turn: None,
                health: Health { current: 100, max: 100 },
                block: 0,
                damage_taken: 0,
                damage_healed: 0,
                damage_blocked: 0,
                damage_dodged: 0,
                damage_dealt: 0,
            },
            enemy_state: random_enemy_state(),
            enemies_defeated: HashMap::new(),
        }
    }

    /// Reset player HP and spawn a fresh random enemy, preparing the game
    /// record to be used in a new session.
    pub fn set_up(&mut self)
        ensures
            final(self).player_state == (PlayerState {
                next_turn: None,
                health: Health { current: 100, max: 100 },
                ..old(self).player_state
            }),
            is_fresh_fighting_enemy(final(self).enemy_state),
            final(self).id == old(self).id,
            final(self).complete == old(self).complete,
            final(self).win == old(self).win,
            final(self).round == old(self).round,
            final(self).turn == old(self).turn,
            final(self).enemies_defeated == old(self).enemies_defeated,
    {
        self.player_state.next_turn = None;
        self.player_state.health = Health { current: 100, max: 100 };
        self.enemy_state = random_enemy_state();
    }
}

/// API response shape for a game — always serialises the ID as `"id"`
/// regardless of the active database backend.
#[derive(Debug)]
pub struct GameResponse {
    /// Unique game identifier.
    pub id: String,
    /// Whether the game has ended.
    pub complete: bool,
    /// `Some(true)` = player won, `Some(false)` = player lost, `None` = in progress.
    pub win: Option<bool>,
    /// Current round number.
    pub round: i64,
    /// Monotonically-increasing turn counter.
    pub turn: i64,
    /// Snapshot of the player's in-game state.
    pub player_state: PlayerState,
    /// Snapshot of the current enemy's in-game state.
    pub enemy_state: EnemyState,
    /// Running tally of enemies defeated, keyed by enemy type code.
    pub enemies_defeated: HashMap<u64, i64>,
}

impl GameResponse {
    /// The response describing the game `g`.
    pub open spec fn of(g: Game) -> GameResponse {
        GameResponse {
            id: g.id,
            complete: g.complete,
            win: g.win,
            round: g.round,
            turn: g.turn,
            player_state: g.player_state,
            enemy_state: g.enemy_state,
            enemies_defeated: g.enemies_defeated,
        }
    }
}

impl From<Game> for GameResponse {
    fn from(g: Game) -> (r: Self) {
        GameResponse {
            id: g.id,
            complete: g.complete,
            win: g.win,
            round: g.round,
            turn: g.turn,
            player_state: g.player_state,
            enemy_state: g.enemy_state,
            enemies_defeated: g.enemies_defeated,
        }
    }
}

impl vstd::std_specs::convert::FromSpecImpl<Game> for GameResponse {
    open spec fn obeys_from_spec() -> bool {
        true
    }

    open spec fn from_spec(g: Game) -> GameResponse {
        GameResponse::of(g)
    }
}

impl Clone for Game {
    fn clone(&self) -> (r: Self)
        ensures
            r.is_copy_of(*self),
    {
        Game {
            id: self.id.clone(),
            complete: self.complete,
            win: self.win,
            round: self.round,
            turn: self.turn,
            player_state: self.player_state.clone(),
            enemy_state: self.enemy_state,
            enemies_defeated: self.enemies_defeated.clone(),
        }
    }
}

/// Behaviour that both the player and enemies must implement for the combat
/// engine to resolve a turn.
///
/// Each operation is described by a spec function that gives the resulting
/// state, or `None` where the operation's `i64` arithmetic would overflow.
pub trait Combatant: Sized {
    /// The combatant's hit points.
    spec fn health_of(self) -> Health;

    /// The combatant with its block set to `block`.
    spec fn with_block(self, block: i64) -> Self;

    /// The combatant after taking `damage`, and the HP it lost.
    spec fn take_damage_result(self, damage: i64) -> Option<(Self, i64)>;

    /// The combatant after recording `damage` as dealt.
    spec fn deal_damage_result(self, damage: i64) -> Option<Self>;

    /// The combatant after being healed by `healing`.
    spec fn heal_damage_result(self, healing: i64) -> Option<Self>;

    /// Set the combatant's block value for this turn.
    fn set_block(&mut self, block: i64)
        ensures
            *final(self) == old(self).with_block(block),
    ;

    /// Clear the combatant's block value (called at the start of each turn).
    fn reset_block(&mut self)
        ensures
            *final(self) == old(self).with_block(0),
    ;

    /// Apply `damage` to the combatant after subtracting block.
    ///
    /// Returns the actual HP lost (after block reduction), capped so that
    /// excess damage beyond 0 HP is not counted.
    fn take_damage(&mut self, damage: i64) -> (taken: i64)
        requires
            old(self).take_damage_result(damage) is Some,
        ensures
            old(self).take_damage_result(damage) == Some((*final(self), taken)),
    ;

    /// Record `damage` as having been dealt (used for player statistics).
    fn deal_damage(&mut self, damage: i64)
        requires
            old(self).deal_damage_result(damage) is Some,
        ensures
            old(self).deal_damage_result(damage) == Some(*final(self)),
    ;

    /// Restore `healing` HP, capped at maximum HP.
    fn heal_damage(&mut self, healing: i64)
        requires
            old(self).heal_damage_result(healing) is Some,
        ensures
            old(self).heal_damage_result(healing) == Some(*final(self)),
    ;

    /// Whether [`Combatant::take_damage`] can apply `damage` without overflow.
    fn can_take_damage(&self, damage: i64) -> (r: bool)
        ensures
            r == (self.take_damage_result(damage) is Some),
    ;

    /// Whether [`Combatant::deal_damage`] can record `damage` without overflow.
    fn can_deal_damage(&self, damage: i64) -> (r: bool)
        ensures
            r == (self.deal_damage_result(damage) is Some),
    ;

    /// Whether [`Combatant::heal_damage`] can apply `healing` without overflow.
    fn can_heal_damage(&self, healing: i64) -> (r: bool)
        ensures
            r == (self.heal_damage_result(healing) is Some),
    ;
}

/// Whether an `i128` value is representable as an `i64`.
fn in_i64(x: i128) -> (r: bool)
    ensures
        r == fits_i64(x as int),
{
    i64::MIN as i128 <= x && x <= i64::MAX as i128
}

/// HP after `excess` unblocked damage: the new current HP and the HP lost.
pub open spec fn hp_after_hit(current: i64, excess: int) -> (int, int) {
    let hp = current - excess;
    if hp <= 0 {
        (0, current as int)
    } else {
        (hp, excess)
    }
}

impl Combatant for PlayerState {
    open spec fn health_of(self) -> Health {
        self.health
    }

    open spec fn with_block(self, block: i64) -> Self {
        PlayerState { block, ..self }
    }

    /// Damage beyond the block reduces HP (never below 0) and is logged as
    /// damage taken, the block being logged as damage blocked; damage that the
    /// block absorbs entirely is logged as damage blocked and the rest of the
    /// block is kept.
    open spec fn take_damage_result(self, damage: i64) -> Option<(Self, i64)> {
        let excess = damage - self.block;
        if !fits_i64(excess) {
            None
        } else if excess > 0 {
            let blocked = self.damage_blocked + self.block;
            let hp = self.health.current - excess;
            let (current, taken) = hp_after_hit(self.health.current, excess);
            let total = self.damage_taken + taken;
            if fits_i64(blocked) && fits_i64(hp) && fits_i64(total) {
                Some(
                    (
                        PlayerState {
                            damage_blocked: blocked as i64,
                            block: 0,
                            health: Health { current: current as i64, max: self.health.max },
                            damage_taken: total as i64,
                            ..self
                        },
                        taken as i64,
                    ),
                )
            } else {
                None
            }
        } else {
            let blocked = self.damage_blocked + damage;
            let remaining = -excess;
            if fits_i64(blocked) && fits_i64(remaining) {
                Some((PlayerState { damage_blocked: blocked as i64, block: remaining as i64, ..self }, 0))
            } else {
                None
            }
        }
    }

    open spec fn deal_damage_result(self, damage: i64) -> Option<Self> {
        let dealt = self.damage_dealt + damage;
        if fits_i64(dealt) {
            Some(PlayerState { damage_dealt: dealt as i64, ..self })
        } else {
            None
        }
    }

    open spec fn heal_damage_result(self, healing: i64) -> Option<Self> {
        let sum = healing + self.health.current;
        if !fits_i64(sum) {
            None
        } else if sum > self.health.max {
            let gained = self.health.max - self.health.current;
            let healed = self.damage_healed + gained;
            if fits_i64(gained) && fits_i64(healed) {
                Some(
                    PlayerState {
                        damage_healed: healed as i64,
                        health: Health { current: self.health.max, max: self.health.max },
                        ..self
                    },
                )
            } else {
                None
            }
        } else {
            let healed = self.damage_healed + healing;
            if fits_i64(healed) {
                Some(
                    PlayerState {
                        damage_healed: healed as i64,
                        health: Health { current: sum as i64, max: self.health.max },
                        ..self
                    },
                )
            } else {
                None
            }
        }
    }

    fn set_block(&mut self, block: i64) {
        self.block = block;
    }

    fn reset_block(&mut self) {
        self.block = 0;
    }

    fn take_damage(&mut self, damage: i64) -> (taken: i64) {
        // get damage after block
        let attack_dmg = damage - self.block;
        // there is unblocked damage.
        if attack_dmg > 0 {
            self.damage_blocked = self.damage_blocked + self.block;
            self.block = 0;
            let mut current_hp = self.health.current;
            // HP after unblocked damage applied.
            current_hp = current_hp - attack_dmg;
            let damage_taken;
            // If HP is reduced to 0, excess damage not logged
            if current_hp <= 0 {
                self.health.current = 0;
                damage_taken = attack_dmg + current_hp;
            } else {
                self.health.current = current_hp;
                damage_taken = attack_dmg;
            }
            // Log damage taken.
            self.damage_taken = self.damage_taken + damage_taken;
            damage_taken
        } else {
            // All damage was blocked.
            self.damage_blocked = self.damage_blocked + damage;
            // remaining block is kept.
            self.block = -attack_dmg;
            0
        }
    }

    fn deal_damage(&mut self, damage: i64) {
        // just for logging purposes
        self.damage_dealt = self.damage_dealt + damage;
    }

    fn heal_damage(&mut self, healing: i64) {
        // Healing shouldn't overflow, caps at total_hp
        if healing + self.health.current > self.health.max {
            self.damage_healed = self.damage_healed + (self.health.max - self.health.current);
            self.health.current = self.health.max;
        } else {
            self.damage_healed = self.damage_healed + healing;
            self.health.current = self.health.current + healing;
        }
    }

    fn can_take_damage(&self, damage: i64) -> (r: bool) {
        let excess = damage as i128 - self.block as i128;
        if !in_i64(excess) {
            false
        } else if excess > 0 {
            let hp = self.health.current as i128 - excess;
            let taken = if hp <= 0 {
                self.health.current as i128
            } else {
                excess
            };
            in_i64(self.damage_blocked as i128 + self.block as i128) && in_i64(hp) && in_i64(
                self.damage_taken as i128 + taken,
            )
        } else {
            in_i64(self.damage_blocked as i128 + damage as i128) && in_i64(-excess)
        }
    }

    fn can_deal_damage(&self, damage: i64) -> (r: bool) {
        in_i64(self.damage_dealt as i128 + damage as i128)
    }

    fn can_heal_damage(&self, healing: i64) -> (r: bool) {
        let sum = healing as i128 + self.health.current as i128;
        if !in_i64(sum) {
            false
        } else if sum > self.health.max as i128 {
            let gained = self.health.max as i128 - self.health.current as i128;
            in_i64(gained) && in_i64(self.damage_healed as i128 + gained)
        } else {
            in_i64(self.damage_healed as i128 + healing as i128)
        }
    }
}

// Same as impl for PlayerState, but without logging.
impl Combatant for EnemyState {
    open spec fn health_of(self) -> Health {
        self.health
    }

    open spec fn with_block(self, block: i64) -> Self {
        EnemyState { block, ..self }
    }

    open spec fn take_damage_result(self, damage: i64) -> Option<(Self, i64)> {
        let excess = damage - self.block;
        if !fits_i64(excess) {
            None
        } else if excess > 0 {
            let hp = self.health.current - excess;
            let (current, taken) = hp_after_hit(self.health.current, excess);
            if fits_i64(hp) {
                Some(
                    (
                        EnemyState {
                            block: 0,
                            health: Health { current: current as i64, max: self.health.max },
                            ..self
                        },
                        taken as i64,
                    ),
                )
            } else {
                None
            }
        } else if fits_i64(-excess) {
            Some((EnemyState { block: (-excess) as i64, ..self }, 0))
        } else {
            None
        }
    }

    open spec fn deal_damage_result(self, damage: i64) -> Option<Self> {
        Some(self)
    }

    open spec fn heal_damage_result(self, healing: i64) -> Option<Self> {
        let sum = healing + self.health.current;
        if !fits_i64(sum) {
            None
        } else if sum > self.health.max {
            Some(EnemyState { health: Health { current: self.health.max, max: self.health.max }, ..self })
        } else {
            Some(EnemyState { health: Health { current: sum as i64, max: self.health.max }, ..self })
        }
    }

    fn set_block(&mut self, block: i64) {
        self.block = block;
    }

    fn reset_block(&mut self) {
        self.block = 0;
    }

    fn take_damage(&mut self, damage: i64) -> (taken: i64) {
        let attack_dmg = damage - self.block;
        if attack_dmg > 0 {
            self.block = 0;
            let mut current_hp = self.health.current;
            current_hp = current_hp - attack_dmg;
            let damage_taken;
            if current_hp <= 0 {
                self.health.current = 0;
                damage_taken = attack_dmg + current_hp;
            } else {
                self.health.current = current_hp;
                damage_taken = attack_dmg;
            }
            damage_taken
        } else {
            self.block = -attack_dmg;
            0
        }
    }

    fn deal_damage(&mut self, damage: i64) {
    }

    fn heal_damage(&mut self, healing: i64) {
        if healing + self.health.current > self.health.max {
            self.health.current = self.health.max;
        } else {
            self.health.current = self.health.current + healing;
        }
    }

    fn can_take_damage(&self, damage: i64) -> (r: bool) {
        let excess = damage as i128 - self.block as i128;
        if !in_i64(excess) {
            false
        } else if excess > 0 {
            in_i64(self.health.current as i128 - excess)
        } else {
            in_i64(-excess)
        }
    }

    fn can_deal_damage(&self, damage: i64) -> (r: bool) {
        true
    }

    fn can_heal_damage(&self, healing: i64) -> (r: bool) {
        in_i64(healing as i128 + self.health.current as i128)
    }
}

/// Taking damage keeps the player's HP within `[0, max]`; the HP reported
/// lost is exactly the drop in HP and is added to the damage taken; damage no
/// larger than the block costs no HP.
pub proof fn lemma_player_take_damage(p: PlayerState, damage: i64)
    requires
        p.health.is_valid(),
        p.take_damage_result(damage) is Some,
    ensures
        ({
            let (q, taken) = p.take_damage_result(damage)->0;
            &&& q.health.is_valid()
            &&& q.health.max == p.health.max
            &&& 0 <= taken
            &&& taken == p.health.current - q.health.current
            &&& q.damage_taken == p.damage_taken + taken
            &&& damage <= p.block ==> taken == 0
        }),
{
}

/// Healing by a non-negative amount keeps the player's HP within `[0, max]`,
/// sets it to `min(current + healing, max)`, and adds exactly the HP gained to
/// the damage healed.
pub proof fn lemma_player_heal(p: PlayerState, healing: i64)
    requires
        p.health.is_valid(),
        healing >= 0,
        p.heal_damage_result(healing) is Some,
    ensures
        ({
            let q = p.heal_damage_result(healing)->0;
            &&& q.health.is_valid()
            &&& q.health.max == p.health.max
            &&& q.health.current == if p.health.current + healing > p.health.max {
                p.health.max as int
            } else {
                p.health.current + healing
            }
            &&& q.damage_healed == p.damage_healed + (q.health.current - p.health.current)
        }),
{
}

/// Taking damage keeps an enemy's HP within `[0, max]`, and the HP reported
/// lost is exactly the drop in HP.
pub proof fn lemma_enemy_take_damage(e: EnemyState, damage: i64)
    requires
        e.health.is_valid(),
        e.take_damage_result(damage) is Some,
    ensures
        ({
            let (f, taken) = e.take_damage_result(damage)->0;
            &&& f.health.is_valid()
            &&& f.health.max == e.health.max
            &&& 0 <= taken
            &&& taken == e.health.current - f.health.current
            &&& damage <= e.block ==> taken == 0
        }),
{
}

/// A hit on an enemy is absorbed by its block first. Damage no larger than
/// the block costs no HP and only uses up that much block, the rest of the
/// block staying for the next hit; damage beyond the block uses the block up
/// and lowers HP by the excess, not below 0, and the HP lost is reported.
/// Nothing else of the enemy changes.
pub proof fn lemma_enemy_block_absorbs(e: EnemyState, damage: i64)
    requires
        e.health.current >= 0,
        e.take_damage_result(damage) is Some,
    ensures
        ({
            let (f, taken) = e.take_damage_result(damage)->0;
            &&& damage <= e.block ==> {
                &&& f.block == e.block - damage
                &&& f.health == e.health
                &&& taken == 0
            }
            &&& damage > e.block ==> {
                &&& f.block == 0
                &&& f.health.max == e.health.max
                &&& f.health.current == if e.health.current - (damage - e.block) < 0 {
                    0
                } else {
                    e.health.current - (damage - e.block)
                }
                &&& taken == e.health.current - f.health.current
            }
            &&& f.next_turn == e.next_turn
            &&& f.state == e.state
            &&& f.enemy_type == e.enemy_type
        }),
{
}

/// A hit on the player is absorbed by the block first. Damage no larger than
/// the block costs no HP, uses up that much block (the rest staying) and adds
/// the damage to the damage blocked; damage beyond the block uses the block
/// up, adds it to the damage blocked, and lowers HP by the excess, not below
/// 0, adding the HP lost to the damage taken.
pub proof fn lemma_player_block_absorbs(p: PlayerState, damage: i64)
    requires
        p.health.current >= 0,
        p.take_damage_result(damage) is Some,
    ensures
        ({
            let (q, taken) = p.take_damage_result(damage)->0;
            &&& damage <= p.block ==> {
                &&& q.block == p.block - damage
                &&& q.health == p.health
                &&& taken == 0
                &&& q.damage_blocked == p.damage_blocked + damage
                &&& q.damage_taken == p.damage_taken
            }
            &&& damage > p.block ==> {
                &&& q.block == 0
                &&& q.health.max == p.health.max
                &&& q.health.current == if p.health.current - (damage - p.block) < 0 {
                    0
                } else {
                    p.health.current - (damage - p.block)
                }
                &&& taken == p.health.current - q.health.current
                &&& q.damage_blocked == p.damage_blocked + p.block
                &&& q.damage_taken == p.damage_taken + taken
            }
            &&& q.damage_healed == p.damage_healed
            &&& q.damage_dealt == p.damage_dealt
            &&& q.damage_dodged == p.damage_dodged
        }),
{
}

/// Healing by a non-negative amount keeps an enemy's HP within `[0, max]` and
/// sets it to `min(current + healing, max)`.
pub proof fn lemma_enemy_heal(e: EnemyState, healing: i64)
    requires
        e.health.is_valid(),
        healing >= 0,
        e.heal_damage_result(healing) is Some,
    ensures
        ({
            let f = e.heal_damage_result(healing)->0;
            &&& f.health.is_valid()
            &&& f.health.current == if e.health.current + healing > e.health.max {
                e.health.max as int
            } else {
                e.health.current + healing
            }
        }),
{
}

/// An event broadcast to SSE subscribers during a live game session.
#[derive(Debug)]
pub enum GameEvent {
    /// A turn was resolved; contains the updated game state.
    TurnResolved(Game),
    /// The game ended naturally (player died or won); contains the final state.
    GameOver(Game),
    /// The game was stopped externally (e.g., client called `stop_game`);
    /// contains the state at time of stopping.
    GameStopped(Game),
    /// A narrative or status message from the game engine (e.g., enemy
    /// ability announcements).
    GameMessage(String),
}

/// A [`GameEvent`] tagged with a monotonically-increasing sequence number.
///
/// SSE clients use the sequence number to detect and discard events that are
/// older than the initial snapshot they received on connection.
#[derive(Debug)]
pub struct SequencedEvent {
    /// Sequence number for this event. Starts at 1 and increments with every
    /// event emitted during a session.
    pub seq: u64,
    /// The game event payload.
    pub event: GameEvent,
}

/// Request body for the `POST /game/new` endpoint.
#[derive(Debug, Clone)]
pub struct CreateGameRequest {
    /// ID of the player starting the game.
    pub player_id: String,
    /// ID of the character the player wants to use.
    pub character_id: String,
}

/// Response body returned after a successful `POST /game/new`.
#[derive(Debug, Clone)]
pub struct CreateGameResponse {
    /// ID of the newly created game.
    pub game_id: String,
}

} // verus!
