//! Enemy definitions, the [`Enemy`] trait, and factory functions.
//!
//! Each enemy type lives in its own sub-module and implements the [`Enemy`]
//! trait. The [`EnemyType`] enum is persisted as part of the game state so
//! that the correct enemy implementation can be reconstructed when a session
//! is resumed.
//!
//! Every enemy operation is described by a spec function that gives the new
//! enemy, the new game record and the result, or `None` where a value it
//! computes would leave the range of `i64`.
use vstd::prelude::*;

use crate::{
    enemys::{
        bomb::BombEnemy, copper_sides::CopperSidesEnemy, dummy::DummyEnemy,
        iron_lotus::IronLotusEnemy, maestro::MaestroEnemy, rose_buddies::RoseBuddiesEnemy,
    },
    models::{
        game::{EnemyState, Game},
        Action,
    },
    providers::random_in_range,
};
use vstd::string::StringExecFns;

pub mod bomb;
pub mod copper_sides;
pub mod dummy;
pub mod iron_lotus;
pub mod maestro;
pub mod rose_buddies;

verus! {

/// Discriminant for every enemy type in the game.
///
/// Serialised alongside [`EnemyState`] so that the correct
/// [`Enemy`] implementation can be selected when reconstructing a session.
#[derive(Debug, Clone, Copy, PartialEq, Eq, Hash, Structural)]
pub enum EnemyType {
    /// Placeholder enemy that never acts.
    Dummy,
    /// Fast attacker with thorns and a heal cycle.
    RoseBuddies,
    /// Tanky enemy that alternates attack and defend, growing stronger each
    /// cycle.
    CopperSides,
    /// Ranged attacker that uses an ammo/reload mechanic.
    Maestro,
    /// Burns the player every turn with escalating damage.
    IronLotus,
    /// Counts down and detonates for massive damage.
    Bomb,
    /// Fallback for unknown variants encountered during deserialisation.
    Unknown,
}

/// The number that stands for each enemy type in a game's tally of defeated
/// enemies.
pub open spec fn enemy_type_code(t: EnemyType) -> u64 {
    match t {
        EnemyType::Dummy => 0,
        EnemyType::RoseBuddies => 1,
        EnemyType::CopperSides => 2,
        EnemyType::Maestro => 3,
        EnemyType::IronLotus => 4,
        EnemyType::Bomb => 5,
        EnemyType::Unknown => 6,
    }
}

/// The enemy type a tally code stands for; codes that stand for no type are
/// [`EnemyType::Unknown`].
pub open spec fn enemy_type_of_code(code: u64) -> EnemyType {
    if code == 0 {
        EnemyType::Dummy
    } else if code == 1 {
        EnemyType::RoseBuddies
    } else if code == 2 {
        EnemyType::CopperSides
    } else if code == 3 {
        EnemyType::Maestro
    } else if code == 4 {
        EnemyType::IronLotus
    } else if code == 5 {
        EnemyType::Bomb
    } else {
        EnemyType::Unknown
    }
}

impl EnemyType {
    /// The key under which this enemy type is counted in
    /// [`Game::enemies_defeated`].
    pub fn code(&self) -> (r: u64)
        ensures
            r == enemy_type_code(*self),
    {
        match self {
            EnemyType::Dummy => 0,
            EnemyType::RoseBuddies => 1,
            EnemyType::CopperSides => 2,
            EnemyType::Maestro => 3,
            EnemyType::IronLotus => 4,
            EnemyType::Bomb => 5,
            EnemyType::Unknown => 6,
        }
    }

    /// The enemy type a tally key stands for.
    pub fn from_code(code: u64) -> (r: EnemyType)
        ensures
            r == enemy_type_of_code(code),
    {
        if code == 0 {
            EnemyType::Dummy
        } else if code == 1 {
            EnemyType::RoseBuddies
        } else if code == 2 {
            EnemyType::CopperSides
        } else if code == 3 {
            EnemyType::Maestro
        } else if code == 4 {
            EnemyType::IronLotus
        } else if code == 5 {
            EnemyType::Bomb
        } else {
            EnemyType::Unknown
        }
    }
}

/// Decoding the code of an enemy type gives the type back.
pub proof fn lemma_enemy_type_code_round_trip(t: EnemyType)
    ensures
        enemy_type_of_code(enemy_type_code(t)) == t,
{
}

/// The decimal digit character for `d`.
pub open spec fn digit_char(d: nat) -> char {
    if d == 0 {
        '0'
    } else if d == 1 {
        '1'
    } else if d == 2 {
        '2'
    } else if d == 3 {
        '3'
    } else if d == 4 {
        '4'
    } else if d == 5 {
        '5'
    } else if d == 6 {
        '6'
    } else if d == 7 {
        '7'
    } else if d == 8 {
        '8'
    } else {
        '9'
    }
}

/// The decimal representation of `n`, without leading zeros.
pub open spec fn decimal(n: nat) -> Seq<char>
    decreases n,
{
    if n < 10 {
        seq![digit_char(n)]
    } else {
        decimal(n / 10).push(digit_char(n % 10))
    }
}

fn digit_str(d: u64) -> (r: &'static str)
    requires
        d < 10,
    ensures
        r@ == seq![digit_char(d as nat)],
{
    proof {
        reveal_strlit("0");
        reveal_strlit("1");
        reveal_strlit("2");
        reveal_strlit("3");
        reveal_strlit("4");
        reveal_strlit("5");
        reveal_strlit("6");
        reveal_strlit("7");
        reveal_strlit("8");
        reveal_strlit("9");
    }
    if d == 0 {
        "0"
    } else if d == 1 {
        "1"
    } else if d == 2 {
        "2"
    } else if d == 3 {
        "3"
    } else if d == 4 {
        "4"
    } else if d == 5 {
        "5"
    } else if d == 6 {
        "6"
    } else if d == 7 {
        "7"
    } else if d == 8 {
        "8"
    } else {
        "9"
    }
}

/// Append the decimal representation of `n` to `s`.
pub fn push_decimal(s: &mut String, n: u64)
    ensures
        final(s)@ == old(s)@ + decimal(n as nat),
    decreases n,
{
    if n >= 10 {
        push_decimal(s, n / 10);
    }
    s.append(digit_str(n % 10));
    proof {
        assert(old(s)@ + decimal(n as nat) =~= s@);
    }
}

/// A narrative message an enemy announces after a turn.
#[derive(Debug, Clone, Copy, PartialEq, Eq, Structural)]
pub enum EnemyMessage {
    /// Rose Buddies retaliated against an attack.
    Thorns,
    /// Copper Sides defended and charged up.
    Charging,
    /// Maestro fired a shot; the payload is the ammo left.
    RoundsLeft(u64),
    /// Maestro fired its final, double-power shot.
    FinalShot,
    /// Maestro reloaded.
    Reload,
    /// Iron Lotus healed itself and the player.
    SearingFlames,
    /// Iron Lotus grew its burn after the player healed.
    GrowingFlames,
    /// The bomb started its countdown.
    Countdown,
    /// The bomb exploded.
    Kaboom,
}

impl EnemyMessage {
    /// The text announced to the players.
    pub open spec fn text_spec(self) -> Seq<char> {
        match self {
            EnemyMessage::Thorns => "Thorns!"@,
            EnemyMessage::Charging => "CHARGING!"@,
            EnemyMessage::RoundsLeft(n) => decimal(n as nat) + " Rounds Left!"@,
            EnemyMessage::FinalShot => "This one's bound finish the fight!"@,
            EnemyMessage::Reload => "Reload!"@,
            EnemyMessage::SearingFlames => "May you overcome the searing flames!"@,
            EnemyMessage::GrowingFlames => "Do you also wish for the flames to grow?"@,
            EnemyMessage::Countdown => "T-20 turns!"@,
            EnemyMessage::Kaboom => "KABOOM!"@,
        }
    }

    /// The text announced to the players.
    pub fn text(&self) -> (r: String)
        ensures
            r@ == self.text_spec(),
    {
        match self {
            EnemyMessage::Thorns => String::from_str("Thorns!"),
            EnemyMessage::Charging => String::from_str("CHARGING!"),
            EnemyMessage::RoundsLeft(n) => {
                let mut s = String::new();
                push_decimal(&mut s, *n);
                s.append(" Rounds Left!");
                s
            },
            EnemyMessage::FinalShot => String::from_str("This one's bound finish the fight!"),
            EnemyMessage::Reload => String::from_str("Reload!"),
            EnemyMessage::SearingFlames => String::from_str("May you overcome the searing flames!"),
            EnemyMessage::GrowingFlames => String::from_str(
                "Do you also wish for the flames to grow?",
            ),
            EnemyMessage::Countdown => String::from_str("T-20 turns!"),
            EnemyMessage::Kaboom => String::from_str("KABOOM!"),
        }
    }
}

/// Hand out a queued message as text, leaving nothing queued.
pub fn take_message(pending: &mut Option<EnemyMessage>) -> (r: Option<String>)
    ensures
        *final(pending) is None,
        r is Some <==> (*old(pending)) is Some,
        r matches Some(s) ==> s@ == (*old(pending))->0.text_spec(),
{
    let send = match pending {
        Some(m) => Some(m.text()),
        None => None,
    };
    *pending = None;
    send
}

/// Behaviour contract that all enemies must satisfy.
pub trait Enemy: Sized {
    /// The initial state of a fresh encounter.
    spec fn new_state_spec(self) -> EnemyState;

    /// The enemy and game after [`Enemy::next_turn`], and the turn interval.
    spec fn next_turn_result(self, game: Game) -> Option<(Self, Game, i64)>;

    /// The enemy and game after [`Enemy::choose_action`], and the action.
    spec fn choose_action_result(self, game: Game) -> Option<(Self, Game, Action)>;

    /// The enemy and game after [`Enemy::after_players_turn`].
    spec fn after_players_turn_result(self, game: Game, prev_action: Action) -> Option<(Self, Game)>;

    /// The message queued for announcement, if any.
    spec fn pending_message(self) -> Option<EnemyMessage>;

    /// The enemy with its queued message cleared.
    spec fn without_message(self) -> Self;

    /// Return the initial [`EnemyState`] for a fresh encounter.
    fn get_new_state(&mut self) -> (r: EnemyState)
        ensures
            *final(self) == *old(self),
            r == old(self).new_state_spec(),
    ;

    /// Return the number of turns until this enemy's next action, given the
    /// current game state.
    fn next_turn(&mut self, state: &mut Game) -> (r: i64)
        requires
            old(self).next_turn_result(*old(state)) is Some,
        ensures
            old(self).next_turn_result(*old(state)) == Some((*final(self), *final(state), r)),
    ;

    /// Choose and return the action this enemy will take on its turn.
    fn choose_action(&mut self, state: &mut Game) -> (r: Action)
        requires
            old(self).choose_action_result(*old(state)) is Some,
        ensures
            old(self).choose_action_result(*old(state)) == Some((*final(self), *final(state), r)),
    ;

    /// React to the player's action after the player's turn resolves.
    ///
    /// Used for abilities that trigger in response to the player (e.g.,
    /// thorns, counter-attacks).
    fn after_players_turn(&mut self, state: &mut Game, prev_action: &Action)
        requires
            old(self).after_players_turn_result(*old(state), *prev_action) is Some,
        ensures
            old(self).after_players_turn_result(*old(state), *prev_action) == Some(
                (*final(self), *final(state)),
            ),
    ;

    /// Return a queued narrative message (if any) and clear it.
    ///
    /// Called after each turn to give the enemy a chance to announce an
    /// ability or state change to the player.
    fn message(&mut self) -> (r: Option<String>)
        ensures
            *final(self) == old(self).without_message(),
            r is Some <==> old(self).pending_message() is Some,
            r matches Some(s) ==> s@ == old(self).pending_message()->0.text_spec(),
    ;

    /// Whether [`Enemy::next_turn`] can run on `state` without overflow.
    fn can_next_turn(&self, state: &Game) -> (r: bool)
        ensures
            r == (self.next_turn_result(*state) is Some),
    ;

    /// Whether [`Enemy::choose_action`] can run on `state` without overflow.
    fn can_choose_action(&self, state: &Game) -> (r: bool)
        ensures
            r == (self.choose_action_result(*state) is Some),
    ;

    /// Whether [`Enemy::after_players_turn`] can run without overflow.
    fn can_after_players_turn(&self, state: &Game, prev_action: &Action) -> (r: bool)
        ensures
            r == (self.after_players_turn_result(*state, *prev_action) is Some),
    ;
}

/// One enemy of any type: the enemy that a game session is fighting.
#[derive(Debug, Clone, Copy)]
pub enum AnyEnemy {
    Dummy(DummyEnemy),
    RoseBuddies(RoseBuddiesEnemy),
    CopperSides(CopperSidesEnemy),
    Maestro(MaestroEnemy),
    IronLotus(IronLotusEnemy),
    Bomb(BombEnemy),
}

impl AnyEnemy {
    /// A freshly constructed enemy of the given kind.
    pub open spec fn fresh(t: EnemyType) -> AnyEnemy {
        match t {
            EnemyType::Dummy => AnyEnemy::Dummy(DummyEnemy::initial()),
            EnemyType::RoseBuddies => AnyEnemy::RoseBuddies(RoseBuddiesEnemy::initial()),
            EnemyType::CopperSides => AnyEnemy::CopperSides(CopperSidesEnemy::initial()),
            EnemyType::Maestro => AnyEnemy::Maestro(MaestroEnemy::initial()),
            EnemyType::IronLotus => AnyEnemy::IronLotus(IronLotusEnemy::initial()),
            EnemyType::Bomb => AnyEnemy::Bomb(BombEnemy::initial()),
            EnemyType::Unknown => AnyEnemy::Dummy(DummyEnemy::initial()),
        }
    }
}

impl Enemy for AnyEnemy {
    open spec fn new_state_spec(self) -> EnemyState {
        match self {
            AnyEnemy::Dummy(e) => e.new_state_spec(),
            AnyEnemy::RoseBuddies(e) => e.new_state_spec(),
            AnyEnemy::CopperSides(e) => e.new_state_spec(),
            AnyEnemy::Maestro(e) => e.new_state_spec(),
            AnyEnemy::IronLotus(e) => e.new_state_spec(),
            AnyEnemy::Bomb(e) => e.new_state_spec(),
        }
    }

    open spec fn next_turn_result(self, game: Game) -> Option<(Self, Game, i64)> {
        match self {
            AnyEnemy::Dummy(e) => match e.next_turn_result(game) {
                Some((e2, g, n)) => Some((AnyEnemy::Dummy(e2), g, n)),
                None => None,
            },
            AnyEnemy::RoseBuddies(e) => match e.next_turn_result(game) {
                Some((e2, g, n)) => Some((AnyEnemy::RoseBuddies(e2), g, n)),
                None => None,
            },
            AnyEnemy::CopperSides(e) => match e.next_turn_result(game) {
                Some((e2, g, n)) => Some((AnyEnemy::CopperSides(e2), g, n)),
                None => None,
            },
            AnyEnemy::Maestro(e) => match e.next_turn_result(game) {
                Some((e2, g, n)) => Some((AnyEnemy::Maestro(e2), g, n)),
                None => None,
            },
            AnyEnemy::IronLotus(e) => match e.next_turn_result(game) {
                Some((e2, g, n)) => Some((AnyEnemy::IronLotus(e2), g, n)),
                None => None,
            },
            AnyEnemy::Bomb(e) => match e.next_turn_result(game) {
                Some((e2, g, n)) => Some((AnyEnemy::Bomb(e2), g, n)),
                None => None,
            },
        }
    }

    open spec fn choose_action_result(self, game: Game) -> Option<(Self, Game, Action)> {
        match self {
            AnyEnemy::Dummy(e) => match e.choose_action_result(game) {
                Some((e2, g, a)) => Some((AnyEnemy::Dummy(e2), g, a)),
                None => None,
            },
            AnyEnemy::RoseBuddies(e) => match e.choose_action_result(game) {
                Some((e2, g, a)) => Some((AnyEnemy::RoseBuddies(e2), g, a)),
                None => None,
            },
            AnyEnemy::CopperSides(e) => match e.choose_action_result(game) {
                Some((e2, g, a)) => Some((AnyEnemy::CopperSides(e2), g, a)),
                None => None,
            },
            AnyEnemy::Maestro(e) => match e.choose_action_result(game) {
                Some((e2, g, a)) => Some((AnyEnemy::Maestro(e2), g, a)),
                None => None,
            },
            AnyEnemy::IronLotus(e) => match e.choose_action_result(game) {
                Some((e2, g, a)) => Some((AnyEnemy::IronLotus(e2), g, a)),
                None => None,
            },
            AnyEnemy::Bomb(e) => match e.choose_action_result(game) {
                Some((e2, g, a)) => Some((AnyEnemy::Bomb(e2), g, a)),
                None => None,
            },
        }
    }

    open spec fn after_players_turn_result(self, game: Game, prev_action: Action) -> Option<
        (Self, Game),
    > {
        match self {
            AnyEnemy::Dummy(e) => match e.after_players_turn_result(game, prev_action) {
                Some((e2, g)) => Some((AnyEnemy::Dummy(e2), g)),
                None => None,
            },
            AnyEnemy::RoseBuddies(e) => match e.after_players_turn_result(game, prev_action) {
                Some((e2, g)) => Some((AnyEnemy::RoseBuddies(e2), g)),
                None => None,
            },
            AnyEnemy::CopperSides(e) => match e.after_players_turn_result(game, prev_action) {
                Some((e2, g)) => Some((AnyEnemy::CopperSides(e2), g)),
                None => None,
            },
            AnyEnemy::Maestro(e) => match e.after_players_turn_result(game, prev_action) {
                Some((e2, g)) => Some((AnyEnemy::Maestro(e2), g)),
                None => None,
            },
            AnyEnemy::IronLotus(e) => match e.after_players_turn_result(game, prev_action) {
                Some((e2, g)) => Some((AnyEnemy::IronLotus(e2), g)),
                None => None,
            },
            AnyEnemy::Bomb(e) => match e.after_players_turn_result(game, prev_action) {
                Some((e2, g)) => Some((AnyEnemy::Bomb(e2), g)),
                None => None,
            },
        }
    }

    open spec fn pending_message(self) -> Option<EnemyMessage> {
        match self {
            AnyEnemy::Dummy(e) => e.pending_message(),
            AnyEnemy::RoseBuddies(e) => e.pending_message(),
            AnyEnemy::CopperSides(e) => e.pending_message(),
            AnyEnemy::Maestro(e) => e.pending_message(),
            AnyEnemy::IronLotus(e) => e.pending_message(),
            AnyEnemy::Bomb(e) => e.pending_message(),
        }
    }

    open spec fn without_message(self) -> Self {
        match self {
            AnyEnemy::Dummy(e) => AnyEnemy::Dummy(e.without_message()),
            AnyEnemy::RoseBuddies(e) => AnyEnemy::RoseBuddies(e.without_message()),
            AnyEnemy::CopperSides(e) => AnyEnemy::CopperSides(e.without_message()),
            AnyEnemy::Maestro(e) => AnyEnemy::Maestro(e.without_message()),
            AnyEnemy::IronLotus(e) => AnyEnemy::IronLotus(e.without_message()),
            AnyEnemy::Bomb(e) => AnyEnemy::Bomb(e.without_message()),
        }
    }

    fn get_new_state(&mut self) -> (r: EnemyState) {
        match self {
            AnyEnemy::Dummy(e) => e.get_new_state(),
            AnyEnemy::RoseBuddies(e) => e.get_new_state(),
            AnyEnemy::CopperSides(e) => e.get_new_state(),
            AnyEnemy::Maestro(e) => e.get_new_state(),
            AnyEnemy::IronLotus(e) => e.get_new_state(),
            AnyEnemy::Bomb(e) => e.get_new_state(),
        }
    }

    fn next_turn(&mut self, state: &mut Game) -> (r: i64) {
        match self {
            AnyEnemy::Dummy(e) => e.next_turn(state),
            AnyEnemy::RoseBuddies(e) => e.next_turn(state),
            AnyEnemy::CopperSides(e) => e.next_turn(state),
            AnyEnemy::Maestro(e) => e.next_turn(state),
            AnyEnemy::IronLotus(e) => e.next_turn(state),
            AnyEnemy::Bomb(e) => e.next_turn(state),
        }
    }

    fn choose_action(&mut self, state: &mut Game) -> (r: Action) {
        match self {
            AnyEnemy::Dummy(e) => e.choose_action(state),
            AnyEnemy::RoseBuddies(e) => e.choose_action(state),
            AnyEnemy::CopperSides(e) => e.choose_action(state),
            AnyEnemy::Maestro(e) => e.choose_action(state),
            AnyEnemy::IronLotus(e) => e.choose_action(state),
            AnyEnemy::Bomb(e) => e.choose_action(state),
        }
    }

    fn after_players_turn(&mut self, state: &mut Game, prev_action: &Action) {
        match self {
            AnyEnemy::Dummy(e) => e.after_players_turn(state, prev_action),
            AnyEnemy::RoseBuddies(e) => e.after_players_turn(state, prev_action),
            AnyEnemy::CopperSides(e) => e.after_players_turn(state, prev_action),
            AnyEnemy::Maestro(e) => e.after_players_turn(state, prev_action),
            AnyEnemy::IronLotus(e) => e.after_players_turn(state, prev_action),
            AnyEnemy::Bomb(e) => e.after_players_turn(state, prev_action),
        }
    }

    fn message(&mut self) -> (r: Option<String>) {
        match self {
            AnyEnemy::Dummy(e) => e.message(),
            AnyEnemy::RoseBuddies(e) => e.message(),
            AnyEnemy::CopperSides(e) => e.message(),
            AnyEnemy::Maestro(e) => e.message(),
            AnyEnemy::IronLotus(e) => e.message(),
            AnyEnemy::Bomb(e) => e.message(),
        }
    }

    fn can_next_turn(&self, state: &Game) -> (r: bool) {
        match self {
            AnyEnemy::Dummy(e) => e.can_next_turn(state),
            AnyEnemy::RoseBuddies(e) => e.can_next_turn(state),
            AnyEnemy::CopperSides(e) => e.can_next_turn(state),
            AnyEnemy::Maestro(e) => e.can_next_turn(state),
            AnyEnemy::IronLotus(e) => e.can_next_turn(state),
            AnyEnemy::Bomb(e) => e.can_next_turn(state),
        }
    }

    fn can_choose_action(&self, state: &Game) -> (r: bool) {
        match self {
            AnyEnemy::Dummy(e) => e.can_choose_action(state),
            AnyEnemy::RoseBuddies(e) => e.can_choose_action(state),
            AnyEnemy::CopperSides(e) => e.can_choose_action(state),
            AnyEnemy::Maestro(e) => e.can_choose_action(state),
            AnyEnemy::IronLotus(e) => e.can_choose_action(state),
            AnyEnemy::Bomb(e) => e.can_choose_action(state),
        }
    }

    fn can_after_players_turn(&self, state: &Game, prev_action: &Action) -> (r: bool) {
        match self {
            AnyEnemy::Dummy(e) => e.can_after_players_turn(state, prev_action),
            AnyEnemy::RoseBuddies(e) => e.can_after_players_turn(state, prev_action),
            AnyEnemy::CopperSides(e) => e.can_after_players_turn(state, prev_action),
            AnyEnemy::Maestro(e) => e.can_after_players_turn(state, prev_action),
            AnyEnemy::IronLotus(e) => e.can_after_players_turn(state, prev_action),
            AnyEnemy::Bomb(e) => e.can_after_players_turn(state, prev_action),
        }
    }
}

/// Construct the [`Enemy`] for the given [`EnemyType`].
///
/// Returns a [`DummyEnemy`] for [`EnemyType::Unknown`].
pub fn get_enemy_by_type(enemy_type: EnemyType) -> (r: AnyEnemy)
    ensures
        r == AnyEnemy::fresh(enemy_type),
{
    match enemy_type {
        EnemyType::Dummy => AnyEnemy::Dummy(DummyEnemy::new()),
        EnemyType::RoseBuddies => AnyEnemy::RoseBuddies(RoseBuddiesEnemy::new()),
        EnemyType::CopperSides => AnyEnemy::CopperSides(CopperSidesEnemy::new()),
        EnemyType::Maestro => AnyEnemy::Maestro(MaestroEnemy::new()),
        EnemyType::IronLotus => AnyEnemy::IronLotus(IronLotusEnemy::new()),
        EnemyType::Bomb => AnyEnemy::Bomb(BombEnemy::new()),
        EnemyType::Unknown => AnyEnemy::Dummy(DummyEnemy::new()),
    }
}

/// The enemy type picked for a random draw `roll` from `0..5`; any other
/// value picks the dummy.
pub open spec fn random_enemy_type(roll: i64) -> EnemyType {
    if roll == 0 {
        EnemyType::RoseBuddies
    } else if roll == 1 {
        EnemyType::CopperSides
    } else if roll == 2 {
        EnemyType::Maestro
    } else if roll == 3 {
        EnemyType::IronLotus
    } else if roll == 4 {
        EnemyType::Bomb
    } else {
        EnemyType::Dummy
    }
}

/// The enemy picked for the random draw `roll`.
pub fn enemy_for_roll(roll: i64) -> (r: AnyEnemy)
    ensures
        r == AnyEnemy::fresh(random_enemy_type(roll)),
{
    if roll == 0 {
        AnyEnemy::RoseBuddies(RoseBuddiesEnemy::new())
    } else if roll == 1 {
        AnyEnemy::CopperSides(CopperSidesEnemy::new())
    } else if roll == 2 {
        AnyEnemy::Maestro(MaestroEnemy::new())
    } else if roll == 3 {
        AnyEnemy::IronLotus(IronLotusEnemy::new())
    } else if roll == 4 {
        AnyEnemy::Bomb(BombEnemy::new())
    } else {
        AnyEnemy::Dummy(DummyEnemy::new())
    }
}

/// Whether `t` is one of the five enemies that a round can be fought against.
pub open spec fn is_fighting_enemy(t: EnemyType) -> bool {
    t != EnemyType::Dummy && t != EnemyType::Unknown
}

/// Select a random non-Dummy enemy for the next round.
pub fn get_random_enemy() -> (r: AnyEnemy)
    ensures
        exists|t: EnemyType| is_fighting_enemy(t) && r == AnyEnemy::fresh(t),
{
    // range is exclusive 0..5 → 0 to 4 inclusive
    let rn = random_in_range(0, 5);
    let r = enemy_for_roll(rn);
    assert(is_fighting_enemy(random_enemy_type(rn)));
    r
}

} // verus!
