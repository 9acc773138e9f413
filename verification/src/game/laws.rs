//! Properties of the combat engine that span several operations: HP stays
//! within `[0, max]` through every turn, the turn counter only moves forward
//! within a round, and each enemy follows the behaviour cycle it is known for.
use vstd::prelude::*;

use crate::{
    enemys::{
        bomb::BombEnemy, copper_sides::CopperSidesEnemy, dummy::DummyEnemy,
        iron_lotus::IronLotusEnemy, maestro::MaestroEnemy, rose_buddies::RoseBuddiesEnemy,
        is_fighting_enemy, AnyEnemy, Enemy, EnemyMessage, EnemyType,
    },
    game::runner::{
        action_result, enemy_turn_result, ended_turn, health_valid, is_engine_step, is_roll_of,
        is_session_end, numbered_step,
        player_turn_increment, player_turn_result, turn_order_result, Engine, TurnReport,
    },
    models::{
        game::{
            SequencedEvent, lemma_enemy_heal, lemma_enemy_take_damage, lemma_player_heal,
            lemma_player_take_damage, Combatant, EnemyState, Game, PlayerState,
        },
        Action,
    },
};

verus! {

/// The enemy's turn interval is positive: Rose Buddies and Maestro act
/// sooner as they lose HP, by their speed; the others have fixed intervals.
pub open spec fn is_steady(enemy: AnyEnemy) -> bool {
    match enemy {
        AnyEnemy::RoseBuddies(e) => e.speed < 8,
        AnyEnemy::Maestro(e) => e.speed < 6,
        _ => true,
    }
}

/// Scheduled next turns are never in the past.
pub open spec fn schedule_ok(g: Game) -> bool {
    &&& (g.player_state.next_turn matches Some(t) ==> t >= g.turn)
    &&& (g.enemy_state.next_turn matches Some(t) ==> t >= g.turn)
}

/// A freshly constructed enemy is steady, and its starting state has valid
/// HP and no scheduled turn.
pub proof fn lemma_fresh_enemy(t: EnemyType)
    ensures
        is_steady(AnyEnemy::fresh(t)),
        AnyEnemy::fresh(t).new_state_spec().health.is_valid(),
        AnyEnemy::fresh(t).new_state_spec().next_turn is None,
{
}

/// Scheduling an enemy's next turn only touches the enemy's cycle counter:
/// HP, turn counter and schedules are unchanged; a steady enemy gets a
/// positive interval and stays steady.
pub proof fn lemma_next_turn_effect(enemy: AnyEnemy, g: Game)
    requires
        enemy.next_turn_result(g) is Some,
    ensures
        ({
            let (e2, g2, interval) = enemy.next_turn_result(g)->0;
            &&& g2 == Game { enemy_state: EnemyState { state: g2.enemy_state.state, ..g.enemy_state }, ..g }
            &&& is_steady(enemy) ==> interval >= 1 && is_steady(e2)
        }),
{
}

/// The turn order never changes HP.
pub proof fn lemma_turn_order_keeps_health(game: Game, speed: i64, enemy: AnyEnemy)
    requires
        turn_order_result(game, speed, enemy) is Some,
    ensures
        ({
            let (g, e, _) = turn_order_result(game, speed, enemy)->0;
            g.player_state.health == game.player_state.health && g.enemy_state.health
                == game.enemy_state.health
        }),
{
    let inc = player_turn_increment(speed);
    let g1 = match game.player_state.next_turn {
        Some(_) => game,
        None => Game {
            player_state: PlayerState {
                next_turn: Some((game.turn + inc) as i64),
                ..game.player_state
            },
            ..game
        },
    };
    if g1.enemy_state.next_turn is None {
        lemma_next_turn_effect(enemy, g1);
        let (e2, g2, n) = enemy.next_turn_result(g1)->0;
        let g3 = Game {
            enemy_state: EnemyState { next_turn: Some((game.turn + n) as i64), ..g2.enemy_state },
            ..g2
        };
        if enemy.next_turn_result(g3) is Some {
            lemma_next_turn_effect(e2, g3);
        }
    } else if enemy.next_turn_result(g1) is Some {
        lemma_next_turn_effect(enemy, g1);
    }
}

/// Within a round the turn counter never moves backwards: for a character
/// with speed at most 19 and a steady enemy, whose scheduled turns are not in
/// the past, the turn order moves the counter to the earlier of the two
/// schedules (the player's on a tie), which is not before the current turn,
/// and both schedules stay at or after the new turn.
pub proof fn lemma_turn_order_advances(game: Game, speed: i64, enemy: AnyEnemy)
    requires
        speed <= 19,
        schedule_ok(game),
        is_steady(enemy),
        turn_order_result(game, speed, enemy) is Some,
    ensures
        ({
            let (g, e, players_turn) = turn_order_result(game, speed, enemy)->0;
            &&& g.turn >= game.turn
            &&& schedule_ok(g)
            &&& is_steady(e)
            &&& players_turn ==> (g.player_state.next_turn matches Some(t) && t >= g.turn)
        }),
{
    let inc = player_turn_increment(speed);
    assert(inc >= 0);
    let g1 = match game.player_state.next_turn {
        Some(_) => game,
        None => Game {
            player_state: PlayerState {
                next_turn: Some((game.turn + inc) as i64),
                ..game.player_state
            },
            ..game
        },
    };
    if g1.enemy_state.next_turn is None {
        lemma_next_turn_effect(enemy, g1);
        let (e2, g2, n) = enemy.next_turn_result(g1)->0;
        let g3 = Game {
            enemy_state: EnemyState { next_turn: Some((game.turn + n) as i64), ..g2.enemy_state },
            ..g2
        };
        if enemy.next_turn_result(g3) is Some {
            lemma_next_turn_effect(e2, g3);
        }
    } else if enemy.next_turn_result(g1) is Some {
        lemma_next_turn_effect(enemy, g1);
    }
}

/// Applying an action from the player to the enemy keeps both HPs within
/// `[0, max]`.
pub proof fn lemma_player_action_keeps_health(
    action: Action,
    roll: i64,
    p: PlayerState,
    e: EnemyState,
)
    requires
        p.health.is_valid(),
        e.health.is_valid(),
        is_roll_of(action, roll),
        action_result(action, roll, p, e) is Some,
    ensures
        ({
            let (p2, e2) = action_result(action, roll, p, e)->0;
            p2.health.is_valid() && e2.health.is_valid()
        }),
{
    let p0 = p.with_block(0);
    match action {
        Action::Attack(_) => {
            lemma_enemy_take_damage(e, roll);
        },
        Action::Heal(_) => {
            lemma_player_heal(p0, roll);
        },
        _ => {},
    }
}

/// Applying an action from the enemy to the player keeps both HPs within
/// `[0, max]`.
pub proof fn lemma_enemy_action_keeps_health(
    action: Action,
    roll: i64,
    e: EnemyState,
    p: PlayerState,
)
    requires
        p.health.is_valid(),
        e.health.is_valid(),
        is_roll_of(action, roll),
        action_result(action, roll, e, p) is Some,
    ensures
        ({
            let (e2, p2) = action_result(action, roll, e, p)->0;
            p2.health.is_valid() && e2.health.is_valid()
        }),
{
    let e0 = e.with_block(0);
    match action {
        Action::Attack(_) => {
            lemma_player_take_damage(p, roll);
        },
        Action::Heal(_) => {
            lemma_enemy_heal(e0, roll);
        },
        _ => {},
    }
}

/// Every enemy's reaction to the player's action keeps both HPs within
/// `[0, max]`.
pub proof fn lemma_reaction_keeps_health(enemy: AnyEnemy, g: Game, action: Action)
    requires
        health_valid(g),
        enemy.after_players_turn_result(g, action) is Some,
    ensures
        health_valid(enemy.after_players_turn_result(g, action)->0 .1),
{
    match enemy {
        AnyEnemy::RoseBuddies(_) => {
            if action is Attack {
                lemma_player_take_damage(g.player_state, 1);
            }
        },
        AnyEnemy::Bomb(_) => {
            if action is Attack {
                lemma_player_take_damage(g.player_state, 20);
            }
        },
        _ => {},
    }
}

/// The player's turn keeps both HPs within `[0, max]`.
pub proof fn lemma_player_turn_keeps_health(game: Game, enemy: AnyEnemy, action: Action, roll: i64)
    requires
        health_valid(game),
        is_roll_of(action, roll),
        player_turn_result(game, enemy, action, roll) is Some,
    ensures
        health_valid(player_turn_result(game, enemy, action, roll)->0 .0),
{
    lemma_player_action_keeps_health(action, roll, game.player_state, game.enemy_state);
    let (p, e) = action_result(action, roll, game.player_state, game.enemy_state)->0;
    lemma_reaction_keeps_health(enemy, Game { player_state: p, enemy_state: e, ..game }, action);
}

/// The enemy's turn keeps both HPs within `[0, max]`.
pub proof fn lemma_enemy_turn_keeps_health(game: Game, enemy: AnyEnemy, roll: i64)
    requires
        health_valid(game),
        enemy_turn_result(game, enemy, roll) matches Some((_, _, action)) && is_roll_of(action, roll),
    ensures
        health_valid(enemy_turn_result(game, enemy, roll)->0 .0),
{
    let (e1, g1, action) = enemy.choose_action_result(game)->0;
    assert(health_valid(g1));
    lemma_enemy_action_keeps_health(action, roll, g1.enemy_state, g1.player_state);
}

/// Ending a turn keeps both HPs within `[0, max]`: the next round's enemy
/// starts with valid HP.
pub proof fn lemma_end_turn_keeps_health(
    g: Game,
    enemy: AnyEnemy,
    seq: u64,
    after: Engine,
    report: TurnReport,
)
    requires
        health_valid(g),
        ended_turn(g, enemy, seq, after, report),
    ensures
        health_valid(after.game_state),
{
    if g.player_state.health.current != 0 && g.enemy_state.health.current == 0 {
        lemma_fresh_enemy(after.game_state.enemy_state.enemy_type);
    }
}

/// The game ends exactly when the player's HP reaches 0, and it is won when
/// more than three rounds were played.
pub proof fn lemma_game_over_exactly_on_death(
    g: Game,
    enemy: AnyEnemy,
    seq: u64,
    after: Engine,
    report: TurnReport,
)
    requires
        ended_turn(g, enemy, seq, after, report),
        !g.complete,
    ensures
        report.game_over <==> g.player_state.health.current == 0,
        after.game_state.complete <==> g.player_state.health.current == 0,
        report.game_over ==> after.game_state.win == Some(g.round > 3),
{
}

/// Rose Buddies attack twice, then heal, and the cycle repeats.
pub proof fn lemma_rose_buddies_cycle(e: RoseBuddiesEnemy, g0: Game)
    requires
        g0.enemy_state.state == 0,
    ensures
        ({
            let (e1, g1, a1) = e.choose_action_result(g0)->0;
            let (e2, g2, a2) = e1.choose_action_result(g1)->0;
            let (e3, g3, a3) = e2.choose_action_result(g2)->0;
            &&& a1 == Action::Attack(e.power)
            &&& a2 == Action::Attack(e.power)
            &&& a3 == Action::Heal(e.defense)
            &&& e3 == e
            &&& g3 == g0
        }),
{
    let (e1, g1, a1) = e.choose_action_result(g0)->0;
    let (e2, g2, a2) = e1.choose_action_result(g1)->0;
    let (e3, g3, a3) = e2.choose_action_result(g2)->0;
    assert(g3 =~= g0);
}

/// Copper Sides alternate an attack and a charging defence; each charge adds
/// 1 to the power of the following attacks.
pub proof fn lemma_copper_sides_cycle(e: CopperSidesEnemy, g0: Game)
    requires
        g0.enemy_state.state == 0,
        e.power < i64::MAX,
        g0.turn < i64::MAX,
    ensures
        ({
            let (e1, g1, a1) = e.choose_action_result(g0)->0;
            let (e2, g2, a2) = e1.choose_action_result(g1)->0;
            &&& a1 == Action::Attack(e.power)
            &&& a2 == Action::Defend(e.defense)
            &&& e2.power == e.power + 1
            &&& e2.set_message == Some(EnemyMessage::Charging)
            &&& g2.enemy_state.state == 0
        }),
{
}

/// Copper Sides start an encounter with their power raised by the current
/// round.
pub proof fn lemma_copper_sides_round_scaling(g: Game)
    requires
        g.enemy_state.state == 2,
        g.round < i64::MAX,
    ensures
        ({
            let (e1, g1, interval) = CopperSidesEnemy::initial().next_turn_result(g)->0;
            e1.power == 1 + g.round && g1.enemy_state.state == 0 && interval == 8
        }),
{
}

/// A fresh Maestro fires five shots of rising power (3 to 7), then a
/// double-power final shot (16), then reloads with a negative defence, and is
/// back to its starting ammunition.
pub proof fn lemma_maestro_cycle(g: Game)
    ensures
        ({
            let e0 = MaestroEnemy::initial();
            let (e1, _, a1) = e0.choose_action_result(g)->0;
            let (e2, _, a2) = e1.choose_action_result(g)->0;
            let (e3, _, a3) = e2.choose_action_result(g)->0;
            let (e4, _, a4) = e3.choose_action_result(g)->0;
            let (e5, _, a5) = e4.choose_action_result(g)->0;
            let (e6, _, a6) = e5.choose_action_result(g)->0;
            let (e7, g7, a7) = e6.choose_action_result(g)->0;
            &&& a1 == Action::Attack(3)
            &&& a2 == Action::Attack(4)
            &&& a3 == Action::Attack(5)
            &&& a4 == Action::Attack(6)
            &&& a5 == Action::Attack(7)
            &&& a6 == Action::Attack(16)
            &&& a7 == Action::Defend(-5i64)
            &&& e7.ammo == e0.ammo
            &&& g7 == g
        }),
{
}

/// The bomb counts down 20 turns; when its turn comes it attacks with power 5
/// and its own HP drops to 0.
pub proof fn lemma_bomb_detonates(g: Game)
    ensures
        BombEnemy::initial().next_turn_result(g)->0 .2 == 20,
        ({
            let (e1, g1, a) = BombEnemy::initial().choose_action_result(g)->0;
            a == Action::Attack(5) && g1.enemy_state.health.current == 0
        }),
{
}

/// Iron Lotus's burn grows by 1 with each attack, by 2 when below half HP,
/// and by 3 when the player heals.
pub proof fn lemma_iron_lotus_burn(e: IronLotusEnemy, g: Game, heal: i64)
    requires
        !(g.enemy_state.state == 1 && g.enemy_state.health.current < e.burn),
        g.enemy_state.health.max >= 0,
        e.burn < i64::MAX - 3,
        e.burn >= 0,
        g.player_state.health.current - e.burn >= i64::MIN,
    ensures
        e.choose_action_result(g)->0 .0.burn == e.burn + if g.enemy_state.health.current
            < g.enemy_state.health.max / 2 {
            2int
        } else {
            1int
        },
        e.choose_action_result(g)->0 .2 == Action::Attack(e.power),
        e.after_players_turn_result(g, Action::Heal(heal))->0 .0.burn == e.burn + 3,
{
}

/// At the end of the player's turn Iron Lotus burns the player by its burn
/// `B >= 0`: the player's HP `h` (within `[0, max]`) becomes `h - B`, or 0 if
/// that is negative, so it stays within `[0, max]`; nothing else of the game
/// changes. The burn grows by 3 when the player healed, and stays otherwise.
pub proof fn lemma_iron_lotus_burns_the_player(e: IronLotusEnemy, g: Game, action: Action)
    requires
        e.burn >= 0,
        0 <= g.player_state.health.current <= g.player_state.health.max,
        action is Heal ==> e.burn + 3 <= i64::MAX,
    ensures
        ({
            let h = g.player_state.health.current;
            let hp = if h - e.burn < 0 {
                0
            } else {
                h - e.burn
            };
            &&& e.after_players_turn_result(g, action) is Some
            &&& e.after_players_turn_result(g, action)->0 .1 == Game {
                player_state: PlayerState {
                    health: crate::models::game::Health {
                        current: hp as i64,
                        ..g.player_state.health
                    },
                    ..g.player_state
                },
                ..g
            }
            &&& 0 <= hp <= g.player_state.health.max
            &&& e.after_players_turn_result(g, action)->0 .0.burn == if action is Heal {
                e.burn + 3
            } else {
                e.burn as int
            }
        }),
{
}

/// The dummy never acts and waits 100 turns between turns.
pub proof fn lemma_dummy_is_passive(g: Game, action: Action)
    ensures
        DummyEnemy::initial().choose_action_result(g) == Some((DummyEnemy::initial(), g, Action::NoAction)),
        DummyEnemy::initial().next_turn_result(g) == Some((DummyEnemy::initial(), g, 100i64)),
        DummyEnemy::initial().after_players_turn_result(g, action) == Some((DummyEnemy::initial(), g)),
{
}

/// The enemy that a new round brings is one of the five fighting types, never
/// the dummy.
pub proof fn lemma_new_round_enemy_fights(
    g: Game,
    enemy: AnyEnemy,
    seq: u64,
    after: Engine,
    report: TurnReport,
)
    requires
        ended_turn(g, enemy, seq, after, report),
        g.player_state.health.current != 0,
        g.enemy_state.health.current == 0,
    ensures
        is_fighting_enemy(after.game_state.enemy_state.enemy_type),
        after.game_state.round == g.round + 1,
{
}

/// The events a turn emits carry sequence numbers above the last number
/// emitted before the turn, strictly increasing in the order they are sent,
/// and the engine's counter ends at the last of them; a stream that has seen
/// a snapshot numbered `seq` therefore misses none of them.
pub proof fn lemma_turn_events_are_numbered_in_order(
    g: Game,
    enemy: AnyEnemy,
    seq: u64,
    after: Engine,
    report: TurnReport,
)
    requires
        ended_turn(g, enemy, seq, after, report),
    ensures
        forall|i: int| 0 <= i < report.events@.len() ==> seq < #[trigger] report.events@[i].seq <= after.seq,
        forall|i: int, j: int|
            0 <= i < j < report.events@.len() ==> #[trigger] report.events@[i].seq
                < #[trigger] report.events@[j].seq,
        report.events@.len() > 0 ==> report.events@[report.events@.len() - 1].seq == after.seq,
{
}

/// The events of a run of steps, in the order they were sent: those of each
/// step after those of the steps before it.
pub open spec fn run_events(batches: Seq<Seq<SequencedEvent>>) -> Seq<SequencedEvent>
    decreases batches.len(),
{
    if batches.len() == 0 {
        Seq::empty()
    } else {
        run_events(batches.drop_last()) + batches.last()
    }
}

/// Every step of the engine numbers its events after the counter and moves
/// the counter to the last of them.
pub proof fn lemma_engine_step_numbered(before: Engine, after: Engine, events: Seq<SequencedEvent>)
    requires
        is_engine_step(before, after, events),
    ensures
        numbered_step(before.seq as int, after.seq as int, events),
{
    if exists|g: Game, e: AnyEnemy, report: TurnReport|
        #[trigger] ended_turn(g, e, before.seq, after, report) && report.events@ == events {
        let (g, e, report) = choose|g: Game, e: AnyEnemy, report: TurnReport|
            #[trigger] ended_turn(g, e, before.seq, after, report) && report.events@ == events;
        assert forall|i: int| 0 <= i < events.len() implies #[trigger] events[i].seq == before.seq
            + i + 1 by {
            assert(report.events@[i].seq == before.seq + (i - 0) + 1);
        }
    }
}

/// Over a whole session, the events sent are numbered `s0 + 1, s0 + 2, ...,
/// s0 + n` in the order they are sent, with no gap and no repeat, where `s0`
/// is the counter at the start (the number of the snapshot a stream starts
/// from) and `s0 + n` the counter at the end. The last event of the run is the
/// last event of its last step, so a run that ends with the session's final
/// step ends with `GameOver` or `GameStopped` carrying the final game.
pub proof fn lemma_session_events_numbered(engines: Seq<Engine>, batches: Seq<Seq<SequencedEvent>>)
    requires
        engines.len() == batches.len() + 1,
        forall|i: int|
            0 <= i < batches.len() ==> is_engine_step(engines[i], engines[i + 1], #[trigger] batches[i]),
    ensures
        numbered_step(engines[0].seq as int, engines.last().seq as int, run_events(batches)),
        batches.len() > 0 && batches.last().len() == 1 && is_session_end(
            engines.last().game_state,
            batches.last()[0],
        ) ==> is_session_end(engines.last().game_state, run_events(batches).last()),
    decreases batches.len(),
{
    if batches.len() > 0 {
        let k = batches.len() - 1;
        let es = engines.drop_last();
        let bs = batches.drop_last();
        assert forall|i: int| 0 <= i < bs.len() implies is_engine_step(es[i], es[i + 1], #[trigger] bs[i]) by {
            assert(is_engine_step(engines[i], engines[i + 1], batches[i]));
        }
        lemma_session_events_numbered(es, bs);
        assert(is_engine_step(engines[k], engines[k + 1], batches[k]));
        lemma_engine_step_numbered(engines[k], engines[k + 1], batches[k]);
        let prev = run_events(bs);
        let last = batches[k];
        let all = run_events(batches);
        assert(all == prev + last);
        assert(es.last() == engines[k]);
        assert forall|i: int| 0 <= i < all.len() implies #[trigger] all[i].seq == engines[0].seq + i
            + 1 by {
            if i < prev.len() {
                assert(all[i] == prev[i]);
            } else {
                assert(all[i] == last[i - prev.len()]);
                assert(last[i - prev.len()].seq == engines[k].seq + (i - prev.len()) + 1);
            }
        }
        if last.len() == 1 {
            assert(all.last() == last[0]);
        }
    }
}

} // verus!
