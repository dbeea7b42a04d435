use vstd::prelude::*;

verus! {

/// Length of a session, in seconds.
pub const SECONDS_ON_TIMER: u64 = 300;

/// Microseconds in one second; durations are counted in microseconds.
pub const MICROS_PER_SECOND: u64 = 1_000_000;

/// Stable identifier of a game object (the engine's entity id).
#[derive(Clone, Copy, Debug, PartialEq, Eq, Structural, Hash)]
pub struct EntityId(pub u64);

/// Phases of a session: `Playing` is initial, `GameOver` is terminal.
#[derive(Clone, Copy, Debug, PartialEq, Eq, Structural, Hash)]
pub enum GameState {
    Playing,
    GameOver,
}

/// Session state: score, time left and the two vehicles.
#[derive(Clone, Copy, Debug)]
pub struct Game {
    pub combine: Option<EntityId>,
    pub truck: Option<EntityId>,
    pub score: u64,
    /// Time left in the session, in microseconds.
    pub time_remaining_us: u64,
}

/// A credit to the score, raised by a deposit in the drop zone.
#[derive(Clone, Copy, Debug, PartialEq, Eq, Structural)]
pub struct ScoreChangeEvent {
    pub amount: u32,
}

/// Sum of the amounts of a list of score changes.
pub open spec fn total_amount(events: Seq<ScoreChangeEvent>) -> nat
    decreases events.len(),
{
    if events.len() == 0 {
        0
    } else {
        total_amount(events.drop_last()) + events.last().amount as nat
    }
}

/// Time left after one tick of `dt` microseconds: never below zero.
pub open spec fn time_after(remaining: nat, dt: nat) -> nat {
    if remaining > dt {
        (remaining - dt) as nat
    } else {
        0
    }
}

impl Game {
    pub open spec fn new_spec() -> Game {
        Game {
            combine: None,
            truck: None,
            score: 0,
            time_remaining_us: (SECONDS_ON_TIMER * MICROS_PER_SECOND) as u64,
        }
    }

    /// A fresh session: no score, the full countdown, no vehicles yet.
    pub fn new() -> (g: Game)
        ensures
            g == Game::new_spec(),
            g.score == 0,
            g.time_remaining_us == SECONDS_ON_TIMER * MICROS_PER_SECOND,
            g.combine is None,
            g.truck is None,
    {
        Game {
            combine: None,
            truck: None,
            score: 0,
            time_remaining_us: SECONDS_ON_TIMER * MICROS_PER_SECOND,
        }
    }
}

/// Credits every score change of this tick to the session score.
pub fn update_score(game: &mut Game, events: &Vec<ScoreChangeEvent>)
    requires
        old(game).score + total_amount(events@) <= u64::MAX,
    ensures
        final(game).score == old(game).score + total_amount(events@),
        final(game).time_remaining_us == old(game).time_remaining_us,
        final(game).combine == old(game).combine,
        final(game).truck == old(game).truck,
{
    let mut i: usize = 0;
    while i < events.len()
        invariant
            i <= events.len(),
            game.score == old(game).score + total_amount(events@.take(i as int)),
            old(game).score + total_amount(events@) <= u64::MAX,
            game.time_remaining_us == old(game).time_remaining_us,
            game.combine == old(game).combine,
            game.truck == old(game).truck,
        decreases events.len() - i,
    {
        proof {
            assert(events@.take(i as int + 1).drop_last() =~= events@.take(i as int));
            lemma_total_amount_prefix(events@, i as int + 1);
        }
        game.score = game.score + events[i].amount as u64;
        i = i + 1;
    }
    proof {
        assert(events@.take(events.len() as int) =~= events@);
    }
}

/// The total of a prefix never exceeds the total of the whole list.
proof fn lemma_total_amount_prefix(events: Seq<ScoreChangeEvent>, n: int)
    requires
        0 <= n <= events.len(),
    ensures
        total_amount(events.take(n)) <= total_amount(events),
    decreases events.len() - n,
{
    if n < events.len() {
        lemma_total_amount_prefix(events, n + 1);
        assert(events.take(n + 1).drop_last() =~= events.take(n));
    } else {
        assert(events.take(n) =~= events);
    }
}

/// Advances the countdown by one tick of `dt_us` microseconds.
///
/// While playing, the time left drops by `dt_us` and stops at zero; the tick
/// on which it reaches zero moves the session to `GameOver` and returns
/// `true`. Once over, nothing changes and `false` is returned.
pub fn countdown_timer(game: &mut Game, state: &mut GameState, dt_us: u64) -> (ended: bool)
    ensures
        *old(state) == GameState::GameOver ==> {
            &&& *final(state) == GameState::GameOver
            &&& *final(game) == *old(game)
            &&& !ended
        },
        *old(state) == GameState::Playing ==> {
            &&& final(game).time_remaining_us == time_after(
                old(game).time_remaining_us as nat,
                dt_us as nat,
            )
            &&& ended == (final(game).time_remaining_us == 0)
            &&& *final(state) == (if ended { GameState::GameOver } else { GameState::Playing })
            &&& final(game).score == old(game).score
            &&& final(game).combine == old(game).combine
            &&& final(game).truck == old(game).truck
        },
{
    match *state {
        GameState::GameOver => false,
        GameState::Playing => {
            game.time_remaining_us = game.time_remaining_us.saturating_sub(dt_us);
            if game.time_remaining_us == 0 {
                *state = GameState::GameOver;
                true
            } else {
                false
            }
        },
    }
}

/// Time left, phase and number of `GameOver` transitions after a run of
/// ticks of the given lengths, starting from `remaining` and `state`.
pub open spec fn countdown_run(remaining: nat, state: GameState, dts: Seq<nat>) -> (nat, GameState, nat)
    decreases dts.len(),
{
    if dts.len() == 0 {
        (remaining, state, 0)
    } else {
        let (r, st, fired) = countdown_run(remaining, state, dts.drop_last());
        match st {
            GameState::GameOver => (r, st, fired),
            GameState::Playing => {
                let next = time_after(r, dts.last());
                if next == 0 {
                    (next, GameState::GameOver, fired + 1)
                } else {
                    (next, GameState::Playing, fired)
                }
            },
        }
    }
}

/// Total length of a run of ticks.
pub open spec fn total_time(dts: Seq<nat>) -> nat
    decreases dts.len(),
{
    if dts.len() == 0 {
        0
    } else {
        total_time(dts.drop_last()) + dts.last()
    }
}

/// A session that starts playing with `remaining` microseconds left is over
/// exactly when its ticks add up to at least `remaining`: the transition
/// fires once, and the time left then reads zero. Until then it is still
/// playing with `remaining` minus the elapsed time left, and has not fired.
pub proof fn lemma_countdown_ends_once(remaining: nat, dts: Seq<nat>)
    requires
        remaining > 0,
    ensures
        ({
            let (r, st, fired) = countdown_run(remaining, GameState::Playing, dts);
            if total_time(dts) >= remaining {
                &&& st == GameState::GameOver
                &&& r == 0
                &&& fired == 1
            } else {
                &&& st == GameState::Playing
                &&& r == remaining - total_time(dts)
                &&& fired == 0
            }
        }),
    decreases dts.len(),
{
    if dts.len() > 0 {
        lemma_countdown_ends_once(remaining, dts.drop_last());
    }
}

} // verus!
