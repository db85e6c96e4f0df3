//! What holds of the turn clock.
use vstd::prelude::*;

use crate::server::protocol::ServerMessage;
use crate::server::session::GameSession;
use crate::server::turn_clock;
use crate::server::turn_clock::TurnClockState;
use crate::types::identifiers::PlayerId;
use crate::types::prompts::PromptModel;

verus! {

/// Only a human seat that decides alone is ever on the clock.
pub proof fn only_sole_human_deciders_are_clocked(s: GameSession, player: PlayerId)
    requires
        turn_clock::clock_target(s) == Some(player),
    ensures
        s.state@.waiting_for.actors() =~= seq![player],
        !s.ai_seats@.contains(player),
        s.game_started,
        s.timer_seconds matches Some(t) && t > 0,
{
}

/// The seat is played by the computer.
pub open spec fn has_ai_seat(s: GameSession, player: PlayerId) -> bool {
    exists|i: int| 0 <= i < s.ai_seats@.len() && #[trigger] s.ai_seats@[i] == player
}

/// The prompt waits for this player alone.
pub open spec fn waits_only_for(prompt: PromptModel, p: PlayerId) -> bool {
    match prompt {
        PromptModel::GameOver { .. } => false,
        PromptModel::MulliganDecision { pending } => pending.len() == 1 && pending[0] == p,
        PromptModel::Priority { player } => player == p,
        PromptModel::PayAmountChoice { player, .. } => player == p,
        PromptModel::LifeAuctionBid { player, .. } => player == p,
        PromptModel::ScryChoice { player, .. } => player == p,
        PromptModel::DiscardChoice { player, .. } => player == p,
        PromptModel::ReplacementChoice { player, .. } => player == p,
        PromptModel::OptionalCostChoice { player, .. } => player == p,
        PromptModel::GiftChooseOpponent { player, .. } => player == p,
        PromptModel::ManaPayment { player } => player == p,
        PromptModel::OrderTriggers { player, .. } => player == p,
        PromptModel::AbilityModeChoice { player, .. } => player == p,
        PromptModel::TriggerTargetSelection { player, .. } => player == p,
    }
}

/// In a started game with a time limit and nothing to take back, a player for whom alone the game
/// waits is on the clock, whichever other seats the computer plays, unless it plays theirs; nobody
/// else ever is.
pub proof fn sole_human_deciders_are_clocked(s: GameSession, player: PlayerId)
    ensures
        turn_clock::clock_target(s) == Some(player) <==> {
            &&& s.timer_seconds matches Some(seconds) && seconds > 0
            &&& s.game_started
            &&& s.pending_takeback is None
            &&& waits_only_for(s.state@.waiting_for, player)
            &&& !has_ai_seat(s, player)
        },
{
    assert(has_ai_seat(s, player) == s.ai_seats@.contains(player)) by {
        if s.ai_seats@.contains(player) {
            let i = choose|i: int| 0 <= i < s.ai_seats@.len() && s.ai_seats@[i] == player;
            assert(s.ai_seats@[i] == player);
        }
    }
}

/// A clock that starts for a seat runs for the limit in seconds, a thousand milliseconds each: just
/// before the deadline the time is not up, at the deadline it is. The time left is counted down to
/// it.
pub proof fn the_clock_runs_for_the_limit(
    c: TurnClockState,
    player: PlayerId,
    seconds: u32,
    start: u64,
    now: u64,
)
    requires
        c.active_player != Some(player),
        0 < seconds * 1000 <= u32::MAX,
        start + seconds * 1000 <= u64::MAX,
        start <= now,
    ensures
        ({
            let running = turn_clock::synced(c, Some(player), Some(seconds), start);
            let later = turn_clock::synced(running, Some(player), Some(seconds), now);
            let left = start + seconds * 1000 - now;
            &&& running.active_player == Some(player)
            &&& later.active_player == Some(player)
            &&& turn_clock::expired(running, now) <==> left <= 0
            &&& later.remaining_ms matches Some(ms) && ms == if left > 0 {
                left
            } else {
                0
            }
            &&& turn_clock::clock_message(later) matches Some(
                ServerMessage::TurnClockSync { active_player, remaining_ms, running: on },
            ) && active_player == player && Some(remaining_ms) == later.remaining_ms && on == (left
                > 0)
        }),
{
}

/// A limit of more milliseconds than the clock can count runs for as many as it can.
pub proof fn longest_limit(c: TurnClockState, player: PlayerId, seconds: u32, start: u64)
    requires
        c.active_player != Some(player),
        seconds * 1000 > u32::MAX,
        start + u32::MAX <= u64::MAX,
    ensures
        ({
            let running = turn_clock::synced(c, Some(player), Some(seconds), start);
            running.remaining_ms == Some(u32::MAX) && running.deadline_ms == Some(
                (start + u32::MAX) as u64,
            )
        }),
{
}

/// Without a seat to wait for or without a limit the clock stops.
pub proof fn clocks_stop_without_seat_or_limit(
    c: TurnClockState,
    target: Option<PlayerId>,
    limit: Option<u32>,
    now: u64,
)
    ensures
        ({
            let a = turn_clock::synced(c, None, limit, now);
            let b = turn_clock::synced(c, target, None, now);
            let d = turn_clock::synced(c, target, Some(0u32), now);
            &&& a.active_player is None && a.deadline_ms is None && a.remaining_ms is None
            &&& b == a
            &&& d == a
        }),
{
}

/// A seat that comes on the clock gets the whole time limit, and its time is not up yet.
pub proof fn new_seat_gets_the_whole_limit(
    c: TurnClockState,
    player: PlayerId,
    timer_seconds: Option<u32>,
    now: u64,
)
    requires
        c.active_player != Some(player),
        turn_clock::budget_ms(timer_seconds) > 0,
        now < u64::MAX,
    ensures
        ({
            let after = turn_clock::synced(c, Some(player), timer_seconds, now);
            &&& after.active_player == Some(player)
            &&& after.remaining_ms == Some(turn_clock::budget_ms(timer_seconds) as u32)
            &&& !turn_clock::expired(after, now)
        }),
{
}

/// Synchronising for the same seat keeps the deadline, so no time is gained.
pub proof fn same_seat_keeps_the_deadline(
    c: TurnClockState,
    player: PlayerId,
    timer_seconds: Option<u32>,
    now: u64,
)
    requires
        c.active_player == Some(player),
        turn_clock::budget_ms(timer_seconds) > 0,
    ensures
        ({
            let after = turn_clock::synced(c, Some(player), timer_seconds, now);
            after.active_player == c.active_player && after.deadline_ms == c.deadline_ms
        }),
{
}

/// The time left never grows for a seat that stays on the clock.
pub proof fn time_left_never_grows(
    c: TurnClockState,
    player: PlayerId,
    timer_seconds: Option<u32>,
    earlier: u64,
    later: u64,
)
    requires
        c.active_player == Some(player),
        c.deadline_ms is Some,
        turn_clock::budget_ms(timer_seconds) > 0,
        earlier <= later,
    ensures
        ({
            let a = turn_clock::synced(c, Some(player), timer_seconds, earlier);
            let b = turn_clock::synced(c, Some(player), timer_seconds, later);
            b.remaining_ms->Some_0 <= a.remaining_ms->Some_0
        }),
{
}

/// After a synchronisation, the time is up exactly when none is left, and then the clients are told
/// that the clock no longer runs.
pub proof fn expiry_is_no_time_left(
    c: TurnClockState,
    player: PlayerId,
    timer_seconds: Option<u32>,
    now: u64,
)
    requires
        c.active_player == Some(player),
        c.deadline_ms is Some,
        turn_clock::budget_ms(timer_seconds) > 0,
    ensures
        ({
            let after = turn_clock::synced(c, Some(player), timer_seconds, now);
            &&& turn_clock::expired(after, now) == (after.remaining_ms == Some(0u32))
            &&& turn_clock::clock_message(after) matches Some(ServerMessage::TurnClockSync {
                running,
                ..
            }) && running == !turn_clock::expired(after, now)
        }),
{
}

/// A clock whose time is up stays so as long as it is not synchronised for another seat.
pub proof fn expiry_lasts(c: TurnClockState, now: u64, later: u64)
    requires
        turn_clock::expired(c, now),
        now <= later,
    ensures
        turn_clock::expired(c, later),
{
}

/// A clock that does not run is never up, and nothing is told of it.
pub proof fn stopped_clocks_are_silent(now: u64)
    ensures
        !turn_clock::expired(turn_clock::stopped(), now),
        turn_clock::clock_message(turn_clock::stopped()) is None,
{
}

/// What a clock is synchronised with.
pub struct ClockSync {
    pub target: Option<PlayerId>,
    pub timer_seconds: Option<u32>,
    pub now: u64,
}

/// A new clock after it was synchronised several times.
pub open spec fn after_syncs(syncs: Seq<ClockSync>) -> TurnClockState
    decreases syncs.len(),
{
    if syncs.len() == 0 {
        turn_clock::stopped()
    } else {
        let last = syncs.last();
        turn_clock::synced(
            after_syncs(syncs.drop_last()),
            last.target,
            last.timer_seconds,
            last.now,
        )
    }
}

/// A clock that was only ever synchronised has a seat, a deadline and a time left, or none of them.
pub proof fn synced_clocks_are_whole(syncs: Seq<ClockSync>)
    ensures
        ({
            let c = after_syncs(syncs);
            &&& c.active_player is Some <==> c.deadline_ms is Some
            &&& c.active_player is Some <==> c.remaining_ms is Some
        }),
    decreases syncs.len(),
{
    if syncs.len() > 0 {
        synced_clocks_are_whole(syncs.drop_last());
    }
}

/// The last synchronisation puts a seat on the clock that was not on it, at a point in time after
/// which no deadline can be counted.
pub open spec fn starts_at_the_end_of_time(syncs: Seq<ClockSync>) -> bool {
    let last = syncs.last();
    &&& last.now == u64::MAX
    &&& last.target is Some
    &&& turn_clock::budget_ms(last.timer_seconds) > 0
    &&& after_syncs(syncs.drop_last()).active_player != last.target
}

/// For every clock that was only ever synchronised: at the time of the last synchronisation the time
/// is up exactly when none is left, and what the clients are told says whether it is. A seat that
/// comes on the clock at the last point in time that can be counted is left out: its deadline is at
/// once.
pub proof fn synced_clocks_expire_without_time_left(syncs: Seq<ClockSync>)
    requires
        syncs.len() > 0,
        !starts_at_the_end_of_time(syncs),
    ensures
        ({
            let c = after_syncs(syncs);
            let now = syncs.last().now;
            &&& turn_clock::expired(c, now) == (c.remaining_ms == Some(0u32))
            &&& turn_clock::clock_message(c) matches Some(ServerMessage::TurnClockSync {
                running,
                ..
            }) ==> running == !turn_clock::expired(c, now)
        }),
{
    synced_clocks_are_whole(syncs.drop_last());
}

/// After a session's clock was synchronised, it runs for the seat that should be on it, or for nobody;
/// nothing else of the session changed.
pub proof fn refreshed_clocks_run_for_the_right_seat(s: GameSession, now: u64, player: PlayerId)
    ensures
        ({
            let t = turn_clock::refreshed(s, now);
            &&& t == (GameSession { turn_clock: t.turn_clock, ..s })
            &&& t.turn_clock.active_player == Some(player) <==> {
                &&& s.timer_seconds matches Some(seconds) && seconds > 0
                &&& s.game_started
                &&& s.pending_takeback is None
                &&& waits_only_for(s.state@.waiting_for, player)
                &&& !has_ai_seat(s, player)
            }
        }),
{
    sole_human_deciders_are_clocked(s, player);
}

} // verus!
