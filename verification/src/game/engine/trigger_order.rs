//! The order in which abilities that triggered together go on the stack (CR 603.3b).
use vstd::prelude::*;

use crate::game::engine::priority;
use crate::game::engine::reply;
use crate::game::engine::reply::{EngineError, ErrorModel, Reply};
use crate::types::events::GameEvent;
use crate::types::game_state;
use crate::types::game_state::{GameModel, GameState, StackEntry, StackModel};
use crate::types::prompts::{PromptModel, WaitingFor};

verus! {

/// Every position below `count` occurs once.
pub open spec fn is_order(order: Seq<usize>, count: usize) -> bool {
    &&& order.len() == count
    &&& forall|i: int| 0 <= i < order.len() ==> #[trigger] order[i] < count
    &&& forall|i: int, j: int| 0 <= i < j < order.len() ==> order[i] != order[j]
}

/// The stack with its top `count` entries in a new order: what is named first comes to lie lowest.
pub open spec fn rearranged(stack: Seq<StackModel>, order: Seq<usize>, count: usize) -> Seq<
    StackModel,
> {
    let below = stack.len() - count;
    stack.take(below) + Seq::new(count as nat, |i: int| stack[below + order[i]])
}

/// The answer to the question for an order. The active player has priority afterwards.
#[verifier::opaque]
pub open spec fn order_reply(s: GameModel, order: Seq<usize>) -> Reply {
    match s.waiting_for {
        PromptModel::OrderTriggers { count, .. } => if count <= s.stack.len() && is_order(
            order,
            count,
        ) {
            Reply {
                state: priority::priority_reset(
                    GameModel { stack: rearranged(s.stack, order, count), ..s },
                ),
                result: Ok(Seq::empty()),
            }
        } else {
            reply::refused(s, ErrorModel::IllegalChoice)
        },
        _ => reply::refused(s, ErrorModel::WrongPrompt),
    }
}

/// The player leaves the abilities in the order in which they lie. The active player has priority
/// afterwards.
#[verifier::opaque]
pub open spec fn keep_reply(s: GameModel) -> Reply {
    if s.waiting_for is OrderTriggers {
        Reply { state: priority::priority_reset(s), result: Ok(Seq::empty()) }
    } else {
        reply::refused(s, ErrorModel::WrongPrompt)
    }
}

/// The positions below `count` in order.
pub open spec fn identity(count: usize) -> Seq<usize> {
    Seq::new(count as nat, |i: int| i as usize)
}

/// Naming the abilities in the order in which they lie is the same as leaving them.
pub proof fn identity_keeps_the_order(s: GameModel)
    requires
        s.waiting_for matches PromptModel::OrderTriggers { count, .. } && count <= s.stack.len(),
    ensures
        order_reply(s, identity(s.waiting_for->OrderTriggers_count)) == keep_reply(s),
{
    reveal(order_reply);
    reveal(keep_reply);
    let count = s.waiting_for->OrderTriggers_count;
    assert(rearranged(s.stack, identity(count), count) =~= s.stack);
}

fn check_order(order: &Vec<usize>, count: usize) -> (r: bool)
    ensures
        r == is_order(order@, count),
{
    if order.len() != count {
        return false;
    }
    let mut i: usize = 0;
    while i < order.len()
        invariant
            i <= order.len(),
            order.len() == count,
            forall|k: int| 0 <= k < i ==> #[trigger] order@[k] < count,
            forall|k: int, l: int| 0 <= k < l < i ==> order@[k] != order@[l],
        decreases order.len() - i,
    {
        if order[i] >= count {
            return false;
        }
        let mut j: usize = 0;
        while j < i
            invariant
                j <= i,
                i < order.len(),
                forall|k: int| 0 <= k < j ==> order@[k] != order@[i as int],
            decreases i - j,
        {
            if order[j] == order[i] {
                return false;
            }
            j = j + 1;
        }
        i = i + 1;
    }
    true
}

/// The entries of a list in the order that names their positions.
fn pick_all(entries: Vec<StackEntry>, order: &Vec<usize>) -> (r: Vec<StackEntry>)
    requires
        entries@.len() <= usize::MAX,
        is_order(order@, entries@.len() as usize),
    ensures
        r@ == Seq::new(entries@.len(), |i: int| entries@[order@[i] as int]),
{
    let ghost all = entries@;
    let mut left = entries;
    let mut slots: Vec<Option<StackEntry>> = Vec::new();
    while left.len() > 0
        invariant
            left@ == all.skip(slots@.len() as int),
            slots@.len() + left@.len() == all.len(),
            forall|k: int| 0 <= k < slots@.len() ==> #[trigger] slots@[k] == Some(all[k]),
        decreases left.len(),
    {
        let ghost n = slots@.len() as int;
        let entry = left.remove(0);
        assert(entry == all[n]);
        slots.push(Some(entry));
        assert(left@ =~= all.skip(n + 1));
    }
    let mut r: Vec<StackEntry> = Vec::new();
    let mut i: usize = 0;
    while i < order.len()
        invariant
            i <= order.len(),
            order@.len() == all.len(),
            is_order(order@, all.len() as usize),
            slots@.len() == all.len(),
            all.len() <= usize::MAX,
            forall|k: int| i <= k < order@.len() ==> slots@[#[trigger] order@[k] as int] == Some(
                all[order@[k] as int],
            ),
            r@ == Seq::new(i as nat, |k: int| all[order@[k] as int]),
        decreases order.len() - i,
    {
        let at: usize = order[i];
        assert(slots@[order@[i as int] as int] == Some(all[at as int]));
        if let Some(entry) = slots[at].take() {
            r.push(entry);
        }
        i = i + 1;
        assert(r@ =~= Seq::new(i as nat, |k: int| all[order@[k] as int]));
    }
    r
}

/// Puts the top entries of the stack in the order that the player names.
pub fn order_triggers(state: &mut GameState, order: Vec<usize>) -> (r: Result<
    Vec<GameEvent>,
    EngineError,
>)
    ensures
        reply::agrees(r, final(state)@, order_reply(old(state)@, order@)),
{
    proof {
        reveal(order_reply);
    }
    let count: usize = match &state.waiting_for {
        WaitingFor::OrderTriggers { count, .. } => *count,
        _ => {
            return Err(EngineError::WrongPrompt);
        },
    };
    if count > state.stack.len() || !check_order(&order, count) {
        return Err(EngineError::IllegalChoice);
    }
    let below: usize = state.stack.len() - count;
    let ghost before = state.stack@;
    let top = state.stack.split_off(below);
    let mut picked = pick_all(top, &order);
    state.stack.append(&mut picked);
    assert(game_state::stack_models(state.stack@) =~= rearranged(
        game_state::stack_models(before),
        order@,
        count,
    ));
    priority::reset_priority(state);
    Ok(Vec::new())
}

/// Leaves the abilities in the order in which they lie.
pub fn keep_order(state: &mut GameState) -> (r: Result<Vec<GameEvent>, EngineError>)
    ensures
        reply::agrees(r, final(state)@, keep_reply(old(state)@)),
{
    proof {
        reveal(keep_reply);
    }
    match &state.waiting_for {
        WaitingFor::OrderTriggers { .. } => {
            priority::reset_priority(state);
            Ok(Vec::new())
        },
        _ => Err(EngineError::WrongPrompt),
    }
}

} // verus!
