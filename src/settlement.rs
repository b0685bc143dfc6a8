//! The periodic settlement of platform earnings, and the loop that runs it.
use vstd::prelude::*;
use crate::constants::SYSTEM_RESOURCE_ID;
use crate::game::{fits_i64, AppRepositories};
use crate::model::{CreateMoneyTransactionModel, MoneyTransactionModel};
use crate::repo::platform_repo::yield_sum;
use crate::repo::transactions_repo::{balance_of, entry_for};

verus! {

/// What one settlement tick publishes: the balance after the tick, and what
/// the tick credited.
#[derive(Debug, Clone, Copy, PartialEq, Eq, Structural)]
pub struct BalanceData {
    pub balance: i64,
    pub just_earned: i64,
}

/// What a tick earns in the state `g`: the sum of the platform yields, or 0
/// when that sum cannot be read as an `i64`.
pub open spec fn tick_earnings(g: AppRepositories) -> int {
    if fits_i64(yield_sum(g.platform_repo@)) {
        yield_sum(g.platform_repo@)
    } else {
        0
    }
}

/// The credit of earnings `amount` appended at position `pos`.
pub open spec fn earnings_credit(amount: i64, pos: nat, now: i64) -> MoneyTransactionModel {
    entry_for(
        CreateMoneyTransactionModel {
            item_id: Some(SYSTEM_RESOURCE_ID),
            amount,
            reduces_balance: false,
        },
        pos,
        now,
    )
}

/// The ledger after a tick at `now` from the state `g`: the earnings are
/// credited, unless they are negative, which the ledger refuses.
pub open spec fn ledger_after_tick(g: AppRepositories, now: i64) -> Seq<MoneyTransactionModel> {
    let l = g.finances_repo@;
    if tick_earnings(g) >= 0 {
        l.push(earnings_credit(tick_earnings(g) as i64, l.len(), now))
    } else {
        l
    }
}

/// The outcome of a tick at `now` from the state `pre`: the state `post` and
/// the published data `r`. Only the ledger changes; the balance published
/// is the new ledger's, or 0 when it does not fit in an `i64`.
pub open spec fn tick_post(pre: AppRepositories, post: AppRepositories, now: i64, r: BalanceData) -> bool {
    let l = ledger_after_tick(pre, now);
    &&& post.platform_repo@ == pre.platform_repo@
    &&& post.beer_repo@ == pre.beer_repo@
    &&& post.finances_repo@ == l
    &&& r.just_earned == tick_earnings(pre)
    &&& r.balance == if fits_i64(balance_of(l)) {
        balance_of(l)
    } else {
        0
    }
}

/// One settlement tick: credit what the platforms earned in this period and
/// report the new balance. No step fails the tick: what cannot be read
/// counts as 0, and a refused credit is skipped.
pub fn settlement_tick(game: &mut AppRepositories, now: i64) -> (r: BalanceData)
    requires
        old(game).wf(),
    ensures
        final(game).wf(),
        tick_post(*old(game), *final(game), now, r),
{
    let recent_earnings = match game.platform_repo.get_period_platform_earnings() {
        Ok(v) => v,
        Err(_) => 0,
    };
    let earnings_tx = CreateMoneyTransactionModel {
        item_id: Some(SYSTEM_RESOURCE_ID),
        amount: recent_earnings,
        reduces_balance: false,
    };
    let _ = game.finances_repo.create(earnings_tx, now);
    let current_balance = match game.finances_repo.get_available_balance() {
        Ok(v) => v,
        Err(_) => 0,
    };
    BalanceData { balance: current_balance, just_earned: recent_earnings }
}

/// The settlement loop's state: it ticks until its subscriber leaves.
#[derive(Debug, Clone, Copy, PartialEq, Eq, Structural)]
pub enum LoopState {
    Ticking,
    Stopped,
}

/// What the loop is told: its timer fired, or the channel to its subscriber
/// closed.
#[derive(Debug, Clone, Copy, PartialEq, Eq, Structural)]
pub enum LoopEvent {
    TimerFired,
    ChannelClosed,
}

/// What the loop asks of its runner: publish a tick's data, or end.
#[derive(Debug, Clone, Copy, PartialEq, Eq, Structural)]
pub enum LoopAction {
    Publish(BalanceData),
    Exit,
}

/// One step of the settlement loop. A timer firing while ticking settles a
/// tick and asks to publish it; a closed channel stops the loop; a stopped
/// loop stays stopped and touches nothing.
pub fn on_event(state: LoopState, game: &mut AppRepositories, event: LoopEvent, now: i64) -> (r: (
    LoopState,
    LoopAction,
))
    requires
        old(game).wf(),
    ensures
        final(game).wf(),
        (state is Ticking && event is TimerFired) ==> r.0 is Ticking && (r.1 matches LoopAction::Publish(d)
            && tick_post(*old(game), *final(game), now, d)),
        !(state is Ticking && event is TimerFired) ==> r == (LoopState::Stopped, LoopAction::Exit)
            && final(game).same_state(*old(game)),
{
    match (state, event) {
        (LoopState::Ticking, LoopEvent::TimerFired) => {
            let data = settlement_tick(game, now);
            (LoopState::Ticking, LoopAction::Publish(data))
        },
        _ => (LoopState::Stopped, LoopAction::Exit),
    }
}

} // verus!
