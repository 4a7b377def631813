//! The game state aggregate and the pure reducer that applies every
//! player action to it.

use vstd::prelude::*;

use crate::card::{Card, Deck, Hand};
use crate::emission::{Co2Emission, CATASTROPHIC_POLLUTION_THRESHOLD};
use crate::finance::{Finance, Money, BANKRUPTCY_THRESHOLD};
use crate::math::{sat_add, spec_exponential_curve, exponential_curve};

verus! {

/// Rounds the player has to complete to beat the game.
pub const ROUNDS_TO_BEAT_THE_GAME: usize = 32;

/// Expense threshold of the very first round, in hundredths of the
/// currency unit.
pub const EXPENSE_BASE_AMOUNT: i64 = 80;

/// Growth of the expense threshold per round, in percent.
pub const EXPENSE_GROWTH_RATE_PERCENT: u32 = 20;

/// Fallback round number fed to the expense curve when the real round
/// count cannot be represented by the curve's numeric type.
pub const EXPENSE_ROUND_FALLBACK: u32 = 32;

/// Whether the playthrough is still running, lost, or won.
#[derive(Clone, Copy, Debug, PartialEq, Eq, Structural)]
pub enum PlaythroughStatus {
    Ongoing,
    GameOver,
    Beaten,
}

/// The aggregate root: finances, accumulated emission, the card pool,
/// the hand of the current round, the full play history and the outcome
/// flag. Every transition produces a new value; nothing is mutated in
/// place.
#[derive(Debug)]
pub struct GameState {
    pub finance: Finance,
    pub accumulated_co2_emission: Co2Emission,
    pub deck: Deck,
    pub played_cards: Vec<Card>,
    pub hand: Hand,
    pub playthrough_status: PlaythroughStatus,
}

/// A player action, applied to a state by [`game_state_reducer`].
pub enum Action {
    GainMoney(Money),
    SetExactAmount(Money),
    IncreaseCo2Emission(Co2Emission),
    SetExactCo2Emission(Co2Emission),
    PlayCard(Card),
    DrawCards(usize),
}

impl GameState {
    /// The number of completed rounds, or zero when it does not fit the
    /// returned type.
    pub fn get_round(&self) -> (round: i32)
        ensures
            round as int == if self.played_cards@.len() <= i32::MAX {
                self.played_cards@.len() as int
            } else {
                0
            },
    {
        if self.played_cards.len() <= i32::MAX as usize {
            self.played_cards.len() as i32
        } else {
            0
        }
    }
}

impl Default for GameState {
    /// The initial state: starting balance, no emission, no history, an
    /// empty hand and status `Ongoing`. It begins with an empty deck;
    /// the deck loaded from the card source is installed by the caller.
    fn default() -> (r: Self)
        ensures
            r.finance.capital.0 == crate::finance::STARTING_PROFIT_AMOUNT,
            r.finance.expenses.0 == 0,
            r.accumulated_co2_emission.0 == 0,
            r.deck@ == Seq::<Card>::empty(),
            r.hand@ == Seq::<Card>::empty(),
            r.played_cards@ == Seq::<Card>::empty(),
            r.playthrough_status == PlaythroughStatus::Ongoing,
    {
        GameState {
            finance: Finance::default(),
            accumulated_co2_emission: Co2Emission::default(),
            deck: Deck::default(),
            played_cards: Vec::new(),
            hand: Hand::default(),
            playthrough_status: PlaythroughStatus::Ongoing,
        }
    }
}

/// The emission amount after an emission-increase action: adding a delta
/// that would make the total negative is refused outright, so the whole
/// action is a no-op; any other delta is added, saturating at the `i64`
/// range.
pub open spec fn emission_after_increase(emission: int, delta: int) -> int {
    if emission + delta < 0 {
        emission
    } else {
        sat_add(emission, delta)
    }
}

/// The emission amount after playing a card: the delta is added and a
/// negative result is clamped to the zero floor.
pub open spec fn emission_after_play(emission: int, delta: int) -> int {
    if sat_add(emission, delta) < 0 {
        0
    } else {
        sat_add(emission, delta)
    }
}

/// The round number handed to the expense curve: the real count of
/// completed rounds, or the fixed fallback when that count cannot be
/// represented by the curve's numeric type.
pub open spec fn spec_curve_round(rounds_played: nat) -> nat {
    if rounds_played <= u32::MAX {
        rounds_played
    } else {
        EXPENSE_ROUND_FALLBACK as nat
    }
}

/// The expense threshold owed after `rounds_played` completed rounds, in
/// hundredths of the currency unit.
pub open spec fn spec_expenses_for_round(rounds_played: nat) -> int {
    spec_exponential_curve(
        EXPENSE_BASE_AMOUNT as int,
        EXPENSE_GROWTH_RATE_PERCENT as int,
        spec_curve_round(rounds_played),
    )
}

/// The outcome after a card was played, evaluated in fixed priority
/// order: bankruptcy, then the expense shortfall, then catastrophic
/// pollution — each a loss — then the completed-rounds victory; if none
/// applies the previous outcome stands.
pub open spec fn spec_status_after_play(
    previous: PlaythroughStatus,
    capital: int,
    expenses: int,
    emission: int,
    rounds_played: nat,
) -> PlaythroughStatus {
    if capital < BANKRUPTCY_THRESHOLD || capital < expenses
        || emission > CATASTROPHIC_POLLUTION_THRESHOLD {
        PlaythroughStatus::GameOver
    } else if rounds_played > ROUNDS_TO_BEAT_THE_GAME {
        PlaythroughStatus::Beaten
    } else {
        previous
    }
}

/// True when `next` holds the same deck, hand and play history as
/// `previous`.
pub open spec fn same_card_piles(next: GameState, previous: GameState) -> bool {
    &&& next.deck@ == previous.deck@
    &&& next.hand@ == previous.hand@
    &&& next.played_cards@ == previous.played_cards@
}

/// The pure state-transition function: applies `action` to `state` and
/// returns the next state. Every game rule lives here; no outcome is
/// expressed through an error or an exception.
pub fn game_state_reducer(state: GameState, action: Action) -> (next: GameState)
    ensures
        // The play history is append-only: no action shortens it or
        // rewrites an entry that is already there.
        next.played_cards@.len() >= state.played_cards@.len(),
        forall|i: int|
            0 <= i < state.played_cards@.len() ==> next.played_cards@[i]
                == state.played_cards@[i],
        match action {
            Action::GainMoney(incoming_amount) => {
                &&& next.finance.capital.0 as int == sat_add(
                    state.finance.capital.0 as int,
                    incoming_amount.0 as int,
                )
                &&& next.finance.expenses == state.finance.expenses
                &&& next.accumulated_co2_emission == state.accumulated_co2_emission
                &&& same_card_piles(next, state)
                &&& next.playthrough_status == state.playthrough_status
            },
            Action::SetExactAmount(amount) => {
                &&& next.finance.capital == amount
                &&& next.finance.expenses == state.finance.expenses
                &&& next.accumulated_co2_emission == state.accumulated_co2_emission
                &&& same_card_piles(next, state)
                &&& next.playthrough_status == state.playthrough_status
            },
            Action::IncreaseCo2Emission(co2_emission) => {
                &&& next.accumulated_co2_emission.0 as int == emission_after_increase(
                    state.accumulated_co2_emission.0 as int,
                    co2_emission.0 as int,
                )
                &&& next.finance == state.finance
                &&& same_card_piles(next, state)
                &&& next.playthrough_status == state.playthrough_status
            },
            Action::SetExactCo2Emission(co2_emission) => {
                &&& next.accumulated_co2_emission == co2_emission
                &&& next.finance == state.finance
                &&& same_card_piles(next, state)
                &&& next.playthrough_status == state.playthrough_status
            },
            Action::DrawCards(hand_size) => {
                &&& next.hand@.len() == if hand_size <= state.deck@.len() {
                    hand_size as int
                } else {
                    state.deck@.len() as int
                }
                &&& next.hand@.to_multiset().subset_of(state.deck@.to_multiset())
                &&& forall|i: int|
                    0 <= i < next.hand@.len() ==> state.deck@.contains(#[trigger] next.hand@[i])
                &&& next.deck@ == state.deck@
                &&& next.played_cards@ == state.played_cards@
                &&& next.finance == state.finance
                &&& next.accumulated_co2_emission == state.accumulated_co2_emission
                &&& next.playthrough_status == state.playthrough_status
            },
            Action::PlayCard(card) => {
                &&& next.finance.capital.0 as int == sat_add(
                    state.finance.capital.0 as int,
                    card.delta_profit.0 as int,
                )
                &&& next.accumulated_co2_emission.0 as int == emission_after_play(
                    state.accumulated_co2_emission.0 as int,
                    card.delta_co2.0 as int,
                )
                &&& next.played_cards@ == state.played_cards@.push(card)
                &&& next.played_cards@.len() == state.played_cards@.len() + 1
                &&& next.finance.expenses.0 as int == spec_expenses_for_round(
                    next.played_cards@.len(),
                )
                &&& next.playthrough_status == spec_status_after_play(
                    state.playthrough_status,
                    next.finance.capital.0 as int,
                    next.finance.expenses.0 as int,
                    next.accumulated_co2_emission.0 as int,
                    next.played_cards@.len(),
                )
                &&& next.deck@ == state.deck@
                &&& next.hand@ == state.hand@
            },
        },
{
    match action {
        Action::GainMoney(incoming_amount) => {
            let GameState {
                finance,
                accumulated_co2_emission,
                deck,
                played_cards,
                hand,
                playthrough_status,
            } = state;
            GameState {
                finance: Finance {
                    capital: finance.capital.add(incoming_amount),
                    expenses: finance.expenses,
                },
                accumulated_co2_emission,
                deck,
                played_cards,
                hand,
                playthrough_status,
            }
        },
        Action::SetExactAmount(amount) => {
            let GameState {
                finance,
                accumulated_co2_emission,
                deck,
                played_cards,
                hand,
                playthrough_status,
            } = state;
            GameState {
                finance: Finance { capital: amount, expenses: finance.expenses },
                accumulated_co2_emission,
                deck,
                played_cards,
                hand,
                playthrough_status,
            }
        },
        Action::IncreaseCo2Emission(co2_emission) => {
            let accumulated = state.accumulated_co2_emission.add(co2_emission);
            if accumulated.0 < 0 {
                return state;
            }
            let GameState {
                finance,
                accumulated_co2_emission: _,
                deck,
                played_cards,
                hand,
                playthrough_status,
            } = state;
            GameState {
                finance,
                accumulated_co2_emission: accumulated,
                deck,
                played_cards,
                hand,
                playthrough_status,
            }
        },
        Action::SetExactCo2Emission(co2_emission) => {
            let GameState {
                finance,
                accumulated_co2_emission: _,
                deck,
                played_cards,
                hand,
                playthrough_status,
            } = state;
            GameState {
                finance,
                accumulated_co2_emission: co2_emission,
                deck,
                played_cards,
                hand,
                playthrough_status,
            }
        },
        Action::DrawCards(hand_size) => {
            let GameState {
                finance,
                accumulated_co2_emission,
                deck,
                played_cards,
                hand: _,
                playthrough_status,
            } = state;
            let hand = Hand::new(deck.draw_cards(hand_size));
            GameState {
                finance,
                accumulated_co2_emission,
                deck,
                played_cards,
                hand,
                playthrough_status,
            }
        },
        Action::PlayCard(card) => {
            let GameState {
                finance,
                accumulated_co2_emission,
                deck,
                mut played_cards,
                hand,
                playthrough_status,
            } = state;
            let accrued_profit = finance.capital.add(card.delta_profit);
            let raw_emission = accumulated_co2_emission.add(card.delta_co2);
            let new_emission = if raw_emission.0 < 0 {
                Co2Emission(0)
            } else {
                raw_emission
            };
            played_cards.push(card);
            let rounds_played = played_cards.len();
            let curve_round: u32 = if rounds_played <= u32::MAX as usize {
                rounds_played as u32
            } else {
                EXPENSE_ROUND_FALLBACK
            };
            let new_expenses = Money(
                exponential_curve(EXPENSE_BASE_AMOUNT, EXPENSE_GROWTH_RATE_PERCENT, curve_round),
            );
            let is_bankrupt = accrued_profit.0 < BANKRUPTCY_THRESHOLD;
            let has_failed_to_meet_profit_target = accrued_profit.0 < new_expenses.0;
            let is_pollution_catastrophic = new_emission.0 > CATASTROPHIC_POLLUTION_THRESHOLD;
            let has_player_completed_all_required_levels = rounds_played > ROUNDS_TO_BEAT_THE_GAME;
            let new_status = if is_bankrupt || has_failed_to_meet_profit_target
                || is_pollution_catastrophic {
                PlaythroughStatus::GameOver
            } else if has_player_completed_all_required_levels {
                PlaythroughStatus::Beaten
            } else {
                playthrough_status
            };
            GameState {
                finance: Finance { capital: accrued_profit, expenses: new_expenses },
                accumulated_co2_emission: new_emission,
                deck,
                played_cards,
                hand,
                playthrough_status: new_status,
            }
        },
    }
}

/// The survival bar rises every round: as long as the round count stays
/// representable for the curve and the bar has not saturated, the expense
/// threshold owed after the next round is strictly higher than the one
/// owed now.
pub proof fn lemma_expense_bar_strictly_increases(rounds_played: nat)
    requires
        rounds_played + 1 <= u32::MAX,
        spec_expenses_for_round((rounds_played + 1) as nat) < i64::MAX,
    ensures
        spec_expenses_for_round(rounds_played) < spec_expenses_for_round(
            (rounds_played + 1) as nat,
        ),
{
    let base = EXPENSE_BASE_AMOUNT as int;
    let rate = EXPENSE_GROWTH_RATE_PERCENT as int;
    crate::math::lemma_curve_in_i64_range(base, rate, rounds_played);
    crate::math::lemma_curve_is_nondecreasing(base, rate, 0, rounds_played);
    let v = spec_exponential_curve(base, rate, rounds_played);
    assert(1600 <= v * rate) by (nonlinear_arith)
        requires
            80 <= v,
            rate == 20,
    ;
    vstd::arithmetic::div_mod::lemma_div_is_ordered(1600, v * rate, 100);
}

/// A nonnegative emission delta is added exactly: as long as the running
/// emission is itself nonnegative and the sum stays representable, the
/// emission-increase action raises the emission by precisely `delta`.
pub proof fn lemma_emission_increase_adds(emission: int, delta: int)
    requires
        0 <= emission,
        0 <= delta,
        emission + delta <= i64::MAX,
    ensures
        emission_after_increase(emission, delta) == emission + delta,
{
}

/// A delta that would drive the emission total negative is refused as a
/// whole: the emission-increase action leaves the emission unchanged.
pub proof fn lemma_emission_increase_below_zero_is_noop(emission: int, delta: int)
    requires
        emission + delta < 0,
    ensures
        emission_after_increase(emission, delta) == emission,
{
}

/// Playing first `c1` and then `c2` keeps the history in play order: the
/// earlier history stays as an unchanged prefix, `c1` comes right after
/// it and `c2` last; on an empty history the result is exactly
/// `[c1, c2]`.
pub proof fn lemma_play_order(history: Seq<Card>, c1: Card, c2: Card)
    ensures
        history.push(c1).push(c2).len() == history.len() + 2,
        history.push(c1).push(c2)[history.len() as int] == c1,
        history.push(c1).push(c2)[history.len() as int + 1] == c2,
        history.push(c1).push(c2).subrange(0, history.len() as int) == history,
        history.len() == 0 ==> history.push(c1).push(c2) == seq![c1, c2],
{
    assert(history.push(c1).push(c2).subrange(0, history.len() as int) =~= history);
    if history.len() == 0 {
        assert(history.push(c1).push(c2) =~= seq![c1, c2]);
    }
}

} // verus!
