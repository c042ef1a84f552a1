use vstd::prelude::*;

verus! {

/// The phases of a card-game table that the bot tells apart.
#[derive(Debug, Clone, Copy, PartialEq, Eq, Structural)]
pub enum TablePhase {
    ShowDraft,
    ShowResult,
    Shuffle,
    Spell,
    TurnToSubmit,
    Buy,
    TrashOther,
    WaitForReply,
    /// Any phase the bot does not act on.
    Other,
}

/// The cards of `pool` that are not in `hand`, in the order of `pool`.
pub open spec fn cards_not_in(pool: Seq<usize>, hand: Seq<usize>) -> Seq<usize>
    decreases pool.len(),
{
    if pool.len() == 0 {
        seq![]
    } else {
        let rest = cards_not_in(pool.drop_last(), hand);
        if hand.contains(pool.last()) {
            rest
        } else {
            rest.push(pool.last())
        }
    }
}

/// Keeping the cards of `pool` not in `hand` is filtering `pool` by "not in
/// `hand`": order kept, nothing else dropped or added.
pub proof fn lemma_cards_not_in_filters(pool: Seq<usize>, hand: Seq<usize>)
    ensures
        cards_not_in(pool, hand) == pool.filter(|u: usize| !hand.contains(u)),
    decreases pool.len(),
{
    reveal_with_fuel(Seq::filter, 1);
    if pool.len() > 0 {
        lemma_cards_not_in_filters(pool.drop_last(), hand);
    }
}

/// A card is kept exactly when it is in `pool` and not in `hand`, and the
/// kept cards are never more than `pool`.
pub proof fn lemma_cards_not_in_members(pool: Seq<usize>, hand: Seq<usize>)
    ensures
        forall|x: usize|
            #[trigger] cards_not_in(pool, hand).contains(x) <==> (pool.contains(x) && !hand.contains(
                x,
            )),
        forall|i: int|
            0 <= i < pool.len() && !hand.contains(pool[i]) ==> cards_not_in(pool, hand).contains(
                #[trigger] pool[i],
            ),
        cards_not_in(pool, hand).len() <= pool.len(),
    decreases pool.len(),
{
    if pool.len() > 0 {
        let init = pool.drop_last();
        lemma_cards_not_in_members(init, hand);
        let rest = cards_not_in(init, hand);
        let last = pool.last();
        assert forall|x: usize|
            #[trigger] cards_not_in(pool, hand).contains(x) <==> (pool.contains(x) && !hand.contains(
                x,
            )) by {
            if cards_not_in(pool, hand).contains(x) {
                if rest.contains(x) {
                    assert(init.contains(x) && !hand.contains(x));
                    let j = choose|j: int| 0 <= j < init.len() && init[j] == x;
                    assert(pool[j] == x);
                    assert(pool.contains(x));
                } else {
                    assert(!hand.contains(last));
                    let out = rest.push(last);
                    assert(cards_not_in(pool, hand) == out);
                    let j = choose|j: int| 0 <= j < out.len() && out[j] == x;
                    if j < rest.len() {
                        assert(rest[j] == x);
                    }
                    assert(x == last);
                    assert(pool[pool.len() - 1] == x);
                    assert(pool.contains(x));
                }
            }
            if pool.contains(x) && !hand.contains(x) {
                let j = choose|j: int| 0 <= j < pool.len() && pool[j] == x;
                if j < pool.len() - 1 {
                    assert(init[j] == x);
                    assert(init.contains(x));
                    assert(rest.contains(x));
                    let k = choose|k: int| 0 <= k < rest.len() && rest[k] == x;
                    assert(rest.push(last)[k] == x);
                    assert(rest.push(last).contains(x));
                } else {
                    assert(!hand.contains(last));
                    assert(cards_not_in(pool, hand) == rest.push(last));
                    assert(rest.push(last)[rest.len() as int] == x);
                }
            }
        }
        assert forall|i: int|
            0 <= i < pool.len() && !hand.contains(pool[i]) implies cards_not_in(pool, hand).contains(
                #[trigger] pool[i],
            ) by {
            assert(pool.contains(pool[i]));
        }
    }
}

/// Whether `card` occurs in `cards`.
fn holds_card(cards: &Vec<usize>, card: usize) -> (found: bool)
    ensures
        found <==> cards@.contains(card),
{
    let mut i: usize = 0;
    while i < cards.len()
        invariant
            i <= cards.len(),
            forall|j: int| 0 <= j < i ==> cards@[j] != card,
        decreases cards.len() - i,
    {
        if cards[i] == card {
            return true;
        }
        i = i + 1;
    }
    false
}

/// The cards the bot may still draw: while shuffling, the unknown cards
/// that are not in its hand; in any other phase, all unknown cards.
pub fn draft_pool(phase: &TablePhase, unknown: &Vec<usize>, hand: &Vec<usize>) -> (pool: Vec<usize>)
    ensures
        pool@ == if *phase == TablePhase::Shuffle {
            cards_not_in(unknown@, hand@)
        } else {
            unknown@
        },
        *phase == TablePhase::Shuffle ==> pool@ == unknown@.filter(|u: usize| !hand@.contains(u)),
        *phase == TablePhase::Shuffle ==> forall|x: usize|
            #[trigger] pool@.contains(x) <==> (unknown@.contains(x) && !hand@.contains(x)),
        *phase != TablePhase::Shuffle ==> pool@ == unknown@,
{
    proof {
        lemma_cards_not_in_filters(unknown@, hand@);
        lemma_cards_not_in_members(unknown@, hand@);
    }
    if *phase != TablePhase::Shuffle {
        return unknown.clone();
    }
    let mut pool: Vec<usize> = Vec::new();
    let mut i: usize = 0;
    while i < unknown.len()
        invariant
            i <= unknown.len(),
            pool@ == cards_not_in(unknown@.take(i as int), hand@),
        decreases unknown.len() - i,
    {
        let u = unknown[i];
        assert(unknown@.take(i + 1).drop_last() == unknown@.take(i as int));
        if !holds_card(hand, u) {
            pool.push(u);
        }
        i = i + 1;
    }
    assert(unknown@.take(unknown.len() as int) == unknown@);
    pool
}

/// `i` is the first place of `card` in `row`.
pub open spec fn first_place_of(row: Seq<usize>, card: usize, i: int) -> bool {
    &&& 0 <= i < row.len()
    &&& row[i] == card
    &&& forall|j: int| 0 <= j < i ==> row[j] != card
}

/// The place of the first `card` in `row`, or `None` where `row` has none.
pub fn position_of(row: &Vec<usize>, card: usize) -> (place: Option<usize>)
    ensures
        place matches Some(i) ==> first_place_of(row@, card, i as int),
        place matches Some(i) ==> (i < row.len() && row@[i as int] == card && forall|j: int|
            0 <= j < i ==> row@[j] != card),
        place is None <==> !row@.contains(card),
{
    let mut i: usize = 0;
    while i < row.len()
        invariant
            i <= row.len(),
            forall|j: int| 0 <= j < i ==> row@[j] != card,
        decreases row.len() - i,
    {
        if row[i] == card {
            return Some(i);
        }
        i = i + 1;
    }
    None
}

/// Card `card` costs at most `budget`.
pub open spec fn affordable(costs: Seq<usize>, card: usize, budget: usize) -> bool {
    costs[card as int] <= budget
}

/// Some card of `row` costs at most `budget`.
pub open spec fn some_affordable(row: Seq<usize>, costs: Seq<usize>, budget: usize) -> bool {
    exists|j: int| 0 <= j < row.len() && affordable(costs, #[trigger] row[j], budget)
}

/// Place `k` of `row` holds the first of the most expensive cards that cost
/// at most `budget`.
pub open spec fn first_best_place(row: Seq<usize>, costs: Seq<usize>, budget: usize, k: int) -> bool {
    &&& 0 <= k < row.len()
    &&& affordable(costs, row[k], budget)
    &&& forall|j: int|
        0 <= j < row.len() && affordable(costs, #[trigger] row[j], budget) ==> costs[row[j] as int]
            <= costs[row[k] as int]
    &&& forall|j: int|
        0 <= j < k && affordable(costs, #[trigger] row[j], budget) ==> costs[row[j] as int]
            < costs[row[k] as int]
}

/// Every card of `row` has a cost in `costs`.
pub open spec fn all_priced(row: Seq<usize>, costs: Seq<usize>) -> bool {
    forall|j: int| 0 <= j < row.len() ==> #[trigger] row[j] < costs.len()
}

/// The most expensive card of `row` that costs at most `budget`, the first
/// of them where several cost the same; `None` where no card is affordable.
pub fn most_expensive_affordable(row: &Vec<usize>, costs: &Vec<usize>, budget: usize) -> (best:
    Option<usize>)
    requires
        all_priced(row@, costs@),
    ensures
        best is None <==> !some_affordable(row@, costs@, budget),
        best matches Some(c) ==> exists|k: int|
            first_best_place(row@, costs@, budget, k) && #[trigger] row@[k] == c,
        // The same, with the costs written out.
        best is None <==> forall|j: int|
            0 <= j < row.len() ==> costs@[#[trigger] row@[j] as int] > budget,
        best matches Some(c) ==> {
            &&& row@.contains(c)
            &&& costs@[c as int] <= budget
            &&& forall|j: int|
                0 <= j < row.len() && costs@[#[trigger] row@[j] as int] <= budget
                    ==> costs@[row@[j] as int] <= costs@[c as int]
            &&& exists|k: int|
                0 <= k < row.len() && #[trigger] row@[k] == c && forall|j: int|
                    0 <= j < k && costs@[#[trigger] row@[j] as int] <= budget
                        ==> costs@[row@[j] as int] < costs@[c as int]
        },
{
    let mut best: Option<usize> = None;
    let ghost mut best_k: int = 0;
    let mut i: usize = 0;
    while i < row.len()
        invariant
            i <= row.len(),
            all_priced(row@, costs@),
            best is None ==> forall|j: int|
                0 <= j < i ==> !affordable(costs@, #[trigger] row@[j], budget),
            best matches Some(c) ==> {
                &&& 0 <= best_k < i
                &&& row@[best_k] == c
                &&& affordable(costs@, c, budget)
                &&& forall|j: int|
                    0 <= j < i && affordable(costs@, #[trigger] row@[j], budget)
                        ==> costs@[row@[j] as int] <= costs@[c as int]
                &&& forall|j: int|
                    0 <= j < best_k && affordable(costs@, #[trigger] row@[j], budget)
                        ==> costs@[row@[j] as int] < costs@[c as int]
            },
        decreases row.len() - i,
    {
        let o = row[i];
        let price = costs[o];
        match best {
            Some(a) => {
                if price > costs[a] && price <= budget {
                    best = Some(o);
                    proof {
                        best_k = i as int;
                    }
                }
            },
            None => {
                if price <= budget {
                    best = Some(o);
                    proof {
                        best_k = i as int;
                    }
                }
            },
        }
        i = i + 1;
    }
    proof {
        if best is Some {
            assert(row@[best_k] == best->0);
        }
    }
    best
}

/// Whether the bot keeps a copy of a message it sends to the table's
/// players: a board update where it goes to the first player, or else a
/// request.
pub fn keeps_in_log(has_board: bool, player_num: Option<usize>, has_request: bool) -> (keep: bool)
    ensures
        keep == if has_board {
            player_num == Some(0usize)
        } else {
            has_request
        },
{
    if has_board {
        match player_num {
            Some(n) => n == 0,
            None => false,
        }
    } else {
        has_request
    }
}

/// How many purchase suggestions and word plays the bot weighs each turn.
pub const NUM_SUGGESTIONS: usize = 9;

/// The suggestion the bot follows: the third one, or the first where the
/// third is empty.
pub fn preferred_suggestion(suggestions: &[Option<usize>; NUM_SUGGESTIONS]) -> (pick: Option<usize>)
    ensures
        pick == if suggestions@[2] is Some {
            suggestions@[2]
        } else {
            suggestions@[0]
        },
{
    match suggestions[2] {
        Some(card) => Some(card),
        None => suggestions[0],
    }
}

/// What the bot does in its turn: the place in the offer row of the card it
/// will offer to buy, and whether it submits its first word play.
#[derive(Debug, Clone, Copy, PartialEq, Eq, Structural)]
pub struct PurchasePlan {
    pub buy_card: Option<usize>,
    pub submit_first_play: bool,
}

/// Plans the bot's purchase. `target` is the card it would like to buy,
/// `budget` the value of its first word play (absent where it has no play),
/// `current` the purchase planned so far. The value of a play counts as a
/// budget of `budget as usize`.
///
/// With no target or no play, nothing changes and nothing is submitted.
/// Otherwise the first play is submitted, and the bot buys the target where
/// it can afford it (at its first place in the row, or nothing where the row
/// lacks it); where it cannot, it buys the first of the most expensive
/// affordable cards of the row, and keeps its plan where none is
/// affordable.
pub fn plan_purchase(
    row: &Vec<usize>,
    costs: &Vec<usize>,
    target: Option<usize>,
    budget: Option<i8>,
    current: Option<usize>,
) -> (plan: PurchasePlan)
    requires
        target matches Some(t) ==> t < costs.len(),
        target matches Some(t) ==> (budget matches Some(b) ==> (costs@[t as int] > #[verifier::truncate] (b as usize)
            ==> all_priced(row@, costs@))),
    ensures
        target is None || budget is None ==> plan == (PurchasePlan {
            buy_card: current,
            submit_first_play: false,
        }),
        target matches Some(t) ==> (budget matches Some(b) ==> {
            let limit = #[verifier::truncate] (b as usize);
            &&& plan.submit_first_play
            &&& costs@[t as int] <= limit ==> {
                &&& plan.buy_card is None <==> !row@.contains(t)
                &&& plan.buy_card matches Some(i) ==> first_place_of(row@, t, i as int)
            }
            &&& costs@[t as int] > limit ==> {
                &&& !some_affordable(row@, costs@, limit) ==> plan.buy_card == current
                &&& some_affordable(row@, costs@, limit) ==> (plan.buy_card matches Some(i)
                    && first_best_place(row@, costs@, limit, i as int))
            }
            // The same, with the costs written out.
            &&& costs@[t as int] <= limit ==> (plan.buy_card matches Some(i) ==> (i < row.len()
                && row@[i as int] == t && forall|j: int| 0 <= j < i ==> row@[j] != t))
            &&& costs@[t as int] <= limit ==> (plan.buy_card is None <==> forall|j: int|
                0 <= j < row.len() ==> row@[j] != t)
            &&& (costs@[t as int] > limit && forall|j: int|
                0 <= j < row.len() ==> costs@[#[trigger] row@[j] as int] > limit) ==> plan.buy_card
                == current
            &&& (costs@[t as int] > limit && exists|j: int|
                0 <= j < row.len() && costs@[#[trigger] row@[j] as int] <= limit) ==> (
            plan.buy_card matches Some(i) && i < row.len() && costs@[row@[i as int] as int] <= limit
                && (forall|j: int|
                0 <= j < row.len() && costs@[#[trigger] row@[j] as int] <= limit
                    ==> costs@[row@[j] as int] <= costs@[row@[i as int] as int]) && (forall|j: int|
                0 <= j < i && costs@[#[trigger] row@[j] as int] <= limit ==> costs@[row@[j] as int]
                    < costs@[row@[i as int] as int]))
            // The bot never plans to buy a card it cannot afford.
            &&& plan.buy_card != current ==> (plan.buy_card matches Some(i) ==> i < row.len()
                && affordable(costs@, row@[i as int], limit) && costs@[row@[i as int] as int]
                <= limit)
        }),
{
    let t = match target {
        Some(t) => t,
        None => return PurchasePlan { buy_card: current, submit_first_play: false },
    };
    let b = match budget {
        Some(b) => b,
        None => return PurchasePlan { buy_card: current, submit_first_play: false },
    };
    let limit = #[verifier::truncate] (b as usize);
    let buy_card = if costs[t] <= limit {
        position_of(row, t)
    } else {
        match most_expensive_affordable(row, costs, limit) {
            Some(card) => {
                let place = position_of(row, card);
                proof {
                    let k = choose|k: int|
                        first_best_place(row@, costs@, limit, k) && #[trigger] row@[k] == card;
                    assert(row@[k] == card);
                }
                place
            },
            None => current,
        }
    };
    PurchasePlan { buy_card, submit_first_play: true }
}

/// What the bot does on a table state it received.
#[derive(Debug, Clone, Copy, PartialEq, Eq, Structural)]
pub enum BotAction {
    /// Ask the table to go on to shuffling.
    GoToShuffle,
    /// The game is over: leave it and end the episode.
    Finish,
    /// Weigh the word plays and purchases for this turn.
    PlanTurn,
    /// Offer to buy the card at this place of the offer row, or decline to
    /// buy where there is none.
    Buy(Option<usize>),
    /// Answer the other player's trash request with choice 0.
    Reply,
    /// Drop the first input that the current play waits for, and answer
    /// with choice 0.
    AnswerPending,
    /// Nothing to do.
    Nothing,
}

/// What the bot remembers while it waits for the table during one step: the
/// cards it has not seen, the purchase it planned, and which of its word
/// plays is current.
#[derive(Debug, Clone)]
pub struct BotState {
    pub unknown: Vec<usize>,
    pub buy_card: Option<usize>,
    pub wait_index: usize,
}

/// The action for `phase`; `pending` is how many inputs the current play
/// waits for, absent where there is no current play.
pub open spec fn bot_action(phase: TablePhase, buy_card: Option<usize>, pending: Option<usize>) -> BotAction {
    match phase {
        TablePhase::ShowDraft => BotAction::GoToShuffle,
        TablePhase::ShowResult => BotAction::Finish,
        TablePhase::Shuffle | TablePhase::Spell | TablePhase::TurnToSubmit => BotAction::PlanTurn,
        TablePhase::Buy => BotAction::Buy(buy_card),
        TablePhase::TrashOther => BotAction::Reply,
        TablePhase::WaitForReply => if pending matches Some(n) && n > 0 {
            BotAction::AnswerPending
        } else {
            BotAction::Nothing
        },
        TablePhase::Other => BotAction::Nothing,
    }
}

/// Whenever the current play waits for at least one input, the bot answers
/// in the reply phase; it stays silent only when nothing is pending.
pub proof fn lemma_bot_answers_pending(buy_card: Option<usize>, pending: Option<usize>)
    ensures
        (pending matches Some(n) && n >= 1) ==> bot_action(TablePhase::WaitForReply, buy_card, pending)
            == BotAction::AnswerPending,
        (pending is None || pending == Some(0usize)) ==> bot_action(
            TablePhase::WaitForReply,
            buy_card,
            pending,
        ) == BotAction::Nothing,
{
}

/// In the purchase phase the bot offers exactly the purchase it planned,
/// whatever place of the row that is, and declines only with no plan.
pub proof fn lemma_bot_buys_planned(buy_card: Option<usize>, pending: Option<usize>)
    ensures
        bot_action(TablePhase::Buy, buy_card, pending) == BotAction::Buy(buy_card),
        buy_card matches Some(k) ==> bot_action(TablePhase::Buy, buy_card, pending) == BotAction::Buy(
            Some(k),
        ),
{
}

impl BotState {
    /// Nothing seen, nothing planned, the first play current.
    pub fn new() -> (state: BotState)
        ensures
            state.unknown@ == Seq::<usize>::empty(),
            state.buy_card == None::<usize>,
            state.wait_index == 0,
    {
        BotState { unknown: Vec::new(), buy_card: None, wait_index: 0 }
    }

    /// Reacts to the table entering `phase`. `draft` is the bot's draft as
    /// the table shows it. On the draft the bot takes the drafted cards as
    /// the unknown ones; after a purchase phase it has nothing planned.
    pub fn react(&mut self, phase: TablePhase, draft: &Vec<usize>, pending: Option<usize>) -> (action:
        BotAction)
        ensures
            action == bot_action(phase, old(self).buy_card, pending),
            phase == TablePhase::ShowDraft ==> action == BotAction::GoToShuffle,
            phase == TablePhase::ShowResult ==> action == BotAction::Finish,
            phase == TablePhase::Shuffle || phase == TablePhase::Spell || phase
                == TablePhase::TurnToSubmit ==> action == BotAction::PlanTurn,
            phase == TablePhase::Buy ==> action == BotAction::Buy(old(self).buy_card),
            phase == TablePhase::TrashOther ==> action == BotAction::Reply,
            phase == TablePhase::WaitForReply ==> (action == BotAction::AnswerPending <==> (
            pending matches Some(n) && n >= 1)),
            phase == TablePhase::WaitForReply && !(pending matches Some(n) && n >= 1) ==> action
                == BotAction::Nothing,
            phase == TablePhase::Other ==> action == BotAction::Nothing,
            final(self).unknown@ == if phase == TablePhase::ShowDraft {
                draft@
            } else {
                old(self).unknown@
            },
            final(self).buy_card == if phase == TablePhase::Buy {
                None
            } else {
                old(self).buy_card
            },
            final(self).wait_index == old(self).wait_index,
    {
        match phase {
            TablePhase::ShowDraft => {
                self.unknown = draft.clone();
                BotAction::GoToShuffle
            },
            TablePhase::ShowResult => BotAction::Finish,
            TablePhase::Shuffle | TablePhase::Spell | TablePhase::TurnToSubmit => BotAction::PlanTurn,
            TablePhase::Buy => {
                let offer = self.buy_card;
                self.buy_card = None;
                BotAction::Buy(offer)
            },
            TablePhase::TrashOther => BotAction::Reply,
            TablePhase::WaitForReply => match pending {
                Some(n) => if n > 0 {
                    BotAction::AnswerPending
                } else {
                    BotAction::Nothing
                },
                None => BotAction::Nothing,
            },
            TablePhase::Other => BotAction::Nothing,
        }
    }

    /// Takes the outcome of planning the turn: the planned purchase, with
    /// the first play current.
    pub fn adopt_plan(&mut self, plan: &PurchasePlan)
        ensures
            final(self).buy_card == plan.buy_card,
            final(self).wait_index == 0,
            final(self).unknown@ == old(self).unknown@,
    {
        self.buy_card = plan.buy_card;
        self.wait_index = 0;
    }
}

} // verus!
