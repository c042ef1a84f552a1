use rsrl_game::bot::{
    draft_pool, keeps_in_log, most_expensive_affordable, plan_purchase, position_of,
    preferred_suggestion, BotAction, BotState, PurchasePlan, TablePhase,
};

fn costs() -> Vec<usize> {
    // card i costs costs()[i]
    vec![3, 5, 8, 2, 8, 10, 1]
}

#[test]
fn draft_pool_drops_hand_cards_when_shuffling() {
    let unknown = vec![4, 7, 1, 9, 7];
    let hand = vec![7, 2];
    assert_eq!(draft_pool(&TablePhase::Shuffle, &unknown, &hand), vec![4, 1, 9]);
}

#[test]
fn draft_pool_keeps_all_outside_shuffle() {
    let unknown = vec![4, 7, 1];
    let hand = vec![7];
    assert_eq!(draft_pool(&TablePhase::Spell, &unknown, &hand), vec![4, 7, 1]);
    assert_eq!(draft_pool(&TablePhase::TurnToSubmit, &unknown, &hand), vec![4, 7, 1]);
}

#[test]
fn position_of_finds_first_place() {
    let row = vec![6, 2, 4, 2];
    assert_eq!(position_of(&row, 2), Some(1));
    assert_eq!(position_of(&row, 6), Some(0));
    assert_eq!(position_of(&row, 5), None);
}

#[test]
fn most_expensive_affordable_takes_first_of_best() {
    let row = vec![0, 2, 4, 5, 1];
    // affordable at budget 8: cards 0 (3), 2 (8), 4 (8), 1 (5)
    assert_eq!(most_expensive_affordable(&row, &costs(), 8), Some(2));
    assert_eq!(most_expensive_affordable(&row, &costs(), 4), Some(0));
    assert_eq!(most_expensive_affordable(&row, &costs(), 2), None);
    assert_eq!(most_expensive_affordable(&vec![], &costs(), 20), None);
}

#[test]
fn preferred_suggestion_falls_back_to_first() {
    let mut suggestions: [Option<usize>; 9] = [None; 9];
    assert_eq!(preferred_suggestion(&suggestions), None);
    suggestions[0] = Some(3);
    assert_eq!(preferred_suggestion(&suggestions), Some(3));
    suggestions[2] = Some(5);
    assert_eq!(preferred_suggestion(&suggestions), Some(5));
}

#[test]
fn plan_buys_affordable_target() {
    let row = vec![0, 2, 5];
    let plan = plan_purchase(&row, &costs(), Some(2), Some(9), None);
    assert_eq!(plan, PurchasePlan { buy_card: Some(1), submit_first_play: true });
}

#[test]
fn plan_clears_when_affordable_target_not_offered() {
    let row = vec![0, 2, 5];
    let plan = plan_purchase(&row, &costs(), Some(6), Some(9), Some(2));
    assert_eq!(plan, PurchasePlan { buy_card: None, submit_first_play: true });
}

#[test]
fn plan_falls_back_to_best_affordable() {
    let row = vec![0, 1, 5, 3];
    // target 5 costs 10 > 6; best affordable at 6 is card 1 (5), place 1
    let plan = plan_purchase(&row, &costs(), Some(5), Some(6), None);
    assert_eq!(plan, PurchasePlan { buy_card: Some(1), submit_first_play: true });
}

#[test]
fn plan_keeps_previous_when_nothing_affordable() {
    let row = vec![1, 5];
    let plan = plan_purchase(&row, &costs(), Some(5), Some(2), Some(1));
    assert_eq!(plan, PurchasePlan { buy_card: Some(1), submit_first_play: true });
}

#[test]
fn plan_negative_value_counts_as_huge_budget() {
    let row = vec![4, 5];
    let plan = plan_purchase(&row, &costs(), Some(5), Some(-1), None);
    assert_eq!(plan, PurchasePlan { buy_card: Some(1), submit_first_play: true });
}

#[test]
fn plan_without_play_or_target_changes_nothing() {
    let row = vec![4, 5];
    assert_eq!(
        plan_purchase(&row, &costs(), Some(5), None, Some(0)),
        PurchasePlan { buy_card: Some(0), submit_first_play: false }
    );
    assert_eq!(
        plan_purchase(&row, &costs(), None, Some(100), None),
        PurchasePlan { buy_card: None, submit_first_play: false }
    );
}

#[test]
fn bot_takes_draft_and_goes_to_shuffle() {
    let mut state = BotState::new();
    let action = state.react(TablePhase::ShowDraft, &vec![3, 8, 11], None);
    assert_eq!(action, BotAction::GoToShuffle);
    assert_eq!(state.unknown, vec![3, 8, 11]);
}

#[test]
fn bot_offers_planned_card_then_forgets_it() {
    let mut state = BotState::new();
    state.adopt_plan(&PurchasePlan { buy_card: Some(2), submit_first_play: true });
    assert_eq!(state.wait_index, 0);
    assert_eq!(state.react(TablePhase::Buy, &vec![], None), BotAction::Buy(Some(2)));
    assert_eq!(state.buy_card, None);
    assert_eq!(state.react(TablePhase::Buy, &vec![], None), BotAction::Buy(None));
}

#[test]
fn bot_answers_pending_inputs_only() {
    let mut state = BotState::new();
    assert_eq!(state.react(TablePhase::WaitForReply, &vec![], Some(2)), BotAction::AnswerPending);
    assert_eq!(state.react(TablePhase::WaitForReply, &vec![], Some(0)), BotAction::Nothing);
    assert_eq!(state.react(TablePhase::WaitForReply, &vec![], None), BotAction::Nothing);
}

#[test]
fn bot_phase_actions() {
    let mut state = BotState::new();
    assert_eq!(state.react(TablePhase::ShowResult, &vec![], None), BotAction::Finish);
    assert_eq!(state.react(TablePhase::Shuffle, &vec![], None), BotAction::PlanTurn);
    assert_eq!(state.react(TablePhase::Spell, &vec![], None), BotAction::PlanTurn);
    assert_eq!(state.react(TablePhase::TurnToSubmit, &vec![], None), BotAction::PlanTurn);
    assert_eq!(state.react(TablePhase::TrashOther, &vec![], None), BotAction::Reply);
    assert_eq!(state.react(TablePhase::Other, &vec![], None), BotAction::Nothing);
}

#[test]
fn log_keeps_first_player_boards_and_requests() {
    assert!(keeps_in_log(true, Some(0), false));
    assert!(!keeps_in_log(true, Some(1), true));
    assert!(!keeps_in_log(true, None, true));
    assert!(keeps_in_log(false, None, true));
    assert!(!keeps_in_log(false, Some(0), false));
}
