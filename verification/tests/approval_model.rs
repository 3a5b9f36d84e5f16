//! Tests of the approval state machine on concrete queues.

use mentci_lib::approval::{
    ApprovalClientIdentifier, ApprovalInterest, ApprovalModel, ApprovalSubscriptionIdentifier,
    ApprovalUpdate,
};
use mentci_lib::contract::{
    ApprovalDecision, ApprovalQuestion, ApprovalSource, ApprovalVerdict, QuestionContext,
    QuestionIdentifier, QuestionProposal, SubscriberName,
};

fn question(identifier: &str) -> ApprovalQuestion {
    ApprovalQuestion {
        question_identifier: QuestionIdentifier::new(identifier),
        question_proposal: QuestionProposal {
            approval_source: ApprovalSource::AgentQuestion,
            prompt_text: "authorize the thing".to_string(),
            answer_text: "approve".to_string(),
            explanation_text: "a question is pending".to_string(),
            question_context: QuestionContext {
                context_label: "subject".to_string(),
                context_body: identifier.to_string(),
            },
        },
    }
}

fn verdict(identifier: &str, decision: ApprovalDecision) -> ApprovalVerdict {
    ApprovalVerdict {
        question_identifier: QuestionIdentifier::new(identifier),
        approval_decision: decision,
        subscriber_name: SubscriberName::new("psyche"),
    }
}

fn identifiers(model: &ApprovalModel) -> Vec<String> {
    model.pending().iter().map(|question| question.question_identifier.as_str().to_string()).collect()
}

fn current(model: &ApprovalModel) -> Option<String> {
    model.current().map(|question| question.question_identifier.as_str().to_string())
}

#[test]
fn received_questions_queue_and_the_first_takes_the_cursor() {
    let mut model = ApprovalModel::default();
    assert_eq!(current(&model), None);
    let _ = model.receive(question("a"));
    let _ = model.receive(question("b"));
    assert_eq!(identifiers(&model), vec!["a", "b"]);
    assert_eq!(current(&model), Some("a".to_string()));
    let view = model.view();
    assert_eq!(view.pending_count, 2);
    assert_eq!(view.answered_count, 0);
    assert_eq!(view.current, Some(question("a")));
}

#[test]
fn selecting_moves_the_cursor_only_onto_pending_questions() {
    let mut model = ApprovalModel::default();
    let _ = model.absorb_pending(vec![question("a"), question("b")]);
    let _ = model.subscribe(ApprovalClientIdentifier::new(3), ApprovalInterest::All);
    let deliveries = model.select(QuestionIdentifier::new("b"));
    assert_eq!(current(&model), Some("b".to_string()));
    assert_eq!(deliveries.len(), 1);
    assert_eq!(deliveries[0].update(), &ApprovalUpdate::QuestionSelected(QuestionIdentifier::new("b")));
    let deliveries = model.select(QuestionIdentifier::new("z"));
    assert!(deliveries.is_empty());
    assert_eq!(current(&model), Some("b".to_string()));
}

#[test]
fn absorbing_keeps_a_surviving_selection_and_otherwise_takes_the_first() {
    let mut model = ApprovalModel::default();
    let _ = model.absorb_pending(vec![question("a"), question("b")]);
    let _ = model.select(QuestionIdentifier::new("b"));
    let _ = model.absorb_pending(vec![question("c"), question("b")]);
    assert_eq!(current(&model), Some("b".to_string()));
    let _ = model.absorb_pending(vec![question("d"), question("e")]);
    assert_eq!(current(&model), Some("d".to_string()));
    let _ = model.absorb_pending(Vec::new());
    assert_eq!(current(&model), None);
}

#[test]
fn a_binding_verdict_removes_its_question_and_advances_the_cursor() {
    let mut model = ApprovalModel::default();
    let _ = model.absorb_pending(vec![question("a"), question("b"), question("c")]);
    let _ = model.select(QuestionIdentifier::new("b"));
    let outcome = model.answer(verdict("b", ApprovalDecision::Reject));
    assert_eq!(outcome.answered(), Some(&question("b")));
    assert_eq!(outcome.verdict(), Some(&verdict("b", ApprovalDecision::Reject)));
    assert_eq!(identifiers(&model), vec!["a", "c"]);
    assert_eq!(current(&model), Some("c".to_string()));
    assert_eq!(model.answered(), &[verdict("b", ApprovalDecision::Reject)]);

    let _ = model.answer(verdict("c", ApprovalDecision::ApproveSuggestedAnswer));
    assert_eq!(current(&model), Some("a".to_string()));
    let _ = model.answer(verdict("a", ApprovalDecision::ApproveSuggestedAnswer));
    assert_eq!(current(&model), None);
    assert_eq!(model.answered().len(), 3);
}

#[test]
fn a_binding_verdict_on_an_unknown_question_changes_nothing() {
    let mut model = ApprovalModel::default();
    let _ = model.absorb_pending(vec![question("a")]);
    let outcome = model.answer(verdict("x", ApprovalDecision::ApproveSuggestedAnswer));
    assert!(outcome.answered().is_none());
    assert!(outcome.verdict().is_none());
    assert!(outcome.deliveries().is_empty());
    assert_eq!(identifiers(&model), vec!["a"]);
    assert!(model.answered().is_empty());
}

#[test]
fn deferring_moves_the_cursor_but_keeps_the_queue() {
    let mut model = ApprovalModel::default();
    let _ = model.absorb_pending(vec![question("a"), question("b")]);
    let outcome = model.answer(verdict("b", ApprovalDecision::Defer));
    assert!(outcome.answered().is_none());
    assert_eq!(outcome.verdict(), Some(&verdict("b", ApprovalDecision::Defer)));
    assert_eq!(identifiers(&model), vec!["a", "b"]);
    assert_eq!(current(&model), Some("b".to_string()));
    assert!(model.answered().is_empty());
}

#[test]
fn only_the_first_of_duplicate_questions_is_closed() {
    let mut model = ApprovalModel::default();
    let _ = model.receive(question("a"));
    let _ = model.receive(question("a"));
    let _ = model.answer(verdict("a", ApprovalDecision::Reject));
    assert_eq!(identifiers(&model), vec!["a"]);
    assert_eq!(current(&model), Some("a".to_string()));
}

#[test]
fn deliveries_follow_each_subscription_interest() {
    let mut model = ApprovalModel::default();
    let everything = model.subscribe(ApprovalClientIdentifier::new(1), ApprovalInterest::All);
    let pending = model.subscribe(ApprovalClientIdentifier::new(2), ApprovalInterest::PendingQuestions);
    let answered =
        model.subscribe(ApprovalClientIdentifier::new(3), ApprovalInterest::AnsweredVerdicts);
    assert_eq!(everything.subscription().identifier().value(), 0);
    assert_eq!(pending.subscription().identifier().value(), 1);
    assert_eq!(answered.subscription().identifier().value(), 2);
    assert_eq!(answered.snapshot().subscription_count, 3);

    let received = model.receive(question("a"));
    let clients: Vec<u64> = received.iter().map(|delivery| delivery.client().value()).collect();
    assert_eq!(clients, vec![1, 2]);

    let snapshot = model.absorb_pending(vec![question("a")]);
    let clients: Vec<u64> = snapshot.iter().map(|delivery| delivery.client().value()).collect();
    assert_eq!(clients, vec![1, 2, 3]);

    let outcome = model.answer(verdict("a", ApprovalDecision::ApproveSuggestedAnswer));
    let clients: Vec<u64> =
        outcome.deliveries().iter().map(|delivery| delivery.client().value()).collect();
    assert_eq!(clients, vec![1, 3]);
    assert_eq!(outcome.deliveries()[1].subscription().value(), 2);
    assert_eq!(
        outcome.deliveries()[1].update(),
        &ApprovalUpdate::QuestionAnswered(verdict("a", ApprovalDecision::ApproveSuggestedAnswer))
    );
}

#[test]
fn unsubscribing_undoes_subscribing() {
    let mut model = ApprovalModel::default();
    let _ = model.subscribe(ApprovalClientIdentifier::new(1), ApprovalInterest::All);
    let receipt = model.subscribe(ApprovalClientIdentifier::new(2), ApprovalInterest::All);
    assert_eq!(model.subscription_count(), 2);
    assert!(model.unsubscribe(receipt.subscription().identifier()));
    assert_eq!(model.subscription_count(), 1);
    assert!(!model.unsubscribe(receipt.subscription().identifier()));
    assert!(!model.unsubscribe(ApprovalSubscriptionIdentifier::new(77)));
    assert_eq!(model.subscription_count(), 1);
    let again = model.subscribe(ApprovalClientIdentifier::new(2), ApprovalInterest::All);
    assert_eq!(again.subscription().identifier().value(), 2);
    assert_eq!(again.subscription().client(), ApprovalClientIdentifier::new(2));
}

#[test]
fn verdicts_and_proposals_target_the_selected_question() {
    let mut model = ApprovalModel::default();
    assert!(model.verdict_for_selected(ApprovalDecision::Reject, SubscriberName::new("p")).is_none());
    assert!(model.proposal_for_selected("x".to_string(), SubscriberName::new("p")).is_none());
    let _ = model.absorb_pending(vec![question("a"), question("b")]);
    let _ = model.select(QuestionIdentifier::new("b"));
    let built = model.verdict_for_selected(ApprovalDecision::Reject, SubscriberName::new("psyche"));
    assert_eq!(built, Some(verdict("b", ApprovalDecision::Reject)));
    let proposal = model
        .proposal_for_selected("better".to_string(), SubscriberName::new("psyche"))
        .unwrap();
    assert_eq!(proposal.question_identifier, QuestionIdentifier::new("b"));
    assert_eq!(proposal.answer_text, "better");
}

#[test]
fn identifiers_keep_their_values() {
    assert_eq!(ApprovalClientIdentifier::new(42).value(), 42);
    assert_eq!(ApprovalSubscriptionIdentifier::new(7).value(), 7);
}
