//! Behavioural tests of the shared observation model.

use mentci_lib::approval::{
    ApprovalClientIdentifier, ApprovalInterest, ApprovalModel, ApprovalUpdate,
};
use mentci_lib::contract::{
    AnswerProposal, ApprovalDecision, ApprovalQuestion, ApprovalSource, ApprovalVerdict,
    AuthorizationApprovalDecision, AuthorizationRequestSlot, ComponentSocketKind, CriomeAccess,
    InterfaceInterest, InterfaceObservationOpened, InterfaceProjection, InterfaceState,
    MentciRequest, PaneContent, ProjectedInterfaceState, QuestionContext, QuestionIdentifier,
    QuestionPresented, QuestionProposal, Rejection, SubscriberName, SubscriptionToken,
};
use mentci_lib::{
    Cmd, CriomeVerdict, EngineEvent, ObservationModel, PresentableQuestion, RenderDotos,
    RenderOrigin, SocketLiveness, UserEvent,
};

fn question(identifier: &str) -> ApprovalQuestion {
    question_with_source(identifier, ApprovalSource::AgentQuestion)
}

fn criome_question(identifier: &str, slot: &str) -> ApprovalQuestion {
    question_with_source(
        identifier,
        ApprovalSource::CriomeEscalation(AuthorizationRequestSlot::new(slot)),
    )
}

fn proposal_with_source(source: ApprovalSource) -> QuestionProposal {
    QuestionProposal {
        approval_source: source,
        prompt_text: "authorize the thing".to_string(),
        answer_text: "approve".to_string(),
        explanation_text: "a question is pending".to_string(),
        question_context: QuestionContext {
            context_label: "subject".to_string(),
            context_body: "the thing".to_string(),
        },
    }
}

fn question_with_source(identifier: &str, source: ApprovalSource) -> ApprovalQuestion {
    ApprovalQuestion {
        question_identifier: QuestionIdentifier::new(identifier),
        question_proposal: proposal_with_source(source),
    }
}

fn pane(label: &str, body: &str) -> PaneContent {
    PaneContent { pane_label: label.to_string(), context_body: body.to_string() }
}

fn projected_with(question: ApprovalQuestion) -> ProjectedInterfaceState {
    projected_with_access(question, CriomeAccess::ReadWrite)
}

fn projected_with_access(
    question: ApprovalQuestion,
    criome_access: CriomeAccess,
) -> ProjectedInterfaceState {
    projected_with_pane(question, pane("main", "waiting"), criome_access)
}

fn projected_with_pane(
    question: ApprovalQuestion,
    pane_content: PaneContent,
    criome_access: CriomeAccess,
) -> ProjectedInterfaceState {
    ProjectedInterfaceState {
        revision_counter: 7,
        interface_projection: InterfaceProjection::FullProjection(InterfaceState {
            revision_counter: 7,
            status_text: "ready".to_string(),
            notification_text: "one question waiting".to_string(),
            pane_content,
            approval_question: question,
            criome_access,
        }),
    }
}

fn verdict(identifier: &str, decision: ApprovalDecision) -> ApprovalVerdict {
    ApprovalVerdict {
        question_identifier: QuestionIdentifier::new(identifier),
        approval_decision: decision,
        subscriber_name: SubscriberName::new("test-client"),
    }
}

fn observed_model(projected: ProjectedInterfaceState) -> ObservationModel {
    let mut model = ObservationModel::new(SubscriberName::new("test-client"));
    let _ = model.on_user_event(UserEvent::Observe {
        socket: ComponentSocketKind::Mentci,
        interest: InterfaceInterest::FullInterfaceState,
    });
    model.on_engine_event(EngineEvent::ObservationOpened {
        socket: ComponentSocketKind::Mentci,
        opened: InterfaceObservationOpened {
            subscription_token: SubscriptionToken::new("subscription-1"),
            projected_interface_state: projected,
        },
    });
    model
}

#[test]
fn observe_emits_a_request_and_marks_connecting() {
    let mut model = ObservationModel::new(SubscriberName::new("test-client"));
    let commands = model.on_user_event(UserEvent::Observe {
        socket: ComponentSocketKind::Mentci,
        interest: InterfaceInterest::FullInterfaceState,
    });
    assert_eq!(commands.len(), 1);
    let Cmd::SendRequest { socket, request } = &commands[0];
    assert_eq!(*socket, ComponentSocketKind::Mentci);
    assert!(matches!(request, MentciRequest::ObserveInterfaceState(_)));
    let slot = model.socket(ComponentSocketKind::Mentci).unwrap();
    assert!(matches!(slot.liveness(), SocketLiveness::Connecting));
}

#[test]
fn opened_observation_folds_pending_into_the_approval_cursor() {
    let model = observed_model(projected_with(question("question-1")));

    let slot = model.socket(ComponentSocketKind::Mentci).unwrap();
    assert!(matches!(slot.liveness(), SocketLiveness::Connected));
    assert_eq!(slot.token().unwrap().as_str(), "subscription-1");

    let approval = model.approval();
    assert_eq!(approval.pending().len(), 1);
    assert_eq!(approval.current().unwrap().question_identifier.as_str(), "question-1");
}

#[test]
fn a_pushed_state_change_replaces_the_projected_question() {
    let mut model = observed_model(projected_with(question("question-1")));
    model.on_engine_event(EngineEvent::InterfaceStateChanged {
        socket: ComponentSocketKind::Mentci,
        token: SubscriptionToken::new("subscription-1"),
        state: projected_with(question("question-2")),
    });
    assert_eq!(model.approval().current().unwrap().question_identifier.as_str(), "question-2");

    model.on_engine_event(EngineEvent::InterfaceStateChanged {
        socket: ComponentSocketKind::Mentci,
        token: SubscriptionToken::new("not-our-token"),
        state: projected_with(question("question-3")),
    });
    assert_eq!(model.approval().current().unwrap().question_identifier.as_str(), "question-2");
}

#[test]
fn answering_a_question_emits_a_verdict_and_drops_it_from_pending() {
    let mut model = observed_model(projected_with(question("question-1")));
    let commands = model.on_user_event(UserEvent::AnswerQuestion {
        verdict: verdict("question-1", ApprovalDecision::ApproveSuggestedAnswer),
    });
    assert_eq!(commands.len(), 1);
    assert!(matches!(
        &commands[0],
        Cmd::SendRequest { request: MentciRequest::AnswerQuestion(_), .. }
    ));
    assert_eq!(model.approval().pending().len(), 0);
    assert_eq!(model.approval().answered().len(), 1);
}

#[test]
fn answering_a_criome_question_sends_the_verdict_to_the_daemon() {
    let mut model = observed_model(projected_with(criome_question("question-1", "slot-1")));
    let commands = model.on_user_event(UserEvent::AnswerQuestion {
        verdict: verdict("question-1", ApprovalDecision::ApproveSuggestedAnswer),
    });
    assert_eq!(commands.len(), 1);
    assert!(matches!(
        &commands[0],
        Cmd::SendRequest {
            socket: ComponentSocketKind::Mentci,
            request: MentciRequest::AnswerQuestion(_),
        }
    ));
    assert_eq!(model.approval().pending().len(), 0);
    assert_eq!(model.approval().answered().len(), 1);
}

#[test]
fn defer_keeps_the_question_pending() {
    let mut approval = ApprovalModel::default();
    let _receipt =
        approval.subscribe(ApprovalClientIdentifier::new(1), ApprovalInterest::PendingQuestions);
    let _ = approval.absorb_pending(vec![question("question-1")]);
    let outcome = approval.answer(verdict("question-1", ApprovalDecision::Defer));
    assert!(outcome.answered().is_none());
    assert_eq!(approval.pending().len(), 1);
    assert_eq!(outcome.deliveries().len(), 1);
    assert_eq!(outcome.deliveries()[0].client(), ApprovalClientIdentifier::new(1));
    assert!(matches!(
        outcome.deliveries()[0].update(),
        ApprovalUpdate::QuestionSelected(question) if question == &QuestionIdentifier::new("question-1")
    ));
}

#[test]
fn subscriptions_receive_deliveries_on_state_change() {
    let mut approval = ApprovalModel::default();
    let receipt =
        approval.subscribe(ApprovalClientIdentifier::new(1), ApprovalInterest::PendingQuestions);
    assert_eq!(receipt.snapshot().pending_count, 0);
    let deliveries = approval.absorb_pending(vec![question("question-1")]);
    assert_eq!(deliveries.len(), 1);
    assert_eq!(deliveries[0].client(), ApprovalClientIdentifier::new(1));
}

#[test]
fn closed_decision_maps_to_the_criome_verdict() {
    let slot = AuthorizationRequestSlot::new("request-slot-42");
    let approve =
        CriomeVerdict::from_decision(slot.clone(), ApprovalDecision::ApproveSuggestedAnswer);
    assert_eq!(approve.decision(), &AuthorizationApprovalDecision::Approve);
    assert_eq!(approve.request_slot(), &slot);

    let reject = CriomeVerdict::from_decision(slot.clone(), ApprovalDecision::Reject);
    assert_eq!(reject.decision(), &AuthorizationApprovalDecision::Reject);

    let defer = CriomeVerdict::from_decision(slot, ApprovalDecision::Defer);
    assert_eq!(defer.decision(), &AuthorizationApprovalDecision::Defer);
}

#[test]
fn datom_fallback_renders_a_typed_reply() {
    let presented = QuestionPresented {
        question_identifier: QuestionIdentifier::new("question-1"),
        revision_counter: 1,
        timestamp_nanos: 0,
    };
    let rendered = presented.render_dotos(RenderOrigin::Reply);
    assert_eq!(rendered.origin().label(), "reply");
    assert!(rendered.body().contains("question-1"));
}

#[test]
fn view_carries_one_row_per_observed_socket() {
    let mut model = ObservationModel::new(SubscriberName::new("test-client"));
    let _ = model.on_user_event(UserEvent::Observe {
        socket: ComponentSocketKind::Mentci,
        interest: InterfaceInterest::FullInterfaceState,
    });
    let _ = model.on_user_event(UserEvent::Observe {
        socket: ComponentSocketKind::Criome,
        interest: InterfaceInterest::PendingQuestions,
    });
    let view = model.view();
    assert_eq!(view.sockets.len(), 2);
}

#[test]
fn folded_full_projection_surfaces_the_daemon_pane_in_the_view() {
    let model = observed_model(projected_with_pane(
        question("question-1"),
        pane("introspect", "(PrototypeWitness (prototype None None None None))"),
        CriomeAccess::ReadWrite,
    ));
    let pane = model.view().pane.expect("a full projection carries a pane");
    assert_eq!(pane.pane_label, "introspect");
    assert!(pane.context_body.contains("PrototypeWitness"));
}

#[test]
fn folded_full_projection_surfaces_criome_access_in_the_view() {
    let mut model =
        observed_model(projected_with_access(question("question-1"), CriomeAccess::ReadWrite));
    assert_eq!(model.view().criome_access, Some(CriomeAccess::ReadWrite));

    model.on_engine_event(EngineEvent::InterfaceStateChanged {
        socket: ComponentSocketKind::Mentci,
        token: SubscriptionToken::new("subscription-1"),
        state: projected_with_access(question("question-1"), CriomeAccess::ReadOnly),
    });
    assert_eq!(model.view().criome_access, Some(CriomeAccess::ReadOnly));
}

// ── Further behaviour ───────────────────────────────────────────────────────

#[test]
fn view_rows_follow_socket_order_and_carry_labels_and_revisions() {
    let mut model = ObservationModel::new(SubscriberName::new("test-client"));
    let _ = model.on_user_event(UserEvent::Observe {
        socket: ComponentSocketKind::Criome,
        interest: InterfaceInterest::PendingQuestions,
    });
    let _ = model.on_user_event(UserEvent::Observe {
        socket: ComponentSocketKind::Mentci,
        interest: InterfaceInterest::FullInterfaceState,
    });
    model.on_engine_event(EngineEvent::ObservationOpened {
        socket: ComponentSocketKind::Mentci,
        opened: InterfaceObservationOpened {
            subscription_token: SubscriptionToken::new("subscription-1"),
            projected_interface_state: projected_with(question("question-1")),
        },
    });
    let view = model.view();
    assert_eq!(view.sockets.len(), 2);
    assert_eq!(view.sockets[0].socket.as_str(), "Mentci");
    assert_eq!(view.sockets[0].liveness, SocketLiveness::Connected);
    assert_eq!(view.sockets[0].revision, Some(7));
    assert!(view.sockets[0].has_state);
    assert_eq!(view.sockets[1].socket.as_str(), "Criome");
    assert_eq!(view.sockets[1].liveness, SocketLiveness::Connecting);
    assert_eq!(view.sockets[1].revision, None);
    assert!(!view.sockets[1].has_state);
    assert_eq!(view.approval.pending_count, 1);
}

#[test]
fn a_fresh_model_has_no_access_and_no_pane() {
    let model = ObservationModel::new(SubscriberName::new("test-client"));
    let view = model.view();
    assert!(view.sockets.is_empty());
    assert_eq!(view.criome_access, None);
    assert_eq!(view.pane, None);
    assert_eq!(view.approval.current, None);
    assert_eq!(model.subscriber().as_str(), "test-client");
}

#[test]
fn user_gestures_never_change_the_mirrored_access() {
    let mut model =
        observed_model(projected_with_access(question("question-1"), CriomeAccess::ReadOnly));
    let _ = model.on_user_event(UserEvent::Observe {
        socket: ComponentSocketKind::Mentci,
        interest: InterfaceInterest::Status,
    });
    let _ = model.on_user_event(UserEvent::AnswerQuestion {
        verdict: verdict("question-1", ApprovalDecision::Reject),
    });
    let _ = model.on_user_event(UserEvent::SelectQuestion {
        question: QuestionIdentifier::new("question-1"),
    });
    assert_eq!(model.view().criome_access, Some(CriomeAccess::ReadOnly));
}

#[test]
fn a_verdict_on_an_unknown_question_sends_nothing() {
    let mut model = observed_model(projected_with(question("question-1")));
    let commands = model.on_user_event(UserEvent::AnswerQuestion {
        verdict: verdict("question-9", ApprovalDecision::Reject),
    });
    assert!(commands.is_empty());
    assert_eq!(model.approval().pending().len(), 1);
    assert_eq!(model.approval().answered().len(), 0);
}

#[test]
fn a_deferred_verdict_is_still_sent_to_the_daemon() {
    let mut model = observed_model(projected_with(question("question-1")));
    let commands = model.on_user_event(UserEvent::AnswerQuestion {
        verdict: verdict("question-9", ApprovalDecision::Defer),
    });
    assert_eq!(
        commands,
        vec![Cmd::SendRequest {
            socket: ComponentSocketKind::Mentci,
            request: MentciRequest::AnswerQuestion(verdict("question-9", ApprovalDecision::Defer)),
        }]
    );
    assert_eq!(model.approval().pending().len(), 1);
}

#[test]
fn edits_are_proposals_sent_to_the_daemon() {
    let mut model = observed_model(projected_with(question("question-1")));
    let proposal = model
        .approval()
        .proposal_for_selected("approve with care".to_string(), SubscriberName::new("editor"))
        .expect("a question is selected");
    assert_eq!(proposal.question_identifier.as_str(), "question-1");
    let commands = model.on_user_event(UserEvent::ProposeEditedAnswer { proposal: proposal.clone() });
    assert_eq!(
        commands,
        vec![Cmd::SendRequest {
            socket: ComponentSocketKind::Mentci,
            request: MentciRequest::ProposeEditedAnswer(AnswerProposal {
                question_identifier: QuestionIdentifier::new("question-1"),
                answer_text: "approve with care".to_string(),
                subscriber_name: SubscriberName::new("editor"),
            }),
        }]
    );
    assert_eq!(model.approval().pending().len(), 1);
}

#[test]
fn retract_and_present_go_to_the_named_socket() {
    let mut model = ObservationModel::new(SubscriberName::new("test-client"));
    let commands = model.on_user_event(UserEvent::RetractObservation {
        socket: ComponentSocketKind::MetaMentci,
        token: SubscriptionToken::new("subscription-4"),
    });
    assert_eq!(
        commands,
        vec![Cmd::send(
            ComponentSocketKind::MetaMentci,
            MentciRequest::RetractInterfaceObservation(SubscriptionToken::new("subscription-4")),
        )]
    );
    assert!(model.socket(ComponentSocketKind::MetaMentci).is_none());

    let event = proposal_with_source(ApprovalSource::AgentQuestion)
        .present_on(ComponentSocketKind::Mentci);
    let commands = model.on_user_event(event);
    assert_eq!(
        commands,
        vec![Cmd::send(
            ComponentSocketKind::Mentci,
            MentciRequest::PresentQuestion(proposal_with_source(ApprovalSource::AgentQuestion)),
        )]
    );
}

#[test]
fn connection_changes_are_recorded_per_socket() {
    let mut model = ObservationModel::new(SubscriberName::new("test-client"));
    let commands = model.on_engine_event(EngineEvent::ConnectionChanged {
        socket: ComponentSocketKind::Introspect,
        liveness: SocketLiveness::Failed { reason: "refused".to_string() },
    });
    assert!(commands.is_empty());
    let slot = model.socket(ComponentSocketKind::Introspect).unwrap();
    assert_eq!(slot.liveness(), &SocketLiveness::Failed { reason: "refused".to_string() });
    assert_eq!(slot.interest(), None);
    assert!(slot.latest().is_none());
    assert_eq!(slot.revision(), None);
}

#[test]
fn acknowledgements_leave_the_model_unchanged() {
    let mut model = observed_model(projected_with(question("question-1")));
    let before = model.view();
    let commands = model.on_engine_event(EngineEvent::Rejected {
        socket: ComponentSocketKind::Mentci,
        rejection: Rejection { reason: "no".to_string() },
    });
    assert!(commands.is_empty());
    let commands = model.on_engine_event(EngineEvent::QuestionPresented {
        socket: ComponentSocketKind::Mentci,
        presented: QuestionPresented {
            question_identifier: QuestionIdentifier::new("question-2"),
            revision_counter: 8,
            timestamp_nanos: 1,
        },
    });
    assert!(commands.is_empty());
    assert_eq!(model.view(), before);
}

#[test]
fn a_status_projection_clears_the_queue_and_the_mirrored_access() {
    let mut model = observed_model(projected_with(question("question-1")));
    model.on_engine_event(EngineEvent::InterfaceStateChanged {
        socket: ComponentSocketKind::Mentci,
        token: SubscriptionToken::new("subscription-1"),
        state: ProjectedInterfaceState {
            revision_counter: 8,
            interface_projection: InterfaceProjection::StatusProjection("idle".to_string()),
        },
    });
    let view = model.view();
    assert_eq!(view.approval.pending_count, 0);
    assert_eq!(view.approval.current, None);
    assert_eq!(view.criome_access, None);
    assert_eq!(view.pane, None);
    assert_eq!(view.sockets[0].revision, Some(8));
}
