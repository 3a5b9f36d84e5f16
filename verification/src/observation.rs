//! [`ObservationModel`] — the client observability + control core.
//!
//! One MVU-shaped model thin clients share, keyed by component socket: each
//! observed socket folds into its own [`SocketObservation`] slot. The contract
//! is `update(state, event) -> (state, Vec<Cmd>)` and `view(state) ->
//! ObservationView`; both halves are specified as pure functions of the
//! abstract [`ObservationState`] and the executable methods are proved to
//! compute exactly them.

use std::collections::BTreeMap;

use vstd::prelude::*;

use crate::approval::{ApprovalModel, ApprovalState, ApprovalView};
use crate::cmd::Cmd;
use crate::contract::{
    ComponentSocketKind, CriomeAccess, InterfaceInterest, InterfaceStateObservation,
    MentciRequest, PaneContent, ProjectedInterfaceState, QuestionProposal, SubscriberName,
    SubscriptionToken,
};
use crate::error::{socket_label_text, ComponentSocketLabel};
use crate::event::{EngineEvent, SocketLiveness, UserEvent};

verus! {

broadcast use vstd::std_specs::btree::group_btree_axioms;

/// One component socket's observation state: the interest the model
/// subscribed with, the daemon-minted token once the observation is open, the
/// latest projected state folded in, and the connection liveness.
#[derive(Debug, Clone)]
pub struct SocketObservation {
    interest: Option<InterfaceInterest>,
    token: Option<SubscriptionToken>,
    latest: Option<ProjectedInterfaceState>,
    liveness: SocketLiveness,
}

impl SocketObservation {
    /// A slot that has seen nothing yet.
    pub closed spec fn fresh() -> SocketObservation {
        SocketObservation {
            interest: None,
            token: None,
            latest: None,
            liveness: SocketLiveness::Disconnected,
        }
    }

    pub closed spec fn observed_interest(self) -> Option<InterfaceInterest> {
        self.interest
    }

    pub closed spec fn held_token(self) -> Option<SubscriptionToken> {
        self.token
    }

    pub closed spec fn latest_state(self) -> Option<ProjectedInterfaceState> {
        self.latest
    }

    pub closed spec fn observed_liveness(self) -> SocketLiveness {
        self.liveness
    }

    /// The revision counter of the latest folded state, if any.
    pub open spec fn latest_revision(self) -> Option<u64> {
        match self.latest_state() {
            Some(state) => Some(state.revision_counter),
            None => None,
        }
    }

    pub fn token(&self) -> (token: Option<&SubscriptionToken>)
        ensures
            match token {
                Some(held) => self.held_token() == Some(*held),
                None => self.held_token() is None,
            },
    {
        match &self.token {
            Some(held) => Some(held),
            None => None,
        }
    }

    pub fn interest(&self) -> (interest: Option<InterfaceInterest>)
        ensures
            interest == self.observed_interest(),
    {
        self.interest
    }

    pub fn latest(&self) -> (latest: Option<&ProjectedInterfaceState>)
        ensures
            match latest {
                Some(state) => self.latest_state() == Some(*state),
                None => self.latest_state() is None,
            },
    {
        match &self.latest {
            Some(state) => Some(state),
            None => None,
        }
    }

    pub fn liveness(&self) -> (liveness: &SocketLiveness)
        ensures
            *liveness == self.observed_liveness(),
    {
        &self.liveness
    }

    /// The revision counter of the latest folded state, if any.
    pub fn revision(&self) -> (revision: Option<u64>)
        ensures
            revision == self.latest_revision(),
    {
        match &self.latest {
            Some(state) => Some(state.revision_counter),
            None => None,
        }
    }
}

impl Default for SocketObservation {
    fn default() -> (slot: Self)
        ensures
            slot == SocketObservation::fresh(),
    {
        SocketObservation {
            interest: None,
            token: None,
            latest: None,
            liveness: SocketLiveness::Disconnected,
        }
    }
}

// ── The abstract state and its transitions ──────────────────────────────────

/// The abstract state of an [`ObservationModel`]: the subscriber name, the
/// per-socket slots keyed by socket order key, and the approval state.
pub struct ObservationState {
    pub subscriber: SubscriberName,
    pub sockets: Map<u8, SocketObservation>,
    pub approval: ApprovalState,
}

impl ObservationState {
    /// The invariant: the approval state is well formed and every slot is
    /// keyed by the order key of some socket kind.
    pub open spec fn well_formed(self) -> bool {
        &&& self.approval.well_formed()
        &&& forall|key: u8| #[trigger] self.sockets.contains_key(key) ==> key < 6
    }

    /// The slot of a socket, or a fresh one when the socket was never touched.
    pub open spec fn slot_or_fresh(self, socket: ComponentSocketKind) -> SocketObservation {
        if self.sockets.contains_key(socket.order_key()) {
            self.sockets[socket.order_key()]
        } else {
            SocketObservation::fresh()
        }
    }

    /// Whether the socket's slot holds the given token.
    pub open spec fn holds_token(self, socket: ComponentSocketKind, token: SubscriptionToken) -> bool {
        &&& self.sockets.contains_key(socket.order_key())
        &&& self.sockets[socket.order_key()].held_token() matches Some(held)
        &&& held@ == token@
    }

    /// Fold a projected state into a socket's slot and replace the approval
    /// queue with the questions it carries.
    pub closed spec fn folded(self, socket: ComponentSocketKind, state: ProjectedInterfaceState) -> ObservationState {
        ObservationState {
            sockets: self.sockets.insert(
                socket.order_key(),
                SocketObservation { latest: Some(state), ..self.slot_or_fresh(socket) },
            ),
            approval: self.approval.absorbed(state.projected_questions()),
            ..self
        }
    }

    /// The `update` half for user gestures: the next state and the commands to
    /// dispatch.
    pub closed spec fn user_step(self, event: UserEvent) -> (ObservationState, Seq<Cmd>) {
        match event {
            UserEvent::Observe { socket, interest } => (
                ObservationState {
                    sockets: self.sockets.insert(
                        socket.order_key(),
                        SocketObservation {
                            interest: Some(interest),
                            liveness: SocketLiveness::Connecting,
                            ..self.slot_or_fresh(socket)
                        },
                    ),
                    ..self
                },
                seq![
                    Cmd::SendRequest {
                        socket,
                        request: MentciRequest::ObserveInterfaceState(
                            InterfaceStateObservation {
                                subscriber_name: self.subscriber,
                                interface_interest: interest,
                            },
                        ),
                    },
                ],
            ),
            UserEvent::RetractObservation { socket, token } => (
                self,
                seq![
                    Cmd::SendRequest {
                        socket,
                        request: MentciRequest::RetractInterfaceObservation(token),
                    },
                ],
            ),
            UserEvent::SelectQuestion { question } => (
                ObservationState { approval: self.approval.selecting(question), ..self },
                Seq::empty(),
            ),
            UserEvent::AnswerQuestion { verdict } => (
                ObservationState { approval: self.approval.answering(verdict), ..self },
                if self.approval.takes_verdict(verdict) {
                    seq![
                        Cmd::SendRequest {
                            socket: ComponentSocketKind::Mentci,
                            request: MentciRequest::AnswerQuestion(verdict),
                        },
                    ]
                } else {
                    Seq::empty()
                },
            ),
            UserEvent::ProposeEditedAnswer { proposal } => (
                self,
                seq![
                    Cmd::SendRequest {
                        socket: ComponentSocketKind::Mentci,
                        request: MentciRequest::ProposeEditedAnswer(proposal),
                    },
                ],
            ),
            UserEvent::PushQuestion { socket, proposal } => (
                self,
                seq![
                    Cmd::SendRequest { socket, request: MentciRequest::PresentQuestion(proposal) },
                ],
            ),
        }
    }

    /// The `update` half for daemon pushes (they never produce commands).
    pub closed spec fn engine_step(self, event: EngineEvent) -> ObservationState {
        match event {
            EngineEvent::ObservationOpened { socket, opened } => {
                let opened_state = ObservationState {
                    sockets: self.sockets.insert(
                        socket.order_key(),
                        SocketObservation {
                            token: Some(opened.subscription_token),
                            liveness: SocketLiveness::Connected,
                            ..self.slot_or_fresh(socket)
                        },
                    ),
                    ..self
                };
                opened_state.folded(socket, opened.projected_interface_state)
            },
            EngineEvent::InterfaceStateChanged { socket, token, state } => {
                if self.holds_token(socket, token) {
                    self.folded(socket, state)
                } else {
                    self
                }
            },
            EngineEvent::ConnectionChanged { socket, liveness } => ObservationState {
                sockets: self.sockets.insert(
                    socket.order_key(),
                    SocketObservation { liveness, ..self.slot_or_fresh(socket) },
                ),
                ..self
            },
            _ => self,
        }
    }

    /// The latest projection folded on the Mentci socket.
    pub open spec fn mentci_projection(self) -> Option<ProjectedInterfaceState> {
        let key = ComponentSocketKind::Mentci.order_key();
        if self.sockets.contains_key(key) {
            self.sockets[key].latest_state()
        } else {
            None
        }
    }

    /// The criome access mirrored from the Mentci daemon's latest full
    /// projection; `None` until one is folded.
    pub open spec fn mirrored_access(self) -> Option<CriomeAccess> {
        match self.mentci_projection() {
            Some(state) => state.projected_access(),
            None => None,
        }
    }

    /// The pane of the Mentci daemon's latest full projection.
    pub open spec fn mirrored_pane(self) -> Option<PaneContent> {
        match self.mentci_projection() {
            Some(state) => state.projected_pane(),
            None => None,
        }
    }
}

/// The order keys below `bound` that have a slot, ascending.
pub open spec fn observed_keys_below(sockets: Map<u8, SocketObservation>, bound: nat) -> Seq<u8>
    decreases bound,
{
    if bound == 0 {
        Seq::empty()
    } else {
        let earlier = observed_keys_below(sockets, (bound - 1) as nat);
        if sockets.contains_key((bound - 1) as u8) {
            earlier.push((bound - 1) as u8)
        } else {
            earlier
        }
    }
}

/// The header row of one observed socket.
pub open spec fn row_shows(row: SocketView, key: u8, slot: SocketObservation) -> bool {
    &&& row.socket.text() == socket_label_text(ComponentSocketKind::of_order_key(key))
    &&& row.liveness == slot.observed_liveness()
    &&& row.revision == slot.latest_revision()
    &&& row.has_state == (slot.latest_state() is Some)
}

// ── Laws of the model ───────────────────────────────────────────────────────

/// Daemon routing: answering a question and proposing an edited answer only
/// ever send to the Mentci socket, never to a criome socket. A taken verdict
/// sends exactly one `AnswerQuestion` carrying the verdict; a verdict that is
/// not taken sends nothing. A proposal of a different answer leaves the
/// observation state unchanged (it closes no question) and is sent as a
/// `ProposeEditedAnswer`.
pub proof fn lemma_answers_route_through_mentci(
    state: ObservationState,
    verdict: crate::contract::ApprovalVerdict,
    proposal: crate::contract::AnswerProposal,
)
    ensures
        state.user_step(UserEvent::AnswerQuestion { verdict }).1 == if state.approval.takes_verdict(
            verdict,
        ) {
            seq![
                Cmd::SendRequest {
                    socket: ComponentSocketKind::Mentci,
                    request: MentciRequest::AnswerQuestion(verdict),
                },
            ]
        } else {
            Seq::<Cmd>::empty()
        },
        forall|i: int|
            0 <= i < state.user_step(UserEvent::AnswerQuestion { verdict }).1.len() ==> (
            #[trigger] state.user_step(UserEvent::AnswerQuestion { verdict }).1[i]).target()
                == ComponentSocketKind::Mentci,
        state.user_step(UserEvent::ProposeEditedAnswer { proposal }).0 == state,
        state.user_step(UserEvent::ProposeEditedAnswer { proposal }).1 == seq![
            Cmd::SendRequest {
                socket: ComponentSocketKind::Mentci,
                request: MentciRequest::ProposeEditedAnswer(proposal),
            },
        ],
        forall|i: int|
            0 <= i < state.user_step(UserEvent::ProposeEditedAnswer { proposal }).1.len() ==> (
            #[trigger] state.user_step(UserEvent::ProposeEditedAnswer { proposal }).1[i]).target()
                == ComponentSocketKind::Mentci,
{
}

/// The client never elevates (or otherwise changes) what the daemon projected:
/// no user gesture changes the latest projection of any socket, so the
/// mirrored criome access and pane stay as the daemon last set them.
pub proof fn lemma_user_events_keep_projections(state: ObservationState, event: UserEvent)
    ensures
        ({
            let next = state.user_step(event).0;
            &&& forall|key: u8|
                #[trigger] next.sockets.contains_key(key) ==> next.sockets[key].latest_state() == (
                if state.sockets.contains_key(key) {
                    state.sockets[key].latest_state()
                } else {
                    None
                })
            &&& forall|key: u8| #[trigger]
                state.sockets.contains_key(key) ==> next.sockets.contains_key(key)
            &&& next.mirrored_access() == state.mirrored_access()
            &&& next.mirrored_pane() == state.mirrored_pane()
            &&& next.subscriber == state.subscriber
        }),
{
    let next = state.user_step(event).0;
    if let UserEvent::Observe { socket, interest } = event {
        let key = ComponentSocketKind::Mentci.order_key();
        if next.sockets.contains_key(key) && key == socket.order_key() {
            assert(next.sockets[key].latest_state() == state.slot_or_fresh(socket).latest_state());
        }
    }
}

/// A state push for a token the socket's slot does not hold is ignored: the
/// model is left exactly as it was.
pub proof fn lemma_foreign_push_ignored(
    state: ObservationState,
    socket: ComponentSocketKind,
    token: SubscriptionToken,
    projected: ProjectedInterfaceState,
)
    requires
        !state.holds_token(socket, token),
    ensures
        state.engine_step(EngineEvent::InterfaceStateChanged { socket, token, state: projected })
            == state,
{
}

/// Acknowledgements and rejections change nothing; the canonical change
/// arrives as the next state push.
pub proof fn lemma_acknowledgements_change_nothing(
    state: ObservationState,
    socket: ComponentSocketKind,
    presented: crate::contract::QuestionPresented,
    accepted: crate::contract::VerdictAccepted,
    admitted: crate::contract::AnswerProposalAdmitted,
    rejection: crate::contract::Rejection,
)
    ensures
        state.engine_step(EngineEvent::QuestionPresented { socket, presented }) == state,
        state.engine_step(EngineEvent::VerdictAccepted { socket, accepted }) == state,
        state.engine_step(EngineEvent::AnswerProposalAdmitted { socket, admitted }) == state,
        state.engine_step(EngineEvent::Rejected { socket, rejection }) == state,
{
}

/// Folding a projection replaces the approval queue with the questions the
/// projection carries rather than accumulating, records the projection as the
/// socket's latest, and — when it is a full projection on the Mentci socket —
/// mirrors its criome access and pane and puts the cursor on its question.
pub proof fn lemma_fold_replaces_projection(
    state: ObservationState,
    socket: ComponentSocketKind,
    projected: ProjectedInterfaceState,
)
    requires
        state.well_formed(),
    ensures
        ({
            let next = state.folded(socket, projected);
            &&& next.approval.pending == projected.projected_questions()
            &&& next.sockets.contains_key(socket.order_key())
            &&& next.sockets[socket.order_key()].latest_state() == Some(projected)
            &&& socket == ComponentSocketKind::Mentci ==> next.mirrored_access()
                == projected.projected_access()
            &&& socket == ComponentSocketKind::Mentci ==> next.mirrored_pane()
                == projected.projected_pane()
            &&& (projected.interface_projection matches crate::contract::InterfaceProjection::FullProjection(
                full,
            ) ==> next.approval.current() == Some(full.approval_question))
        }),
{
    let next = state.folded(socket, projected);
    if let crate::contract::InterfaceProjection::FullProjection(full) = projected.interface_projection {
        let question = full.approval_question;
        let pending = projected.projected_questions();
        assert(pending[0] == question);
        let identifier = next.approval.selected.unwrap();
        crate::approval::lemma_absorbed_keeps_well_formed(state.approval, pending);
        assert(crate::approval::names_question(pending[0], identifier));
        assert(crate::approval::is_first_match(pending, identifier, 0));
        crate::approval::lemma_first_match(pending, identifier, 0);
    }
}

/// The observation lifecycle of one socket: observing marks it connecting,
/// records the interest and asks the daemon under the model's subscriber name;
/// the daemon's open reply marks it connected, records the minted token (so
/// pushes on that token are folded) and folds the opening projection.
pub proof fn lemma_observation_lifecycle(
    state: ObservationState,
    socket: ComponentSocketKind,
    interest: InterfaceInterest,
    opened: crate::contract::InterfaceObservationOpened,
)
    requires
        state.well_formed(),
    ensures
        ({
            let (observing, commands) = state.user_step(UserEvent::Observe { socket, interest });
            let slot = observing.sockets[socket.order_key()];
            &&& observing.sockets.contains_key(socket.order_key())
            &&& slot.observed_liveness() == SocketLiveness::Connecting
            &&& slot.observed_interest() == Some(interest)
            &&& commands == seq![
                Cmd::SendRequest {
                    socket,
                    request: MentciRequest::ObserveInterfaceState(
                        InterfaceStateObservation {
                            subscriber_name: state.subscriber,
                            interface_interest: interest,
                        },
                    ),
                },
            ]
        }),
        ({
            let open = state.engine_step(EngineEvent::ObservationOpened { socket, opened });
            let slot = open.sockets[socket.order_key()];
            &&& open.sockets.contains_key(socket.order_key())
            &&& slot.observed_liveness() == SocketLiveness::Connected
            &&& slot.held_token() == Some(opened.subscription_token)
            &&& open.holds_token(socket, opened.subscription_token)
            &&& slot.latest_state() == Some(opened.projected_interface_state)
            &&& open.approval.pending == opened.projected_interface_state.projected_questions()
        }),
{
}

/// A connection change records the event's liveness on the socket's slot,
/// whatever the slot held before, and leaves the slot's token, interest and
/// latest projection, every other socket, and the approval state as they were.
pub proof fn lemma_connection_change_records_liveness(
    state: ObservationState,
    socket: ComponentSocketKind,
    liveness: SocketLiveness,
)
    ensures
        ({
            let next = state.engine_step(EngineEvent::ConnectionChanged { socket, liveness });
            let key = socket.order_key();
            &&& next.sockets.contains_key(key)
            &&& next.sockets[key].observed_liveness() == liveness
            &&& next.sockets[key].held_token() == state.slot_or_fresh(socket).held_token()
            &&& next.sockets[key].observed_interest() == state.slot_or_fresh(
                socket,
            ).observed_interest()
            &&& next.sockets[key].latest_state() == state.slot_or_fresh(socket).latest_state()
            &&& forall|other: u8|
                other != key ==> (#[trigger] next.sockets.contains_key(other)
                    == state.sockets.contains_key(other) && (state.sockets.contains_key(other)
                    ==> next.sockets[other] == state.sockets[other]))
            &&& next.approval == state.approval
            &&& next.subscriber == state.subscriber
        }),
{
}

/// Presenting a question leaves the model as it is and sends exactly one
/// request to the named socket, carrying the proposal unchanged — its source,
/// including any criome escalation slot the daemon routes the answer by, and
/// all its texts.
pub proof fn lemma_push_question_passes_proposal_through(
    state: ObservationState,
    socket: ComponentSocketKind,
    proposal: QuestionProposal,
)
    ensures
        ({
            let (next, commands) = state.user_step(UserEvent::PushQuestion { socket, proposal });
            &&& next == state
            &&& commands.len() == 1
            &&& commands[0].target() == socket
            &&& commands[0] == Cmd::SendRequest {
                socket,
                request: MentciRequest::PresentQuestion(proposal),
            }
            &&& (commands[0] matches Cmd::SendRequest {
                request: MentciRequest::PresentQuestion(sent),
                ..
            } ==> sent.approval_source == proposal.approval_source)
        }),
{
}

// ── The model ───────────────────────────────────────────────────────────────

/// The client model. One per Mentci session. Owns per-socket observations and
/// the client-side approval cursor. The subscriber name identifies this model
/// to every daemon it observes.
#[derive(Debug, Clone)]
pub struct ObservationModel {
    subscriber: SubscriberName,
    sockets: BTreeMap<u8, SocketObservation>,
    approval: ApprovalModel,
}

impl ObservationModel {
    /// The abstract state of this model.
    pub closed spec fn state(&self) -> ObservationState {
        ObservationState {
            subscriber: self.subscriber,
            sockets: self.sockets@,
            approval: self.approval.state(),
        }
    }

    /// Construct a fresh model identified by a subscriber name. No
    /// observations are open until the runtime dispatches the commands the
    /// model returns.
    pub fn new(subscriber: SubscriberName) -> (model: Self)
        ensures
            model.state().subscriber == subscriber,
            model.state().sockets == Map::<u8, SocketObservation>::empty(),
            model.state().approval == ApprovalState::initial(),
            model.state().well_formed(),
    {
        ObservationModel { subscriber, sockets: BTreeMap::new(), approval: ApprovalModel::default() }
    }

    /// Read the approval cursor (selection, queue, fan-out state).
    pub fn approval(&self) -> (approval: &ApprovalModel)
        ensures
            approval.state() == self.state().approval,
    {
        &self.approval
    }

    /// The subscriber name this model presents to every daemon it observes.
    pub fn subscriber(&self) -> (subscriber: &SubscriberName)
        ensures
            *subscriber == self.state().subscriber,
    {
        &self.subscriber
    }

    /// Read one socket's observation slot.
    pub fn socket(&self, kind: ComponentSocketKind) -> (slot: Option<&SocketObservation>)
        ensures
            match slot {
                Some(observation) => self.state().sockets.contains_key(kind.order_key())
                    && self.state().sockets[kind.order_key()] == *observation,
                None => !self.state().sockets.contains_key(kind.order_key()),
            },
    {
        self.sockets.get(&kind.key())
    }

    /// Apply a user gesture. Returns the side-effects the runtime dispatches.
    pub fn on_user_event(&mut self, event: UserEvent) -> (commands: Vec<Cmd>)
        requires
            old(self).state().well_formed(),
        ensures
            (final(self).state(), commands@) == old(self).state().user_step(event),
            final(self).state().well_formed(),
    {
        match event {
            UserEvent::Observe { socket, interest } => {
                let mut slot = self.take_slot(socket);
                slot.interest = Some(interest);
                slot.liveness = SocketLiveness::Connecting;
                self.put_slot(socket, slot);
                proof {
                    assert(self.sockets@ =~= old(self).state().user_step(event).0.sockets);
                }
                let mut commands: Vec<Cmd> = Vec::new();
                commands.push(
                    Cmd::send(
                        socket,
                        MentciRequest::ObserveInterfaceState(
                            InterfaceStateObservation {
                                subscriber_name: self.subscriber.clone(),
                                interface_interest: interest,
                            },
                        ),
                    ),
                );
                proof {
                    assert(commands@ =~= old(self).state().user_step(event).1);
                }
                commands
            },
            UserEvent::RetractObservation { socket, token } => {
                let mut commands: Vec<Cmd> = Vec::new();
                commands.push(Cmd::send(socket, MentciRequest::RetractInterfaceObservation(token)));
                proof {
                    assert(commands@ =~= old(self).state().user_step(event).1);
                }
                commands
            },
            UserEvent::SelectQuestion { question } => {
                // A local cursor move; the daemon owns no per-client
                // selection, so no command leaves the model.
                let _ = self.approval.select(question);
                Vec::new()
            },
            UserEvent::AnswerQuestion { verdict } => {
                // Clients reach criome only through the Mentci daemon: a closed
                // answer goes to the daemon over the Mentci socket, and the
                // daemon routes criome-sourced verdicts by the parked slot.
                let outcome = self.approval.answer(verdict.clone());
                let mut commands: Vec<Cmd> = Vec::new();
                if outcome.verdict().is_some() {
                    commands.push(
                        Cmd::send(ComponentSocketKind::Mentci, MentciRequest::AnswerQuestion(verdict)),
                    );
                }
                proof {
                    assert(commands@ =~= old(self).state().user_step(event).1);
                }
                commands
            },
            UserEvent::ProposeEditedAnswer { proposal } => {
                let mut commands: Vec<Cmd> = Vec::new();
                commands.push(
                    Cmd::send(ComponentSocketKind::Mentci, MentciRequest::ProposeEditedAnswer(proposal)),
                );
                proof {
                    assert(commands@ =~= old(self).state().user_step(event).1);
                }
                commands
            },
            UserEvent::PushQuestion { socket, proposal } => {
                let mut commands: Vec<Cmd> = Vec::new();
                commands.push(Cmd::send(socket, MentciRequest::PresentQuestion(proposal)));
                proof {
                    assert(commands@ =~= old(self).state().user_step(event).1);
                }
                commands
            },
        }
    }

    /// Fold a daemon-originated event into the model. Returns any follow-up
    /// side-effects (none: the model is push-driven).
    pub fn on_engine_event(&mut self, event: EngineEvent) -> (commands: Vec<Cmd>)
        requires
            old(self).state().well_formed(),
        ensures
            final(self).state() == old(self).state().engine_step(event),
            final(self).state().well_formed(),
            commands@.len() == 0,
    {
        match event {
            EngineEvent::ObservationOpened { socket, opened } => {
                let mut slot = self.take_slot(socket);
                slot.token = Some(opened.subscription_token);
                slot.liveness = SocketLiveness::Connected;
                self.put_slot(socket, slot);
                proof {
                    let ghost opened_state = ObservationState {
                        sockets: old(self).state().sockets.insert(
                            socket.order_key(),
                            SocketObservation {
                                token: Some(opened.subscription_token),
                                liveness: SocketLiveness::Connected,
                                ..old(self).state().slot_or_fresh(socket)
                            },
                        ),
                        ..old(self).state()
                    };
                    assert(self.sockets@ =~= opened_state.sockets);
                    assert(self.state() == opened_state);
                }
                self.fold_projection(socket, opened.projected_interface_state);
                Vec::new()
            },
            EngineEvent::InterfaceStateChanged { socket, token, state } => {
                let held = match self.sockets.get(&socket.key()) {
                    Some(slot) => match &slot.token {
                        Some(held) => held.same_as(&token),
                        None => false,
                    },
                    None => false,
                };
                if !held {
                    // A push for a token the model does not hold is ignored
                    // rather than folding foreign state.
                    return Vec::new();
                }
                self.fold_projection(socket, state);
                Vec::new()
            },
            EngineEvent::QuestionPresented { .. }
            | EngineEvent::VerdictAccepted { .. }
            | EngineEvent::AnswerProposalAdmitted { .. }
            | EngineEvent::Rejected { .. } => {
                // Acknowledgements: the canonical change arrives as the next
                // state push, which re-folds the queue.
                Vec::new()
            },
            EngineEvent::ConnectionChanged { socket, liveness } => {
                let mut slot = self.take_slot(socket);
                let ghost new_liveness = liveness;
                slot.liveness = liveness;
                self.put_slot(socket, slot);
                proof {
                    assert(self.sockets@ =~= old(self).state().sockets.insert(
                        socket.order_key(),
                        SocketObservation { liveness: new_liveness, ..old(self).state().slot_or_fresh(socket) },
                    ));
                }
                Vec::new()
            },
        }
    }

    /// Derive the per-frame snapshot.
    pub fn view(&self) -> (view: ObservationView)
        ensures
            view.sockets@.len() == observed_keys_below(self.state().sockets, 6).len(),
            forall|i: int|
                0 <= i < view.sockets@.len() ==> row_shows(
                    #[trigger] view.sockets@[i],
                    observed_keys_below(self.state().sockets, 6)[i],
                    self.state().sockets[observed_keys_below(self.state().sockets, 6)[i]],
                ),
            view.approval == self.state().approval.snapshot(),
            view.pane == self.state().mirrored_pane(),
            view.criome_access == self.state().mirrored_access(),
    {
        let mut rows: Vec<SocketView> = Vec::new();
        let mut key: u8 = 0;
        while key < 6
            invariant
                key <= 6,
                rows@.len() == observed_keys_below(self.sockets@, key as nat).len(),
                forall|i: int|
                    0 <= i < rows@.len() ==> row_shows(
                        #[trigger] rows@[i],
                        observed_keys_below(self.sockets@, key as nat)[i],
                        self.sockets@[observed_keys_below(self.sockets@, key as nat)[i]],
                    ),
            decreases 6 - key,
        {
            let ghost before = observed_keys_below(self.sockets@, key as nat);
            match self.sockets.get(&key) {
                Some(slot) => {
                    rows.push(
                        SocketView {
                            socket: ComponentSocketLabel::from(ComponentSocketKind::from_key(key)),
                            liveness: slot.liveness.clone(),
                            revision: slot.revision(),
                            has_state: slot.latest.is_some(),
                        },
                    );
                    proof {
                        assert(observed_keys_below(self.sockets@, (key + 1) as nat) == before.push(
                            key,
                        ));
                    }
                },
                None => {
                    proof {
                        assert(observed_keys_below(self.sockets@, (key + 1) as nat) == before);
                    }
                },
            }
            key = key + 1;
        }
        let mentci = self.sockets.get(&ComponentSocketKind::Mentci.key());
        let (pane, criome_access) = match mentci {
            Some(slot) => match &slot.latest {
                Some(state) => (state.pane(), state.criome_access()),
                None => (None, None),
            },
            None => (None, None),
        };
        ObservationView { sockets: rows, approval: self.approval.view(), pane, criome_access }
    }

    /// Fold one projected state into a socket slot and refresh the approval
    /// cursor from its pending-question slice.
    fn fold_projection(&mut self, socket: ComponentSocketKind, state: ProjectedInterfaceState)
        requires
            old(self).state().well_formed(),
        ensures
            final(self).state() == old(self).state().folded(socket, state),
            final(self).state().well_formed(),
    {
        let ghost projected = state;
        let pending = state.pending_questions();
        let mut slot = self.take_slot(socket);
        slot.latest = Some(state);
        self.put_slot(socket, slot);
        proof {
            assert(self.sockets@ =~= old(self).state().folded(socket, projected).sockets);
        }
        let _ = self.approval.absorb_pending(pending);
    }

    /// Take a socket's slot out of the map (a fresh one when absent).
    fn take_slot(&mut self, socket: ComponentSocketKind) -> (slot: SocketObservation)
        requires
            old(self).state().well_formed(),
        ensures
            slot == old(self).state().slot_or_fresh(socket),
            final(self).state() == (ObservationState {
                sockets: old(self).state().sockets.remove(socket.order_key()),
                ..old(self).state()
            }),
            final(self).state().well_formed(),
    {
        match self.sockets.remove(&socket.key()) {
            Some(slot) => slot,
            None => SocketObservation::default(),
        }
    }

    /// Put a socket's slot back into the map.
    fn put_slot(&mut self, socket: ComponentSocketKind, slot: SocketObservation)
        requires
            old(self).state().well_formed(),
        ensures
            final(self).state() == (ObservationState {
                sockets: old(self).state().sockets.insert(socket.order_key(), slot),
                ..old(self).state()
            }),
            final(self).state().well_formed(),
    {
        self.sockets.insert(socket.key(), slot);
    }
}

/// The per-frame snapshot a shell paints. Pure data, no GUI types.
#[derive(Debug, Clone, PartialEq, Eq)]
pub struct ObservationView {
    /// One header row per observed component socket, in socket order.
    pub sockets: Vec<SocketView>,
    /// The approval surface snapshot.
    pub approval: ApprovalView,
    /// The pane of the latest full Mentci projection.
    pub pane: Option<PaneContent>,
    /// The criome access level mirrored from the Mentci daemon's latest full
    /// projection. `None` until a full projection is folded; clients treat
    /// `None` as observation-only.
    pub criome_access: Option<CriomeAccess>,
}

/// One observed socket's header row.
#[derive(Debug, Clone, PartialEq, Eq)]
pub struct SocketView {
    pub socket: ComponentSocketLabel,
    pub liveness: SocketLiveness,
    pub revision: Option<u64>,
    pub has_state: bool,
}

/// Form the gesture that presents a question on a socket — a method on the
/// proposal noun.
pub trait PresentableQuestion {
    fn present_on(self, socket: ComponentSocketKind) -> UserEvent;
}

impl PresentableQuestion for QuestionProposal {
    fn present_on(self, socket: ComponentSocketKind) -> (event: UserEvent)
        ensures
            event == (UserEvent::PushQuestion { socket, proposal: self }),
    {
        UserEvent::PushQuestion { socket, proposal: self }
    }
}

} // verus!
