//! The Mentci wire vocabulary the client model speaks: component sockets,
//! approval questions and verdicts, projected interface state, and the
//! requests a client sends to a daemon.
//!
//! Every record here is plain data. Identifiers are text; the model compares
//! them by their character sequence (`@`), and copies them with `clone`, which
//! is proved to return an equal value.

use vstd::prelude::*;

verus! {

// ── Component sockets ───────────────────────────────────────────────────────

/// The component sockets a Mentci client can observe.
#[derive(Debug, Clone, Copy, PartialEq, Eq, Hash, Structural)]
pub enum ComponentSocketKind {
    Mentci,
    MetaMentci,
    Criome,
    MetaCriome,
    Introspect,
    MetaIntrospect,
}

impl ComponentSocketKind {
    /// The stable order key of a socket kind, used to keep per-socket
    /// observations in a fixed order.
    pub open spec fn order_key(self) -> u8 {
        match self {
            ComponentSocketKind::Mentci => 0,
            ComponentSocketKind::MetaMentci => 1,
            ComponentSocketKind::Criome => 2,
            ComponentSocketKind::MetaCriome => 3,
            ComponentSocketKind::Introspect => 4,
            ComponentSocketKind::MetaIntrospect => 5,
        }
    }

    /// The socket kind an order key stands for; every key from 5 upward
    /// stands for the last kind.
    pub open spec fn of_order_key(key: u8) -> ComponentSocketKind {
        if key == 0 {
            ComponentSocketKind::Mentci
        } else if key == 1 {
            ComponentSocketKind::MetaMentci
        } else if key == 2 {
            ComponentSocketKind::Criome
        } else if key == 3 {
            ComponentSocketKind::MetaCriome
        } else if key == 4 {
            ComponentSocketKind::Introspect
        } else {
            ComponentSocketKind::MetaIntrospect
        }
    }

    pub fn key(self) -> (key: u8)
        ensures
            key == self.order_key(),
            key < 6,
    {
        match self {
            ComponentSocketKind::Mentci => 0,
            ComponentSocketKind::MetaMentci => 1,
            ComponentSocketKind::Criome => 2,
            ComponentSocketKind::MetaCriome => 3,
            ComponentSocketKind::Introspect => 4,
            ComponentSocketKind::MetaIntrospect => 5,
        }
    }

    pub fn from_key(key: u8) -> (kind: ComponentSocketKind)
        ensures
            kind == ComponentSocketKind::of_order_key(key),
    {
        if key == 0 {
            ComponentSocketKind::Mentci
        } else if key == 1 {
            ComponentSocketKind::MetaMentci
        } else if key == 2 {
            ComponentSocketKind::Criome
        } else if key == 3 {
            ComponentSocketKind::MetaCriome
        } else if key == 4 {
            ComponentSocketKind::Introspect
        } else {
            ComponentSocketKind::MetaIntrospect
        }
    }
}

/// Taking a socket kind to its order key and back gives the same kind, and
/// two kinds share a key only when they are the same kind.
pub proof fn lemma_order_key_round_trip(kind: ComponentSocketKind, other: ComponentSocketKind)
    ensures
        ComponentSocketKind::of_order_key(kind.order_key()) == kind,
        kind.order_key() < 6,
        kind.order_key() == other.order_key() ==> kind == other,
{
}

// ── Text identifiers ────────────────────────────────────────────────────────

/// Daemon-minted identifier of one approval question.
#[derive(Debug, PartialEq, Eq, Hash)]
pub struct QuestionIdentifier(pub String);

impl View for QuestionIdentifier {
    type V = Seq<char>;

    open spec fn view(&self) -> Seq<char> {
        self.0@
    }
}

impl Clone for QuestionIdentifier {
    fn clone(&self) -> (copy: Self)
        ensures
            copy == *self,
    {
        QuestionIdentifier(self.0.clone())
    }
}

impl QuestionIdentifier {
    pub fn new(text: &str) -> (identifier: Self)
        ensures
            identifier@ == text@,
    {
        QuestionIdentifier(String::from_str(text))
    }

    pub fn as_str(&self) -> (text: &str)
        ensures
            text@ == self@,
    {
        self.0.as_str()
    }

    /// Whether two identifiers name the same question.
    pub fn same_as(&self, other: &QuestionIdentifier) -> (same: bool)
        ensures
            same == (self@ == other@),
    {
        self.0 == other.0
    }
}

/// The name a client presents to every daemon it observes.
#[derive(Debug, PartialEq, Eq, Hash)]
pub struct SubscriberName(pub String);

impl View for SubscriberName {
    type V = Seq<char>;

    open spec fn view(&self) -> Seq<char> {
        self.0@
    }
}

impl Clone for SubscriberName {
    fn clone(&self) -> (copy: Self)
        ensures
            copy == *self,
    {
        SubscriberName(self.0.clone())
    }
}

impl SubscriberName {
    pub fn new(text: &str) -> (name: Self)
        ensures
            name@ == text@,
    {
        SubscriberName(String::from_str(text))
    }

    pub fn as_str(&self) -> (text: &str)
        ensures
            text@ == self@,
    {
        self.0.as_str()
    }
}

/// Daemon-minted token of one open interface-state observation.
#[derive(Debug, PartialEq, Eq, Hash)]
pub struct SubscriptionToken(pub String);

impl View for SubscriptionToken {
    type V = Seq<char>;

    open spec fn view(&self) -> Seq<char> {
        self.0@
    }
}

impl Clone for SubscriptionToken {
    fn clone(&self) -> (copy: Self)
        ensures
            copy == *self,
    {
        SubscriptionToken(self.0.clone())
    }
}

impl SubscriptionToken {
    pub fn new(text: &str) -> (token: Self)
        ensures
            token@ == text@,
    {
        SubscriptionToken(String::from_str(text))
    }

    pub fn as_str(&self) -> (text: &str)
        ensures
            text@ == self@,
    {
        self.0.as_str()
    }

    /// Whether two tokens are the same token.
    pub fn same_as(&self, other: &SubscriptionToken) -> (same: bool)
        ensures
            same == (self@ == other@),
    {
        self.0 == other.0
    }
}

/// The slot criome parked an authorization request under.
#[derive(Debug, PartialEq, Eq, Hash)]
pub struct AuthorizationRequestSlot(pub String);

impl View for AuthorizationRequestSlot {
    type V = Seq<char>;

    open spec fn view(&self) -> Seq<char> {
        self.0@
    }
}

impl Clone for AuthorizationRequestSlot {
    fn clone(&self) -> (copy: Self)
        ensures
            copy == *self,
    {
        AuthorizationRequestSlot(self.0.clone())
    }
}

impl AuthorizationRequestSlot {
    pub fn new(text: &str) -> (slot: Self)
        ensures
            slot@ == text@,
    {
        AuthorizationRequestSlot(String::from_str(text))
    }

    pub fn as_str(&self) -> (text: &str)
        ensures
            text@ == self@,
    {
        self.0.as_str()
    }
}

// ── Approval questions and verdicts ─────────────────────────────────────────

/// Where an approval question came from. A criome escalation carries the
/// request slot criome parked, which is what lets the daemon route the answer.
#[derive(Debug, PartialEq, Eq)]
pub enum ApprovalSource {
    AgentQuestion,
    CriomeEscalation(AuthorizationRequestSlot),
}

impl Clone for ApprovalSource {
    fn clone(&self) -> (copy: Self)
        ensures
            copy == *self,
    {
        match self {
            ApprovalSource::AgentQuestion => ApprovalSource::AgentQuestion,
            ApprovalSource::CriomeEscalation(slot) => ApprovalSource::CriomeEscalation(
                slot.clone(),
            ),
        }
    }
}

/// Labelled context shown beside a question.
#[derive(Debug, PartialEq, Eq)]
pub struct QuestionContext {
    pub context_label: String,
    pub context_body: String,
}

impl Clone for QuestionContext {
    fn clone(&self) -> (copy: Self)
        ensures
            copy == *self,
    {
        QuestionContext {
            context_label: self.context_label.clone(),
            context_body: self.context_body.clone(),
        }
    }
}

/// The body of a question a client asks the daemon to present.
#[derive(Debug, PartialEq, Eq)]
pub struct QuestionProposal {
    pub approval_source: ApprovalSource,
    pub prompt_text: String,
    pub answer_text: String,
    pub explanation_text: String,
    pub question_context: QuestionContext,
}

impl Clone for QuestionProposal {
    fn clone(&self) -> (copy: Self)
        ensures
            copy == *self,
    {
        QuestionProposal {
            approval_source: self.approval_source.clone(),
            prompt_text: self.prompt_text.clone(),
            answer_text: self.answer_text.clone(),
            explanation_text: self.explanation_text.clone(),
            question_context: self.question_context.clone(),
        }
    }
}

/// One approval question the daemon holds, with its minted identifier.
#[derive(Debug, PartialEq, Eq)]
pub struct ApprovalQuestion {
    pub question_identifier: QuestionIdentifier,
    pub question_proposal: QuestionProposal,
}

impl Clone for ApprovalQuestion {
    fn clone(&self) -> (copy: Self)
        ensures
            copy == *self,
    {
        ApprovalQuestion {
            question_identifier: self.question_identifier.clone(),
            question_proposal: self.question_proposal.clone(),
        }
    }
}

/// The closed choice a verdict makes.
#[derive(Debug, Clone, Copy, PartialEq, Eq, Structural)]
pub enum ApprovalDecision {
    ApproveSuggestedAnswer,
    Reject,
    Defer,
}

/// A closed verdict on one question.
#[derive(Debug, PartialEq, Eq)]
pub struct ApprovalVerdict {
    pub question_identifier: QuestionIdentifier,
    pub approval_decision: ApprovalDecision,
    pub subscriber_name: SubscriberName,
}

impl Clone for ApprovalVerdict {
    fn clone(&self) -> (copy: Self)
        ensures
            copy == *self,
    {
        ApprovalVerdict {
            question_identifier: self.question_identifier.clone(),
            approval_decision: self.approval_decision,
            subscriber_name: self.subscriber_name.clone(),
        }
    }
}

/// An edited answer, submitted as a new proposal object rather than as a
/// verdict.
#[derive(Debug, Clone, PartialEq, Eq)]
pub struct AnswerProposal {
    pub question_identifier: QuestionIdentifier,
    pub answer_text: String,
    pub subscriber_name: SubscriberName,
}

// ── Projected interface state ───────────────────────────────────────────────

/// Which slice of the daemon's interface state an observation asks for.
#[derive(Debug, Clone, Copy, PartialEq, Eq, Structural)]
pub enum InterfaceInterest {
    FullInterfaceState,
    Status,
    Notification,
    PendingQuestions,
}

/// The criome access level the daemon holds and mirrors to its clients.
#[derive(Debug, Clone, Copy, PartialEq, Eq, Structural)]
pub enum CriomeAccess {
    ReadOnly,
    ReadWrite,
}

/// One daemon-projected pane.
#[derive(Debug, PartialEq, Eq)]
pub struct PaneContent {
    pub pane_label: String,
    pub context_body: String,
}

impl Clone for PaneContent {
    fn clone(&self) -> (copy: Self)
        ensures
            copy == *self,
    {
        PaneContent { pane_label: self.pane_label.clone(), context_body: self.context_body.clone() }
    }
}

/// The daemon's whole interface state.
#[derive(Debug, Clone, PartialEq, Eq)]
pub struct InterfaceState {
    pub revision_counter: u64,
    pub status_text: String,
    pub notification_text: String,
    pub pane_content: PaneContent,
    pub approval_question: ApprovalQuestion,
    pub criome_access: CriomeAccess,
}

/// The slice of interface state one observation carries.
#[derive(Debug, Clone, PartialEq, Eq)]
pub enum InterfaceProjection {
    FullProjection(InterfaceState),
    StatusProjection(String),
    NotificationProjection(String),
    PendingQuestionsProjection(ApprovalQuestion),
}

/// A projected interface state at one revision.
#[derive(Debug, Clone, PartialEq, Eq)]
pub struct ProjectedInterfaceState {
    pub revision_counter: u64,
    pub interface_projection: InterfaceProjection,
}

impl ProjectedInterfaceState {
    /// The approval questions this projection carries: the full projection's
    /// question, the pending-questions projection's question, and none for a
    /// status or notification projection.
    pub open spec fn projected_questions(self) -> Seq<ApprovalQuestion> {
        match self.interface_projection {
            InterfaceProjection::FullProjection(state) => seq![state.approval_question],
            InterfaceProjection::PendingQuestionsProjection(question) => seq![question],
            _ => Seq::empty(),
        }
    }

    /// The criome access a full projection mirrors; other projections carry
    /// none.
    pub open spec fn projected_access(self) -> Option<CriomeAccess> {
        match self.interface_projection {
            InterfaceProjection::FullProjection(state) => Some(state.criome_access),
            _ => None,
        }
    }

    /// The pane a full projection carries; other projections carry none.
    pub open spec fn projected_pane(self) -> Option<PaneContent> {
        match self.interface_projection {
            InterfaceProjection::FullProjection(state) => Some(state.pane_content),
            _ => None,
        }
    }

    pub fn pending_questions(&self) -> (questions: Vec<ApprovalQuestion>)
        ensures
            questions@ == self.projected_questions(),
    {
        let mut questions: Vec<ApprovalQuestion> = Vec::new();
        match &self.interface_projection {
            InterfaceProjection::FullProjection(state) => {
                questions.push(state.approval_question.clone());
            },
            InterfaceProjection::PendingQuestionsProjection(question) => {
                questions.push(question.clone());
            },
            _ => {},
        }
        proof {
            assert(questions@ =~= self.projected_questions());
        }
        questions
    }

    pub fn criome_access(&self) -> (access: Option<CriomeAccess>)
        ensures
            access == self.projected_access(),
    {
        match &self.interface_projection {
            InterfaceProjection::FullProjection(state) => Some(state.criome_access),
            _ => None,
        }
    }

    pub fn pane(&self) -> (pane: Option<PaneContent>)
        ensures
            pane == self.projected_pane(),
    {
        match &self.interface_projection {
            InterfaceProjection::FullProjection(state) => Some(state.pane_content.clone()),
            _ => None,
        }
    }
}

// ── Requests and replies ────────────────────────────────────────────────────

/// Opening an interface-state observation under a subscriber name.
#[derive(Debug, Clone, PartialEq, Eq)]
pub struct InterfaceStateObservation {
    pub subscriber_name: SubscriberName,
    pub interface_interest: InterfaceInterest,
}

/// The daemon's answer to an observation: its minted token and the opening
/// projected state.
#[derive(Debug, Clone, PartialEq, Eq)]
pub struct InterfaceObservationOpened {
    pub subscription_token: SubscriptionToken,
    pub projected_interface_state: ProjectedInterfaceState,
}

/// The daemon admitted a presented question.
#[derive(Debug, Clone, PartialEq, Eq)]
pub struct QuestionPresented {
    pub question_identifier: QuestionIdentifier,
    pub revision_counter: u64,
    pub timestamp_nanos: u64,
}

/// The daemon accepted a verdict.
#[derive(Debug, Clone, PartialEq, Eq)]
pub struct VerdictAccepted {
    pub question_identifier: QuestionIdentifier,
    pub revision_counter: u64,
}

/// The daemon admitted an edited-answer proposal as a new object.
#[derive(Debug, Clone, PartialEq, Eq)]
pub struct AnswerProposalAdmitted {
    pub question_identifier: QuestionIdentifier,
    pub proposal_digest: String,
}

/// The daemon rejected a request.
#[derive(Debug, Clone, PartialEq, Eq)]
pub struct Rejection {
    pub reason: String,
}

/// A request a client sends to a Mentci daemon.
#[derive(Debug, Clone, PartialEq, Eq)]
pub enum MentciRequest {
    ObserveInterfaceState(InterfaceStateObservation),
    RetractInterfaceObservation(SubscriptionToken),
    AnswerQuestion(ApprovalVerdict),
    ProposeEditedAnswer(AnswerProposal),
    PresentQuestion(QuestionProposal),
}

// ── Criome authorization vocabulary ─────────────────────────────────────────

/// Criome's decision on a parked authorization request.
#[derive(Debug, Clone, Copy, PartialEq, Eq, Structural)]
pub enum AuthorizationApprovalDecision {
    Approve,
    Reject,
    Defer,
}

} // verus!
