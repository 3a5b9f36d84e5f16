//! [`UserEvent`] and [`EngineEvent`] — the two event kinds the client model
//! accepts. Closed enums; one variant per gesture or daemon push. A shell
//! forwards user events, the runtime raises engine events, and both flow
//! through the observation model, which returns commands.

use vstd::prelude::*;

use crate::contract::{
    AnswerProposal, AnswerProposalAdmitted, ApprovalVerdict, ComponentSocketKind,
    InterfaceInterest, InterfaceObservationOpened, ProjectedInterfaceState, QuestionIdentifier,
    QuestionPresented, QuestionProposal, Rejection, SubscriptionToken, VerdictAccepted,
};

verus! {

/// What a shell forwards when the user does something. Each variant maps to a
/// Mentci request the model turns into a command, or to a local cursor move.
#[derive(Debug, Clone, PartialEq, Eq)]
pub enum UserEvent {
    /// Open a projected-state observation on a component socket with a chosen
    /// interest. The daemon mints the token; the model records it on the open
    /// reply.
    Observe { socket: ComponentSocketKind, interest: InterfaceInterest },
    /// Close a previously-opened observation by its daemon-minted token.
    RetractObservation { socket: ComponentSocketKind, token: SubscriptionToken },
    /// Select which pending question the approval surface is focused on.
    SelectQuestion { question: QuestionIdentifier },
    /// Submit a closed verdict on a pending question.
    AnswerQuestion { verdict: ApprovalVerdict },
    /// Author a different answer as a new typed proposal object on the normal
    /// authorization path (edits are proposals, not verdicts).
    ProposeEditedAnswer { proposal: AnswerProposal },
    /// Push a question into the daemon's canonical state.
    PushQuestion { socket: ComponentSocketKind, proposal: QuestionProposal },
}

/// What the runtime raises when something arrives from a daemon connection.
#[derive(Debug, Clone, PartialEq, Eq)]
pub enum EngineEvent {
    /// A daemon accepted an observation and returned its minted token plus the
    /// opening projected snapshot.
    ObservationOpened { socket: ComponentSocketKind, opened: InterfaceObservationOpened },
    /// A subscription stream pushed a fresh projected state for a token.
    InterfaceStateChanged {
        socket: ComponentSocketKind,
        token: SubscriptionToken,
        state: ProjectedInterfaceState,
    },
    /// The daemon admitted a presented question and minted its identifier.
    QuestionPresented { socket: ComponentSocketKind, presented: QuestionPresented },
    /// The daemon accepted a verdict.
    VerdictAccepted { socket: ComponentSocketKind, accepted: VerdictAccepted },
    /// The daemon admitted an edited-answer proposal as a new object.
    AnswerProposalAdmitted { socket: ComponentSocketKind, admitted: AnswerProposalAdmitted },
    /// A daemon connection rejected a request.
    Rejected { socket: ComponentSocketKind, rejection: Rejection },
    /// A component socket connection changed liveness.
    ConnectionChanged { socket: ComponentSocketKind, liveness: SocketLiveness },
}

/// Liveness of one component-socket connection, surfaced in the header view.
#[derive(Debug, PartialEq, Eq)]
pub enum SocketLiveness {
    Disconnected,
    Connecting,
    Connected,
    Failed { reason: String },
}

impl Clone for SocketLiveness {
    fn clone(&self) -> (copy: Self)
        ensures
            copy == *self,
    {
        match self {
            SocketLiveness::Disconnected => SocketLiveness::Disconnected,
            SocketLiveness::Connecting => SocketLiveness::Connecting,
            SocketLiveness::Connected => SocketLiveness::Connected,
            SocketLiveness::Failed { reason } => SocketLiveness::Failed { reason: reason.clone() },
        }
    }
}

} // verus!
