//! mentci-lib — the shared observability + control model for the Mentci
//! programmable-UI component.
//!
//! - [`observation::ObservationModel`] — the MVU core, keyed by component
//!   socket: `update(state, event) -> (state, Vec<Cmd>)` and
//!   `view(state) -> ObservationView`.
//! - [`approval::ApprovalModel`] — the approval state machine: pending queue,
//!   selection cursor, verdict log, local subscription fan-out, closed verdicts
//!   and edits-as-proposals.
//! - [`render::RenderDotos`] — the fallback renderer for typed replies and
//!   unknown objects.
//! - [`decision::CriomeVerdict`] — the closed-decision → criome verdict
//!   mapping.
//!
//! The library is the application; each shell is the rendering.

pub mod approval;
pub mod cmd;
pub mod connection;
pub mod contract;
pub mod decision;
pub mod error;
pub mod event;
pub mod introspect;
pub mod layout;
pub mod observation;
pub mod render;

pub use cmd::Cmd;
pub use contract::{ComponentSocketKind, CriomeAccess};
pub use decision::{CriomeDecision, CriomeVerdict};
pub use error::{Error, Result};
pub use event::{EngineEvent, SocketLiveness, UserEvent};
pub use observation::{
    ObservationModel, ObservationView, PresentableQuestion, SocketObservation, SocketView,
};
pub use render::{RenderDotos, RenderOrigin, RenderedObject};
