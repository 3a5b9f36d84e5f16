//! The crate's one typed `Error`, and the human-readable component-socket
//! label its messages carry.

use vstd::prelude::*;

use crate::contract::ComponentSocketKind;

verus! {

/// Failures of the client model and of the introspect client.
#[derive(Debug, Clone, PartialEq, Eq)]
pub enum Error {
    /// A reply arrived for a component socket the model never opened an
    /// observation on, so it has no projection slot to fold it into.
    UnobservedSocket { socket: ComponentSocketLabel },
    /// A verdict or proposal named a question that is not in the pending
    /// queue the model currently holds.
    UnknownQuestion { question: String },
    /// A retract referenced a subscription token the model has no record of.
    UnknownSubscription { token: String },
    /// A daemon-minted token was expected on this reply but the daemon
    /// returned a shape that carried none.
    MissingSubscriptionToken,
    /// The model was asked to fold a reply variant into a slice of state it
    /// does not own.
    InvariantViolated { reason: String },
    /// The introspect-query socket connect / write / read failed.
    IntrospectSocket { detail: String },
    /// The introspect daemon answered with a frame the client does not accept.
    UnexpectedIntrospectFrame { detail: String },
}

pub type Result<T> = core::result::Result<T, Error>;

/// The label text of each component socket kind.
pub open spec fn socket_label_text(kind: ComponentSocketKind) -> Seq<char> {
    match kind {
        ComponentSocketKind::Mentci => "Mentci"@,
        ComponentSocketKind::MetaMentci => "MetaMentci"@,
        ComponentSocketKind::Criome => "Criome"@,
        ComponentSocketKind::MetaCriome => "MetaCriome"@,
        ComponentSocketKind::Introspect => "Introspect"@,
        ComponentSocketKind::MetaIntrospect => "MetaIntrospect"@,
    }
}

/// A human-readable component-socket label.
#[derive(Debug, PartialEq, Eq)]
pub struct ComponentSocketLabel(String);

impl Clone for ComponentSocketLabel {
    fn clone(&self) -> (copy: Self)
        ensures
            copy == *self,
    {
        ComponentSocketLabel(self.0.clone())
    }
}

impl ComponentSocketLabel {
    pub closed spec fn text(self) -> Seq<char> {
        self.0@
    }

    pub fn new(value: String) -> (label: Self)
        ensures
            label.text() == value@,
    {
        ComponentSocketLabel(value)
    }

    pub fn as_str(&self) -> (text: &str)
        ensures
            text@ == self.text(),
    {
        self.0.as_str()
    }
}

impl From<ComponentSocketKind> for ComponentSocketLabel {
    fn from(kind: ComponentSocketKind) -> (label: Self)
        ensures
            label.text() == socket_label_text(kind),
    {
        let text = match kind {
            ComponentSocketKind::Mentci => "Mentci",
            ComponentSocketKind::MetaMentci => "MetaMentci",
            ComponentSocketKind::Criome => "Criome",
            ComponentSocketKind::MetaCriome => "MetaCriome",
            ComponentSocketKind::Introspect => "Introspect",
            ComponentSocketKind::MetaIntrospect => "MetaIntrospect",
        };
        ComponentSocketLabel(String::from_str(text))
    }
}

/// The label's text is stated by `from`'s own `ensures`. Spec code cannot
/// build a `String`, so no single spec value is claimed equal to the result:
/// `obeys_from_spec` is `false`, and `from_spec` names some label with the
/// right text.
impl vstd::std_specs::convert::FromSpecImpl<ComponentSocketKind> for ComponentSocketLabel {
    open spec fn obeys_from_spec() -> bool {
        false
    }

    closed spec fn from_spec(kind: ComponentSocketKind) -> ComponentSocketLabel {
        choose|label: ComponentSocketLabel| label.0@ == socket_label_text(kind)
    }
}

} // verus!
