//! Tests of the smaller parts: socket keys and labels, the criome decision
//! mapping, rendering, the introspect client, connection and layout state.

use mentci_lib::connection::{ConnectionState, DaemonStatus, PerDaemonState};
use mentci_lib::contract::{
    ApprovalDecision, AuthorizationApprovalDecision, AuthorizationRequestSlot, ComponentSocketKind,
};
use mentci_lib::error::ComponentSocketLabel;
use mentci_lib::introspect::{IntrospectClient, DEFAULT_MAXIMUM_REPLY_BYTES};
use mentci_lib::layout::{LayoutSource, LayoutState, SizeIntent};
use mentci_lib::{CriomeDecision, CriomeVerdict, Error, RenderDotos, RenderOrigin};

const KINDS: [ComponentSocketKind; 6] = [
    ComponentSocketKind::Mentci,
    ComponentSocketKind::MetaMentci,
    ComponentSocketKind::Criome,
    ComponentSocketKind::MetaCriome,
    ComponentSocketKind::Introspect,
    ComponentSocketKind::MetaIntrospect,
];

#[test]
fn socket_keys_round_trip_in_order() {
    for (position, kind) in KINDS.iter().enumerate() {
        assert_eq!(kind.key() as usize, position);
        assert_eq!(ComponentSocketKind::from_key(kind.key()), *kind);
    }
    assert_eq!(ComponentSocketKind::from_key(200), ComponentSocketKind::MetaIntrospect);
}

#[test]
fn socket_labels_name_each_kind() {
    let labels: Vec<String> = KINDS
        .iter()
        .map(|kind| ComponentSocketLabel::from(*kind).as_str().to_string())
        .collect();
    assert_eq!(
        labels,
        vec!["Mentci", "MetaMentci", "Criome", "MetaCriome", "Introspect", "MetaIntrospect"]
    );
    assert_eq!(ComponentSocketLabel::new("custom".to_string()).as_str(), "custom");
}

#[test]
fn criome_decision_contact_point_maps_each_decision() {
    assert_eq!(
        CriomeDecision::from(ApprovalDecision::ApproveSuggestedAnswer).into_inner(),
        AuthorizationApprovalDecision::Approve
    );
    assert_eq!(
        CriomeDecision::from(ApprovalDecision::Reject).into_inner(),
        AuthorizationApprovalDecision::Reject
    );
    assert_eq!(
        CriomeDecision::from(ApprovalDecision::Defer).into_inner(),
        AuthorizationApprovalDecision::Defer
    );
    let verdict = CriomeVerdict::from_decision(
        AuthorizationRequestSlot::new("slot-9"),
        ApprovalDecision::Reject,
    );
    assert_eq!(verdict.request_slot().as_str(), "slot-9");
}

#[test]
fn render_origins_carry_their_labels() {
    assert_eq!(RenderOrigin::Request.label(), "request");
    assert_eq!(RenderOrigin::Reply.label(), "reply");
    assert_eq!(RenderOrigin::Event.label(), "event");
    assert_eq!(RenderOrigin::ProjectedState.label(), "projected state");
}

#[test]
fn any_debug_object_renders_with_its_origin() {
    let rendered = 42_u64.render_dotos(RenderOrigin::Event);
    assert_eq!(rendered.origin(), &RenderOrigin::Event);
    assert_eq!(rendered.body(), "42");
    assert_eq!(rendered.into_body(), "42".to_string());
}

#[test]
fn introspect_client_keeps_its_socket() {
    let client = IntrospectClient::new("/tmp/introspect.socket".to_string());
    assert_eq!(client.socket(), "/tmp/introspect.socket");
}

#[test]
fn reply_length_reads_the_big_endian_prefix() {
    let client = IntrospectClient::new("/tmp/introspect.socket".to_string());
    assert_eq!(client.reply_length([0, 0, 1, 2]).unwrap(), 258);
    assert_eq!(client.reply_length([0, 0, 0, 0]).unwrap(), 0);
    assert_eq!(client.reply_length([1, 0, 0, 0]).unwrap(), DEFAULT_MAXIMUM_REPLY_BYTES);
}

#[test]
fn reply_length_refuses_an_oversized_reply() {
    let client = IntrospectClient::new("/tmp/introspect.socket".to_string());
    match client.reply_length([1, 0, 0, 1]) {
        Err(Error::UnexpectedIntrospectFrame { detail }) => {
            assert_eq!(detail, "reply length 16777217 exceeds maximum 16777216");
        }
        other => panic!("expected an oversized-reply refusal, got {other:?}"),
    }
    assert!(client.reply_length([255, 255, 255, 255]).is_err());
}

#[test]
fn connections_start_disconnected() {
    let state = ConnectionState::new();
    assert_eq!(state.criome.status, DaemonStatus::Disconnected);
    assert_eq!(state.nexus.status, DaemonStatus::Disconnected);
    assert_eq!(state.criome.protocol_version, None);
    assert_eq!(state.nexus.last_disconnect_reason, None);
    assert_eq!(ConnectionState::default(), state);
    assert_eq!(PerDaemonState::disconnected(), state.criome);
}

#[test]
fn the_builtin_layout_hides_the_wire_and_tweaks_panes() {
    let layout = LayoutState::builtin_default();
    assert_eq!(layout.source, LayoutSource::BuiltinDefault);
    assert_eq!(layout.intents.left_nav_width_intent, SizeIntent::Narrow);
    assert_eq!(layout.intents.inspector_width_intent, SizeIntent::Medium);
    assert!(!layout.intents.wire_pane_visible);
    assert!(!layout.intents.tweaks_pane_open);
    assert_eq!(LayoutState::default(), layout);
}
