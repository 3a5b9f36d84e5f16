//! Layout intent: pane visibility and semantic pane sizes each shell maps to
//! its native layout idioms. Until the user asserts a layout record, the
//! built-in default applies.

use vstd::prelude::*;

verus! {

/// Layout intent currently applied.
#[derive(Debug, Clone, PartialEq, Eq)]
pub struct LayoutState {
    pub source: LayoutSource,
    pub intents: LayoutIntents,
}

/// Where the current layout comes from.
#[derive(Debug, Clone, Copy, PartialEq, Eq, Structural)]
pub enum LayoutSource {
    BuiltinDefault,
    /// A layout record the user asserted, by its store slot.
    UserAsserted { slot: u64 },
}

/// Named layout roles; each shell maps every `SizeIntent` to a native size.
#[derive(Debug, Clone, Copy, PartialEq, Eq, Structural)]
pub struct LayoutIntents {
    pub left_nav_width_intent: SizeIntent,
    pub inspector_width_intent: SizeIntent,
    pub diagnostics_height_intent: SizeIntent,
    pub wire_height_intent: SizeIntent,
    pub wire_pane_visible: bool,
    pub tweaks_pane_open: bool,
}

/// Semantic size hint that each shell maps to its native size system.
#[derive(Debug, Clone, Copy, PartialEq, Eq, Structural)]
pub enum SizeIntent {
    Narrow,
    Medium,
    Wide,
}

impl LayoutState {
    /// The built-in layout: narrow navigation, diagnostics and wire panes, a
    /// medium inspector, and the wire and tweaks panes closed.
    pub open spec fn builtin() -> LayoutState {
        LayoutState {
            source: LayoutSource::BuiltinDefault,
            intents: LayoutIntents {
                left_nav_width_intent: SizeIntent::Narrow,
                inspector_width_intent: SizeIntent::Medium,
                diagnostics_height_intent: SizeIntent::Narrow,
                wire_height_intent: SizeIntent::Narrow,
                wire_pane_visible: false,
                tweaks_pane_open: false,
            },
        }
    }

    /// Built-in default — shipped with every shell.
    pub fn builtin_default() -> (layout: Self)
        ensures
            layout == LayoutState::builtin(),
    {
        LayoutState {
            source: LayoutSource::BuiltinDefault,
            intents: LayoutIntents {
                left_nav_width_intent: SizeIntent::Narrow,
                inspector_width_intent: SizeIntent::Medium,
                diagnostics_height_intent: SizeIntent::Narrow,
                wire_height_intent: SizeIntent::Narrow,
                wire_pane_visible: false,
                tweaks_pane_open: false,
            },
        }
    }
}

impl Default for LayoutState {
    fn default() -> (layout: Self)
        ensures
            layout == LayoutState::builtin(),
    {
        Self::builtin_default()
    }
}

} // verus!
