//! Fallback rendering of typed replies and unknown objects.
//!
//! A thin client paints whatever purpose-built view it has and falls back to
//! the typed object's textual projection for everything else. The renderer is
//! content-agnostic: anything with a `Debug` projection becomes a labelled
//! [`RenderedObject`].

use vstd::prelude::*;

verus! {

/// Where a rendered object came from, so the shell can label the block.
#[derive(Debug, Clone, Copy, PartialEq, Eq, Structural)]
pub enum RenderOrigin {
    /// A request the client sent.
    Request,
    /// A reply a daemon returned.
    Reply,
    /// A subscription event a daemon pushed.
    Event,
    /// Projected interface state.
    ProjectedState,
}

impl RenderOrigin {
    /// The label text of each origin.
    pub open spec fn label_text(self) -> Seq<char> {
        match self {
            RenderOrigin::Request => "request"@,
            RenderOrigin::Reply => "reply"@,
            RenderOrigin::Event => "event"@,
            RenderOrigin::ProjectedState => "projected state"@,
        }
    }

    pub fn label(&self) -> (label: &'static str)
        ensures
            label@ == self.label_text(),
    {
        match self {
            RenderOrigin::Request => "request",
            RenderOrigin::Reply => "reply",
            RenderOrigin::Event => "event",
            RenderOrigin::ProjectedState => "projected state",
        }
    }
}

/// One rendered object: the origin that labels it plus its textual body.
#[derive(Debug, Clone, PartialEq, Eq)]
pub struct RenderedObject {
    origin: RenderOrigin,
    body: String,
}

impl RenderedObject {
    pub closed spec fn rendered_origin(self) -> RenderOrigin {
        self.origin
    }

    pub closed spec fn rendered_body(self) -> Seq<char> {
        self.body@
    }

    pub fn origin(&self) -> (origin: &RenderOrigin)
        ensures
            *origin == self.rendered_origin(),
    {
        &self.origin
    }

    pub fn body(&self) -> (body: &str)
        ensures
            body@ == self.rendered_body(),
    {
        self.body.as_str()
    }

    pub fn into_body(self) -> (body: String)
        ensures
            body@ == self.rendered_body(),
    {
        self.body
    }
}

/// `std::fmt::Debug` formatting of an object (`format!("{:?}")`). What the
/// text holds is decided by the object's own `Debug` implementation, so no
/// clause is stated of it.
#[verifier::external_body]
fn debug_text<Object: core::fmt::Debug>(object: &Object) -> String {
    format!("{object:?}")
}

/// Project a typed object to a [`RenderedObject`]. Implemented for every type
/// with a `Debug` projection; a client calls `reply.render_dotos(RenderOrigin::Reply)`
/// on any reply, event, or unknown object and gets a uniformly-labelled block.
pub trait RenderDotos {
    fn render_dotos(&self, origin: RenderOrigin) -> RenderedObject;
}

impl<Object: core::fmt::Debug> RenderDotos for Object {
    fn render_dotos(&self, origin: RenderOrigin) -> (rendered: RenderedObject)
        ensures
            rendered.rendered_origin() == origin,
    {
        RenderedObject { origin, body: debug_text(self) }
    }
}

} // verus!
