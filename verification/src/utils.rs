//! A builder for the description of a render pipeline.
//!
//! The builder does not know what a shader stage, a texture format or a
//! topology is: it stores whatever its caller's graphics API calls by these
//! names, and decides what a description is made of once all of it is in.

use vstd::prelude::*;

verus! {

/// How a pipeline tests and writes depth.
pub struct DepthState<Format, Compare> {
    pub format: Format,
    pub depth_write_enabled: bool,
    pub depth_compare: Compare,
}

/// Why a description cannot be built.
#[derive(Debug, Clone, Copy, PartialEq, Eq, Structural)]
pub enum BuildError {
    /// No vertex stage was given.
    MissingVertex,
}

/// What a render pipeline is created from. A part that is `None` is left to
/// the default of the graphics API.
pub struct PipelineParts<Label, Layout, Vertex, Fragment, Format, Compare, Topology> {
    pub label: Option<Label>,
    pub layout: Option<Layout>,
    pub vertex: Vertex,
    pub fragment: Option<Fragment>,
    pub depth_stencil: Option<DepthState<Format, Compare>>,
    pub topology: Option<Topology>,
}

/// Collects the parts of a render pipeline one by one.
pub struct RenderPipelineBuilder<Label, Layout, Vertex, Fragment, Format, Compare, Topology> {
    pub label: Option<Label>,
    pub layout: Option<Layout>,
    pub vertex: Option<Vertex>,
    pub fragment: Option<Fragment>,
    pub depth_stencil: Option<DepthState<Format, Compare>>,
    pub topology: Option<Topology>,
}

impl<Label, Layout, Vertex, Fragment, Format, Compare, Topology> RenderPipelineBuilder<
    Label,
    Layout,
    Vertex,
    Fragment,
    Format,
    Compare,
    Topology,
> {
    /// A builder that has been given nothing yet.
    pub fn new() -> (builder: Self)
        ensures
            builder.label is None,
            builder.layout is None,
            builder.vertex is None,
            builder.fragment is None,
            builder.depth_stencil is None,
            builder.topology is None,
    {
        RenderPipelineBuilder {
            label: None,
            layout: None,
            vertex: None,
            fragment: None,
            depth_stencil: None,
            topology: None,
        }
    }

    /// The builder with `value` as its label.
    pub fn label(self, value: Label) -> (builder: Self)
        ensures
            builder == (RenderPipelineBuilder { label: Some(value), ..self }),
    {
        RenderPipelineBuilder { label: Some(value), ..self }
    }

    /// The builder with `layout` as its pipeline layout.
    pub fn layout(self, layout: Layout) -> (builder: Self)
        ensures
            builder == (RenderPipelineBuilder { layout: Some(layout), ..self }),
    {
        RenderPipelineBuilder { layout: Some(layout), ..self }
    }

    /// The builder with `state` as its vertex stage.
    pub fn vertex(self, state: Vertex) -> (builder: Self)
        ensures
            builder == (RenderPipelineBuilder { vertex: Some(state), ..self }),
    {
        RenderPipelineBuilder { vertex: Some(state), ..self }
    }

    /// The builder with `state` as its fragment stage.
    pub fn fragment(self, state: Fragment) -> (builder: Self)
        ensures
            builder == (RenderPipelineBuilder { fragment: Some(state), ..self }),
    {
        RenderPipelineBuilder { fragment: Some(state), ..self }
    }

    /// The depth state after `format` and `depth_compare` have been asked
    /// for: a builder that has a depth state keeps it and takes over the
    /// format only; one that has none gets a depth state that writes depth
    /// and compares as asked.
    pub open spec fn depth_of(
        current: Option<DepthState<Format, Compare>>,
        format: Format,
        depth_compare: Compare,
    ) -> DepthState<Format, Compare> {
        match current {
            Some(state) => DepthState { format, ..state },
            None => DepthState { format, depth_write_enabled: true, depth_compare },
        }
    }

    /// The builder with depth testing in `format`. The first call decides
    /// how depth is compared; later calls change the format only.
    pub fn depth(self, format: Format, depth_compare: Compare) -> (builder: Self)
        ensures
            builder == (RenderPipelineBuilder {
                depth_stencil: Some(Self::depth_of(self.depth_stencil, format, depth_compare)),
                ..self
            }),
    {
        let RenderPipelineBuilder { label, layout, vertex, fragment, depth_stencil, topology } =
            self;
        let state = match depth_stencil {
            Some(state) => DepthState { format, ..state },
            None => DepthState { format, depth_write_enabled: true, depth_compare },
        };
        RenderPipelineBuilder {
            label,
            layout,
            vertex,
            fragment,
            depth_stencil: Some(state),
            topology,
        }
    }

    /// The builder with `value` as the topology of its primitives.
    pub fn topology(self, value: Topology) -> (builder: Self)
        ensures
            builder == (RenderPipelineBuilder { topology: Some(value), ..self }),
    {
        RenderPipelineBuilder { topology: Some(value), ..self }
    }

    /// The parts that were collected. Fails when no vertex stage is among
    /// them.
    pub fn build(self) -> (parts: Result<
        PipelineParts<Label, Layout, Vertex, Fragment, Format, Compare, Topology>,
        BuildError,
    >)
        ensures
            parts is Ok <==> self.vertex is Some,
            parts matches Ok(parts) ==> parts == (PipelineParts {
                label: self.label,
                layout: self.layout,
                vertex: self.vertex->0,
                fragment: self.fragment,
                depth_stencil: self.depth_stencil,
                topology: self.topology,
            }),
            parts matches Err(error) ==> error == BuildError::MissingVertex,
    {
        let RenderPipelineBuilder { label, layout, vertex, fragment, depth_stencil, topology } =
            self;
        match vertex {
            Some(vertex) => Ok(
                PipelineParts { label, layout, vertex, fragment, depth_stencil, topology },
            ),
            None => Err(BuildError::MissingVertex),
        }
    }
}

} // verus!
