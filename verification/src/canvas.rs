//! What the canvas does about the events of its window.
//!
//! The window and the drawing surface belong to the caller. It reports what
//! happened as an `Input` or a `Frame`, and carries out the `Reaction` or the
//! `FrameAction` it gets back.

use vstd::prelude::*;

verus! {

/// A key of the keyboard, as far as the canvas tells keys apart.
#[derive(Debug, Clone, Copy, PartialEq, Eq, Structural)]
pub enum Key {
    Escape,
    Space,
    Other,
}

/// A button of the pointer, as far as the canvas tells buttons apart.
#[derive(Debug, Clone, Copy, PartialEq, Eq, Structural)]
pub enum Button {
    Left,
    Other,
}

/// An event of the window.
#[derive(Debug, Clone, Copy, PartialEq, Eq, Structural)]
pub enum Input {
    /// The user asked for the window to be closed.
    CloseRequested,
    /// The window has a new inner size, in pixels.
    Resized { width: u32, height: u32 },
    /// The window has to be drawn again.
    RedrawRequested,
    /// The modifier keys changed.
    ModifiersChanged,
    /// The pointer moved.
    CursorMoved,
    /// A button of the pointer went down or up.
    Mouse { button: Button, pressed: bool },
    /// A key went down or up.
    Keyboard { key: Key, pressed: bool },
    /// Anything else.
    Other,
}

/// What the caller has to do about an event.
#[derive(Debug, Clone, Copy, PartialEq, Eq, Structural)]
pub enum Reaction {
    /// Leave the event loop.
    Exit,
    /// Give the surface and the camera the size `width` by `height`.
    Resize { width: u32, height: u32 },
    /// Draw a frame.
    Render,
    /// Nothing.
    Nothing,
}

/// The size a surface is configured with for a window of `width` by `height`
/// pixels: the same, but at least one pixel each way.
pub open spec fn surface_extent_of(width: u32, height: u32) -> (u32, u32) {
    (
        if width == 0 {
            1u32
        } else {
            width
        },
        if height == 0 {
            1u32
        } else {
            height
        },
    )
}

/// The size a surface is configured with for a window of `width` by `height`
/// pixels.
pub fn surface_extent(width: u32, height: u32) -> (extent: (u32, u32))
    ensures
        extent == surface_extent_of(width, height),
        extent.0 >= 1 && extent.1 >= 1,
        extent.0 >= width && extent.1 >= height,
{
    (
        if width == 0 {
            1
        } else {
            width
        },
        if height == 0 {
            1
        } else {
            height
        },
    )
}

/// What the canvas does about `input`. Before the canvas exists every event
/// is ignored. After that, a close request and a press of Escape end the
/// loop, a new size is taken over as the surface takes it, a redraw request
/// draws a frame, and everything else is ignored.
pub fn react(has_canvas: bool, input: Input) -> (reaction: Reaction)
    ensures
        !has_canvas ==> reaction == Reaction::Nothing,
        has_canvas ==> (reaction == Reaction::Exit <==> input == Input::CloseRequested || input
            == (Input::Keyboard { key: Key::Escape, pressed: true })),
        has_canvas ==> (reaction == Reaction::Render <==> input == Input::RedrawRequested),
        has_canvas ==> (reaction is Resize <==> input is Resized),
        has_canvas ==> forall|width: u32, height: u32|
            input == (Input::Resized { width, height }) ==> reaction == (Reaction::Resize {
                width: surface_extent_of(width, height).0,
                height: surface_extent_of(width, height).1,
            }),
{
    if !has_canvas {
        return Reaction::Nothing;
    }
    match input {
        Input::CloseRequested => Reaction::Exit,
        Input::Resized { width, height } => {
            let extent = surface_extent(width, height);
            Reaction::Resize { width: extent.0, height: extent.1 }
        },
        Input::RedrawRequested => Reaction::Render,
        Input::Keyboard { key: Key::Escape, pressed: true } => Reaction::Exit,
        _ => Reaction::Nothing,
    }
}

/// How asking the surface for its next frame ended.
#[derive(Debug, Clone, Copy, PartialEq, Eq, Structural)]
pub enum Frame {
    /// The surface handed out a frame.
    Ready,
    /// The surface no longer matches its window; it will after the resize
    /// that is on its way.
    Outdated,
    /// The surface failed in any other way.
    Failed,
}

/// What the caller has to do about a frame.
#[derive(Debug, Clone, Copy, PartialEq, Eq, Structural)]
pub enum FrameAction {
    /// Draw into the frame and present it.
    Draw,
    /// Skip this frame.
    Skip,
    /// Report the failure and leave the event loop.
    Exit,
}

/// What the canvas does about `frame`: it draws into a frame it got, waits
/// out one that is outdated, and gives up on any other failure.
pub fn frame_action(frame: Frame) -> (action: FrameAction)
    ensures
        action == FrameAction::Draw <==> frame == Frame::Ready,
        action == FrameAction::Skip <==> frame == Frame::Outdated,
        action == FrameAction::Exit <==> frame == Frame::Failed,
{
    match frame {
        Frame::Ready => FrameAction::Draw,
        Frame::Outdated => FrameAction::Skip,
        Frame::Failed => FrameAction::Exit,
    }
}

} // verus!
