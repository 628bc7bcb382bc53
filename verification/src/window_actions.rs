//! Window actions: the actor that turns window-chrome UI events into
//! commands for the native window, and the adapter's reading of raw UI
//! values into those events.

use vstd::prelude::*;

verus! {

/// Edge or corner a window is resized from.
#[derive(Clone, Copy, Debug, PartialEq, Eq, Structural)]
pub enum ResizeEdge {
    North,
    South,
    West,
    East,
    NorthWest,
    NorthEast,
    SouthWest,
    SouthEast,
}

/// Width class of a window.
#[derive(Clone, Copy, Debug, PartialEq, Eq, Structural)]
pub enum WindowBreakpoint {
    Sm,
    Md,
    Lg,
}

/// Width class as the UI reports it.
#[derive(Clone, Copy, Debug, PartialEq, Eq, Structural)]
pub enum WindowSize {
    Sm,
    Md,
    Lg,
}

/// Messages the window-actions actor handles.
#[derive(Clone, Copy, Debug, PartialEq, Eq, Structural)]
pub enum WindowActionsMsg {
    Drag,
    Close,
    Minimize,
    Maximize,
    StartResize(ResizeEdge),
    ConfigChanged(WindowBreakpoint, u64),
}

/// Commands to the native window.
#[derive(Clone, Copy, Debug, PartialEq, Eq, Structural)]
pub enum UiWindowActionsPortMsg {
    Drag,
    Close,
    Minimize,
    ToggleMaximize,
    Resize(ResizeEdge),
}

/// Signal that the window's width class or width changed.
#[derive(Clone, Copy, Debug, PartialEq, Eq, Structural)]
pub struct WindowConfigChanged {
    pub breakpoint: WindowBreakpoint,
    pub width: u64,
}

/// What the actor does with a message.
#[derive(Clone, Copy, Debug, PartialEq, Eq, Structural)]
pub enum WindowActorEffect {
    /// Send the command to the window port.
    Send(UiWindowActionsPortMsg),
    /// Publish the signal.
    Publish(WindowConfigChanged),
}

/// The effect of `msg`.
pub open spec fn window_effect(msg: WindowActionsMsg) -> WindowActorEffect {
    match msg {
        WindowActionsMsg::Drag => WindowActorEffect::Send(UiWindowActionsPortMsg::Drag),
        WindowActionsMsg::Close => WindowActorEffect::Send(UiWindowActionsPortMsg::Close),
        WindowActionsMsg::Minimize => WindowActorEffect::Send(UiWindowActionsPortMsg::Minimize),
        WindowActionsMsg::Maximize => WindowActorEffect::Send(UiWindowActionsPortMsg::ToggleMaximize),
        WindowActionsMsg::StartResize(edge) => WindowActorEffect::Send(
            UiWindowActionsPortMsg::Resize(edge),
        ),
        WindowActionsMsg::ConfigChanged(breakpoint, width) => WindowActorEffect::Publish(
            WindowConfigChanged { breakpoint, width },
        ),
    }
}

/// Actor that drives a window through its port `P`.
pub struct WindowActor<P> {
    pub port: P,
}

impl<P> WindowActor<P> {
    /// Handles `msg`: window commands go to the port (maximize toggles),
    /// configuration changes are published.
    pub fn handle(&self, msg: WindowActionsMsg) -> (r: WindowActorEffect)
        ensures
            r == window_effect(msg),
    {
        match msg {
            WindowActionsMsg::Drag => WindowActorEffect::Send(UiWindowActionsPortMsg::Drag),
            WindowActionsMsg::Close => WindowActorEffect::Send(UiWindowActionsPortMsg::Close),
            WindowActionsMsg::Minimize => WindowActorEffect::Send(UiWindowActionsPortMsg::Minimize),
            WindowActionsMsg::Maximize => WindowActorEffect::Send(
                UiWindowActionsPortMsg::ToggleMaximize,
            ),
            WindowActionsMsg::StartResize(edge) => WindowActorEffect::Send(
                UiWindowActionsPortMsg::Resize(edge),
            ),
            WindowActionsMsg::ConfigChanged(breakpoint, width) => WindowActorEffect::Publish(
                WindowConfigChanged { breakpoint, width },
            ),
        }
    }
}

/// The resize edge the UI encodes as `v`: 0 to 7 stand for north, south,
/// west, east, north-west, north-east, south-west and south-east.
pub open spec fn edge_of_index(v: i32) -> Option<ResizeEdge> {
    if v == 0 {
        Some(ResizeEdge::North)
    } else if v == 1 {
        Some(ResizeEdge::South)
    } else if v == 2 {
        Some(ResizeEdge::West)
    } else if v == 3 {
        Some(ResizeEdge::East)
    } else if v == 4 {
        Some(ResizeEdge::NorthWest)
    } else if v == 5 {
        Some(ResizeEdge::NorthEast)
    } else if v == 6 {
        Some(ResizeEdge::SouthWest)
    } else if v == 7 {
        Some(ResizeEdge::SouthEast)
    } else {
        None
    }
}

/// Resize edge encoded as `v` by the UI; other values are ignored.
pub fn resize_edge_from_index(v: i32) -> (r: Option<ResizeEdge>)
    ensures
        r == edge_of_index(v),
{
    match v {
        0 => Some(ResizeEdge::North),
        1 => Some(ResizeEdge::South),
        2 => Some(ResizeEdge::West),
        3 => Some(ResizeEdge::East),
        4 => Some(ResizeEdge::NorthWest),
        5 => Some(ResizeEdge::NorthEast),
        6 => Some(ResizeEdge::SouthWest),
        7 => Some(ResizeEdge::SouthEast),
        _ => None,
    }
}

/// The UI index of `edge` (the inverse of `edge_of_index`).
pub open spec fn index_of_edge(edge: ResizeEdge) -> i32 {
    match edge {
        ResizeEdge::North => 0,
        ResizeEdge::South => 1,
        ResizeEdge::West => 2,
        ResizeEdge::East => 3,
        ResizeEdge::NorthWest => 4,
        ResizeEdge::NorthEast => 5,
        ResizeEdge::SouthWest => 6,
        ResizeEdge::SouthEast => 7,
    }
}

/// Breakpoint of the width class the UI reports.
pub fn breakpoint_for_size(size: WindowSize) -> (r: WindowBreakpoint)
    ensures
        size is Sm ==> r is Sm,
        size is Md ==> r is Md,
        size is Lg ==> r is Lg,
{
    match size {
        WindowSize::Sm => WindowBreakpoint::Sm,
        WindowSize::Md => WindowBreakpoint::Md,
        WindowSize::Lg => WindowBreakpoint::Lg,
    }
}


/// Every resize edge has an index by which the UI names it, and the
/// adapter reads that index back as the same edge; indices outside 0 to 7
/// name no edge.
pub proof fn law_resize_index_round_trip(edge: ResizeEdge, v: i32)
    ensures
        edge_of_index(index_of_edge(edge)) == Some(edge),
        (v < 0 || v > 7) ==> edge_of_index(v) is None,
{
}

/// Every message yields exactly one effect, and only configuration changes
/// are published; the rest are window commands.
pub proof fn law_only_config_changes_are_published(msg: WindowActionsMsg)
    ensures
        window_effect(msg) is Publish <==> msg is ConfigChanged,
{
}

/// Starting a resize from an edge asks the port to resize from that very
/// edge, whichever edge it is; a configuration change is published with the
/// breakpoint and width it carries.
pub proof fn law_resize_keeps_its_edge(edge: ResizeEdge, breakpoint: WindowBreakpoint, width: u64)
    ensures
        window_effect(WindowActionsMsg::StartResize(edge)) == WindowActorEffect::Send(
            UiWindowActionsPortMsg::Resize(edge),
        ),
        window_effect(WindowActionsMsg::ConfigChanged(breakpoint, width)) == WindowActorEffect::Publish(
            WindowConfigChanged { breakpoint, width },
        ),
{
}

/// The window commands reach the port as the same commands: drag as drag,
/// close as close, minimize as minimize, and maximize as a toggle of the
/// maximized state.
pub proof fn law_commands_reach_the_port()
    ensures
        window_effect(WindowActionsMsg::Drag) == WindowActorEffect::Send(UiWindowActionsPortMsg::Drag),
        window_effect(WindowActionsMsg::Close) == WindowActorEffect::Send(UiWindowActionsPortMsg::Close),
        window_effect(WindowActionsMsg::Minimize) == WindowActorEffect::Send(UiWindowActionsPortMsg::Minimize),
        window_effect(WindowActionsMsg::Maximize) == WindowActorEffect::Send(
            UiWindowActionsPortMsg::ToggleMaximize,
        ),
{
}

} // verus!
