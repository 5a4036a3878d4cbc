//! The built-in answers to the frontend's window control calls.
use crate::events::{Payload, WindowControl};
use crate::taocket_window::WindowCommand;
use vstd::prelude::*;

verus! {

/// What the frontend is told in answer to a window control call.
#[derive(Debug, Clone, Copy, PartialEq, Eq, Structural)]
pub enum ControlReply {
    /// The inner size of the window, as `width` and `height`.
    Size,
    /// The outer position of the window, as `x` and `y`.
    Position,
    /// That the command was carried out, as `success`.
    Success,
}

/// What is to be done about a window control call: the command to apply to
/// the window, whether to end the loop, and what to answer under the call's
/// number. The command comes before the answer.
#[derive(Debug, Clone, Copy, PartialEq, Eq, Structural)]
pub struct ControlStep {
    pub id: i32,
    pub command: Option<WindowCommand>,
    pub close: bool,
    pub reply: Option<ControlReply>,
}

/// What is to be done about a window control call. Minimize, maximize and
/// unmaximize are applied without an answer; close ends the loop; the two
/// queries are answered and change nothing; the two setters are applied and
/// confirmed.
pub open spec fn control_step(id: i32, event: WindowControl) -> ControlStep {
    match event {
        WindowControl::Minimize => ControlStep {
            id,
            command: Some(WindowCommand::SetMinimized(true)),
            close: false,
            reply: None,
        },
        WindowControl::Maximize => ControlStep {
            id,
            command: Some(WindowCommand::SetMaximized(true)),
            close: false,
            reply: None,
        },
        WindowControl::UnMaximize => ControlStep {
            id,
            command: Some(WindowCommand::SetMaximized(false)),
            close: false,
            reply: None,
        },
        WindowControl::Close => ControlStep { id, command: None, close: true, reply: None },
        WindowControl::GetSize => ControlStep {
            id,
            command: None,
            close: false,
            reply: Some(ControlReply::Size),
        },
        WindowControl::GetPosition => ControlStep {
            id,
            command: None,
            close: false,
            reply: Some(ControlReply::Position),
        },
        WindowControl::SetSize { width, height } => ControlStep {
            id,
            command: Some(WindowCommand::SetInnerSize { width, height }),
            close: false,
            reply: Some(ControlReply::Success),
        },
        WindowControl::SetPosition { x, y } => ControlStep {
            id,
            command: Some(WindowCommand::SetOuterPosition { x, y }),
            close: false,
            reply: Some(ControlReply::Success),
        },
    }
}

/// Decides what is to be done about a window control call.
pub fn handle_window_control_internal(payload: &Payload<WindowControl>) -> (step: ControlStep)
    ensures
        step == control_step(payload.id, payload.event),
{
    let id = payload.id;
    match payload.event {
        WindowControl::Minimize => ControlStep {
            id,
            command: Some(WindowCommand::SetMinimized(true)),
            close: false,
            reply: None,
        },
        WindowControl::Maximize => ControlStep {
            id,
            command: Some(WindowCommand::SetMaximized(true)),
            close: false,
            reply: None,
        },
        WindowControl::UnMaximize => ControlStep {
            id,
            command: Some(WindowCommand::SetMaximized(false)),
            close: false,
            reply: None,
        },
        WindowControl::Close => ControlStep { id, command: None, close: true, reply: None },
        WindowControl::GetSize => ControlStep {
            id,
            command: None,
            close: false,
            reply: Some(ControlReply::Size),
        },
        WindowControl::GetPosition => ControlStep {
            id,
            command: None,
            close: false,
            reply: Some(ControlReply::Position),
        },
        WindowControl::SetSize { width, height } => ControlStep {
            id,
            command: Some(WindowCommand::SetInnerSize { width, height }),
            close: false,
            reply: Some(ControlReply::Success),
        },
        WindowControl::SetPosition { x, y } => ControlStep {
            id,
            command: Some(WindowCommand::SetOuterPosition { x, y }),
            close: false,
            reply: Some(ControlReply::Success),
        },
    }
}

} // verus!
