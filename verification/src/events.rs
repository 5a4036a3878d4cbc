//! The messages by which the frontend asks for window control.
use vstd::prelude::*;

verus! {

/// `serde_json::Value`: any JSON value, carried as an opaque value.
#[verifier::external_type_specification]
#[verifier::external_body]
pub struct ExJsonValue(serde_json::Value);

/// What the frontend may ask of the window.
#[derive(Debug, Clone, Copy, PartialEq, Eq, Structural)]
pub enum WindowControl {
    Minimize,
    Maximize,
    UnMaximize,
    Close,
    GetSize,
    GetPosition,
    SetSize { width: u32, height: u32 },
    SetPosition { x: i32, y: i32 },
}

/// One call of the frontend: its number, its event, and an optional value.
#[derive(Debug, Clone, PartialEq)]
pub struct Payload<T> {
    pub id: i32,
    pub event: T,
    pub value: Option<serde_json::Value>,
}

/// The envelope in which a call arrives.
#[derive(Debug, Clone, PartialEq)]
pub struct WindowControlMessage<T> {
    pub payload: Payload<T>,
}

impl<T> WindowControlMessage<T> {
    /// A call without a value.
    pub fn new(id: i32, event: T) -> (message: Self)
        ensures
            message.payload.id == id,
            message.payload.event == event,
            message.payload.value is None,
    {
        WindowControlMessage { payload: Payload { id, event, value: None } }
    }

    /// A call with a value.
    pub fn with_value(id: i32, event: T, value: serde_json::Value) -> (message: Self)
        ensures
            message.payload.id == id,
            message.payload.event == event,
            message.payload.value == Some(value),
    {
        WindowControlMessage { payload: Payload { id, event, value: Some(value) } }
    }
}

} // verus!
