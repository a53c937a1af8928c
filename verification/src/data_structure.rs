//! The value types of the protocol: the configuration record, the four
//! request payloads and their nested pieces.
//!
//! Every field is a plain value; the JSON text of each payload is defined in
//! the service module and proved against the builders there.

use vstd::prelude::*;

verus! {

/// The one configuration value the agent reads at startup: the service's
/// `host:port` address.
pub struct CoreProps {
    pub address: String,
}

/// Registration payload: identifies the game to the service.
pub struct GameMetadata {
    pub game: String,
    pub game_display_name: String,
    pub developer: String,
    pub deinitialize_timer_length_ms: i32,
}

/// One screen handler of an event binding: which device renders the event
/// and how.
pub struct ScreenHandler {
    pub device_type: String,
    pub zone: String,
    pub mode: String,
    pub datas: Vec<ScreenHandlerData>,
}

/// One display line of a screen handler, naming the context field it shows.
pub struct ScreenHandlerDataLine {
    pub has_text: bool,
    pub context_frame_key: String,
    pub wrap: i32,
}

/// The lines and icon of one screen handler.
pub struct ScreenHandlerData {
    pub lines: Vec<ScreenHandlerDataLine>,
    pub icon_id: i32,
}

/// Event-binding payload: declares the event and its screen handlers.
pub struct BindEventDefinition {
    pub game: String,
    pub event: String,
    pub icon_id: i32,
    pub value_optional: bool,
    pub handlers: Vec<ScreenHandler>,
    pub data_fields: Vec<DataField>,
}

/// One named data field of an event binding.
pub struct DataField {
    pub context_frame_key: String,
    pub label: String,
}

/// Telemetry payload sent on every publish.
pub struct Event {
    pub game: String,
    pub event: String,
    pub data: EventData,
}

/// Deregistration payload: names the game to remove.
pub struct Game {
    pub game: String,
}

/// The value and named string fields of a telemetry event.  The frame is a
/// list of `(key, value)` pairs so that the serialized order is fixed.
pub struct EventData {
    pub value: i32,
    pub frame: Vec<(String, String)>,
}

} // verus!
