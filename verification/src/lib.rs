//! A background agent's core for publishing a synthetic "game clock" to a
//! local peripheral-illumination service.
//!
//! The crate holds the verified logic of the agent: the time mapping from
//! wall-clock seconds to the accelerated in-game clock, the JSON framing of
//! the four protocol payloads, the debounced process-presence detector, and
//! the tick-driven mode controller.  The surrounding process (tray menu,
//! HTTP transport, configuration file, OS process table) hands plain values
//! in and carries prepared requests out.

pub mod data_structure;
pub mod text;
pub mod json;
pub mod game_sense_service;
pub mod tarkov_detector;
pub mod controller;
pub mod tarkov_time;
