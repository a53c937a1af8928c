//! The mode controller: the single state machine behind the control loop.
//!
//! The surrounding process owns the loop itself — it blocks on the command
//! queue with a one-second deadline, carries prepared requests over HTTP
//! and updates the tray labels.  Every decision is made here: what a
//! command does, whether a tick publishes, and exactly which request goes
//! out when one does.

use vstd::prelude::*;
use vstd::string::StringExecFns;
use crate::data_structure::{
    BindEventDefinition, DataField, Event, EventData, Game, GameMetadata, ScreenHandler,
    ScreenHandlerData, ScreenHandlerDataLine,
};
use crate::game_sense_service::{
    GameSenseService, PostRequest, json_of_bind_event_definition, json_of_game_metadata,
    json_of_screen_handler, json_of_screen_handler_data, json_of_screen_handler_data_line,
    json_of_data_field, jsons_of_frame, jsons_of_handlers, jsons_of_datas, jsons_of_lines,
    jsons_of_data_fields, json_of_frame_pair,
};
use crate::json::{json_array, json_bool, json_i32, json_join, json_string};
use crate::tarkov_detector::TarkovDetector;
use crate::tarkov_time::{calculate_tarkov_time, left_time_spec, right_time_spec};

verus! {

/// The operating mode, changed only by an explicit user command.
#[derive(Debug, Clone, Copy, PartialEq, Eq, Structural)]
pub enum Mode {
    Enable,
    Disable,
    GameDetection,
}

/// A user command handed into the control loop from the menu.
#[derive(Debug, Clone, Copy, PartialEq, Eq, Structural)]
pub enum Message {
    Quit,
    QuitWithRemove,
    ModeChangeEnable,
    ModeChangeDisable,
    ModeChangeGameDetection,
}

/// The game identifier every payload carries.
pub fn game_key() -> (r: &'static str)
    ensures
        r@ == "TARKOV_TIME"@,
{
    "TARKOV_TIME"
}

/// Whether a tick publishes: always when enabled, never when disabled, and
/// on the presence verdict in detection mode.
pub open spec fn should_publish(mode: Mode, present: bool) -> bool {
    mode is Enable || (mode is GameDetection && present)
}

/// The publish decisions of a run of ticks in one mode, given the presence
/// verdict at each tick.  Ticks never change the mode, so one mode governs
/// the whole run.
pub open spec fn run_ticks(mode: Mode, presence: Seq<bool>) -> Seq<bool> {
    presence.map_values(|p: bool| should_publish(mode, p))
}

/// After a disable command, no number of ticks publishes, whatever the
/// presence detector reports.
pub proof fn lemma_disabled_never_publishes(presence: Seq<bool>)
    ensures
        forall|k: int| 0 <= k < presence.len() ==> !run_ticks(Mode::Disable, presence)[k],
{
}

/// In detection mode a tick publishes exactly when the presence verdict of
/// that tick is true.
pub proof fn lemma_detection_publishes_iff_present(presence: Seq<bool>)
    ensures
        forall|k: int| 0 <= k < presence.len() ==> run_ticks(Mode::GameDetection, presence)[k]
            == presence[k],
{
}

/// The JSON body of the telemetry request published at wall-clock second
/// `t`: value 1 and a frame carrying the two clock readouts.
pub open spec fn publish_body_spec(t: int) -> Seq<char> {
    "{\"game\":"@ + json_string("TARKOV_TIME"@) + ",\"event\":"@ + json_string("TIME"@)
        + ",\"data\":"@ + ("{\"value\":"@ + json_i32(1) + ",\"frame\":{"@ + json_join(
        seq![
            json_string("time-left"@) + seq![':'] + json_string(left_time_spec(t)),
            json_string("time-right"@) + seq![':'] + json_string(right_time_spec(t)),
        ],
    ) + "}}"@) + "}"@
}

/// The JSON body of the registration request.
pub open spec fn register_body_spec() -> Seq<char> {
    "{\"game\":"@ + json_string("TARKOV_TIME"@) + ",\"game_display_name\":"@ + json_string(
        "Escape From Tarkov Time"@,
    ) + ",\"developer\":"@ + json_string("marcin212"@) + ",\"deinitialize_timer_length_ms\":"@
        + json_i32(5000) + "}"@
}

/// The JSON body of the deregistration request.
pub open spec fn remove_body_spec() -> Seq<char> {
    "{\"game\":"@ + json_string("TARKOV_TIME"@) + "}"@
}

/// The JSON text of the one display line binding `key`.
pub open spec fn bind_line_spec(key: Seq<char>) -> Seq<char> {
    "{\"has-text\":"@ + json_bool(true) + ",\"context-frame-key\":"@ + json_string(key)
        + ",\"wrap\":"@ + json_i32(0) + "}"@
}

/// The JSON body of the event-binding request: one screened handler whose
/// two lines show the two clock readouts, and one data field.
pub open spec fn bind_body_spec() -> Seq<char> {
    "{\"game\":"@ + json_string("TARKOV_TIME"@) + ",\"event\":"@ + json_string("TIME"@)
        + ",\"icon_id\":"@ + json_i32(15) + ",\"value_optional\":"@ + json_bool(true)
        + ",\"handlers\":"@ + json_array(
        seq![
            "{\"device-type\":"@ + json_string("screened"@) + ",\"zone\":"@ + json_string("one"@)
                + ",\"mode\":"@ + json_string("screen"@) + ",\"datas\":"@ + json_array(
                seq![
                    "{\"lines\":"@ + json_array(
                        seq![bind_line_spec("time-left"@), bind_line_spec("time-right"@)],
                    ) + ",\"icon-id\":"@ + json_i32(15) + "}"@,
                ],
            ) + "}"@,
        ],
    ) + ",\"data_fields\":"@ + json_array(
        seq![
            "{\"context-frame-key\":"@ + json_string("time"@) + ",\"label\":"@ + json_string(
                "Time"@,
            ) + "}"@,
        ],
    ) + "}"@
}

/// The registration payload the agent announces itself with.
pub fn default_game_metadata() -> (r: GameMetadata)
    ensures
        json_of_game_metadata(r) == register_body_spec(),
{
    let r = GameMetadata {
        game: String::from_str(game_key()),
        developer: String::from_str("marcin212"),
        deinitialize_timer_length_ms: 5000,
        game_display_name: String::from_str("Escape From Tarkov Time"),
    };
    assert(json_of_game_metadata(r) =~= register_body_spec());
    r
}

/// One display line of the event binding.
fn bind_line(key: &str) -> (r: ScreenHandlerDataLine)
    ensures
        json_of_screen_handler_data_line(r) == bind_line_spec(key@),
{
    let r = ScreenHandlerDataLine {
        context_frame_key: String::from_str(key),
        has_text: true,
        wrap: 0,
    };
    assert(json_of_screen_handler_data_line(r) =~= bind_line_spec(key@));
    r
}

/// The event binding the agent declares at startup.
pub fn default_bind_event_definition() -> (r: BindEventDefinition)
    ensures
        json_of_bind_event_definition(r) == bind_body_spec(),
{
    let mut lines: Vec<ScreenHandlerDataLine> = Vec::new();
    lines.push(bind_line("time-left"));
    lines.push(bind_line("time-right"));
    let data = ScreenHandlerData { icon_id: 15, lines };
    let mut datas: Vec<ScreenHandlerData> = Vec::new();
    proof {
        assert(jsons_of_lines(data.lines@) =~= seq![
            bind_line_spec("time-left"@),
            bind_line_spec("time-right"@),
        ]);
    }
    datas.push(data);
    let handler = ScreenHandler {
        zone: String::from_str("one"),
        device_type: String::from_str("screened"),
        mode: String::from_str("screen"),
        datas,
    };
    let mut handlers: Vec<ScreenHandler> = Vec::new();
    proof {
        assert(jsons_of_datas(handler.datas@) =~= seq![json_of_screen_handler_data(
            handler.datas@[0],
        )]);
    }
    handlers.push(handler);
    let field = DataField {
        label: String::from_str("Time"),
        context_frame_key: String::from_str("time"),
    };
    let mut data_fields: Vec<DataField> = Vec::new();
    data_fields.push(field);
    let r = BindEventDefinition {
        game: String::from_str(game_key()),
        event: String::from_str("TIME"),
        icon_id: 15,
        value_optional: true,
        handlers,
        data_fields,
    };
    proof {
        assert(jsons_of_handlers(r.handlers@) =~= seq![json_of_screen_handler(r.handlers@[0])]);
        assert(jsons_of_data_fields(r.data_fields@) =~= seq![json_of_data_field(
            r.data_fields@[0],
        )]);
        assert(json_of_bind_event_definition(r) =~= bind_body_spec());
    }
    r
}

/// The two startup requests, in order: register the game, then bind the
/// event.  Both must succeed before the control loop starts.
pub fn startup_requests(service: &GameSenseService) -> (r: (PostRequest, PostRequest))
    ensures
        r.0.url@ == service.url@ + "/"@ + "game_metadata"@,
        r.0.body@ == register_body_spec(),
        r.1.url@ == service.url@ + "/"@ + "bind_game_event"@,
        r.1.body@ == bind_body_spec(),
{
    let register = service.register_game(default_game_metadata());
    let bind = service.bind_game_event(default_bind_event_definition());
    (register, bind)
}

/// The controller: the current mode, the presence detector, and the
/// protocol client the requests are built against.
pub struct App {
    pub mode: Mode,
    pub detector: TarkovDetector,
    pub service: GameSenseService,
}

impl App {
    /// A fresh controller: detection mode, nothing seen yet, the detector's
    /// debounce window anchored at `now`.
    pub fn new(service: GameSenseService, now: u64) -> (r: App)
        ensures
            r.mode is GameDetection,
            r.service == service,
            r.detector.last_time == now,
            r.detector.is_running == false,
    {
        App { mode: Mode::GameDetection, detector: TarkovDetector::new(now), service }
    }

    /// Enters detection mode.
    pub fn on_game_detection_mode(&mut self)
        ensures
            final(self).mode is GameDetection,
            final(self).detector == old(self).detector,
            final(self).service == old(self).service,
    {
        self.mode = Mode::GameDetection;
    }

    /// Enters enabled mode.
    pub fn on_game_enable_mode(&mut self)
        ensures
            final(self).mode is Enable,
            final(self).detector == old(self).detector,
            final(self).service == old(self).service,
    {
        self.mode = Mode::Enable;
    }

    /// Enters disabled mode.
    pub fn on_game_disable_mode(&mut self)
        ensures
            final(self).mode is Disable,
            final(self).detector == old(self).detector,
            final(self).service == old(self).service,
    {
        self.mode = Mode::Disable;
    }

    /// Handles one user command, ahead of any tick: a mode change updates
    /// the mode and nothing else; a quit ends the loop, with the
    /// deregistration request prepared exactly on the teardown path.  The
    /// first component says whether the loop goes on.
    pub fn handle_message(&mut self, msg: Message) -> (r: (bool, Option<PostRequest>))
        ensures
            final(self).detector == old(self).detector,
            final(self).service == old(self).service,
            msg is Quit ==> !r.0 && r.1 is None && final(self).mode == old(self).mode,
            msg is QuitWithRemove ==> !r.0 && final(self).mode == old(self).mode && (
            r.1 matches Some(req) && req.url@ == old(self).service.url@ + "/"@ + "remove_game"@
                && req.body@ == remove_body_spec()),
            msg is ModeChangeEnable ==> r.0 && r.1 is None && final(self).mode is Enable,
            msg is ModeChangeDisable ==> r.0 && r.1 is None && final(self).mode is Disable,
            msg is ModeChangeGameDetection ==> r.0 && r.1 is None
                && final(self).mode is GameDetection,
    {
        match msg {
            Message::Quit => (false, None),
            Message::QuitWithRemove => {
                let game = Game { game: String::from_str(game_key()) };
                let req = self.service.remove_game(game);
                assert(req.body@ =~= remove_body_spec());
                (false, Some(req))
            },
            Message::ModeChangeEnable => {
                self.on_game_enable_mode();
                (true, None)
            },
            Message::ModeChangeDisable => {
                self.on_game_disable_mode();
                (true, None)
            },
            Message::ModeChangeGameDetection => {
                self.on_game_detection_mode();
                (true, None)
            },
        }
    }

    /// Prepares the telemetry request for wall-clock second `now`.
    fn publish_request(&self, now: u64) -> (r: PostRequest)
        ensures
            r.url@ == self.service.url@ + "/"@ + "game_event"@,
            r.body@ == publish_body_spec(now as int),
    {
        let time = calculate_tarkov_time(now);
        let mut frame: Vec<(String, String)> = Vec::new();
        frame.push((String::from_str("time-left"), time.left_time));
        frame.push((String::from_str("time-right"), time.right_time));
        let event = Event {
            event: String::from_str("TIME"),
            game: String::from_str(game_key()),
            data: EventData { value: 1, frame },
        };
        let ghost gev = event;
        let req = self.service.send_event(event);
        proof {
            assert(jsons_of_frame(gev.data.frame@) =~= seq![
                json_of_frame_pair(gev.data.frame@[0]),
                json_of_frame_pair(gev.data.frame@[1]),
            ]);
            assert(req.body@ =~= publish_body_spec(now as int));
        }
        req
    }

    /// One timer tick: decides by the mode — and, in detection mode, by the
    /// debounced presence verdict — whether to publish, and prepares the
    /// telemetry request exactly when it does.
    pub fn on_tick<F: Fn() -> bool>(&mut self, now: u64, scan: F) -> (r: Option<PostRequest>)
        requires
            call_requires(scan, ()),
        ensures
            final(self).mode == old(self).mode,
            final(self).service == old(self).service,
            r is Some <==> should_publish(old(self).mode, final(self).detector.is_running),
            r matches Some(req) ==> req.url@ == old(self).service.url@ + "/"@ + "game_event"@
                && req.body@ == publish_body_spec(now as int),
            old(self).mode is Disable ==> *final(self) == *old(self),
            old(self).mode is Enable ==> final(self).detector == old(self).detector,
            old(self).mode is GameDetection ==> (!old(self).detector.scan_due(now)
                ==> final(self).detector == old(self).detector),
    {
        let publish: bool = match self.mode {
            Mode::GameDetection => self.detector.tarkov_running(now, scan),
            Mode::Enable => true,
            Mode::Disable => false,
        };
        if publish {
            Some(self.publish_request(now))
        } else {
            None
        }
    }
}

} // verus!
