use tarkov_time::data_structure::{
    BindEventDefinition, DataField, Event, EventData, Game, GameMetadata, ScreenHandler,
    ScreenHandlerData, ScreenHandlerDataLine,
};
use tarkov_time::game_sense_service::{
    bind_event_definition_body, event_body, game_body, game_metadata_body,
};

#[test]
fn game_metadata_body_text() {
    let m = GameMetadata {
        game: String::from("TARKOV_TIME"),
        game_display_name: String::from("Escape From Tarkov Time"),
        developer: String::from("marcin212"),
        deinitialize_timer_length_ms: 5000,
    };
    assert_eq!(
        game_metadata_body(&m),
        "{\"game\":\"TARKOV_TIME\",\"game_display_name\":\"Escape From Tarkov Time\",\
         \"developer\":\"marcin212\",\"deinitialize_timer_length_ms\":5000}"
    );
}

#[test]
fn negative_number_in_body() {
    let m = GameMetadata {
        game: String::from("G"),
        game_display_name: String::from("D"),
        developer: String::from("V"),
        deinitialize_timer_length_ms: -2147483648,
    };
    assert_eq!(
        game_metadata_body(&m),
        "{\"game\":\"G\",\"game_display_name\":\"D\",\"developer\":\"V\",\
         \"deinitialize_timer_length_ms\":-2147483648}"
    );
}

#[test]
fn game_body_text() {
    let g = Game { game: String::from("TARKOV_TIME") };
    assert_eq!(game_body(&g), "{\"game\":\"TARKOV_TIME\"}");
}

#[test]
fn string_escaping_in_body() {
    let g = Game { game: String::from("a\"b\\c\nd\te\rf") };
    assert_eq!(game_body(&g), "{\"game\":\"a\\\"b\\\\c\\nd\\te\\rf\"}");
}

#[test]
fn event_body_text() {
    let e = Event {
        game: String::from("TARKOV_TIME"),
        event: String::from("TIME"),
        data: EventData {
            value: 1,
            frame: vec![
                (String::from("time-left"), String::from("03:00:00")),
                (String::from("time-right"), String::from("15:00:00")),
            ],
        },
    };
    assert_eq!(
        event_body(&e),
        "{\"game\":\"TARKOV_TIME\",\"event\":\"TIME\",\"data\":{\"value\":1,\
         \"frame\":{\"time-left\":\"03:00:00\",\"time-right\":\"15:00:00\"}}}"
    );
}

#[test]
fn event_body_empty_frame() {
    let e = Event {
        game: String::from("G"),
        event: String::from("E"),
        data: EventData { value: 0, frame: vec![] },
    };
    assert_eq!(event_body(&e), "{\"game\":\"G\",\"event\":\"E\",\"data\":{\"value\":0,\"frame\":{}}}");
}

#[test]
fn bind_event_definition_body_text() {
    let b = BindEventDefinition {
        game: String::from("TARKOV_TIME"),
        event: String::from("TIME"),
        icon_id: 15,
        value_optional: true,
        handlers: vec![ScreenHandler {
            zone: String::from("one"),
            device_type: String::from("screened"),
            mode: String::from("screen"),
            datas: vec![ScreenHandlerData {
                icon_id: 15,
                lines: vec![
                    ScreenHandlerDataLine {
                        context_frame_key: String::from("time-left"),
                        has_text: true,
                        wrap: 0,
                    },
                    ScreenHandlerDataLine {
                        context_frame_key: String::from("time-right"),
                        has_text: true,
                        wrap: 0,
                    },
                ],
            }],
        }],
        data_fields: vec![DataField {
            label: String::from("Time"),
            context_frame_key: String::from("time"),
        }],
    };
    assert_eq!(
        bind_event_definition_body(&b),
        "{\"game\":\"TARKOV_TIME\",\"event\":\"TIME\",\"icon_id\":15,\"value_optional\":true,\
         \"handlers\":[{\"device-type\":\"screened\",\"zone\":\"one\",\"mode\":\"screen\",\
         \"datas\":[{\"lines\":[{\"has-text\":true,\"context-frame-key\":\"time-left\",\"wrap\":0},\
         {\"has-text\":true,\"context-frame-key\":\"time-right\",\"wrap\":0}],\"icon-id\":15}]}],\
         \"data_fields\":[{\"context-frame-key\":\"time\",\"label\":\"Time\"}]}"
    );
}

#[test]
fn bind_body_empty_lists() {
    let b = BindEventDefinition {
        game: String::from("G"),
        event: String::from("E"),
        icon_id: 0,
        value_optional: false,
        handlers: vec![],
        data_fields: vec![],
    };
    assert_eq!(
        bind_event_definition_body(&b),
        "{\"game\":\"G\",\"event\":\"E\",\"icon_id\":0,\"value_optional\":false,\
         \"handlers\":[],\"data_fields\":[]}"
    );
}
