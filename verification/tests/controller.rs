use tarkov_time::controller::{startup_requests, App, Message, Mode};
use tarkov_time::data_structure::CoreProps;
use tarkov_time::game_sense_service::GameSenseService;

fn service() -> GameSenseService {
    GameSenseService::new(CoreProps { address: String::from("127.0.0.1:9999") })
}

#[test]
fn startup_posts_register_then_bind() {
    let s = service();
    let (register, bind) = startup_requests(&s);
    assert_eq!(register.url, "http://127.0.0.1:9999/game_metadata");
    assert_eq!(
        register.body,
        "{\"game\":\"TARKOV_TIME\",\"game_display_name\":\"Escape From Tarkov Time\",\
         \"developer\":\"marcin212\",\"deinitialize_timer_length_ms\":5000}"
    );
    assert_eq!(bind.url, "http://127.0.0.1:9999/bind_game_event");
    assert_eq!(
        bind.body,
        "{\"game\":\"TARKOV_TIME\",\"event\":\"TIME\",\"icon_id\":15,\"value_optional\":true,\
         \"handlers\":[{\"device-type\":\"screened\",\"zone\":\"one\",\"mode\":\"screen\",\
         \"datas\":[{\"lines\":[{\"has-text\":true,\"context-frame-key\":\"time-left\",\"wrap\":0},\
         {\"has-text\":true,\"context-frame-key\":\"time-right\",\"wrap\":0}],\"icon-id\":15}]}],\
         \"data_fields\":[{\"context-frame-key\":\"time\",\"label\":\"Time\"}]}"
    );
}

#[test]
fn teardown_posts_remove_game_once_and_stops() {
    let mut app = App::new(service(), 0);
    let (go_on, request) = app.handle_message(Message::QuitWithRemove);
    assert!(!go_on);
    let request = request.expect("teardown must prepare the deregistration");
    assert_eq!(request.url, "http://127.0.0.1:9999/remove_game");
    assert_eq!(request.body, "{\"game\":\"TARKOV_TIME\"}");
}

#[test]
fn plain_quit_sends_nothing() {
    let mut app = App::new(service(), 0);
    let (go_on, request) = app.handle_message(Message::Quit);
    assert!(!go_on);
    assert!(request.is_none());
}

#[test]
fn initial_mode_is_game_detection() {
    let app = App::new(service(), 0);
    assert_eq!(app.mode, Mode::GameDetection);
}

#[test]
fn mode_commands_switch_modes_without_requests() {
    let mut app = App::new(service(), 0);
    let (go_on, request) = app.handle_message(Message::ModeChangeEnable);
    assert!(go_on && request.is_none());
    assert_eq!(app.mode, Mode::Enable);
    let (go_on, request) = app.handle_message(Message::ModeChangeDisable);
    assert!(go_on && request.is_none());
    assert_eq!(app.mode, Mode::Disable);
    let (go_on, request) = app.handle_message(Message::ModeChangeGameDetection);
    assert!(go_on && request.is_none());
    assert_eq!(app.mode, Mode::GameDetection);
}

#[test]
fn disabled_mode_never_publishes() {
    let mut app = App::new(service(), 0);
    app.handle_message(Message::ModeChangeDisable);
    for now in [1u64, 20, 40, 1000, 100000] {
        // Even a detector that would report the process may not publish.
        assert!(app.on_tick(now, || true).is_none());
    }
}

#[test]
fn enabled_mode_publishes_every_tick() {
    let mut app = App::new(service(), 0);
    app.handle_message(Message::ModeChangeEnable);
    let request = app.on_tick(0, || false).expect("enabled mode always publishes");
    assert_eq!(request.url, "http://127.0.0.1:9999/game_event");
    assert_eq!(
        request.body,
        "{\"game\":\"TARKOV_TIME\",\"event\":\"TIME\",\"data\":{\"value\":1,\
         \"frame\":{\"time-left\":\"03:00:00\",\"time-right\":\"15:00:00\"}}}"
    );
    assert!(app.on_tick(1, || false).is_some());
}

#[test]
fn detection_mode_publishes_iff_present() {
    let mut app = App::new(service(), 0);
    // First tick past the debounce window: the scan reports the process.
    let request = app.on_tick(11, || true).expect("present: must publish");
    assert_eq!(request.url, "http://127.0.0.1:9999/game_event");
    // Within the window the cached verdict still publishes.
    assert!(app.on_tick(15, || false).is_some());
    // Past the window the fresh verdict is false: no publish.
    assert!(app.on_tick(22, || false).is_none());
    assert!(app.on_tick(25, || true).is_none());
}

#[test]
fn detection_publish_carries_the_tick_clock() {
    let mut app = App::new(service(), 0);
    let request = app.on_tick(11, || true).expect("present: must publish");
    assert_eq!(
        request.body,
        "{\"game\":\"TARKOV_TIME\",\"event\":\"TIME\",\"data\":{\"value\":1,\
         \"frame\":{\"time-left\":\"03:01:17\",\"time-right\":\"15:01:17\"}}}"
    );
}
