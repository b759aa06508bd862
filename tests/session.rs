use sse_engine::api::{SSEngineAPI, SessionError};
use sse_engine::codec::CodecError;
use sse_engine::keys::WireKey;
use sse_engine::heartbeat::{HeartbeatAction, HeartbeatEvent, HeartbeatPhase, HeartbeatTask, Request};
use sse_engine::icon::Icon;
use sse_engine::messages::{
    C2SGameCreate, C2SGameEventCreate, C2SGameEventRemove, CoreProperties, EventData, EventValue,
};
use sse_engine::types::{
    DataAccessorData, DynamicImageFrameData, FrameModifiersData, ImageFrameData, LineContent, LineData, MultiLineFrameData, OLEDDeviceType, ScreenData, ScreenFrameData,
    ProgressBarModifierData, Repeat, ScreenHandler, TextModifierData,
};
use sse_engine::wire::WireValue;

fn s(x: &str) -> String {
    x.to_string()
}

fn game(ms: Option<u16>) -> C2SGameCreate {
    C2SGameCreate {
        game: s("OLED_CLOCK"),
        game_display_name: Some(s("OLED Clock")),
        developer: None,
        deinitialize_timer_length_ms: ms,
    }
}

fn line(prefix: &str, key: Option<&str>) -> LineData {
    LineData {
        content: LineContent::Text(TextModifierData { has_text: true, prefix: s(prefix), suffix: s(""), bold: false, wrap: 0 }),
        data_accessor_data: key.map(|k| DataAccessorData { arg: None, context_frame_key: Some(s(k)) }),
    }
}

fn event() -> C2SGameEventCreate {
    C2SGameEventCreate {
        game: s("OLED_CLOCK"),
        event: s("TIME_UPDATE"),
        min_value: 0,
        max_value: 1,
        icon_id: Icon::Timer,
        value_optional: false,
    }
}

fn field<'a>(w: &'a WireValue, k: &str) -> Option<&'a WireValue> {
    match w {
        WireValue::Object(fs) => fs.iter().rev().find(|(n, _)| n == k).map(|(_, v)| v),
        _ => None,
    }
}

#[test]
fn clock_session_scenario() {
    let mut api = SSEngineAPI::new(s("127.0.0.1:3650"));
    let g = game(Some(15000));
    let req = api.setup(&g).unwrap();
    assert_eq!(req.url, "http://127.0.0.1:3650/game_metadata");
    assert_eq!(field(&req.body, "developer"), None);
    assert_eq!(field(&req.body, "deinitialize_timer_length_ms"), Some(&WireValue::Int(15000)));
    let mut hb = api.activate(&g).unwrap();
    assert_eq!(api.heartbeat_interval(), Some(15000));
    assert_eq!(hb.interval_ms, 15000);
    assert_eq!(hb.request.url, "http://127.0.0.1:3650/game_heartbeat");

    let handler = ScreenHandler {
        device_type: s("screened"),
        zone: s("one"),
        mode: s("screen"),
        datas: vec![ScreenData::FrameData(ScreenFrameData::MultiLine(MultiLineFrameData {
            frame_modifiers_data: None,
            lines: vec![line("Now  ", Some("curr_game")), line("Time  ", None), line("/ x /", Some("nullstr"))],
        }))],
    };
    let (create, bind) = api.new_event_and_bind(event(), vec![handler]).unwrap();
    assert_eq!(create.url, "http://127.0.0.1:3650/register_game_event");
    assert_eq!(field(&create.body, "icon_id"), Some(&WireValue::Int(42)));
    assert_eq!(bind.url, "http://127.0.0.1:3650/bind_game_event");
    match field(&bind.body, "handlers") {
        Some(WireValue::Array(hs)) => {
            assert_eq!(hs.len(), 1);
            assert_eq!(field(&hs[0], "device-type"), Some(&WireValue::Str(s("screened"))));
        },
        other => panic!("no handlers: {:?}", other),
    }

    let data = EventData {
        value: EventValue::String(s("13:45:02")),
        frame: Some(vec![(s("curr_game"), EventValue::String(s("IDLE")))]),
    };
    let t = api.trigger_event(s("TIME_UPDATE"), Some(data)).unwrap();
    assert_eq!(t.url, "http://127.0.0.1:3650/game_event");
    assert_eq!(field(&t.body, "game"), Some(&WireValue::Str(s("OLED_CLOCK"))));
    let d = field(&t.body, "data").unwrap();
    assert_eq!(field(d, "value"), Some(&WireValue::Str(s("13:45:02"))));
    assert_eq!(field(field(d, "frame").unwrap(), "curr_game"), Some(&WireValue::Str(s("IDLE"))));

    let removal = api.done(&mut hb).unwrap();
    assert_eq!(removal.url, "http://127.0.0.1:3650/remove_game");
    assert_eq!(hb.phase, HeartbeatPhase::Cancelled);
    assert_eq!(hb.next_action(), HeartbeatAction::Stop);
    assert_eq!(api.trigger_event(s("TIME_UPDATE"), None), Err(SessionError::NotActive));
    assert_eq!(api.setup(&g), Err(SessionError::AlreadySetUp));
}

#[test]
fn operations_before_setup_fail_locally() {
    let mut api = SSEngineAPI::new(s("h:1"));
    assert_eq!(api.trigger_event(s("E"), None), Err(SessionError::NotActive));
    assert_eq!(api.new_event(&event()), Err(SessionError::NotActive));
    assert_eq!(api.remove_event(&C2SGameEventRemove { game: s("G"), event: s("E") }), Err(SessionError::NotActive));
    assert!(api.launch_heart_beat_task().is_err());
    let mut hb = HeartbeatTask::new(Request { url: s("u"), body: WireValue::Null }, 5);
    assert_eq!(api.done(&mut hb), Err(SessionError::NotActive));
    assert_eq!(hb.phase, HeartbeatPhase::Due);
    assert!(!api.is_active());
}

#[test]
fn default_heartbeat_interval() {
    let mut api = SSEngineAPI::new(s("h:1"));
    let hb = api.activate(&game(None)).unwrap();
    assert_eq!(hb.interval_ms, 10000);
    assert!(api.activate(&game(None)).is_err());
}

#[test]
fn heartbeat_cadence_and_cancel() {
    let mut hb = HeartbeatTask::new(Request { url: s("u"), body: WireValue::Null }, 250);
    assert_eq!(hb.next_action(), HeartbeatAction::Send);
    hb.step(HeartbeatEvent::Sent(true));
    assert_eq!(hb.next_action(), HeartbeatAction::Sleep(250));
    hb.step(HeartbeatEvent::Slept);
    assert_eq!(hb.next_action(), HeartbeatAction::Send);
    hb.cancel();
    hb.step(HeartbeatEvent::Slept);
    hb.step(HeartbeatEvent::Sent(true));
    assert_eq!(hb.next_action(), HeartbeatAction::Stop);
    let mut failing = HeartbeatTask::new(Request { url: s("u"), body: WireValue::Null }, 250);
    failing.step(HeartbeatEvent::Sent(false));
    assert_eq!(failing.next_action(), HeartbeatAction::Stop);
    assert!(failing.is_stopped());
}

#[test]
fn device_types_and_config() {
    assert_eq!(OLEDDeviceType::ApexSeries.into_device_type(), "screened-128x40");
    assert_eq!(OLEDDeviceType::GameDAC.into_device_type(), "screened-128x52");
    let w = WireValue::Object(vec![(s("address"), WireValue::Str(s("127.0.0.1:51234")))]);
    assert_eq!(CoreProperties::from_wire(&w).unwrap().address, "127.0.0.1:51234");
    assert!(CoreProperties::from_wire(&WireValue::Object(vec![])).is_err());
}

#[test]
fn inverted_range_is_refused_before_encoding() {
    let mut api = SSEngineAPI::new(s("h:1"));
    api.activate(&game(Some(1000))).unwrap();
    let mut e = event();
    e.min_value = 5;
    e.max_value = 1;
    assert_eq!(api.new_event(&e), Err(SessionError::InvalidRange));
    assert_eq!(api.new_event_and_bind(e, vec![]), Err(SessionError::InvalidRange));
    assert!(api.new_event(&event()).is_ok());
}

#[test]
fn bind_with_bad_image_is_an_encode_error() {
    let mut api = SSEngineAPI::new(s("h:1"));
    api.activate(&game(None)).unwrap();
    let mut h = ScreenHandler::default();
    assert_eq!(h.mode, "screen");
    h.datas.push(ScreenData::FrameData(ScreenFrameData::DynamicImage(DynamicImageFrameData {
        image_data_rival: vec![0; 575],
        image_data_apex: vec![0; 640],
        image_data_arctis_pro: vec![0; 768],
        image_data_gamedac: vec![0; 832],
    })));
    assert_eq!(
        api.new_event_and_bind(event(), vec![h]),
        Err(SessionError::Encode(CodecError::ImageLength(WireKey::ImageData128x36)))
    );
}

#[test]
fn defaults_match_the_engine() {
    let m = FrameModifiersData::default();
    assert_eq!(m.length_millis, 0);
    assert_eq!(m.icon_id, Icon::NoIcon);
    assert_eq!(m.repeats, Repeat::Infinite(false));
    assert!(ProgressBarModifierData::default().has_progress_bar);
    let t = TextModifierData::default();
    assert!(t.has_text && !t.bold && t.prefix.is_empty() && t.wrap == 0);
}

#[test]
fn removal_and_trigger_bodies() {
    let mut api = SSEngineAPI::new(s("h:1"));
    api.activate(&game(None)).unwrap();
    let r = api.remove_event(&C2SGameEventRemove { game: s("OLED_CLOCK"), event: s("E") }).unwrap();
    assert_eq!(r.url, "http://h:1/remove_game_event");
    assert_eq!(field(&r.body, "event"), Some(&WireValue::Str(s("E"))));
    let t = api.trigger_event(s("E"), None).unwrap();
    assert_eq!(field(&t.body, "data"), None);
    let n = api.trigger_event(s("E"), Some(EventData { value: EventValue::Number(7), frame: None })).unwrap();
    assert_eq!(field(field(&n.body, "data").unwrap(), "value"), Some(&WireValue::Int(7)));
    assert_eq!(field(field(&n.body, "data").unwrap(), "frame"), None);
}

#[test]
fn repeated_frame_key_is_refused() {
    let mut api = SSEngineAPI::new(s("h:1"));
    api.activate(&game(None)).unwrap();
    let data = EventData {
        value: EventValue::Number(1),
        frame: Some(vec![(s("k"), EventValue::Number(1)), (s("j"), EventValue::Number(2)), (s("k"), EventValue::Number(3))]),
    };
    assert!(!data.has_unique_keys());
    assert_eq!(api.trigger_event(s("E"), Some(data)), Err(SessionError::DuplicateFrameKey));
}

#[test]
fn teardown_cancels_a_running_heartbeat() {
    let mut api = SSEngineAPI::new(s("h:1"));
    let mut hb = api.activate(&game(Some(500))).unwrap();
    hb.step(HeartbeatEvent::Sent(true));
    assert_eq!(hb.phase, HeartbeatPhase::Waiting);
    api.done(&mut hb).unwrap();
    assert_eq!(hb.phase, HeartbeatPhase::Cancelled);
    assert_eq!(hb.interval_ms, 500);
}

#[test]
fn static_image_must_fit_the_named_screen() {
    let mut api = SSEngineAPI::new(s("h:1"));
    api.activate(&game(None)).unwrap();
    let handler = |dt: &str, n: usize| ScreenHandler {
        device_type: s(dt),
        zone: s("one"),
        mode: s("screen"),
        datas: vec![ScreenData::FrameData(ScreenFrameData::Image(ImageFrameData {
            frame_modifiers_data: None,
            image_data: vec![0; n],
        }))],
    };
    assert_eq!(
        api.new_event_and_bind(event(), vec![handler("screened-128x36", 640)]),
        Err(SessionError::Encode(CodecError::ImageLength(WireKey::ImageData)))
    );
    assert!(api.new_event_and_bind(event(), vec![handler("screened-128x36", 576)]).is_ok());
    assert!(api.new_event_and_bind(event(), vec![handler("screened", 640)]).is_ok());
    assert_eq!(
        api.new_event_and_bind(event(), vec![handler("screened", 3)]),
        Err(SessionError::Encode(CodecError::ImageLength(WireKey::ImageData)))
    );
}
