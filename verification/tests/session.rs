use std::time::Duration;

use hidmaestro::json::Json;
use hidmaestro::protocol::{
    frame, reader_step, rpc_step, rpc_wait, Call, Inbound, Params, ReaderAction, ReaderEvent,
    Request, RpcEvent, RpcStep,
};
use hidmaestro::session::{stop_step, ExitPoll, StopStep};
use hidmaestro::events::WaitStep;
use hidmaestro::{
    Axis, Buttons, ControllerInfo, Error, GamepadState, Hat, HidMaestro, OutputEvent, Profile,
    Single, StandardAxes,
};

fn json(text: &str) -> Json {
    Json::parse(text).unwrap()
}

fn single(value: f32) -> Single {
    Single(value.to_bits())
}

fn session() -> HidMaestro {
    HidMaestro::from_streams(4, Duration::from_secs(1))
}

fn with_controller(key: &str) -> HidMaestro {
    let mut hm = session();
    let reply = Json::single("key", Json::text(key));
    assert_eq!(
        hm.create_controller("xbox-360-wired", Ok(reply)),
        Ok(key.to_string())
    );
    hm
}

fn profile(id: &str) -> Profile {
    Profile {
        id: id.to_string(),
        name: String::new(),
        vendor: String::new(),
        vendor_id: 0,
        product_id: 0,
        display_name: String::new(),
        connection: String::new(),
        backend: String::new(),
        button_count: 0,
        axis_count: 0,
        has_hat: false,
        deployable: false,
        requires_usbip_backend: false,
    }
}

fn submitted(call: Call<String, GamepadState>) -> (String, GamepadState) {
    match call {
        Call::SubmitState { key, state } => (key, state),
        _ => panic!("a state is submitted"),
    }
}

#[test]
fn requests_are_numbered_from_one() {
    let mut hm = session();
    assert_eq!(
        hm.send_request(Call::Ping),
        Request {
            id: 1,
            method: "ping",
            params: None
        }
    );
    assert_eq!(
        hm.send_request(Call::CreateController {
            profile_id: "p".to_string(),
            index: Some(2)
        }),
        Request {
            id: 2,
            method: "create_controller",
            params: Some(Params::Create {
                profile_id: "p".to_string(),
                index: Some(2)
            })
        }
    );
    assert_eq!(
        hm.send_request(Call::LoadProfiles { dir: None }),
        Request {
            id: 3,
            method: "load_profiles",
            params: None
        }
    );
    assert_eq!(
        hm.send_request(Call::LoadProfiles {
            dir: Some("d".to_string())
        })
        .params,
        Some(Params::Dir {
            dir: "d".to_string()
        })
    );
    assert_eq!(hm.response_timeout(), Duration::from_secs(1));
}

#[test]
fn every_operation_has_its_method() {
    let text = || "t".to_string();
    for (call, method) in [
        (Call::Ping, "ping"),
        (Call::IsDriverInstalled, "is_driver_installed"),
        (Call::InstallDriver, "install_driver"),
        (Call::InstallUsbipBackend, "install_usbip_backend"),
        (Call::LoadProfiles { dir: None }, "load_profiles"),
        (Call::ListProfiles, "list_profiles"),
        (Call::GetProfile { id: text() }, "get_profile"),
        (
            Call::CreateController {
                profile_id: text(),
                index: None,
            },
            "create_controller",
        ),
        (Call::ListControllers, "list_controllers"),
        (
            Call::SubmitState {
                key: text(),
                state: GamepadState::neutral(),
            },
            "submit_state",
        ),
        (Call::RemoveController { key: text() }, "remove_controller"),
        (Call::RemoveAllControllers, "remove_all_controllers"),
        (Call::Shutdown, "shutdown"),
    ] {
        assert_eq!(Request::new(9, call).method, method);
    }
    assert_eq!(frame(vec![123, 125]), vec![123, 125, 10]);
}

#[test]
fn a_request_takes_only_its_own_response() {
    let response = |id: u64, ok: bool, result: Option<Json>, error: Option<&str>| {
        RpcEvent::Message(Inbound::Response {
            id,
            ok,
            result,
            error: error.map(|e| e.to_string()),
        })
    };
    assert_eq!(
        rpc_step(7, response(6, true, None, None)),
        RpcStep::Continue
    );
    assert_eq!(
        rpc_step(
            7,
            RpcEvent::Message(Inbound::Event {
                kind: "output".to_string(),
                data: Json::Null
            })
        ),
        RpcStep::Continue
    );
    assert_eq!(
        rpc_step(7, response(7, true, Some(Json::Bool(true)), None)),
        RpcStep::Return(Ok(Json::Bool(true)))
    );
    assert_eq!(
        rpc_step(7, response(7, true, None, Some("ignored"))),
        RpcStep::Return(Ok(Json::Null))
    );
    assert_eq!(
        rpc_step(7, response(7, false, None, Some("profile 'foo' not found"))),
        RpcStep::Return(Err(Error::Remote("profile 'foo' not found".to_string())))
    );
    assert_eq!(
        rpc_step(7, response(7, false, None, None)),
        RpcStep::Return(Err(Error::Remote("unknown error".to_string())))
    );
    assert_eq!(
        rpc_step(7, RpcEvent::TimedOut),
        RpcStep::Return(Err(Error::Timeout))
    );
    assert_eq!(
        rpc_step(7, RpcEvent::Disconnected(None)),
        RpcStep::Return(Err(Error::BridgeExited(String::new())))
    );
    assert_eq!(
        rpc_step(7, RpcEvent::Disconnected(Some("exit status: 3".to_string()))),
        RpcStep::Return(Err(Error::BridgeExited(
            " (status exit status: 3)".to_string()
        )))
    );
    assert_eq!(rpc_wait(3, 10), Ok(7));
    assert_eq!(rpc_wait(10, 10), Err(Error::Timeout));
}

#[test]
fn the_first_deciding_event_ends_a_wait() {
    let response = |id: u64| {
        RpcEvent::Message(Inbound::Response {
            id,
            ok: true,
            result: Some(Json::integer(id as i64)),
            error: None,
        })
    };
    let run = |events: Vec<RpcEvent>| {
        events
            .into_iter()
            .find_map(|event| match rpc_step(7, event) {
                RpcStep::Return(result) => Some(result),
                RpcStep::Continue => None,
            })
    };
    assert_eq!(run(vec![response(6), response(8)]), None);
    assert_eq!(
        run(vec![response(6), response(7), RpcEvent::TimedOut]),
        Some(Ok(Json::integer(7)))
    );
    assert_eq!(
        run(vec![response(6), RpcEvent::TimedOut, response(7)]),
        Some(Err(Error::Timeout))
    );
}

#[test]
fn a_run_of_the_reader_keeps_events_and_responses_in_order() {
    let mut lines = vec!["", "event 1", "noise", "reply 2", " ", "event 3", "reply 4"].into_iter();
    let (mut buffered, mut forwarded) = (Vec::new(), Vec::new());
    let mut event = ReaderEvent::Idle;
    loop {
        event = match reader_step(event) {
            ReaderAction::Read => match lines.next() {
                Some(line) => ReaderEvent::Line(line.to_string()),
                None => ReaderEvent::Closed,
            },
            ReaderAction::Decode(line) => {
                let number = line.split(' ').last().and_then(|n| n.parse::<u64>().ok());
                ReaderEvent::Decoded(match number {
                    Some(id) if line.starts_with("reply") => Some(Inbound::Response {
                        id,
                        ok: true,
                        result: None,
                        error: None,
                    }),
                    Some(id) => Some(Inbound::Event {
                        kind: "output".to_string(),
                        data: Json::integer(id as i64),
                    }),
                    None => None,
                })
            }
            ReaderAction::DecodeEvent(data) => ReaderEvent::EventDecoded(Some(OutputEvent {
                controller: "c1".to_string(),
                report_id: data.as_u64().unwrap() as u8,
                fields: Vec::new(),
                raw: Vec::new(),
                crc_valid: false,
            })),
            ReaderAction::Buffer(output) => {
                buffered.push(output.report_id);
                ReaderEvent::Idle
            }
            ReaderAction::Forward(Inbound::Response { id, .. }) => {
                forwarded.push(id);
                ReaderEvent::Forwarded(true)
            }
            ReaderAction::Forward(_) => panic!("an event is not forwarded"),
            ReaderAction::Stop => break,
        };
    }
    assert_eq!(buffered, [1, 3]);
    assert_eq!(forwarded, [2, 4]);
}

#[test]
fn the_reader_skips_noise_and_sorts_messages() {
    let event = || OutputEvent {
        controller: "c1".to_string(),
        report_id: 2,
        fields: vec![("rumble".to_string(), Json::text("1"))],
        raw: vec![2, 1],
        crc_valid: true,
    };
    assert_eq!(reader_step(ReaderEvent::Idle), ReaderAction::Read);
    assert_eq!(
        reader_step(ReaderEvent::Line(" \t\u{3000}\r".to_string())),
        ReaderAction::Read
    );
    assert_eq!(
        reader_step(ReaderEvent::Line("{}".to_string())),
        ReaderAction::Decode("{}".to_string())
    );
    assert_eq!(
        reader_step(ReaderEvent::Decoded(None)),
        ReaderAction::Read
    );
    assert_eq!(
        reader_step(ReaderEvent::Decoded(Some(Inbound::Event {
            kind: "output".to_string(),
            data: Json::Null
        }))),
        ReaderAction::DecodeEvent(Json::Null)
    );
    assert_eq!(
        reader_step(ReaderEvent::EventDecoded(Some(event()))),
        ReaderAction::Buffer(event())
    );
    assert_eq!(
        reader_step(ReaderEvent::EventDecoded(None)),
        ReaderAction::Read
    );
    let response = || Inbound::Response {
        id: 1,
        ok: true,
        result: None,
        error: None,
    };
    assert_eq!(
        reader_step(ReaderEvent::Decoded(Some(response()))),
        ReaderAction::Forward(response())
    );
    assert_eq!(
        reader_step(ReaderEvent::Forwarded(true)),
        ReaderAction::Read
    );
    assert_eq!(
        reader_step(ReaderEvent::Forwarded(false)),
        ReaderAction::Stop
    );
    assert_eq!(reader_step(ReaderEvent::Closed), ReaderAction::Stop);
}

#[test]
fn replies_are_read_leniently() {
    let mut hm = session();
    assert_eq!(hm.ping(Ok(Json::text("hi"))), Ok("hi".to_string()));
    assert_eq!(hm.ping(Ok(Json::Null)), Ok("pong".to_string()));
    assert_eq!(hm.ping(Err(Error::Timeout)), Err(Error::Timeout));
    assert_eq!(hm.is_driver_installed(Ok(Json::Bool(true))), Ok(true));
    assert_eq!(hm.is_driver_installed(Ok(json("1"))), Ok(false));
    assert_eq!(hm.install_driver(Ok(Json::Null)), Ok(()));
    assert_eq!(
        hm.install_usbip_backend(Err(Error::Timeout)),
        Err(Error::Timeout)
    );
    assert_eq!(hm.load_default_profiles(Ok(json("3"))), Ok(3));
    assert_eq!(hm.load_profiles_from_dir(Ok(json("\"3\""))), Ok(0));
    let unread = || Err("missing field `id`".to_string());
    assert_eq!(hm.get_profile(Ok((Json::Null, unread()))), Ok(None));
    assert_eq!(
        hm.get_profile(Ok((json("{}"), unread()))),
        Err(Error::Protocol("missing field `id`".to_string()))
    );
    assert_eq!(
        hm.get_profile(Ok((json("{\"id\":\"x\"}"), Ok(profile("x"))))),
        Ok(Some(profile("x")))
    );
    assert_eq!(hm.get_profile(Err(Error::Timeout)), Err(Error::Timeout));
    assert_eq!(
        hm.list_profiles(Ok(Err("missing field `id`".to_string()))),
        Err(Error::Protocol("missing field `id`".to_string()))
    );
    assert_eq!(hm.list_profiles(Ok(Ok(Vec::new()))), Ok(Vec::new()));
    let info = ControllerInfo {
        key: "c1".to_string(),
        profile_id: "p".to_string(),
    };
    assert_eq!(
        hm.list_controllers(Ok(Ok(vec![info.clone()]))),
        Ok(vec![info])
    );
    assert_eq!(
        hm.create_controller("p", Ok(json("{\"k\":1}"))),
        Err(Error::Remote(
            "bad create_controller result: {\"k\":1}".to_string()
        ))
    );
    assert!(hm.controller("c1").is_err());
}

#[test]
fn helpers_submit_the_changed_state() {
    let mut hm = with_controller("c1");
    let a = Buttons::from_bits_truncate(Buttons::A);
    let start = Buttons::from_bits_truncate(Buttons::START);
    let pad = hm.controller("c1").unwrap();
    assert_eq!(pad.key(), "c1");
    assert_eq!(pad.info().profile_id, "xbox-360-wired");
    assert_eq!(pad.state(), &GamepadState::neutral());

    let (key, pressed) = submitted(pad.press(a.union(start)));
    assert_eq!(key, "c1");
    assert_eq!(pressed.buttons.bits(), 0x81);
    assert_eq!(hm.submit_state("c1", &pressed, Ok(Json::Null)), Ok(()));
    assert_eq!(hm.state("c1"), Some(&pressed));

    let (_, east) = submitted(hm.controller("c1").unwrap().set_hat(Hat::East));
    assert_eq!(east.hat, Hat::East);
    assert_eq!(east.buttons.bits(), 0x81);
    assert_eq!(hm.submit_state("c1", &east, Ok(Json::Null)), Ok(()));

    let (_, released) = submitted(hm.controller("c1").unwrap().release(a));
    assert_eq!(released.buttons, start);
    assert_eq!(released.hat, Hat::East);
    assert_eq!(
        hm.submit_state("c1", &released, Err(Error::Timeout)),
        Err(Error::Timeout)
    );
    assert_eq!(hm.state("c1"), Some(&east));

    let pad = hm.controller("c1").unwrap();
    let tap = pad.tap(a, Duration::from_millis(80));
    assert_eq!(tap.hold, Duration::from_millis(80));
    assert_eq!(submitted(tap.press).1.buttons.bits(), 0x81);
    assert_eq!(submitted(tap.release).1.buttons, start);
    let (_, moved) = submitted(pad.set_axis(Axis(Axis::X), single(1.5)));
    assert_eq!(moved.axes.get(Axis(Axis::X)), Some(single(1.0)));
    let axes = StandardAxes {
        left_trigger: Some(single(0.75)),
        ..StandardAxes::default()
    };
    assert_eq!(
        submitted(pad.set_standard_axes(axes)).1.standard_axes,
        Some(axes)
    );
    assert_eq!(submitted(pad.submit()).1, east);
    assert_eq!(submitted(pad.reset()).1, GamepadState::neutral());
    assert_eq!(
        pad.remove(),
        Call::RemoveController {
            key: "c1".to_string()
        }
    );
}

#[test]
fn controllers_come_and_go() {
    let mut hm = with_controller("c1");
    let again = Json::single("key", Json::text("c2"));
    assert_eq!(hm.create_controller("q", Ok(again)), Ok("c2".to_string()));
    assert_eq!(hm.keys(), vec!["c1".to_string(), "c2".to_string()]);
    hm.state_mut("c2").unwrap().hat = Hat::North;
    assert_eq!(hm.state("c2").unwrap().hat, Hat::North);
    assert_eq!(hm.state("c1").unwrap().hat, Hat::Neutral);
    assert!(hm.state_mut("c3").is_none());
    let renewed = Json::single("key", Json::text("c2"));
    assert_eq!(hm.create_controller("r", Ok(renewed)), Ok("c2".to_string()));
    assert_eq!(hm.state("c2").unwrap().hat, Hat::Neutral);
    assert_eq!(hm.controller("c2").unwrap().info().profile_id, "r");
    assert_eq!(
        hm.remove_controller("c1", Err(Error::Timeout)),
        Err(Error::Timeout)
    );
    assert!(hm.state("c1").is_some());
    assert_eq!(hm.remove_controller("c1", Ok(Json::Null)), Ok(()));
    assert!(hm.state("c1").is_none());
    assert_eq!(hm.remove_controller("c9", Ok(Json::Null)), Ok(()));
    assert_eq!(
        hm.controller("c1").map(|_| ()),
        Err(Error::NoSuchController("c1".to_string()))
    );
    assert_eq!(
        hm.submit_state("c1", &GamepadState::neutral(), Ok(Json::Null)),
        Ok(())
    );
    assert!(hm.state("c1").is_none());
    assert_eq!(hm.remove_all_controllers(Ok(Json::Null)), Ok(()));
    assert_eq!(hm.keys(), Vec::<String>::new());
}

#[test]
fn a_session_buffers_events() {
    let mut hm = HidMaestro::from_streams(1, Duration::from_secs(1));
    let event = |controller: &str| OutputEvent {
        controller: controller.to_string(),
        report_id: 0,
        fields: Vec::new(),
        raw: Vec::new(),
        crc_valid: false,
    };
    hm.accept_event(event("c1"));
    assert!(hm.accepts_event());
    hm.accept_event(event("c2"));
    assert_eq!(hm.dropped_event_count(), 1);
    assert_eq!(
        hm.wait_event_for_controller("c1", 0, 0, false),
        WaitStep::Expired
    );
    assert_eq!(hm.wait_event(0, 5, false), WaitStep::Ready(event("c2")));
    assert_eq!(hm.wait_event(0, 5, false), WaitStep::Wait(5));
    hm.accept_event(event("c3"));
    assert_eq!(hm.drain_events(), vec![event("c3")]);
}

#[test]
fn the_bridge_is_asked_to_stop_once() {
    let mut hm = session();
    let request = hm.stop_bridge().unwrap();
    assert_eq!((request.id, request.method), (1, "shutdown"));
    assert_eq!(hm.stop_bridge(), None);
    assert_eq!(hm.shutdown(), None);
    assert_eq!(session().shutdown().unwrap().method, "shutdown");
}

#[test]
fn a_bridge_that_does_not_stop_is_ended() {
    assert_eq!(stop_step(ExitPoll::Exited, 99_999), StopStep::Done);
    assert_eq!(stop_step(ExitPoll::Running, 29_999), StopStep::Sleep(10));
    assert_eq!(stop_step(ExitPoll::Running, 30_000), StopStep::Kill);
    assert_eq!(stop_step(ExitPoll::Failed, 0), StopStep::Kill);
}
