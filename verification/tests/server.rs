use std::time::Duration;

use hidmaestro::json::Json;
use hidmaestro::patch::Patch;
use hidmaestro::protocol::{Params, Request};
use hidmaestro::server::{inactivity_limit, Input, Server, Watch};
use hidmaestro::tools::{tools, Tool, TOOL_COUNT};
use hidmaestro::work::{filter_fits, filter_profiles, Action, Event, Reading};
use hidmaestro::{
    Axis, ControllerInfo, Error, GamepadState, Hat, HidMaestro, OutputEvent, Profile, Single,
};

const VERSION: &str = "9.8.7";
const META: &str = r#"{"io.modelcontextprotocol/protocolVersion":"2026-07-28","io.modelcontextprotocol/clientCapabilities":{"tools":{}}}"#;

fn json(text: &str) -> Json {
    Json::parse(text).unwrap()
}

fn single(value: f32) -> Single {
    Single(value.to_bits())
}

/// The response to a line.
fn respond(server: &mut Server, line: &str) -> Json {
    match server.receive(line) {
        Action::Respond(json) => json,
        other => panic!("no response: {other:?}"),
    }
}

fn at<'a>(json: &'a Json, path: &[&str]) -> &'a Json {
    let mut here = json;
    for key in path {
        here = here.get(key).unwrap_or_else(|| panic!("no {key}"));
    }
    here
}

fn call(name: &str, arguments: &str) -> String {
    format!(
        r#"{{"jsonrpc":"2.0","id":5,"method":"tools/call","params":{{"name":"{name}","arguments":{arguments}}}}}"#
    )
}

/// The text of a tool's result, and whether it is an error.
fn outcome(action: Action) -> (String, bool) {
    match action {
        Action::Respond(json) => {
            let result = at(&json, &["result"]);
            let text = match at(result, &["content"]) {
                Json::Array(list) => at(&list[0], &["text"]).as_str().unwrap().to_string(),
                _ => panic!("no content"),
            };
            (text, result.get("isError") == Some(&Json::Bool(true)))
        }
        other => panic!("not over: {other:?}"),
    }
}

fn ok(text: &str) -> (String, bool) {
    (text.to_string(), false)
}

fn error(text: &str) -> (String, bool) {
    (text.to_string(), true)
}

fn request(action: Action) -> Request {
    match action {
        Action::Call(request, _) => request,
        other => panic!("no request: {other:?}"),
    }
}

fn session() -> HidMaestro {
    HidMaestro::from_streams(4, Duration::from_secs(1))
}

/// A server whose bridge is connected.
fn connected() -> Server {
    let mut server = Server::new(VERSION);
    assert_eq!(server.receive(&call("start", "{}")), Action::Connect);
    let ping = request(server.resume(Event::Connected(Ok(session()))));
    assert_eq!((ping.id, ping.method), (1, "ping"));
    assert_eq!(
        outcome(server.resume(Event::Reply(Ok(Json::text("pong"))))),
        ok("bridge running (pong)")
    );
    server
}

/// A server with the controller `c1`.
fn with_controller() -> Server {
    let mut server = connected();
    let created = request(server.receive(&call(
        "create_controller",
        r#"{"profile_id":"xbox-360-wired","index":3}"#,
    )));
    assert_eq!(created.method, "create_controller");
    assert_eq!(
        created.params,
        Some(Params::Create {
            profile_id: "xbox-360-wired".to_string(),
            index: Some(3)
        })
    );
    assert_eq!(
        outcome(server.resume(Event::Reply(Ok(json(r#"{"key":"c1"}"#))))),
        ok("controller 'c1' created from profile 'xbox-360-wired'")
    );
    server
}

fn submitted(action: Action) -> GamepadState {
    let request = request(action);
    assert_eq!(request.method, "submit_state");
    match request.params {
        Some(Params::Submit { key, state }) => {
            assert_eq!(key, "c1");
            state
        }
        _ => panic!("a state is submitted"),
    }
}

fn mirror(server: &Server) -> GamepadState {
    server.session().unwrap().state("c1").unwrap().clone()
}

#[test]
fn unknown_request_returns_method_not_found_with_original_id() {
    for id in ["7", "\"request-7\"", "null"] {
        let mut server = Server::new(VERSION);
        let message = json(&format!(
            r#"{{"jsonrpc": "2.0", "id": {id}, "method": "unknown"}}"#
        ));
        let response = match server.handle(&message) {
            Action::Respond(response) => response,
            other => panic!("no response: {other:?}"),
        };

        assert_eq!(at(&response, &["jsonrpc"]), &Json::text("2.0"));
        assert_eq!(at(&response, &["id"]), &json(id));
        assert_eq!(at(&response, &["error", "code"]), &json("-32601"));
        assert_eq!(
            at(&response, &["error", "message"]),
            &Json::text("Method not found")
        );
    }
}

#[test]
fn unknown_notification_is_ignored() {
    let mut server = Server::new(VERSION);
    let message = json(r#"{"jsonrpc": "2.0", "method": "unknown"}"#);
    assert_eq!(server.handle(&message), Action::Idle);
}

#[test]
fn legacy_initialize_then_tools_list_uses_the_executable_stdio_protocol() {
    let mut server = Server::new(VERSION);

    let initialized = respond(
        &mut server,
        r#"{"jsonrpc":"2.0","id":1,"method":"initialize","params":{"protocolVersion":"2025-03-26"}}"#,
    );
    assert_eq!(
        at(&initialized, &["result", "protocolVersion"]),
        &Json::text("2025-03-26")
    );

    let listed = respond(
        &mut server,
        r#"{"jsonrpc":"2.0","id":2,"method":"tools/list"}"#,
    );
    match at(&listed, &["result", "tools"]) {
        Json::Array(tools) => assert!(tools
            .iter()
            .any(|tool| tool.get("name") == Some(&Json::text("start")))),
        _ => panic!("tools are a list"),
    }
    assert_eq!(at(&listed, &["result"]).get("resultType"), None);

    assert_eq!(server.finish(), Action::Idle);
}

#[test]
fn modern_discovery_and_tools_list_require_metadata_on_each_request() {
    let mut server = Server::new(VERSION);

    let discovered = respond(
        &mut server,
        &format!(
            r#"{{"jsonrpc":"2.0","id":"discover","method":"server/discover","params":{{"_meta":{META}}}}}"#
        ),
    );
    assert_eq!(
        discovered.to_value(),
        json(
            r#"{
                "jsonrpc": "2.0",
                "id": "discover",
                "result": {
                    "resultType": "complete",
                    "supportedVersions": ["2026-07-28"],
                    "capabilities": {"tools": {"listChanged": false}},
                    "_meta": {"io.modelcontextprotocol/serverInfo": {
                        "name": "hidmaestro-mcp",
                        "version": "9.8.7"
                    }}
                }
            }"#
        )
        .to_value()
    );

    let listed = respond(
        &mut server,
        &format!(
            r#"{{"jsonrpc":"2.0","id":"list","method":"tools/list","params":{{"_meta":{META}}}}}"#
        ),
    );
    assert_eq!(
        at(&listed, &["result", "resultType"]),
        &Json::text("complete")
    );
    assert!(matches!(
        at(&listed, &["result", "tools"]),
        Json::Array(_)
    ));

    for params in [
        "{}",
        r#"{"_meta":{}}"#,
        r#"{"_meta":{"io.modelcontextprotocol/protocolVersion":"2026-07-28"}}"#,
        r#"{"_meta":{"io.modelcontextprotocol/protocolVersion":"2025-03-26","io.modelcontextprotocol/clientCapabilities":{}}}"#,
    ] {
        let refused = respond(
            &mut server,
            &format!(r#"{{"id":1,"method":"server/discover","params":{params}}}"#),
        );
        assert_eq!(at(&refused, &["error", "code"]), &json("-32601"));
    }

    assert_eq!(server.finish(), Action::Idle);
}

#[test]
fn malformed_tool_call_is_a_protocol_error_over_stdio() {
    let mut server = Server::new(VERSION);

    let response = respond(
        &mut server,
        r#"{"jsonrpc":"2.0","id":"bad-call","method":"tools/call","params":{"name":"start","arguments":[]}}"#,
    );
    assert_eq!(at(&response, &["error", "code"]), &json("-32602"));
    assert_eq!(
        at(&response, &["error", "message"]),
        &Json::text("tools/call 'arguments' must be an object")
    );

    assert!(server.session().is_none());
    assert_eq!(server.finish(), Action::Idle);
}

#[test]
fn a_line_that_is_no_json_is_a_parse_error() {
    let mut server = Server::new(VERSION);
    let words = serde_json::from_str::<serde_json::Value>("{oops")
        .unwrap_err()
        .to_string();
    let response = respond(&mut server, "{oops");
    assert_eq!(at(&response, &["id"]), &Json::Null);
    assert_eq!(at(&response, &["error", "code"]), &json("-32700"));
    assert_eq!(at(&response, &["error", "message"]), &Json::text(&words));
    assert_eq!(server.receive("  \t "), Action::Idle);
    assert_eq!(server.receive("{}"), Action::Idle);
    assert_eq!(server.receive(r#"{"id":1,"method":3}"#), Action::Idle);
    assert_eq!(
        at(&respond(&mut server, r#"{"id":1,"method":"ping"}"#), &["result"]),
        &json("{}")
    );
}

#[test]
fn start_recovers_once_and_the_end_of_input_stops_the_bridge() {
    let mut server = connected();
    let ping = request(server.receive(&call("start", "{}")));
    assert_eq!((ping.id, ping.method), (2, "ping"));
    let exited = || Event::Reply(Err(Error::BridgeExited(" (status 0)".to_string())));
    match server.resume(exited()) {
        Action::Stop(Some(request)) => assert_eq!((request.id, request.method), (3, "shutdown")),
        other => panic!("not stopped: {other:?}"),
    }
    assert_eq!(server.resume(Event::Stopped), Action::Connect);
    let ping = request(server.resume(Event::Connected(Ok(session()))));
    assert_eq!((ping.id, ping.method), (1, "ping"));
    assert_eq!(
        outcome(server.resume(Event::Reply(Ok(Json::Null)))),
        ok("bridge running (pong)")
    );
    match server.finish() {
        Action::Stop(Some(request)) => assert_eq!((request.id, request.method), (2, "shutdown")),
        other => panic!("not stopped: {other:?}"),
    }
    assert!(server.session().is_none());

    let mut server = Server::new(VERSION);
    assert_eq!(server.receive(&call("start", "{}")), Action::Connect);
    request(server.resume(Event::Connected(Ok(session()))));
    assert_eq!(
        outcome(server.resume(exited())),
        error("bridge exited unexpectedly (status 0)")
    );
}

#[test]
fn a_bridge_that_cannot_be_started_is_reported() {
    let mut server = Server::new(VERSION);
    assert_eq!(server.receive(&call("status", "{}")), Action::Connect);
    assert_eq!(
        outcome(server.resume(Event::Connected(Err(Error::PipeUnsupported)))),
        error("failed to start bridge: named-pipe bridge mode is only supported on Windows; remove HIDMAESTRO_PIPE_NAME or use stdio bridge spawning")
    );
    assert!(server.session().is_none());
}

#[test]
fn status_tells_of_driver_and_controllers() {
    let mut server = connected();
    assert_eq!(
        request(server.receive(&call("status", "{}"))).method,
        "is_driver_installed"
    );
    assert_eq!(
        request(server.resume(Event::Reply(Ok(Json::Bool(true))))).method,
        "list_controllers"
    );
    let info = ControllerInfo {
        key: "c1".to_string(),
        profile_id: "dualsense".to_string(),
    };
    assert_eq!(
        outcome(server.resume(Event::Controllers(Ok(Ok(vec![info.clone()]))))),
        ok("{\n  \"controllers\": [\n    {\n      \"key\": \"c1\",\n      \"profile_id\": \"dualsense\"\n    }\n  ],\n  \"driver_installed\": true\n}")
    );
    assert!(matches!(
        server.receive(&call("list_controllers", "{}")),
        Action::Call(Request { method: "list_controllers", .. }, Reading::Controllers)
    ));
    assert_eq!(
        outcome(server.resume(Event::Controllers(Ok(Ok(vec![info]))))),
        ok("[\n  {\n    \"key\": \"c1\",\n    \"profile_id\": \"dualsense\"\n  }\n]")
    );
    request(server.receive(&call("list_controllers", "{}")));
    assert_eq!(
        outcome(server.resume(Event::Controllers(Ok(Err("bad".to_string()))))),
        error("bridge returned malformed JSON: bad")
    );
}

#[test]
fn plain_operations_say_what_they_did() {
    let mut server = connected();
    for (tool, method, words) in [
        (
            "install_driver",
            "install_driver",
            "driver installed (or already present)",
        ),
        (
            "install_usbip_backend",
            "install_usbip_backend",
            "usbip backend installed",
        ),
        ("load_profiles", "load_profiles", "230 profiles loaded"),
        (
            "remove_all_controllers",
            "remove_all_controllers",
            "all virtual controllers removed",
        ),
    ] {
        assert_eq!(request(server.receive(&call(tool, "{}"))).method, method);
        assert_eq!(
            outcome(server.resume(Event::Reply(Ok(json("230"))))),
            ok(words)
        );
        request(server.receive(&call(tool, "{}")));
        assert_eq!(
            outcome(server.resume(Event::Reply(Err(Error::Timeout)))),
            error("timeout waiting for bridge response")
        );
    }
    let from_dir = request(server.receive(&call("load_profiles", r#"{"dir":"d"}"#)));
    assert_eq!(
        from_dir.params,
        Some(Params::Dir {
            dir: "d".to_string()
        })
    );
}

fn profile(id: &str, name: &str, vendor: &str) -> Profile {
    Profile {
        id: id.to_string(),
        name: name.to_string(),
        vendor: vendor.to_string(),
        vendor_id: 0,
        product_id: 0,
        display_name: String::new(),
        connection: String::new(),
        backend: String::new(),
        button_count: 0,
        axis_count: 0,
        has_hat: false,
        deployable: false,
        requires_usbip_backend: false,
    }
}

#[test]
fn profiles_are_filtered_without_regard_to_case() {
    let all = || {
        vec![
            profile("xbox-360-wired", "Xbox 360", "Microsoft"),
            profile("dualsense", "DualSense", "SONY"),
            profile("switch-pro", "Pro", "Nintendo"),
        ]
    };
    let ids = |filter: &str| {
        filter_profiles(all(), &Some(filter.to_string()))
            .into_iter()
            .map(|p| p.id)
            .collect::<Vec<_>>()
    };
    assert_eq!(ids("XBOX"), ["xbox-360-wired"]);
    assert_eq!(ids("sony"), ["dualsense"]);
    assert_eq!(ids("PRO"), ["switch-pro"]);
    assert_eq!(ids(""), ["xbox-360-wired", "dualsense", "switch-pro"]);
    assert_eq!(ids("zzz"), Vec::<String>::new());
    assert_eq!(filter_profiles(all(), &None), all());
    assert!(filter_fits("so", "id", "name", "sony"));
    assert!(!filter_fits("so", "id", "name", "Sony"));

    let mut server = connected();
    assert!(matches!(
        server.receive(&call("list_profiles", r#"{"filter":"Sony"}"#)),
        Action::Call(Request { method: "list_profiles", .. }, Reading::Profiles)
    ));
    assert_eq!(
        server.resume(Event::Profiles(Ok(Ok(all())))),
        Action::WriteProfiles(vec![profile("dualsense", "DualSense", "SONY")])
    );
    assert_eq!(
        outcome(server.resume(Event::Written("[...]".to_string()))),
        ok("[...]")
    );
}

#[test]
fn a_timed_press_releases() {
    let mut server = with_controller();
    let pressed = submitted(server.receive(&call(
        "press_buttons",
        r#"{"controller":"c1","buttons":["a","start"],"hold_ms":80}"#,
    )));
    assert_eq!(pressed.buttons.bits(), 0x81);
    assert_eq!(mirror(&server), pressed);
    assert_eq!(
        server.resume(Event::Reply(Ok(Json::Null))),
        Action::Sleep(80)
    );
    let released = submitted(server.resume(Event::Slept));
    assert_eq!(released.buttons.bits(), 0);
    assert_eq!(
        outcome(server.resume(Event::Reply(Ok(Json::Null)))),
        ok("tapped a+start on 'c1' (80 ms)")
    );
    assert_eq!(mirror(&server), GamepadState::neutral());
}

#[test]
fn timed_tools_need_a_time() {
    let mut server = with_controller();
    for (tool, words) in [
        ("tap_buttons", "tapped a on 'c1' (5 ms)"),
        ("hold_buttons", "held a on 'c1' (5 ms)"),
    ] {
        assert_eq!(
            outcome(server.receive(&call(tool, r#"{"controller":"c1","buttons":"a"}"#))),
            error("missing 'hold_ms'")
        );
        submitted(server.receive(&call(
            tool,
            r#"{"controller":"c1","buttons":"a","hold_ms":5}"#,
        )));
        assert_eq!(server.resume(Event::Reply(Ok(Json::Null))), Action::Sleep(5));
        submitted(server.resume(Event::Slept));
        assert_eq!(
            outcome(server.resume(Event::Reply(Ok(Json::Null)))),
            ok(words)
        );
    }
}

#[test]
fn a_sequence_of_actions_is_bounded() {
    let mut server = with_controller();
    let run = |actions: &str| {
        call(
            "run_action_sequence",
            &format!(r#"{{"controller":"c1","actions":{actions}}}"#),
        )
    };
    assert_eq!(
        submitted(server.receive(&run(
            r#"[{"buttons":"a","hold_ms":1},{"buttons":"b","hold_ms":2}]"#
        )))
        .buttons
        .bits(),
        1
    );
    assert_eq!(server.resume(Event::Reply(Ok(Json::Null))), Action::Sleep(1));
    assert_eq!(submitted(server.resume(Event::Slept)).buttons.bits(), 0);
    assert_eq!(
        submitted(server.resume(Event::Reply(Ok(Json::Null))))
            .buttons
            .bits(),
        2
    );
    assert_eq!(server.resume(Event::Reply(Ok(Json::Null))), Action::Sleep(2));
    assert_eq!(submitted(server.resume(Event::Slept)).buttons.bits(), 0);
    assert_eq!(
        outcome(server.resume(Event::Reply(Ok(Json::Null)))),
        ok("ran 2 actions on 'c1'")
    );

    let many = vec![r#"{"buttons":"a","hold_ms":1}"#; 65].join(",");
    for (actions, words) in [
        ("[]", "actions must hold 1 to 64 actions"),
        (&format!("[{many}]"), "actions must hold 1 to 64 actions"),
        ("{}", "actions must be an array"),
        (
            r#"[{"buttons":"a","hold_ms":60001}]"#,
            "actions must take at most 60000 ms",
        ),
        (r#"[{"hold_ms":1}]"#, "missing 'buttons'"),
        (r#"[{"buttons":"a"}]"#, "missing 'hold_ms'"),
        (
            r#"[{"buttons":"a","hold_ms":1},{"buttons":"q","hold_ms":1}]"#,
            "unknown button 'q'",
        ),
    ] {
        assert_eq!(outcome(server.receive(&run(actions))), error(words));
    }
    assert_eq!(
        outcome(server.receive(&call("run_action_sequence", r#"{"controller":"c1"}"#))),
        error("missing 'actions'")
    );
}

#[test]
fn input_tools_change_the_state() {
    let mut server = with_controller();
    let mut run = |tool: &str, arguments: &str| {
        let state = submitted(server.receive(&call(tool, arguments)));
        (
            state,
            outcome(server.resume(Event::Reply(Ok(Json::Null)))).0,
        )
    };
    let (state, words) = run("press_buttons", r#"{"controller":"c1","buttons":["a","b"]}"#);
    assert_eq!((state.buttons.bits(), &*words), (3, "holding a+b on 'c1'"));
    let (state, words) = run("release_buttons", r#"{"controller":"c1","buttons":"a"}"#);
    assert_eq!((state.buttons.bits(), &*words), (2, "released a on 'c1'"));
    let (state, words) = run("set_buttons", r#"{"controller":"c1","buttons":129}"#);
    assert_eq!(
        (state.buttons.bits(), &*words),
        (0x81, "'c1' buttons = [a, start]")
    );
    let (state, words) = run(
        "set_axis",
        r#"{"controller":"c1","axis":"Left-X","value":1.23456}"#,
    );
    assert_eq!(state.axes.get(Axis(Axis::X)), Some(single(1.0)));
    assert_eq!(words, "'c1' axis Left-X = 1.235");
    let (state, words) = run(
        "set_sticks",
        r#"{"controller":"c1","left_x":2,"right_trigger":0.25,"left_y":"no"}"#,
    );
    let axes = state.standard_axes.unwrap();
    assert_eq!(axes.left_stick_x, Some(single(1.0)));
    assert_eq!(axes.right_trigger, Some(single(0.25)));
    assert_eq!(axes.left_stick_y, None);
    assert_eq!(words, "'c1' sticks/triggers updated");
    let (state, _) = run("set_sticks", r#"{"controller":"c1","left_x":0.5}"#);
    let axes = state.standard_axes.unwrap();
    assert_eq!(axes.left_stick_x, Some(single(0.5)));
    assert_eq!(axes.right_trigger, Some(single(0.25)));
    let (state, words) = run("set_dpad", r#"{"controller":"c1","direction":"up right"}"#);
    assert_eq!(
        (state.hat, &*words),
        (Hat::NorthEast, "'c1' d-pad = up right")
    );
    let (state, words) = run("reset_controller", r#"{"controller":"c1"}"#);
    assert_eq!(state, GamepadState::neutral());
    assert_eq!(words, "'c1' reset to neutral");
}

#[test]
fn unusable_calls_are_explained() {
    let mut server = with_controller();
    for (tool, arguments, words) in [
        ("nope", "{}", "unknown tool 'nope'"),
        ("create_controller", "{}", "missing 'profile_id'"),
        ("remove_controller", "{}", "missing 'controller'"),
        ("press_buttons", "{}", "missing 'controller'"),
        (
            "press_buttons",
            r#"{"controller":"c1"}"#,
            "missing 'buttons'",
        ),
        ("set_axis", r#"{"controller":"c1"}"#, "missing 'axis'"),
        (
            "set_axis",
            r#"{"controller":"c1","axis":"bogus"}"#,
            "missing 'value'",
        ),
        (
            "set_axis",
            r#"{"controller":"c1","axis":"bogus","value":1}"#,
            "unknown axis 'bogus'",
        ),
        ("set_dpad", r#"{"controller":"c1"}"#, "missing 'direction'"),
        (
            "set_dpad",
            r#"{"controller":"c1","direction":"q"}"#,
            "unknown direction 'q'",
        ),
        (
            "get_state",
            r#"{"controller":"c9"}"#,
            "no such controller 'c9' (created by this server?)",
        ),
        (
            "release_buttons",
            r#"{"controller":"c9","buttons":"a"}"#,
            "no such controller 'c9' (created by this server?)",
        ),
    ] {
        assert_eq!(
            outcome(server.receive(&call(tool, arguments))),
            error(words),
            "{tool} {arguments}"
        );
    }
    assert_eq!(
        outcome(server.receive(r#"{"id":1,"method":"tools/call"}"#)),
        error("unknown tool ''")
    );
}

fn patch(hat: &str) -> Patch {
    Patch {
        buttons: None,
        hat: Some(hat.to_string()),
        hat_degrees: None,
        axes: None,
        standard_axes: None,
    }
}

#[test]
fn a_patch_is_mirrored_once_it_is_confirmed() {
    let mut server = with_controller();
    let line = call(
        "set_state",
        r#"{"controller":"c1","state":{"hat":"north"}}"#,
    );
    let read = || Event::PatchRead(Ok(patch("north")));
    assert_eq!(
        server.receive(&line),
        Action::ReadPatch(json(r#"{"hat":"north"}"#))
    );
    assert_eq!(submitted(server.resume(read())).hat, Hat::North);
    assert_eq!(mirror(&server).hat, Hat::Neutral);
    assert_eq!(
        outcome(server.resume(Event::Reply(Err(Error::Remote("no".to_string()))))),
        error("bridge error: no")
    );
    assert_eq!(mirror(&server).hat, Hat::Neutral);

    server.receive(&line);
    submitted(server.resume(read()));
    assert_eq!(
        outcome(server.resume(Event::Reply(Ok(Json::Null)))),
        ok("'c1' state updated")
    );
    assert_eq!(mirror(&server).hat, Hat::North);

    server.receive(&line);
    assert_eq!(
        outcome(server.resume(Event::PatchRead(Err("why".to_string())))),
        error("invalid state: why")
    );
    server.receive(&line);
    assert_eq!(
        outcome(server.resume(Event::PatchRead(Ok(patch("q"))))),
        error("unknown direction 'q'")
    );
    assert_eq!(mirror(&server).hat, Hat::North);
    assert_eq!(
        server.receive(&call("set_state", r#"{"controller":"c9"}"#)),
        Action::ReadPatch(json("{}"))
    );
    assert_eq!(
        outcome(server.resume(read())),
        error("no such controller 'c9'")
    );
}

#[test]
fn states_and_events_are_handed_out() {
    let mut server = with_controller();
    assert_eq!(
        server.receive(&call("get_state", r#"{"controller":"c1"}"#)),
        Action::WriteState(GamepadState::neutral())
    );
    assert_eq!(
        outcome(server.resume(Event::Written("{}".to_string()))),
        ok("{}")
    );
    let event = || OutputEvent {
        controller: "c1".to_string(),
        report_id: 2,
        fields: Vec::new(),
        raw: vec![1],
        crc_valid: true,
    };
    server.accept_event(event());
    assert_eq!(
        server.receive(&call("drain_output_events", "{}")),
        Action::WriteEvents(vec![event()])
    );
    assert_eq!(
        server.receive(&call("drain_output_events", "{}")),
        Action::WriteEvents(Vec::new())
    );
}

#[test]
fn removing_and_stopping() {
    let mut server = with_controller();
    let removed = request(server.receive(&call("remove_controller", r#"{"controller":"c1"}"#)));
    assert_eq!(
        removed.params,
        Some(Params::Key {
            key: "c1".to_string()
        })
    );
    assert_eq!(
        outcome(server.resume(Event::Reply(Ok(Json::Null)))),
        ok("controller 'c1' removed")
    );
    assert!(server.session().unwrap().state("c1").is_none());
    assert!(matches!(
        server.receive(&call("shutdown", "{}")),
        Action::Stop(Some(_))
    ));
    assert_eq!(
        outcome(server.resume(Event::Stopped)),
        ok("bridge stopped; all virtual controllers removed")
    );
    assert_eq!(
        outcome(server.receive(&call("shutdown", "{}"))),
        ok("bridge stopped; all virtual controllers removed")
    );
    assert_eq!(server.resume(Event::Stopped), Action::Idle);
}

#[test]
fn a_call_without_an_id_runs_in_silence() {
    let mut server = connected();
    let notification = r#"{"method":"tools/call","params":{"name":"install_driver"}}"#;
    assert_eq!(
        request(server.receive(notification)).method,
        "install_driver"
    );
    assert_eq!(server.resume(Event::Reply(Ok(Json::Null))), Action::Idle);
}

#[test]
fn inactivity_makes_controllers_neutral() {
    assert_eq!(inactivity_limit(Some("1500")), Some(1500));
    for setting in [None, Some(""), Some("0"), Some("-5"), Some("soon"), Some("1.5")] {
        assert_eq!(inactivity_limit(setting), None);
    }

    assert_eq!(Server::new(VERSION).neutralize(), Action::Idle);
    assert_eq!(connected().neutralize(), Action::Idle);

    let mut server = with_controller();
    submitted(server.receive(&call(
        "press_buttons",
        r#"{"controller":"c1","buttons":"a"}"#,
    )));
    outcome(server.resume(Event::Reply(Ok(Json::Null))));
    request(server.receive(&call("create_controller", r#"{"profile_id":"p"}"#)));
    outcome(server.resume(Event::Reply(Ok(json(r#"{"key":"c2"}"#)))));

    let second = request(server.neutralize());
    assert!(matches!(second.params, Some(Params::Submit { ref key, .. }) if key == "c2"));
    let first = submitted(server.resume(Event::Reply(Err(Error::Timeout))));
    assert_eq!(first, GamepadState::neutral());
    assert_eq!(mirror(&server).buttons.bits(), 1);
    assert_eq!(server.resume(Event::Reply(Ok(Json::Null))), Action::Idle);
    assert_eq!(mirror(&server), GamepadState::neutral());
}

#[test]
fn a_pause_counts_once() {
    let mut server = with_controller();
    let watch = Watch::new(Some("250"));
    assert_eq!(watch.time(), Some(250));
    let (watch, action) = server.turn(watch, Input::Quiet);
    assert_eq!(submitted(action), GamepadState::neutral());
    assert_eq!(watch.time(), None);
    server.resume(Event::Reply(Ok(Json::Null)));
    let line = r#"{"id":1,"method":"ping"}"#.to_string();
    let (watch, action) = server.turn(watch, Input::Line(line));
    assert!(matches!(action, Action::Respond(_)));
    assert_eq!(watch.time(), Some(250));
    let (_, action) = server.turn(watch, Input::Closed);
    assert!(matches!(action, Action::Stop(Some(_))));
    assert_eq!(Watch::new(None).time(), None);
}

#[test]
fn an_event_that_was_not_asked_for_ends_the_call() {
    let mut server = connected();
    request(server.receive(&call("status", "{}")));
    assert_eq!(
        outcome(server.resume(Event::Slept)),
        error("unexpected event")
    );
}

#[test]
fn every_tool_is_listed_under_its_name() {
    let list = match tools() {
        Json::Array(list) => list,
        _ => panic!("tools are a list"),
    };
    assert_eq!(list.len(), TOOL_COUNT);
    for (index, document) in list.iter().enumerate() {
        let tool = Tool::at(index);
        assert_eq!(at(document, &["name"]), &Json::text(tool.name()));
        assert_eq!(Tool::by_name(tool.name()), Some(tool));
        assert_eq!(
            at(document, &["inputSchema", "type"]),
            &Json::text("object")
        );
    }
    assert_eq!(Tool::by_name("Start"), None);
    assert_eq!(
        Tool::SetAxis.document().to_value(),
        json(
            r#"{
                "name": "set_axis",
                "description": "Set one analog axis by name (0.0..1.0; 0.5 = stick center, 0.0 = trigger released). Names: x,y,z,rx,ry,rz,slider,dial,wheel,throttle,brake,clutch,rudder, or a raw usage like '0x0130'.",
                "inputSchema": {"type": "object", "required": ["controller", "axis", "value"], "properties": {
                    "controller": {"type": "string"},
                    "axis": {"type": "string"},
                    "value": {"type": "number"}
                }}
            }"#
        )
        .to_value()
    );
    assert_eq!(
        Tool::PressButtons.input_schema().to_value(),
        json(
            r#"{"type": "object", "required": ["controller", "buttons"], "properties": {
                "controller": {"type": "string"},
                "buttons": {"oneOf": [{"type": "string"}, {"type": "array", "items": {"type": "string"}}, {"type": "integer"}]},
                "hold_ms": {"type": "integer", "description": "If set, press then release after this many ms"}
            }}"#
        )
        .to_value()
    );
    assert_eq!(
        Tool::Status.input_schema().to_value(),
        json(r#"{"type": "object", "properties": {}}"#).to_value()
    );
}
