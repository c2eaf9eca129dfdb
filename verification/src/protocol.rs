//! The wire protocol of the bridge: one JSON document on each line.
//!
//! A request is `{"id":1,"method":"...","params":{...}}`, its response
//! `{"id":1,"ok":true,"result":...}` or `{"id":1,"ok":false,"error":"..."}`, and
//! an event, at any time, `{"event":"output","data":{...}}`.

use vstd::prelude::*;

use crate::error::{Error, Result};
use crate::gamepad::{GamepadState, GamepadView, OutputEvent};
use crate::json::Json;
use crate::text;

verus! {

broadcast use vstd::string::group_string_axioms;

/// An operation of the bridge. `T` holds text, `G` a controller state.
#[derive(Debug, PartialEq)]
pub enum Call<T, G> {
    Ping,
    IsDriverInstalled,
    InstallDriver,
    InstallUsbipBackend,
    LoadProfiles { dir: Option<T> },
    ListProfiles,
    GetProfile { id: T },
    CreateController { profile_id: T, index: Option<usize> },
    ListControllers,
    SubmitState { key: T, state: G },
    RemoveController { key: T },
    RemoveAllControllers,
    Shutdown,
}

/// An operation as it is sent.
pub type BridgeCall = Call<String, GamepadState>;

/// An operation as a mathematical value.
pub type CallView = Call<Seq<char>, GamepadView>;

/// The parameters of a request. `T` holds text, `G` a controller state.
#[derive(Debug, PartialEq)]
pub enum Params<T, G> {
    Dir { dir: T },
    Id { id: T },
    Create { profile_id: T, index: Option<usize> },
    Submit { key: T, state: G },
    Key { key: T },
}

/// Parameters as a mathematical value.
pub type ParamsView = Params<Seq<char>, GamepadView>;

/// A request to the bridge.
#[derive(Debug, PartialEq)]
pub struct Request {
    pub id: u64,
    pub method: &'static str,
    pub params: Option<Params<String, GamepadState>>,
}

/// A message from the bridge.
#[derive(Debug, PartialEq)]
pub enum Inbound {
    Response { id: u64, ok: bool, result: Option<Json>, error: Option<String> },
    Event { kind: String, data: Json },
}

impl Call<String, GamepadState> {
    /// The operation as a mathematical value.
    pub open spec fn view(self) -> CallView {
        match self {
            Call::Ping => Call::Ping,
            Call::IsDriverInstalled => Call::IsDriverInstalled,
            Call::InstallDriver => Call::InstallDriver,
            Call::InstallUsbipBackend => Call::InstallUsbipBackend,
            Call::LoadProfiles { dir } => Call::LoadProfiles {
                dir: match dir {
                    Some(dir) => Some(dir@),
                    None => None,
                },
            },
            Call::ListProfiles => Call::ListProfiles,
            Call::GetProfile { id } => Call::GetProfile { id: id@ },
            Call::CreateController { profile_id, index } => Call::CreateController {
                profile_id: profile_id@,
                index,
            },
            Call::ListControllers => Call::ListControllers,
            Call::SubmitState { key, state } => Call::SubmitState { key: key@, state: state@ },
            Call::RemoveController { key } => Call::RemoveController { key: key@ },
            Call::RemoveAllControllers => Call::RemoveAllControllers,
            Call::Shutdown => Call::Shutdown,
        }
    }
}

/// The method name of an operation.
pub open spec fn method_of(call: CallView) -> Seq<char> {
    match call {
        Call::Ping => "ping"@,
        Call::IsDriverInstalled => "is_driver_installed"@,
        Call::InstallDriver => "install_driver"@,
        Call::InstallUsbipBackend => "install_usbip_backend"@,
        Call::LoadProfiles { .. } => "load_profiles"@,
        Call::ListProfiles => "list_profiles"@,
        Call::GetProfile { .. } => "get_profile"@,
        Call::CreateController { .. } => "create_controller"@,
        Call::ListControllers => "list_controllers"@,
        Call::SubmitState { .. } => "submit_state"@,
        Call::RemoveController { .. } => "remove_controller"@,
        Call::RemoveAllControllers => "remove_all_controllers"@,
        Call::Shutdown => "shutdown"@,
    }
}

/// The parameters of an operation.
pub open spec fn params_of(call: CallView) -> Option<ParamsView> {
    match call {
        Call::LoadProfiles { dir: Some(dir) } => Some(Params::Dir { dir }),
        Call::GetProfile { id } => Some(Params::Id { id }),
        Call::CreateController { profile_id, index } => Some(Params::Create { profile_id, index }),
        Call::SubmitState { key, state } => Some(Params::Submit { key, state }),
        Call::RemoveController { key } => Some(Params::Key { key }),
        _ => None,
    }
}

impl Params<String, GamepadState> {
    /// The parameters as a mathematical value.
    pub open spec fn view(self) -> ParamsView {
        match self {
            Params::Dir { dir } => Params::Dir { dir: dir@ },
            Params::Id { id } => Params::Id { id: id@ },
            Params::Create { profile_id, index } => Params::Create {
                profile_id: profile_id@,
                index,
            },
            Params::Submit { key, state } => Params::Submit { key: key@, state: state@ },
            Params::Key { key } => Params::Key { key: key@ },
        }
    }
}

/// A request as a mathematical value.
pub struct RequestView {
    pub id: u64,
    pub method: Seq<char>,
    pub params: Option<ParamsView>,
}

/// The request for an operation.
pub open spec fn requested(id: u64, call: CallView) -> RequestView {
    RequestView { id, method: method_of(call), params: params_of(call) }
}

impl Request {
    /// The request as a mathematical value.
    pub open spec fn view(self) -> RequestView {
        RequestView {
            id: self.id,
            method: self.method@,
            params: match self.params {
                Some(params) => Some(params@),
                None => None,
            },
        }
    }

    /// The request for an operation.
    pub fn new(id: u64, call: BridgeCall) -> (request: Request)
        ensures
            request@ == requested(id, call@),
    {
        match call {
            Call::Ping => Request { id, method: "ping", params: None },
            Call::IsDriverInstalled => Request { id, method: "is_driver_installed", params: None },
            Call::InstallDriver => Request { id, method: "install_driver", params: None },
            Call::InstallUsbipBackend => Request {
                id,
                method: "install_usbip_backend",
                params: None,
            },
            Call::LoadProfiles { dir } => Request {
                id,
                method: "load_profiles",
                params: match dir {
                    Some(dir) => Some(Params::Dir { dir }),
                    None => None,
                },
            },
            Call::ListProfiles => Request { id, method: "list_profiles", params: None },
            Call::GetProfile { id: profile } => Request {
                id,
                method: "get_profile",
                params: Some(Params::Id { id: profile }),
            },
            Call::CreateController { profile_id, index } => Request {
                id,
                method: "create_controller",
                params: Some(Params::Create { profile_id, index }),
            },
            Call::ListControllers => Request { id, method: "list_controllers", params: None },
            Call::SubmitState { key, state } => Request {
                id,
                method: "submit_state",
                params: Some(Params::Submit { key, state }),
            },
            Call::RemoveController { key } => Request {
                id,
                method: "remove_controller",
                params: Some(Params::Key { key }),
            },
            Call::RemoveAllControllers => Request {
                id,
                method: "remove_all_controllers",
                params: None,
            },
            Call::Shutdown => Request { id, method: "shutdown", params: None },
        }
    }
}

/// The bytes of a document as a line of the protocol.
pub fn frame(document: Vec<u8>) -> (line: Vec<u8>)
    ensures
        line@ == document@.push(10u8),
{
    let mut line = document;
    line.push(10);
    line
}

/// What happens while a request waits for its response.
#[derive(Debug, PartialEq)]
pub enum RpcEvent {
    /// A message has come.
    Message(Inbound),
    /// The wait has run out of time.
    TimedOut,
    /// No more messages will come. Where the bridge was started as a process and
    /// has exited, its status.
    Disconnected(Option<String>),
}

/// What a request that waits does next.
#[derive(Debug, PartialEq)]
pub enum RpcStep {
    /// Return this.
    Return(Result<Json>),
    /// Go on waiting.
    Continue,
}

/// The result of the response, and `null` where it has none.
pub open spec fn result_or_null(result: Option<Json>, json: Json) -> bool {
    match result {
        Some(value) => json == value,
        None => json == Json::Null,
    }
}

/// What a waiting request makes of an event: only the response with its own id
/// ends it, with the result or with the error of the bridge.
pub open spec fn rpc_outcome(id: u64, event: RpcEvent, step: RpcStep) -> bool {
    match event {
        RpcEvent::Message(Inbound::Response { id: other, ok, result, error }) => if other != id {
            step == RpcStep::Continue
        } else if ok {
            step matches RpcStep::Return(Ok(json)) && result_or_null(result, json)
        } else {
            step matches RpcStep::Return(Err(Error::Remote(message))) && message@ == (match error {
                Some(text) => text@,
                None => "unknown error"@,
            })
        },
        RpcEvent::Message(Inbound::Event { .. }) => step == RpcStep::Continue,
        RpcEvent::TimedOut => step == RpcStep::Return(Err(Error::Timeout)),
        RpcEvent::Disconnected(status) => {
            step matches RpcStep::Return(Err(Error::BridgeExited(message))) && message@ == (
            match status {
                Some(text) => " (status "@ + text@ + ")"@,
                None => ""@,
            })
        },
    }
}

/// One step of waiting for the response to request `id`.
pub fn rpc_step(id: u64, event: RpcEvent) -> (step: RpcStep)
    ensures
        rpc_outcome(id, event, step),
{
    match event {
        RpcEvent::Message(Inbound::Response { id: other, ok, result, error }) => {
            if other != id {
                RpcStep::Continue
            } else if ok {
                match result {
                    Some(json) => RpcStep::Return(Ok(json)),
                    None => RpcStep::Return(Ok(Json::Null)),
                }
            } else {
                match error {
                    Some(message) => RpcStep::Return(Err(Error::Remote(message))),
                    None => RpcStep::Return(Err(Error::Remote("unknown error".to_owned()))),
                }
            }
        },
        RpcEvent::Message(Inbound::Event { .. }) => RpcStep::Continue,
        RpcEvent::TimedOut => RpcStep::Return(Err(Error::Timeout)),
        RpcEvent::Disconnected(status) => {
            let mut message = String::new();
            if let Some(text) = status {
                message.append(" (status ");
                message.append(text.as_str());
                message.append(")");
                assert(message@ =~= " (status "@ + text@ + ")"@);
            } else {
                proof {
                    reveal_strlit("");
                    assert(message@ =~= ""@);
                }
            }
            RpcStep::Return(Err(Error::BridgeExited(message)))
        },
    }
}

/// How long a request may still wait: `elapsed` nanoseconds of `limit` have
/// passed.
pub fn rpc_wait(elapsed: u128, limit: u128) -> (left: Result<u128>)
    ensures
        left == (if elapsed >= limit {
            Err::<u128, Error>(Error::Timeout)
        } else {
            Ok((limit - elapsed) as u128)
        }),
{
    if elapsed >= limit {
        Err(Error::Timeout)
    } else {
        Ok(limit - elapsed)
    }
}

/// What happens to the reader of the bridge's lines.
#[derive(Debug, PartialEq)]
pub enum ReaderEvent {
    /// It starts, or an event has been put in the buffer.
    Idle,
    /// A line was read.
    Line(String),
    /// The stream has ended, or reading it failed.
    Closed,
    /// A line was decoded, if it is a message.
    Decoded(Option<Inbound>),
    /// The data of an event was decoded, if it is an output event.
    EventDecoded(Option<OutputEvent>),
    /// A response was handed over, and whether anybody takes it.
    Forwarded(bool),
}

/// What the reader does next.
#[derive(Debug, PartialEq)]
pub enum ReaderAction {
    Read,
    Decode(String),
    DecodeEvent(Json),
    Buffer(OutputEvent),
    Forward(Inbound),
    Stop,
}

/// What the reader does: it skips blank lines and lines that are no message, puts
/// events in the buffer and hands responses over. It stops at the end of the
/// stream, or when nobody takes responses any more.
pub open spec fn reader_action(event: ReaderEvent) -> ReaderAction {
    match event {
        ReaderEvent::Idle => ReaderAction::Read,
        ReaderEvent::Line(line) => if text::blank(line@) {
            ReaderAction::Read
        } else {
            ReaderAction::Decode(line)
        },
        ReaderEvent::Closed => ReaderAction::Stop,
        ReaderEvent::Decoded(None) => ReaderAction::Read,
        ReaderEvent::Decoded(Some(Inbound::Event { kind, data })) => ReaderAction::DecodeEvent(
            data,
        ),
        ReaderEvent::Decoded(Some(response)) => ReaderAction::Forward(response),
        ReaderEvent::EventDecoded(Some(output)) => ReaderAction::Buffer(output),
        ReaderEvent::EventDecoded(None) => ReaderAction::Read,
        ReaderEvent::Forwarded(taken) => if taken {
            ReaderAction::Read
        } else {
            ReaderAction::Stop
        },
    }
}

/// One step of the reader.
pub fn reader_step(event: ReaderEvent) -> (action: ReaderAction)
    ensures
        action == reader_action(event),
{
    match event {
        ReaderEvent::Idle => ReaderAction::Read,
        ReaderEvent::Line(line) => {
            if text::is_blank(line.as_str()) {
                ReaderAction::Read
            } else {
                ReaderAction::Decode(line)
            }
        },
        ReaderEvent::Closed => ReaderAction::Stop,
        ReaderEvent::Decoded(None) => ReaderAction::Read,
        ReaderEvent::Decoded(Some(Inbound::Event { kind: _, data })) => ReaderAction::DecodeEvent(
            data,
        ),
        ReaderEvent::Decoded(Some(response)) => ReaderAction::Forward(response),
        ReaderEvent::EventDecoded(Some(output)) => ReaderAction::Buffer(output),
        ReaderEvent::EventDecoded(None) => ReaderAction::Read,
        ReaderEvent::Forwarded(taken) => {
            if taken {
                ReaderAction::Read
            } else {
                ReaderAction::Stop
            }
        },
    }
}

/// Only its own response, the end of its time or the end of the bridge ends a
/// request that waits; it succeeds only by a response that says so, and blames the
/// bridge only for one that does not.
pub proof fn law_responses_match_requests(id: u64, event: RpcEvent, step: RpcStep)
    requires
        rpc_outcome(id, event, step),
    ensures
        step == RpcStep::Continue <==> (event matches RpcEvent::Message(message) && !(
        message matches Inbound::Response { id: other, .. } && other == id)),
        step matches RpcStep::Return(Ok(_)) ==> (event matches RpcEvent::Message(
            Inbound::Response { id: other, ok, .. },
        ) && other == id && ok),
        step matches RpcStep::Return(Err(Error::Remote(_))) ==> (event matches RpcEvent::Message(
            Inbound::Response { id: other, ok, .. },
        ) && other == id && !ok),
{
}

/// The event ends the wait of a request.
pub open spec fn decides(id: u64, event: RpcEvent) -> bool {
    match event {
        RpcEvent::Message(Inbound::Response { id: other, .. }) => other == id,
        RpcEvent::Message(Inbound::Event { .. }) => false,
        RpcEvent::TimedOut | RpcEvent::Disconnected(_) => true,
    }
}

/// What a request returns after events that come one after the other: it takes
/// them in turn until one makes it return, and without such a one it still waits.
pub open spec fn rpc_returns(
    id: u64,
    events: Seq<RpcEvent>,
    returned: Option<Result<Json>>,
) -> bool
    decreases events.len(),
{
    if events.len() == 0 {
        returned is None
    } else if rpc_outcome(id, events[0], RpcStep::Continue) {
        rpc_returns(id, events.skip(1), returned)
    } else {
        returned matches Some(result) && rpc_outcome(id, events[0], RpcStep::Return(result))
    }
}

/// Over a whole wait, the first event that decides makes the request return: its
/// own response gives its result or its error, the end of the time the timeout,
/// and the end of the bridge that error, whichever comes first. What comes before,
/// responses with other ids and events, changes nothing, and what comes after is
/// not looked at. Without an event that decides, the request still waits.
pub proof fn law_first_deciding_event_returns(
    id: u64,
    events: Seq<RpcEvent>,
    at: int,
    returned: Option<Result<Json>>,
)
    requires
        0 <= at <= events.len(),
        forall|k: int| 0 <= k < at ==> !decides(id, #[trigger] events[k]),
        at < events.len() ==> decides(id, events[at]),
    ensures
        at == events.len() ==> (rpc_returns(id, events, returned) <==> returned is None),
        at < events.len() ==> (rpc_returns(id, events, returned) <==> (returned matches Some(result)
            && rpc_outcome(id, events[at], RpcStep::Return(result)))),
        at < events.len() && rpc_returns(id, events, returned) ==> match events[at] {
            RpcEvent::Message(Inbound::Response { id: other, ok, result, error }) => {
                &&& other == id
                &&& ok ==> returned == Some(
                    Ok::<Json, Error>(
                        match result {
                            Some(json) => json,
                            None => Json::Null,
                        },
                    ),
                )
                &&& !ok ==> (returned matches Some(Err(Error::Remote(message))) && message@ == (
                match error {
                    Some(text) => text@,
                    None => "unknown error"@,
                }))
            },
            RpcEvent::Message(_) => false,
            RpcEvent::TimedOut => returned == Some(Err::<Json, Error>(Error::Timeout)),
            RpcEvent::Disconnected(status) => {
                returned matches Some(Err(Error::BridgeExited(message))) && match status {
                    Some(text) => message@ == " (status "@ + text@ + ")"@,
                    None => message@.len() == 0,
                }
            },
        },
    decreases events.len(),
{
    reveal_strlit("");
    if at > 0 {
        assert(!decides(id, events[0]));
        let rest = events.skip(1);
        assert forall|k: int| 0 <= k < at - 1 implies !decides(id, #[trigger] rest[k]) by {
            assert(rest[k] == events[k + 1]);
        }
        if at < events.len() {
            assert(rest[at - 1] == events[at]);
        }
        law_first_deciding_event_returns(id, rest, at - 1, returned);
    }
}

/// How lines and data are decoded.
pub struct Decoding {
    /// The message that a line is, if it is one.
    pub message: spec_fn(String) -> Option<Inbound>,
    /// The output event that data are, if they are one.
    pub output: spec_fn(Json) -> Option<OutputEvent>,
}

/// What came of the lines of the bridge.
#[verifier::ext_equal]
pub struct Heard {
    /// The output events that were put in the buffer.
    pub buffered: Seq<OutputEvent>,
    /// The responses that were handed over.
    pub forwarded: Seq<Inbound>,
}

/// Nothing came of the lines.
pub open spec fn nothing_heard() -> Heard {
    Heard { buffered: Seq::empty(), forwarded: Seq::empty() }
}

/// What came of some lines, and then of others.
pub open spec fn heard_both(first: Heard, second: Heard) -> Heard {
    Heard {
        buffered: first.buffered + second.buffered,
        forwarded: first.forwarded + second.forwarded,
    }
}

/// How many steps the reader may still take before it reads another line.
pub open spec fn reader_rank(event: ReaderEvent) -> nat {
    match event {
        ReaderEvent::Closed => 0,
        ReaderEvent::Idle | ReaderEvent::Forwarded(_) => 1,
        ReaderEvent::EventDecoded(_) => 2,
        ReaderEvent::Decoded(_) => 3,
        ReaderEvent::Line(_) => 4,
    }
}

/// What comes of the lines that are left when the reader, step by step, does what
/// it has to do, as long as its responses are taken.
pub open spec fn reader_run(decoding: Decoding, lines: Seq<String>, event: ReaderEvent) -> Heard
    decreases lines.len(), reader_rank(event),
{
    match reader_action(event) {
        ReaderAction::Read => if lines.len() == 0 {
            reader_run(decoding, lines, ReaderEvent::Closed)
        } else {
            reader_run(decoding, lines.skip(1), ReaderEvent::Line(lines[0]))
        },
        ReaderAction::Decode(line) => reader_run(
            decoding,
            lines,
            ReaderEvent::Decoded((decoding.message)(line)),
        ),
        ReaderAction::DecodeEvent(data) => reader_run(
            decoding,
            lines,
            ReaderEvent::EventDecoded((decoding.output)(data)),
        ),
        ReaderAction::Buffer(output) => heard_both(
            Heard { buffered: seq![output], forwarded: Seq::empty() },
            reader_run(decoding, lines, ReaderEvent::Idle),
        ),
        ReaderAction::Forward(response) => heard_both(
            Heard { buffered: Seq::empty(), forwarded: seq![response] },
            reader_run(decoding, lines, ReaderEvent::Forwarded(true)),
        ),
        ReaderAction::Stop => nothing_heard(),
    }
}

/// What a line amounts to: an output event, a response, or nothing.
pub open spec fn heard_in(decoding: Decoding, line: String) -> Heard {
    if text::blank(line@) {
        nothing_heard()
    } else {
        match (decoding.message)(line) {
            None => nothing_heard(),
            Some(Inbound::Event { kind, data }) => match (decoding.output)(data) {
                Some(output) => Heard { buffered: seq![output], forwarded: Seq::empty() },
                None => nothing_heard(),
            },
            Some(response) => Heard { buffered: Seq::empty(), forwarded: seq![response] },
        }
    }
}

/// What lines amount to, one after the other.
pub open spec fn heard_in_all(decoding: Decoding, lines: Seq<String>) -> Heard
    decreases lines.len(),
{
    if lines.len() == 0 {
        nothing_heard()
    } else {
        heard_both(heard_in(decoding, lines[0]), heard_in_all(decoding, lines.skip(1)))
    }
}

/// Over all lines, the reader puts exactly the decoded output events in the buffer
/// and hands exactly the decoded responses over, each in the order of the lines.
pub proof fn law_reader_hears_every_line(decoding: Decoding, lines: Seq<String>)
    ensures
        reader_run(decoding, lines, ReaderEvent::Idle) == heard_in_all(decoding, lines),
        reader_run(decoding, lines, ReaderEvent::Forwarded(true)) == heard_in_all(decoding, lines),
    decreases lines.len(),
{
    reveal_with_fuel(reader_run, 6);
    if lines.len() > 0 {
        let rest = lines.skip(1);
        let line = lines[0];
        law_reader_hears_every_line(decoding, rest);
        let run = reader_run(decoding, rest, ReaderEvent::Line(line));
        assert(reader_run(decoding, rest, ReaderEvent::Decoded(None)) == reader_run(
            decoding,
            rest,
            ReaderEvent::Idle,
        ));
        assert(reader_run(decoding, rest, ReaderEvent::EventDecoded(None)) == reader_run(
            decoding,
            rest,
            ReaderEvent::Idle,
        ));
        assert(run =~= heard_both(heard_in(decoding, line), heard_in_all(decoding, rest)));
    }
}

proof fn lemma_heard_in_parts(decoding: Decoding, first: Seq<String>, second: Seq<String>)
    ensures
        heard_in_all(decoding, first + second) == heard_both(
            heard_in_all(decoding, first),
            heard_in_all(decoding, second),
        ),
    decreases first.len(),
{
    if first.len() == 0 {
        assert(first + second =~= second);
    } else {
        lemma_heard_in_parts(decoding, first.skip(1), second);
        assert((first + second).skip(1) =~= first.skip(1) + second);
        assert((first + second)[0] == first[0]);
    }
    assert(heard_in_all(decoding, first + second) =~= heard_both(
        heard_in_all(decoding, first),
        heard_in_all(decoding, second),
    ));
}

/// A line that is blank, that is no message, or whose event is no output event,
/// changes nothing, wherever it stands.
pub proof fn law_noise_changes_nothing(decoding: Decoding, lines: Seq<String>, at: int)
    requires
        0 <= at < lines.len(),
        ({
            let line = lines[at];
            ||| text::blank(line@)
            ||| (decoding.message)(line) is None
            ||| (decoding.message)(line) matches Some(Inbound::Event { data, .. }) && (
            decoding.output)(data) is None
        }),
    ensures
        reader_run(decoding, lines, ReaderEvent::Idle) == reader_run(
            decoding,
            lines.remove(at),
            ReaderEvent::Idle,
        ),
{
    let before = lines.take(at);
    let after = lines.skip(at + 1);
    let noise = lines.skip(at);
    law_reader_hears_every_line(decoding, lines);
    law_reader_hears_every_line(decoding, lines.remove(at));
    lemma_heard_in_parts(decoding, before, noise);
    lemma_heard_in_parts(decoding, before, after);
    assert(before + noise =~= lines);
    assert(before + after =~= lines.remove(at));
    assert(noise[0] == lines[at]);
    assert(noise.skip(1) =~= after);
    assert(heard_in(decoding, lines[at]) == nothing_heard());
    assert(heard_in_all(decoding, noise) =~= heard_in_all(decoding, after));
}

/// A request carries its id, the method that its operation is called, and the parameters
/// of the operation, each under its own name; operations without any carry none.
pub proof fn law_requests_carry_their_operation(
    id: u64,
    text: Seq<char>,
    index: Option<usize>,
    state: GamepadView,
    call: CallView,
)
    ensures
        requested(id, call).id == id,
        requested(id, Call::GetProfile { id: text }) == (RequestView {
            id,
            method: "get_profile"@,
            params: Some(Params::Id { id: text }),
        }),
        requested(id, Call::LoadProfiles { dir: Some(text) }) == (RequestView {
            id,
            method: "load_profiles"@,
            params: Some(Params::Dir { dir: text }),
        }),
        requested(id, Call::LoadProfiles { dir: None }) == (RequestView {
            id,
            method: "load_profiles"@,
            params: None,
        }),
        requested(id, Call::CreateController { profile_id: text, index }) == (RequestView {
            id,
            method: "create_controller"@,
            params: Some(Params::Create { profile_id: text, index }),
        }),
        requested(id, Call::SubmitState { key: text, state }) == (RequestView {
            id,
            method: "submit_state"@,
            params: Some(Params::Submit { key: text, state }),
        }),
        requested(id, Call::RemoveController { key: text }) == (RequestView {
            id,
            method: "remove_controller"@,
            params: Some(Params::Key { key: text }),
        }),
        call is Ping ==> requested(id, call).method == "ping"@,
        call is IsDriverInstalled ==> requested(id, call).method == "is_driver_installed"@,
        call is InstallDriver ==> requested(id, call).method == "install_driver"@,
        call is InstallUsbipBackend ==> requested(id, call).method == "install_usbip_backend"@,
        call is ListProfiles ==> requested(id, call).method == "list_profiles"@,
        call is ListControllers ==> requested(id, call).method == "list_controllers"@,
        call is RemoveAllControllers ==> requested(id, call).method == "remove_all_controllers"@,
        call is Shutdown ==> requested(id, call).method == "shutdown"@,
        call is Ping || call is IsDriverInstalled || call is InstallDriver
            || call is InstallUsbipBackend || call is ListProfiles || call is ListControllers
            || call is RemoveAllControllers || call is Shutdown ==> requested(
            id,
            call,
        ).params is None,
{
}

} // verus!
