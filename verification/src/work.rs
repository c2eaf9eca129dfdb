//! What a call of a tool does, step by step: the outside work that each step asks
//! for, and what becomes of its result.

use vstd::prelude::*;

use crate::command;
use crate::command::{BridgeTask, Command, CommandView, Step, Task, TaskView, ToolCommand};
use crate::error;
use crate::error::Error;
use crate::events::BufferView;
use crate::gamepad;
use crate::gamepad::{ControllerInfo, GamepadState, GamepadView, OutputEvent, Profile};
use crate::json;
use crate::json::{Json, JsonView};
use crate::message;
use crate::patch;
use crate::patch::{Patch, PatchView};
use crate::protocol;
use crate::protocol::{BridgeCall, Call, CallView, Request, RequestView};
use crate::session;
use crate::session::{HidMaestro, SessionView, SlotView};
use crate::text;

verus! {

broadcast use vstd::string::group_string_axioms;

/// The lower-case form of a text, as the standard library gives it.
pub uninterp spec fn lowered(s: Seq<char>) -> Seq<char>;

/// `str::to_lowercase` of the standard library: the lower-case form of a text,
/// which depends on the text alone.
#[verifier::external_body]
fn lower(s: &str) -> (lower: String)
    ensures
        lower@ == lowered(s@),
{
    s.to_lowercase()
}

/// What a reply is to be read as.
#[derive(Clone, Copy, Debug, PartialEq, Eq, Structural)]
pub enum Reading {
    /// A document.
    Document,
    /// A list of profiles.
    Profiles,
    /// A list of controllers.
    Controllers,
}

/// Outside work that a step asks for.
#[derive(Debug, PartialEq)]
pub enum Action {
    /// Read a document as a patch.
    ReadPatch(Json),
    /// Connect to the bridge.
    Connect,
    /// Send a request, wait for its response, and read it.
    Call(Request, Reading),
    /// Wait for this many milliseconds.
    Sleep(u64),
    /// Stop the bridge, with this request if it was not asked yet, and
    /// disconnect.
    Stop(Option<Request>),
    /// Write a state as text.
    WriteState(GamepadState),
    /// Write profiles as text.
    WriteProfiles(Vec<Profile>),
    /// Write output events as text.
    WriteEvents(Vec<OutputEvent>),
    /// Answer the agent.
    Respond(Json),
    /// Nothing more for now.
    Idle,
}

/// An action as a mathematical value.
#[verifier::ext_equal]
pub enum ActionView {
    ReadPatch(JsonView),
    Connect,
    Call(RequestView, Reading),
    Sleep(u64),
    Stop(Option<RequestView>),
    WriteState(GamepadView),
    WriteProfiles(Seq<Profile>),
    WriteEvents(Seq<OutputEvent>),
    Respond(JsonView),
    Idle,
}

impl Action {
    /// The action as a mathematical value.
    pub open spec fn view(self) -> ActionView {
        match self {
            Action::ReadPatch(json) => ActionView::ReadPatch(json.view()),
            Action::Connect => ActionView::Connect,
            Action::Call(request, reading) => ActionView::Call(request@, reading),
            Action::Sleep(time) => ActionView::Sleep(time),
            Action::Stop(Some(request)) => ActionView::Stop(Some(request@)),
            Action::Stop(None) => ActionView::Stop(None),
            Action::WriteState(state) => ActionView::WriteState(state@),
            Action::WriteProfiles(profiles) => ActionView::WriteProfiles(profiles@),
            Action::WriteEvents(events) => ActionView::WriteEvents(events@),
            Action::Respond(json) => ActionView::Respond(json.view()),
            Action::Idle => ActionView::Idle,
        }
    }
}

/// The result of outside work.
#[derive(Debug)]
pub enum Event {
    /// A document was read as a patch.
    PatchRead(Result<Patch, String>),
    /// The bridge was connected.
    Connected(error::Result<HidMaestro>),
    /// A request was answered.
    Reply(error::Result<Json>),
    /// A request for profiles was answered, and the answer read.
    Profiles(error::Result<Result<Vec<Profile>, String>>),
    /// A request for controllers was answered, and the answer read.
    Controllers(error::Result<Result<Vec<ControllerInfo>, String>>),
    /// The time has passed.
    Slept,
    /// The bridge was stopped.
    Stopped,
    /// Something was written as text.
    Written(String),
}

/// What a call waits for.
#[derive(Debug, PartialEq)]
pub enum Wait {
    /// The patch for a controller.
    Patch { key: String },
    /// The connection, for a task.
    Connection { task: BridgeTask },
    /// The answer to a ping. A bridge that has exited meanwhile is started anew
    /// if `recover`.
    Pong { recover: bool },
    /// The end of a bridge that is to be started anew.
    Restart,
    DriverStatus,
    ControllerStatus { installed: bool },
    /// The end of an operation, after which a message is said.
    Done { message: String },
    ProfileCount,
    ProfileList { filter: Option<String> },
    NewController { profile_id: String },
    ControllerList,
    Removed { key: String },
    AllRemoved,
    /// The end of submitting a state, before more steps.
    Submitted { key: String, steps: Vec<Step>, message: String },
    /// The end of a pause, before more steps.
    Slept { key: String, steps: Vec<Step>, message: String },
    /// The end of submitting a patched state.
    Patched { key: String, state: GamepadState },
    /// The end of the bridge.
    Stopped,
    /// A text.
    Written,
    /// The end of submitting the neutral state, before other controllers.
    Neutral { key: String, rest: Vec<String> },
}

/// What a call waits for, as a mathematical value.
#[verifier::ext_equal]
pub enum WaitView {
    Patch { key: Seq<char> },
    Connection { task: TaskView },
    Pong { recover: bool },
    Restart,
    DriverStatus,
    ControllerStatus { installed: bool },
    Done { message: Seq<char> },
    ProfileCount,
    ProfileList { filter: Option<Seq<char>> },
    NewController { profile_id: Seq<char> },
    ControllerList,
    Removed { key: Seq<char> },
    AllRemoved,
    Submitted { key: Seq<char>, steps: Seq<Step>, message: Seq<char> },
    Slept { key: Seq<char>, steps: Seq<Step>, message: Seq<char> },
    Patched { key: Seq<char>, state: GamepadView },
    Stopped,
    Written,
    Neutral { key: Seq<char>, rest: Seq<Seq<char>> },
}

impl Wait {
    /// What is waited for, as a mathematical value.
    pub open spec fn view(self) -> WaitView {
        match self {
            Wait::Patch { key } => WaitView::Patch { key: key@ },
            Wait::Connection { task } => WaitView::Connection { task: task@ },
            Wait::Pong { recover } => WaitView::Pong { recover },
            Wait::Restart => WaitView::Restart,
            Wait::DriverStatus => WaitView::DriverStatus,
            Wait::ControllerStatus { installed } => WaitView::ControllerStatus { installed },
            Wait::Done { message } => WaitView::Done { message: message@ },
            Wait::ProfileCount => WaitView::ProfileCount,
            Wait::ProfileList { filter } => WaitView::ProfileList {
                filter: match filter {
                    Some(filter) => Some(filter@),
                    None => None,
                },
            },
            Wait::NewController { profile_id } => WaitView::NewController {
                profile_id: profile_id@,
            },
            Wait::ControllerList => WaitView::ControllerList,
            Wait::Removed { key } => WaitView::Removed { key: key@ },
            Wait::AllRemoved => WaitView::AllRemoved,
            Wait::Submitted { key, steps, message } => WaitView::Submitted {
                key: key@,
                steps: steps@,
                message: message@,
            },
            Wait::Slept { key, steps, message } => WaitView::Slept {
                key: key@,
                steps: steps@,
                message: message@,
            },
            Wait::Patched { key, state } => WaitView::Patched { key: key@, state: state@ },
            Wait::Stopped => WaitView::Stopped,
            Wait::Written => WaitView::Written,
            Wait::Neutral { key, rest } => WaitView::Neutral {
                key: key@,
                rest: session::key_texts(rest@),
            },
        }
    }
}

/// How far a call has come.
#[derive(Debug, PartialEq)]
pub enum Progress {
    /// It asks for outside work and waits for the result.
    Ask(Action, Wait),
    /// It is over, with what a tool says, or with what went wrong.
    Finish(Result<String, String>),
}

/// How far a call has come, as a mathematical value.
#[verifier::ext_equal]
pub enum ProgressView {
    Ask(ActionView, WaitView),
    Finish(Result<Seq<char>, Seq<char>>),
}

impl Progress {
    /// The progress as a mathematical value.
    pub open spec fn view(self) -> ProgressView {
        match self {
            Progress::Ask(action, wait) => ProgressView::Ask(action@, wait@),
            Progress::Finish(Ok(s)) => ProgressView::Finish(Ok(s@)),
            Progress::Finish(Err(s)) => ProgressView::Finish(Err(s@)),
        }
    }
}

/// A session that may be missing, as a mathematical value.
pub open spec fn maybe_session(session: Option<HidMaestro>) -> Option<SessionView> {
    match session {
        Some(session) => Some(session@),
        None => None,
    }
}

/// A session that is there keeps its rules.
pub open spec fn session_wf(session: Option<HidMaestro>) -> bool {
    session matches Some(session) ==> session.wf()
}

/// What the reply to a request is to be read as.
pub open spec fn reading_for(wait: WaitView) -> Reading {
    match wait {
        WaitView::ProfileList { .. } => Reading::Profiles,
        WaitView::ControllerStatus { .. } | WaitView::ControllerList => Reading::Controllers,
        _ => Reading::Document,
    }
}

/// A request is sent, and its answer waited for.
pub open spec fn asked(session: SessionView, call: CallView, wait: WaitView) -> (
    SessionView,
    ProgressView,
) {
    (
        session::after_request(session),
        ProgressView::Ask(
            ActionView::Call(protocol::requested(session.next_id, call), reading_for(wait)),
            wait,
        ),
    )
}

/// The call is over with what a tool says.
pub open spec fn said(session: SessionView, s: Seq<char>) -> (SessionView, ProgressView) {
    (session, ProgressView::Finish(Ok(s)))
}

/// The call is over with what went wrong.
pub open spec fn failed(session: SessionView, s: Seq<char>) -> (SessionView, ProgressView) {
    (session, ProgressView::Finish(Err(s)))
}

fn ask(session: HidMaestro, call: BridgeCall, wait: Wait) -> (result: (HidMaestro, Progress))
    requires
        session.wf(),
    ensures
        result.0.wf(),
        (result.0@, result.1@) == asked(session@, call@, wait@),
{
    let mut session = session;
    let request = session.send_request(call);
    let reading = match &wait {
        Wait::ProfileList { .. } => Reading::Profiles,
        Wait::ControllerStatus { .. } | Wait::ControllerList => Reading::Controllers,
        _ => Reading::Document,
    };
    (session, Progress::Ask(Action::Call(request, reading), wait))
}

fn say(session: HidMaestro, s: String) -> (result: (HidMaestro, Progress))
    requires
        session.wf(),
    ensures
        result.0.wf(),
        (result.0@, result.1@) == said(session@, s@),
{
    (session, Progress::Finish(Ok(s)))
}

fn fail(session: HidMaestro, s: String) -> (result: (HidMaestro, Progress))
    requires
        session.wf(),
    ensures
        result.0.wf(),
        (result.0@, result.1@) == failed(session@, s@),
{
    (session, Progress::Finish(Err(s)))
}

/// What is said of a controller that the server did not create.
pub open spec fn unknown_controller(key: Seq<char>) -> Seq<char> {
    patch::quoted("no such controller"@, key) + " (created by this server?)"@
}

/// The next steps of an input: a change goes to the mirror first, and is then
/// submitted.
pub open spec fn input_run(
    session: SessionView,
    key: Seq<char>,
    steps: Seq<Step>,
    message: Seq<char>,
) -> (SessionView, ProgressView) {
    if steps.len() == 0 {
        said(session, message)
    } else {
        let rest = steps.skip(1);
        match steps[0] {
            Step::Sleep(time) => (
                session,
                ProgressView::Ask(
                    ActionView::Sleep(time),
                    WaitView::Slept { key, steps: rest, message },
                ),
            ),
            Step::Edit(edit) => if session.controllers.contains_key(key) {
                let state = gamepad::edited(session.controllers[key].state, edit);
                asked(
                    session::with_controllers(
                        session,
                        session::mirrored(session.controllers, key, state),
                    ),
                    Call::SubmitState { key, state },
                    WaitView::Submitted { key, steps: rest, message },
                )
            } else {
                failed(session, unknown_controller(key))
            },
        }
    }
}

fn run_input(session: HidMaestro, key: String, steps: Vec<Step>, message: String) -> (result: (
    HidMaestro,
    Progress,
))
    requires
        session.wf(),
    ensures
        result.0.wf(),
        (result.0@, result.1@) == input_run(session@, key@, steps@, message@),
{
    if steps.len() == 0 {
        return say(session, message);
    }
    let mut session = session;
    let mut rest = steps;
    let step = rest.remove(0);
    assert(rest@ =~= steps@.skip(1));
    match step {
        Step::Sleep(time) => (
            session,
            Progress::Ask(Action::Sleep(time), Wait::Slept { key, steps: rest, message }),
        ),
        Step::Edit(edit) => {
            let state = match session.state_mut(key.as_str()) {
                Some(mirror) => {
                    let state = mirror.edit(edit);
                    *mirror = state.clone();
                    state
                },
                None => {
                    let mut words = patch::quote("no such controller", key.as_str());
                    words.append(" (created by this server?)");
                    return fail(session, words);
                },
            };
            let call = Call::SubmitState { key: key.clone(), state };
            ask(session, call, Wait::Submitted { key, steps: rest, message })
        },
    }
}

/// Applying a patch: the mirror follows once the bridge has confirmed it.
pub open spec fn patch_run(session: SessionView, key: Seq<char>, patch: PatchView) -> (
    SessionView,
    ProgressView,
) {
    if session.controllers.contains_key(key) {
        match patch::patched(session.controllers[key].state, patch) {
            Ok(state) => asked(
                session,
                Call::SubmitState { key, state },
                WaitView::Patched { key, state },
            ),
            Err(words) => failed(session, words),
        }
    } else {
        failed(session, patch::quoted("no such controller"@, key))
    }
}

fn run_patch(session: HidMaestro, key: String, patch: Patch) -> (result: (HidMaestro, Progress))
    requires
        session.wf(),
    ensures
        result.0.wf(),
        (result.0@, result.1@) == patch_run(session@, key@, patch@),
{
    let state = match session.state(key.as_str()) {
        Some(state) => state.clone(),
        None => {
            let words = patch::quote("no such controller", key.as_str());
            return fail(session, words);
        },
    };
    match patch::patched_state(state, patch) {
        Ok(state) => {
            let call = Call::SubmitState { key: key.clone(), state: state.clone() };
            ask(session, call, Wait::Patched { key, state })
        },
        Err(words) => fail(session, words),
    }
}

/// What a task does first with a connected bridge.
pub open spec fn task_run(session: SessionView, task: TaskView, recover: bool) -> (
    SessionView,
    ProgressView,
) {
    match task {
        Task::Start => asked(session, Call::Ping, WaitView::Pong { recover }),
        Task::Status => asked(session, Call::IsDriverInstalled, WaitView::DriverStatus),
        Task::InstallDriver => asked(
            session,
            Call::InstallDriver,
            WaitView::Done { message: "driver installed (or already present)"@ },
        ),
        Task::InstallUsbipBackend => asked(
            session,
            Call::InstallUsbipBackend,
            WaitView::Done { message: "usbip backend installed"@ },
        ),
        Task::LoadProfiles { dir } => asked(
            session,
            Call::LoadProfiles { dir },
            WaitView::ProfileCount,
        ),
        Task::ListProfiles { filter } => asked(
            session,
            Call::ListProfiles,
            WaitView::ProfileList { filter },
        ),
        Task::CreateController { profile_id, index } => asked(
            session,
            Call::CreateController { profile_id, index },
            WaitView::NewController { profile_id },
        ),
        Task::ListControllers => asked(session, Call::ListControllers, WaitView::ControllerList),
        Task::RemoveController { key } => asked(
            session,
            Call::RemoveController { key },
            WaitView::Removed { key },
        ),
        Task::RemoveAllControllers => asked(
            session,
            Call::RemoveAllControllers,
            WaitView::AllRemoved,
        ),
        Task::Input { key, steps, message } => input_run(session, key, steps, message),
        Task::Apply { key, patch } => patch_run(session, key, patch),
        Task::GetState { key } => if session.controllers.contains_key(key) {
            (
                session,
                ProgressView::Ask(
                    ActionView::WriteState(session.controllers[key].state),
                    WaitView::Written,
                ),
            )
        } else {
            failed(session, unknown_controller(key))
        },
        Task::DrainOutputEvents => (
            SessionView {
                events: BufferView { events: Seq::empty(), dropped: session.events.dropped },
                ..session
            },
            ProgressView::Ask(
                ActionView::WriteEvents(session.events.events),
                WaitView::Written,
            ),
        ),
    }
}

fn run_task(session: HidMaestro, task: BridgeTask, recover: bool) -> (result: (
    HidMaestro,
    Progress,
))
    requires
        session.wf(),
    ensures
        result.0.wf(),
        (result.0@, result.1@) == task_run(session@, task@, recover),
{
    match task {
        Task::Start => ask(session, Call::Ping, Wait::Pong { recover }),
        Task::Status => ask(session, Call::IsDriverInstalled, Wait::DriverStatus),
        Task::InstallDriver => ask(
            session,
            Call::InstallDriver,
            Wait::Done { message: "driver installed (or already present)".to_owned() },
        ),
        Task::InstallUsbipBackend => ask(
            session,
            Call::InstallUsbipBackend,
            Wait::Done { message: "usbip backend installed".to_owned() },
        ),
        Task::LoadProfiles { dir } => ask(session, Call::LoadProfiles { dir }, Wait::ProfileCount),
        Task::ListProfiles { filter } => ask(
            session,
            Call::ListProfiles,
            Wait::ProfileList { filter },
        ),
        Task::CreateController { profile_id, index } => ask(
            session,
            Call::CreateController { profile_id: profile_id.clone(), index },
            Wait::NewController { profile_id },
        ),
        Task::ListControllers => ask(session, Call::ListControllers, Wait::ControllerList),
        Task::RemoveController { key } => ask(
            session,
            Call::RemoveController { key: key.clone() },
            Wait::Removed { key },
        ),
        Task::RemoveAllControllers => ask(session, Call::RemoveAllControllers, Wait::AllRemoved),
        Task::Input { key, steps, message } => run_input(session, key, steps, message),
        Task::Apply { key, patch } => run_patch(session, key, patch),
        Task::GetState { key } => {
            let state = match session.state(key.as_str()) {
                Some(state) => state.clone(),
                None => {
                    let mut words = patch::quote("no such controller", key.as_str());
                    words.append(" (created by this server?)");
                    return fail(session, words);
                },
            };
            (session, Progress::Ask(Action::WriteState(state), Wait::Written))
        },
        Task::DrainOutputEvents => {
            let mut session = session;
            let events = session.drain_events();
            (session, Progress::Ask(Action::WriteEvents(events), Wait::Written))
        },
    }
}

/// A task is run with the bridge that is connected, or with one that is connected
/// first.
pub open spec fn task_begun(session: Option<SessionView>, task: TaskView) -> (
    Option<SessionView>,
    ProgressView,
) {
    match session {
        Some(session) => {
            let (after, progress) = task_run(session, task, true);
            (Some(after), progress)
        },
        None => (None, ProgressView::Ask(ActionView::Connect, WaitView::Connection { task })),
    }
}

fn begin_task(session: Option<HidMaestro>, task: BridgeTask) -> (result: (
    Option<HidMaestro>,
    Progress,
))
    requires
        session_wf(session),
    ensures
        session_wf(result.0),
        (maybe_session(result.0), result.1@) == task_begun(maybe_session(session), task@),
{
    match session {
        Some(session) => {
            let (after, progress) = run_task(session, task, true);
            (Some(after), progress)
        },
        None => (None, Progress::Ask(Action::Connect, Wait::Connection { task })),
    }
}

/// The request that stops a bridge, unless it was sent before.
pub open spec fn stop_request(session: SessionView) -> Option<RequestView> {
    if session.shutdown_sent {
        None
    } else {
        Some(protocol::requested(session.next_id, Call::Shutdown))
    }
}

/// What is said when the bridge was stopped.
pub open spec fn stopped_text() -> Seq<char> {
    "bridge stopped; all virtual controllers removed"@
}

/// What a command does first.
pub open spec fn command_begun(session: Option<SessionView>, command: CommandView) -> (
    Option<SessionView>,
    ProgressView,
) {
    match command {
        Command::Shutdown => match session {
            Some(session) => (
                None,
                ProgressView::Ask(ActionView::Stop(stop_request(session)), WaitView::Stopped),
            ),
            None => (None, ProgressView::Finish(Ok(stopped_text()))),
        },
        Command::SetState { key, patch } => (
            session,
            ProgressView::Ask(ActionView::ReadPatch(patch), WaitView::Patch { key }),
        ),
        Command::Run(task) => task_begun(session, task),
    }
}

/// What a command does first.
pub fn begin_command(session: Option<HidMaestro>, command: ToolCommand) -> (result: (
    Option<HidMaestro>,
    Progress,
))
    requires
        session_wf(session),
    ensures
        session_wf(result.0),
        (maybe_session(result.0), result.1@) == command_begun(maybe_session(session), command@),
{
    match command {
        Command::Shutdown => match session {
            Some(session) => (
                None,
                Progress::Ask(Action::Stop(session.shutdown()), Wait::Stopped),
            ),
            None => (
                None,
                Progress::Finish(
                    Ok("bridge stopped; all virtual controllers removed".to_owned()),
                ),
            ),
        },
        Command::SetState { key, patch } => (
            session,
            Progress::Ask(Action::ReadPatch(patch), Wait::Patch { key }),
        ),
        Command::Run(task) => begin_task(session, task),
    }
}

/// The document of a controller.
pub open spec fn info_document(info: ControllerInfo) -> JsonView {
    message::object2(
        "key"@,
        JsonView::Text(info.key@),
        "profile_id"@,
        JsonView::Text(info.profile_id@),
    )
}

/// The document of a list of controllers.
pub open spec fn infos_document(infos: Seq<ControllerInfo>) -> JsonView {
    JsonView::Array(infos.map_values(|info: ControllerInfo| info_document(info)))
}

/// The document that tells the status of the bridge.
pub open spec fn status_document(installed: bool, infos: Seq<ControllerInfo>) -> JsonView {
    message::object2(
        "driver_installed"@,
        JsonView::Bool(installed),
        "controllers"@,
        infos_document(infos),
    )
}

/// The document of a list of controllers.
pub fn infos_json(infos: &Vec<ControllerInfo>) -> (json: Json)
    ensures
        json.view() == infos_document(infos@),
{
    let mut list: Vec<Json> = Vec::new();
    for i in 0..infos.len()
        invariant
            list@.len() == i,
            forall|k: int|
                0 <= k < i ==> (#[trigger] list@[k]).view() == info_document(infos@[k]),
    {
        let mut entries: Vec<(String, Json)> = Vec::new();
        json::put(&mut entries, "key", Json::text(infos[i].key.as_str()));
        json::put(&mut entries, "profile_id", Json::text(infos[i].profile_id.as_str()));
        list.push(Json::Object(entries));
    }
    proof {
        json::lemma_items(list@);
        let documents = infos@.map_values(|info: ControllerInfo| info_document(info));
        assert forall|i: int| 0 <= i < documents.len() implies json::items(list@)[i]
            == documents[i] by {
            assert(list@[i].view() == info_document(infos@[i]));
        }
        assert(json::items(list@) =~= documents);
    }
    Json::Array(list)
}

/// The document that tells the status of the bridge.
pub fn status_json(installed: bool, infos: &Vec<ControllerInfo>) -> (json: Json)
    ensures
        json.view() == status_document(installed, infos@),
{
    let mut entries: Vec<(String, Json)> = Vec::new();
    json::put(&mut entries, "driver_installed", Json::Bool(installed));
    json::put(&mut entries, "controllers", infos_json(infos));
    Json::Object(entries)
}

/// A filter fits a profile if it is part of its id, its name or its vendor, all
/// in lower case.
pub open spec fn fits_profile(
    filter: Seq<char>,
    id: Seq<char>,
    name: Seq<char>,
    vendor: Seq<char>,
) -> bool {
    text::is_part_of(id, filter) || text::is_part_of(name, filter) || text::is_part_of(
        vendor,
        filter,
    )
}

/// Whether a filter fits a profile, all in lower case.
pub fn filter_fits(filter: &str, id: &str, name: &str, vendor: &str) -> (fits: bool)
    ensures
        fits == fits_profile(filter@, id@, name@, vendor@),
{
    let needle = text::chars_of(filter);
    text::contains(&text::chars_of(id), &needle) || text::contains(
        &text::chars_of(name),
        &needle,
    ) || text::contains(&text::chars_of(vendor), &needle)
}

/// Whether a profile is kept by a filter.
pub open spec fn keeps_profile(filter: Seq<char>, profile: Profile) -> bool {
    fits_profile(
        lowered(filter),
        lowered(profile.id@),
        lowered(profile.name@),
        lowered(profile.vendor@),
    )
}

/// The profiles that a filter keeps, in their order.
pub open spec fn filtered(profiles: Seq<Profile>, filter: Option<Seq<char>>) -> Seq<Profile> {
    match filter {
        Some(filter) => profiles.filter(|profile: Profile| keeps_profile(filter, profile)),
        None => profiles,
    }
}

/// The profiles that a filter keeps, in their order.
pub fn filter_profiles(profiles: Vec<Profile>, filter: &Option<String>) -> (kept: Vec<Profile>)
    ensures
        kept@ == filtered(profiles@, text::maybe_text(*filter)),
{
    let words = match filter {
        Some(words) => words,
        None => {
            return profiles;
        },
    };
    let ghost all = profiles@;
    let ghost keeps = |profile: Profile| keeps_profile(words@, profile);
    let needle = lower(words.as_str());
    let mut kept: Vec<Profile> = Vec::new();
    for profile in iter: profiles
        invariant
            iter.seq() == all,
            needle@ == lowered(words@),
            keeps == |profile: Profile| keeps_profile(words@, profile),
            kept@ == all.take(iter.index() as int).filter(keeps),
    {
        let ghost at = iter.index() as int;
        proof {
            assert(all.take(at + 1).drop_last() =~= all.take(at));
            assert(all.take(at + 1).last() == profile);
            reveal(Seq::filter);
        }
        if filter_fits(
            needle.as_str(),
            lower(profile.id.as_str()).as_str(),
            lower(profile.name.as_str()).as_str(),
            lower(profile.vendor.as_str()).as_str(),
        ) {
            kept.push(profile);
        }
    }
    assert(all.take(all.len() as int) =~= all);
    kept
}

/// What is said when outside work gives something else than was asked for.
pub open spec fn unexpected_text() -> Seq<char> {
    "unexpected event"@
}

/// The next controller that is to be neutral, the last of the list first.
pub open spec fn neutral_run(session: SessionView, keys: Seq<Seq<char>>) -> (
    SessionView,
    ProgressView,
) {
    if keys.len() == 0 {
        said(session, ""@)
    } else {
        asked(
            session,
            Call::SubmitState { key: keys.last(), state: gamepad::neutral_view() },
            WaitView::Neutral { key: keys.last(), rest: keys.drop_last() },
        )
    }
}

/// The next controller that is to be neutral, the last of the list first.
pub fn run_neutral(session: HidMaestro, keys: Vec<String>) -> (result: (HidMaestro, Progress))
    requires
        session.wf(),
    ensures
        result.0.wf(),
        (result.0@, result.1@) == neutral_run(session@, session::key_texts(keys@)),
{
    let mut rest = keys;
    match rest.pop() {
        Some(key) => {
            proof {
                assert(session::key_texts(rest@) =~= session::key_texts(keys@).drop_last());
                assert(session::key_texts(keys@).last() == key@);
            }
            let call = Call::SubmitState { key: key.clone(), state: GamepadState::neutral() };
            ask(session, call, Wait::Neutral { key, rest })
        },
        None => {
            let words = String::new();
            proof {
                reveal_strlit("");
                assert(words@ =~= ""@);
            }
            say(session, words)
        },
    }
}

/// What a ping says.
pub open spec fn pong_text(reply: JsonView) -> Seq<char> {
    match json::text_in(Some(reply)) {
        Some(s) => s,
        None => "pong"@,
    }
}

/// What becomes of the reply to a request for a controller.
pub open spec fn created(session: SessionView, profile_id: Seq<char>, reply: JsonView) -> (
    SessionView,
    ProgressView,
) {
    match session::created_key(reply) {
        Some(key) => said(
            session::with_controllers(
                session,
                session.controllers.insert(
                    key,
                    SlotView { profile_id, state: gamepad::neutral_view() },
                ),
            ),
            patch::quoted("controller"@, key) + patch::quoted(
                " created from profile"@,
                profile_id,
            ),
        ),
        None => failed(
            session,
            "bridge error: "@ + ("bad create_controller result: "@ + json::compact_text(reply)),
        ),
    }
}

/// What becomes of a confirmed reply.
pub open spec fn replied(session: SessionView, wait: WaitView, reply: JsonView) -> (
    SessionView,
    ProgressView,
) {
    match wait {
        WaitView::Pong { .. } => said(session, "bridge running ("@ + pong_text(reply) + ")"@),
        WaitView::DriverStatus => asked(
            session,
            Call::ListControllers,
            WaitView::ControllerStatus { installed: reply == JsonView::Bool(true) },
        ),
        WaitView::Done { message } => said(session, message),
        WaitView::ProfileCount => said(
            session,
            text::decimal(session::counted(reply) as nat) + " profiles loaded"@,
        ),
        WaitView::NewController { profile_id } => created(session, profile_id, reply),
        WaitView::Removed { key } => said(
            session::with_controllers(session, session.controllers.remove(key)),
            patch::quoted("controller"@, key) + " removed"@,
        ),
        WaitView::AllRemoved => said(
            session::with_controllers(session, Map::empty()),
            "all virtual controllers removed"@,
        ),
        WaitView::Submitted { key, steps, message } => input_run(session, key, steps, message),
        WaitView::Patched { key, state } => said(
            session::with_controllers(
                session,
                session::mirrored(session.controllers, key, state),
            ),
            "'"@ + key + "' state updated"@,
        ),
        WaitView::Neutral { key, rest } => neutral_run(
            session::with_controllers(
                session,
                session::mirrored(session.controllers, key, gamepad::neutral_view()),
            ),
            rest,
        ),
        _ => failed(session, unexpected_text()),
    }
}

/// What becomes of a failed request: the call is over, but the other controllers
/// are still made neutral.
pub open spec fn refused(session: SessionView, wait: WaitView, error: Error) -> (
    SessionView,
    ProgressView,
) {
    match wait {
        WaitView::Neutral { rest, .. } => neutral_run(session, rest),
        WaitView::Pong { .. }
        | WaitView::DriverStatus
        | WaitView::Done { .. }
        | WaitView::ProfileCount
        | WaitView::NewController { .. }
        | WaitView::Removed { .. }
        | WaitView::AllRemoved
        | WaitView::Submitted { .. }
        | WaitView::Patched { .. } => failed(session, error.text()),
        _ => failed(session, unexpected_text()),
    }
}

/// What becomes of an event with a connected bridge.
pub open spec fn answered(session: SessionView, wait: WaitView, event: Event) -> (
    SessionView,
    ProgressView,
) {
    match (wait, event) {
        (_, Event::Reply(Ok(reply))) => replied(session, wait, reply.view()),
        (_, Event::Reply(Err(error))) => refused(session, wait, error),
        (WaitView::ControllerStatus { installed }, Event::Controllers(reply)) => {
            match session::received(reply) {
                Ok(infos) => said(session, json::pretty_text(status_document(installed, infos@))),
                Err(error) => failed(session, error.text()),
            }
        },
        (WaitView::ControllerList, Event::Controllers(reply)) => match session::received(reply) {
            Ok(infos) => said(session, json::pretty_text(infos_document(infos@))),
            Err(error) => failed(session, error.text()),
        },
        (WaitView::ProfileList { filter }, Event::Profiles(reply)) => {
            match session::received(reply) {
                Ok(profiles) => (
                    session,
                    ProgressView::Ask(
                        ActionView::WriteProfiles(filtered(profiles@, filter)),
                        WaitView::Written,
                    ),
                ),
                Err(error) => failed(session, error.text()),
            }
        },
        (WaitView::Slept { key, steps, message }, Event::Slept) => input_run(
            session,
            key,
            steps,
            message,
        ),
        (WaitView::Written, Event::Written(words)) => said(session, words@),
        _ => failed(session, unexpected_text()),
    }
}

/// What becomes of an event.
pub open spec fn resumed(session: Option<SessionView>, wait: WaitView, event: Event) -> (
    Option<SessionView>,
    ProgressView,
) {
    match (session, wait, event) {
        (_, WaitView::Patch { key }, Event::PatchRead(Ok(patch))) => task_begun(
            session,
            Task::Apply { key, patch: patch@ },
        ),
        (_, WaitView::Patch { key }, Event::PatchRead(Err(words))) => (
            session,
            ProgressView::Finish(Err("invalid state: "@ + words@)),
        ),
        (_, WaitView::Connection { task }, Event::Connected(Ok(fresh))) => {
            let (after, progress) = task_run(fresh@, task, false);
            (Some(after), progress)
        },
        (_, WaitView::Connection { .. }, Event::Connected(Err(error))) => (
            session,
            ProgressView::Finish(Err("failed to start bridge: "@ + error.text())),
        ),
        (_, WaitView::Restart, Event::Stopped) => task_begun(session, Task::Start),
        (_, WaitView::Stopped, Event::Stopped) => (
            session,
            ProgressView::Finish(Ok(stopped_text())),
        ),
        (
            Some(session),
            WaitView::Pong { recover: true },
            Event::Reply(Err(Error::BridgeExited(_))),
        ) => (
            None,
            ProgressView::Ask(ActionView::Stop(stop_request(session)), WaitView::Restart),
        ),
        (Some(session), _, _) => {
            let (after, progress) = answered(session, wait, event);
            (Some(after), progress)
        },
        (None, _, _) => (None, ProgressView::Finish(Err(unexpected_text()))),
    }
}

/// A session in an event keeps its rules.
pub open spec fn event_wf(event: Event) -> bool {
    event matches Event::Connected(Ok(session)) ==> session.wf()
}

fn reply_to(session: HidMaestro, wait: Wait, reply: Json) -> (result: (HidMaestro, Progress))
    requires
        session.wf(),
    ensures
        result.0.wf(),
        (result.0@, result.1@) == replied(session@, wait@, reply.view()),
{
    let mut session = session;
    match wait {
        Wait::Pong { .. } => match session.ping(Ok(reply)) {
            Ok(pong) => {
                let mut words = "bridge running (".to_owned();
                words.append(pong.as_str());
                words.append(")");
                say(session, words)
            },
            Err(error) => fail(session, error.message()),
        },
        Wait::DriverStatus => match session.is_driver_installed(Ok(reply)) {
            Ok(installed) => ask(
                session,
                Call::ListControllers,
                Wait::ControllerStatus { installed },
            ),
            Err(error) => fail(session, error.message()),
        },
        Wait::Done { message } => say(session, message),
        Wait::ProfileCount => match session.load_default_profiles(Ok(reply)) {
            Ok(count) => {
                let mut words = String::new();
                text::push_decimal(&mut words, count as u128);
                words.append(" profiles loaded");
                assert(words@ =~= text::decimal(count as nat) + " profiles loaded"@);
                say(session, words)
            },
            Err(error) => fail(session, error.message()),
        },
        Wait::NewController { profile_id } => {
            match session.create_controller(profile_id.as_str(), Ok(reply)) {
                Ok(key) => {
                    let mut words = patch::quote("controller", key.as_str());
                    words.append(
                        patch::quote(" created from profile", profile_id.as_str()).as_str(),
                    );
                    say(session, words)
                },
                Err(error) => fail(session, error.message()),
            }
        },
        Wait::Removed { key } => match session.remove_controller(key.as_str(), Ok(reply)) {
            Ok(_) => {
                let mut words = patch::quote("controller", key.as_str());
                words.append(" removed");
                say(session, words)
            },
            Err(error) => fail(session, error.message()),
        },
        Wait::AllRemoved => match session.remove_all_controllers(Ok(reply)) {
            Ok(_) => say(session, "all virtual controllers removed".to_owned()),
            Err(error) => fail(session, error.message()),
        },
        Wait::Submitted { key, steps, message } => run_input(session, key, steps, message),
        Wait::Patched { key, state } => {
            match session.submit_state(key.as_str(), &state, Ok(reply)) {
                Ok(_) => {
                    let mut words = "'".to_owned();
                    words.append(key.as_str());
                    words.append("' state updated");
                    say(session, words)
                },
                Err(error) => fail(session, error.message()),
            }
        },
        Wait::Neutral { key, rest } => {
            match session.submit_state(key.as_str(), &GamepadState::neutral(), Ok(reply)) {
                Ok(_) => run_neutral(session, rest),
                Err(error) => fail(session, error.message()),
            }
        },
        _ => fail(session, "unexpected event".to_owned()),
    }
}

fn refuse(session: HidMaestro, wait: Wait, error: Error) -> (result: (HidMaestro, Progress))
    requires
        session.wf(),
    ensures
        result.0.wf(),
        (result.0@, result.1@) == refused(session@, wait@, error),
{
    match wait {
        Wait::Neutral { rest, .. } => run_neutral(session, rest),
        Wait::Pong { .. }
        | Wait::DriverStatus
        | Wait::Done { .. }
        | Wait::ProfileCount
        | Wait::NewController { .. }
        | Wait::Removed { .. }
        | Wait::AllRemoved
        | Wait::Submitted { .. }
        | Wait::Patched { .. } => fail(session, error.message()),
        _ => fail(session, "unexpected event".to_owned()),
    }
}

fn answer(session: HidMaestro, wait: Wait, event: Event) -> (result: (HidMaestro, Progress))
    requires
        session.wf(),
    ensures
        result.0.wf(),
        (result.0@, result.1@) == answered(session@, wait@, event),
{
    match (wait, event) {
        (wait, Event::Reply(Ok(reply))) => reply_to(session, wait, reply),
        (wait, Event::Reply(Err(error))) => refuse(session, wait, error),
        (Wait::ControllerStatus { installed }, Event::Controllers(reply)) => {
            match session.list_controllers(reply) {
                Ok(infos) => say(session, status_json(installed, &infos).to_pretty()),
                Err(error) => fail(session, error.message()),
            }
        },
        (Wait::ControllerList, Event::Controllers(reply)) => {
            match session.list_controllers(reply) {
                Ok(infos) => say(session, infos_json(&infos).to_pretty()),
                Err(error) => fail(session, error.message()),
            }
        },
        (Wait::ProfileList { filter }, Event::Profiles(reply)) => {
            match session.list_profiles(reply) {
                Ok(profiles) => {
                    let kept = filter_profiles(profiles, &filter);
                    (session, Progress::Ask(Action::WriteProfiles(kept), Wait::Written))
                },
                Err(error) => fail(session, error.message()),
            }
        },
        (Wait::Slept { key, steps, message }, Event::Slept) => run_input(
            session,
            key,
            steps,
            message,
        ),
        (Wait::Written, Event::Written(words)) => say(session, words),
        _ => fail(session, "unexpected event".to_owned()),
    }
}

/// What becomes of an event.
pub fn resume(session: Option<HidMaestro>, wait: Wait, event: Event) -> (result: (
    Option<HidMaestro>,
    Progress,
))
    requires
        session_wf(session),
        event_wf(event),
    ensures
        session_wf(result.0),
        (maybe_session(result.0), result.1@) == resumed(maybe_session(session), wait@, event),
{
    match (session, wait, event) {
        (session, Wait::Patch { key }, Event::PatchRead(Ok(patch))) => begin_task(
            session,
            Task::Apply { key, patch },
        ),
        (session, Wait::Patch { .. }, Event::PatchRead(Err(words))) => {
            let mut message = "invalid state: ".to_owned();
            message.append(words.as_str());
            (session, Progress::Finish(Err(message)))
        },
        (_, Wait::Connection { task }, Event::Connected(Ok(fresh))) => {
            let (after, progress) = run_task(fresh, task, false);
            (Some(after), progress)
        },
        (session, Wait::Connection { .. }, Event::Connected(Err(error))) => {
            let mut message = "failed to start bridge: ".to_owned();
            message.append(error.message().as_str());
            (session, Progress::Finish(Err(message)))
        },
        (session, Wait::Restart, Event::Stopped) => begin_task(session, Task::Start),
        (session, Wait::Stopped, Event::Stopped) => (
            session,
            Progress::Finish(Ok("bridge stopped; all virtual controllers removed".to_owned())),
        ),
        (
            Some(session),
            Wait::Pong { recover: true },
            Event::Reply(Err(Error::BridgeExited(_))),
        ) => (None, Progress::Ask(Action::Stop(session.shutdown()), Wait::Restart)),
        (Some(session), wait, event) => {
            let (after, progress) = answer(session, wait, event);
            (Some(after), progress)
        },
        (None, _, _) => (None, Progress::Finish(Err("unexpected event".to_owned()))),
    }
}

/// How many results of outside work a task may still take, once a bridge is
/// connected.
pub open spec fn task_rank(task: TaskView, recover: bool) -> nat {
    match task {
        Task::Start => if recover {
            4
        } else {
            1
        },
        Task::Status | Task::ListProfiles { .. } => 2,
        Task::Input { steps, .. } => steps.len(),
        _ => 1,
    }
}

/// How many results of outside work a call may still take.
pub open spec fn wait_rank(wait: WaitView) -> nat {
    match wait {
        WaitView::Patch { .. } => 3,
        WaitView::Connection { task } => 1 + task_rank(task, false),
        WaitView::Pong { recover } => task_rank(Task::Start, recover),
        WaitView::Restart => 3,
        WaitView::DriverStatus | WaitView::ProfileList { .. } => 2,
        WaitView::Submitted { steps, .. } | WaitView::Slept { steps, .. } => 1 + steps.len(),
        WaitView::Neutral { rest, .. } => 1 + rest.len(),
        _ => 1,
    }
}

/// While a bridge is to be started anew there is no session.
pub open spec fn settled(session: Option<SessionView>, wait: WaitView) -> bool {
    wait is Restart ==> session is None
}

/// Every call comes to an end: each result of outside work brings it nearer, or
/// ends it.
pub proof fn law_calls_come_to_an_end(session: Option<SessionView>, wait: WaitView, event: Event)
    requires
        settled(session, wait),
    ensures
        resumed(session, wait, event).1 matches ProgressView::Ask(_, next) ==> wait_rank(next)
            < wait_rank(wait) && settled(resumed(session, wait, event).0, next),
{
}

/// A command that has to wait is settled.
pub proof fn law_commands_begin_settled(session: Option<SessionView>, command: CommandView)
    ensures
        command_begun(session, command).1 matches ProgressView::Ask(_, wait) ==> settled(
            command_begun(session, command).0,
            wait,
        ),
{
}

/// The session and the wait of a call that asks for work.
pub open spec fn waits(step: (SessionView, ProgressView), wait: WaitView) -> bool {
    step.1 matches ProgressView::Ask(_, w) && w == wait
}

/// A timed press that the bridge confirms submits the pressed state, waits, and
/// submits the released state; then it says its message, and the mirror is as a
/// release would have left it.
pub proof fn law_timed_press_runs(
    session: SessionView,
    key: Seq<char>,
    mask: u32,
    hold_ms: u64,
    message: Seq<char>,
    first: JsonView,
    second: JsonView,
)
    requires
        session.controllers.contains_key(key),
    ensures
        ({
            let buttons = crate::state::Buttons::of(mask);
            let state = session.controllers[key].state;
            let pressed = gamepad::edited(state, gamepad::StateEdit::Press(buttons));
            let released = gamepad::edited(state, gamepad::StateEdit::Release(buttons));
            let steps = command::timed_press(mask, hold_ms);
            let begun = input_run(session, key, steps, message);
            let held = replied(
                begun.0,
                WaitView::Submitted { key, steps: steps.skip(1), message },
                first,
            );
            let slept = input_run(held.0, key, steps.skip(2), message);
            let done = replied(
                slept.0,
                WaitView::Submitted { key, steps: steps.skip(3), message },
                second,
            );
            &&& begun.1 == ProgressView::Ask(
                ActionView::Call(
                    protocol::requested(session.next_id, Call::SubmitState { key, state: pressed }),
                    Reading::Document,
                ),
                WaitView::Submitted { key, steps: steps.skip(1), message },
            )
            &&& held.1 == ProgressView::Ask(
                ActionView::Sleep(hold_ms),
                WaitView::Slept { key, steps: steps.skip(2), message },
            )
            &&& slept.1 == ProgressView::Ask(
                ActionView::Call(
                    protocol::requested(
                        begun.0.next_id,
                        Call::SubmitState { key, state: released },
                    ),
                    Reading::Document,
                ),
                WaitView::Submitted { key, steps: steps.skip(3), message },
            )
            &&& done.1 == ProgressView::Finish(Ok(message))
            &&& done.0.controllers.contains_key(key)
            &&& done.0.controllers[key].state == released
        }),
{
    let buttons = crate::state::Buttons::of(mask);
    let steps = command::timed_press(mask, hold_ms);
    gamepad::law_press_then_release(session.controllers[key].state, buttons);
    assert(steps.skip(1).skip(1) =~= steps.skip(2));
    assert(steps.skip(2).skip(1) =~= steps.skip(3));
    assert(steps.skip(1)[0] == Step::Sleep(hold_ms));
    assert(steps.skip(2)[0] == Step::Edit(gamepad::StateEdit::Release(buttons)));
    assert(steps.skip(3).len() == 0);
}

/// A patch that is rejected, and one whose state the bridge refuses, leave the
/// session as it was, but for the number of the request.
pub proof fn law_rejected_patch_changes_nothing(
    session: SessionView,
    key: Seq<char>,
    patch: PatchView,
    error: Error,
)
    requires
        session.controllers.contains_key(key),
    ensures
        match patch::patched(session.controllers[key].state, patch) {
            Err(words) => patch_run(session, key, patch) == failed(session, words),
            Ok(state) => {
                let begun = patch_run(session, key, patch);
                let refused = refused(begun.0, WaitView::Patched { key, state }, error);
                &&& waits(begun, WaitView::Patched { key, state })
                &&& begun.0.controllers == session.controllers
                &&& refused == failed(begun.0, error.text())
            },
        },
{
}

/// A patch that the bridge confirms becomes the mirror.
pub proof fn law_confirmed_patch_is_mirrored(
    session: SessionView,
    key: Seq<char>,
    patch: PatchView,
    reply: JsonView,
)
    requires
        session.controllers.contains_key(key),
        patch::patched(session.controllers[key].state, patch) is Ok,
    ensures
        ({
            let state = patch::patched(session.controllers[key].state, patch)->Ok_0;
            let begun = patch_run(session, key, patch);
            let done = replied(begun.0, WaitView::Patched { key, state }, reply);
            &&& done.1 == ProgressView::Finish(Ok("'"@ + key + "' state updated"@))
            &&& done.0.controllers[key].state == state
        }),
{
}

/// When the bridge has exited since it was last used, `start` stops what is left
/// of it, connects anew and pings again; when it exits once more, `start` fails.
pub proof fn law_start_recovers_once(
    session: SessionView,
    fresh: HidMaestro,
    status: String,
)
    ensures
        ({
            let exited = Event::Reply(Err(Error::BridgeExited(status)));
            let begun = task_begun(Some(session), Task::Start);
            let dropped = resumed(begun.0, WaitView::Pong { recover: true }, exited);
            let stopped = resumed(dropped.0, WaitView::Restart, Event::Stopped);
            let connected = resumed(
                stopped.0,
                WaitView::Connection { task: Task::Start },
                Event::Connected(Ok(fresh)),
            );
            let again = resumed(connected.0, WaitView::Pong { recover: false }, exited);
            &&& begun == (
                Some(session::after_request(session)),
                ProgressView::Ask(
                    ActionView::Call(
                        protocol::requested(session.next_id, Call::Ping),
                        Reading::Document,
                    ),
                    WaitView::Pong { recover: true },
                ),
            )
            &&& dropped.0 is None
            &&& dropped.1 matches ProgressView::Ask(ActionView::Stop(_), WaitView::Restart)
            &&& stopped == (
                None::<SessionView>,
                ProgressView::Ask(
                    ActionView::Connect,
                    WaitView::Connection { task: Task::Start },
                ),
            )
            &&& connected == (
                Some(session::after_request(fresh@)),
                ProgressView::Ask(
                    ActionView::Call(
                        protocol::requested(fresh@.next_id, Call::Ping),
                        Reading::Document,
                    ),
                    WaitView::Pong { recover: false },
                ),
            )
            &&& again.1 == ProgressView::Finish(
                Err("bridge exited unexpectedly"@ + status@),
            )
        }),
{
}

/// A session after every controller of a list was submitted neutral and
/// confirmed, the last of the list first.
pub open spec fn after_neutral(session: SessionView, keys: Seq<Seq<char>>) -> SessionView
    decreases keys.len(),
{
    if keys.len() == 0 {
        session
    } else {
        let key = keys.last();
        let confirmed = session::with_controllers(
            session::after_request(session),
            session::mirrored(session.controllers, key, gamepad::neutral_view()),
        );
        after_neutral(confirmed, keys.drop_last())
    }
}

/// One confirmation after the other makes every controller of a list neutral, and
/// leaves the others alone.
pub proof fn law_neutral_reaches_all(session: SessionView, keys: Seq<Seq<char>>, reply: JsonView)
    ensures
        keys.len() == 0 ==> neutral_run(session, keys).0 == session && neutral_run(
            session,
            keys,
        ).1 is Finish,
        keys.len() > 0 ==> ({
            let begun = neutral_run(session, keys);
            let wait = WaitView::Neutral { key: keys.last(), rest: keys.drop_last() };
            let confirmed = session::with_controllers(
                session::after_request(session),
                session::mirrored(session.controllers, keys.last(), gamepad::neutral_view()),
            );
            &&& waits(begun, wait)
            &&& submitted(begun.1) == Some((keys.last(), gamepad::neutral_view()))
            &&& replied(begun.0, wait, reply) == neutral_run(confirmed, keys.drop_last())
        }),
        after_neutral(session, keys).controllers.dom() == session.controllers.dom(),
        forall|key: Seq<char>|
            session.controllers.contains_key(key) ==> (#[trigger] after_neutral(
                session,
                keys,
            ).controllers[key]).state == (if keys.contains(key) {
                gamepad::neutral_view()
            } else {
                session.controllers[key].state
            }),
    decreases keys.len(),
{
    if keys.len() > 0 {
        let last = keys.last();
        let confirmed = session::with_controllers(
            session::after_request(session),
            session::mirrored(session.controllers, last, gamepad::neutral_view()),
        );
        law_neutral_reaches_all(confirmed, keys.drop_last(), reply);
        assert(confirmed.controllers.dom() =~= session.controllers.dom());
        assert forall|key: Seq<char>| session.controllers.contains_key(key) implies (
        #[trigger] after_neutral(session, keys).controllers[key]).state == (if keys.contains(key) {
            gamepad::neutral_view()
        } else {
            session.controllers[key].state
        }) by {
            assert(after_neutral(session, keys) == after_neutral(confirmed, keys.drop_last()));
            assert(confirmed.controllers.contains_key(key));
            if keys.contains(key) && key != last {
                let i = choose|i: int| 0 <= i < keys.len() && keys[i] == key;
                assert(keys.drop_last()[i] == key);
            }
            if keys.drop_last().contains(key) {
                let i = choose|i: int|
                    0 <= i < keys.drop_last().len() && keys.drop_last()[i] == key;
                assert(keys[i] == key);
            }
            if key == last {
                assert(keys[keys.len() - 1] == key);
            }
        }
    }
}

/// What is written when the state of a controller is asked for.
pub open spec fn state_written(session: SessionView, key: Seq<char>) -> Option<GamepadView> {
    match task_run(session, Task::GetState { key }, true).1 {
        ProgressView::Ask(ActionView::WriteState(state), WaitView::Written) => Some(state),
        _ => None,
    }
}

/// What a request submits, and for which controller.
pub open spec fn submitted(progress: ProgressView) -> Option<(Seq<char>, GamepadView)> {
    match progress {
        ProgressView::Ask(ActionView::Call(request, _), _) => match request.params {
            Some(protocol::Params::Submit { key, state }) => Some((key, state)),
            _ => None,
        },
        _ => None,
    }
}

/// After a change that the bridge confirmed, asking for the state of the controller
/// writes the state that was submitted, which is the changed one; asking changes
/// nothing, and the states of other controllers are written as before.
pub proof fn law_confirmed_edit_is_read_back(
    session: SessionView,
    key: Seq<char>,
    edit: gamepad::StateEdit,
    message: Seq<char>,
    reply: JsonView,
    other: Seq<char>,
)
    requires
        session.controllers.contains_key(key),
    ensures
        ({
            let steps = seq![Step::Edit(edit)];
            let begun = input_run(session, key, steps, message);
            let done = replied(
                begun.0,
                WaitView::Submitted { key, steps: steps.skip(1), message },
                reply,
            );
            let state = gamepad::edited(session.controllers[key].state, edit);
            &&& submitted(begun.1) == Some((key, state))
            &&& done.1 == ProgressView::Finish(Ok(message))
            &&& state_written(done.0, key) == Some(state)
            &&& task_run(done.0, Task::GetState { key }, true).0 == done.0
            &&& other != key ==> state_written(done.0, other) == state_written(session, other)
        }),
{
    let steps = seq![Step::Edit(edit)];
    assert(steps.skip(1).len() == 0);
    assert(steps[0] == Step::Edit(edit));
}

/// After a patch that the bridge confirmed, asking for the state of the controller writes
/// the state that was submitted, which is the patched one; after a patch that was rejected
/// or refused, it writes the state from before.
pub proof fn law_patch_is_read_back(
    session: SessionView,
    key: Seq<char>,
    patch: PatchView,
    reply: JsonView,
    error: Error,
)
    requires
        session.controllers.contains_key(key),
    ensures
        ({
            let before = session.controllers[key].state;
            let begun = patch_run(session, key, patch);
            match patch::patched(before, patch) {
                Ok(state) => {
                    let wait = WaitView::Patched { key, state };
                    &&& submitted(begun.1) == Some((key, state))
                    &&& waits(begun, wait)
                    &&& state_written(replied(begun.0, wait, reply).0, key) == Some(state)
                    &&& state_written(refused(begun.0, wait, error).0, key) == Some(before)
                },
                Err(words) => begun.1 == ProgressView::Finish(Err(words)) && state_written(
                    begun.0,
                    key,
                ) == Some(before),
            }
        }),
{
}

/// A new controller is known under the key that the bridge gave it, with the profile it
/// was made from, and its state is neutral; the others are as before. Where the reply
/// has no key, nothing is created and the call fails.
pub proof fn law_new_controller_is_neutral(
    session: SessionView,
    profile_id: Seq<char>,
    index: Option<usize>,
    reply: JsonView,
    key: Seq<char>,
    other: Seq<char>,
)
    ensures
        task_run(session, Task::CreateController { profile_id, index }, true).1
            matches ProgressView::Ask(ActionView::Call(request, _), wait) && {
            &&& request.id == session.next_id
            &&& request.method == "create_controller"@
            &&& request.params == Some(protocol::ParamsView::Create { profile_id, index })
            &&& json::member(reply, "key"@) == Some(JsonView::Text(key)) ==> {
                let done = replied(session, wait, reply);
                &&& done.1 == ProgressView::Finish(
                    Ok("controller '"@ + key + "' created from profile '"@ + profile_id + "'"@),
                )
                &&& done.0.controllers.dom() == session.controllers.dom().insert(key)
                &&& done.0.controllers[key].profile_id == profile_id
                &&& state_written(done.0, key) == Some(gamepad::neutral_view())
                &&& other != key ==> state_written(done.0, other) == state_written(session, other)
            }
            &&& !(json::member(reply, "key"@) matches Some(JsonView::Text(_))) ==> {
                let done = replied(session, wait, reply);
                &&& done.1 == ProgressView::Finish(
                    Err(
                        "bridge error: bad create_controller result: "@ + json::compact_text(
                            reply,
                        ),
                    ),
                )
                &&& done.0 == session
            }
        },
{
    reveal_strlit("controller");
    reveal_strlit("controller '");
    reveal_strlit(" '");
    reveal_strlit("'");
    reveal_strlit(" created from profile");
    reveal_strlit("' created from profile '");
    reveal_strlit("bridge error: ");
    reveal_strlit("bad create_controller result: ");
    reveal_strlit("bridge error: bad create_controller result: ");
    assert("controller"@ + " '"@ =~= "controller '"@);
    assert("'"@ + " created from profile"@ + " '"@ =~= "' created from profile '"@);
    assert("bridge error: "@ + "bad create_controller result: "@
        =~= "bridge error: bad create_controller result: "@);
    assert("bridge error: "@ + ("bad create_controller result: "@ + json::compact_text(reply))
        =~= "bridge error: bad create_controller result: "@ + json::compact_text(reply));
    assert(patch::quoted("controller"@, key) + patch::quoted(
        " created from profile"@,
        profile_id,
    ) =~= "controller '"@ + key + "' created from profile '"@ + profile_id + "'"@);
    if json::member(reply, "key"@) == Some(JsonView::Text(key)) {
        let done = replied(session, WaitView::NewController { profile_id }, reply);
        assert(done.0.controllers.dom() =~= session.controllers.dom().insert(key));
    }
}

/// A controller that was removed is known no more, and the others are as before; after all
/// were removed, none is known. A refused removal changes nothing.
pub proof fn law_removed_controllers_are_gone(
    session: SessionView,
    key: Seq<char>,
    other: Seq<char>,
    reply: JsonView,
    error: Error,
)
    ensures
        task_run(session, Task::RemoveController { key }, true).1 matches ProgressView::Ask(
            ActionView::Call(request, _),
            wait,
        ) && {
            let done = replied(session, wait, reply);
            &&& request.method == "remove_controller"@
            &&& request.params == Some(protocol::ParamsView::Key { key })
            &&& !done.0.controllers.contains_key(key)
            &&& state_written(done.0, key) is None
            &&& other != key ==> state_written(done.0, other) == state_written(session, other)
            &&& done.1 == ProgressView::Finish(Ok("controller '"@ + key + "' removed"@))
            &&& refused(session, wait, error) == failed(session, error.text())
        },
        task_run(session, Task::RemoveAllControllers, true).1 matches ProgressView::Ask(
            ActionView::Call(request, _),
            wait,
        ) && {
            let done = replied(session, wait, reply);
            &&& request.method == "remove_all_controllers"@
            &&& request.params is None
            &&& !done.0.controllers.contains_key(other)
            &&& done.1 == ProgressView::Finish(Ok("all virtual controllers removed"@))
            &&& refused(session, wait, error) == failed(session, error.text())
        },
{
    reveal_strlit("controller");
    reveal_strlit("controller '");
    reveal_strlit(" '");
    reveal_strlit("'");
    reveal_strlit(" removed");
    reveal_strlit("' removed");
    assert(patch::quoted("controller"@, key) + " removed"@ =~= "controller '"@ + key
        + "' removed"@);
}

/// A controller that is not known has no state to write, takes no input and no patch; the
/// call fails and nothing is asked of the bridge.
pub proof fn law_unknown_controllers_fail(
    session: SessionView,
    key: Seq<char>,
    edit: gamepad::StateEdit,
    rest: Seq<Step>,
    message: Seq<char>,
    patch: PatchView,
)
    requires
        !session.controllers.contains_key(key),
    ensures
        state_written(session, key) is None,
        task_run(session, Task::GetState { key }, true) == failed(
            session,
            "no such controller '"@ + key + "' (created by this server?)"@,
        ),
        input_run(session, key, seq![Step::Edit(edit)] + rest, message) == failed(
            session,
            "no such controller '"@ + key + "' (created by this server?)"@,
        ),
        patch_run(session, key, patch) == failed(session, "no such controller '"@ + key + "'"@),
{
    reveal_strlit("no such controller");
    reveal_strlit(" '");
    reveal_strlit("no such controller '");
    reveal_strlit("'");
    reveal_strlit(" (created by this server?)");
    reveal_strlit("' (created by this server?)");
    assert("no such controller"@ + " '"@ =~= "no such controller '"@);
    assert("'"@ + " (created by this server?)"@ =~= "' (created by this server?)"@);
    assert(unknown_controller(key) =~= "no such controller '"@ + key
        + "' (created by this server?)"@);
    assert((seq![Step::Edit(edit)] + rest)[0] == Step::Edit(edit));
}

/// The status tells what the bridge said: the driver is installed exactly if the reply to
/// that question was `true`, and the controllers are those of the list, each with its key
/// and its profile.
pub proof fn law_status_tells_what_the_bridge_said(
    session: SessionView,
    reply: Json,
    infos: Vec<ControllerInfo>,
)
    ensures
        ({
            let begun = task_run(session, Task::Status, true);
            let asked = answered(begun.0, WaitView::DriverStatus, Event::Reply(Ok(reply)));
            let installed = reply.view() == JsonView::Bool(true);
            let told = answered(
                asked.0,
                WaitView::ControllerStatus { installed },
                Event::Controllers(Ok(Ok(infos))),
            );
            &&& begun.1 matches ProgressView::Ask(ActionView::Call(request, Reading::Document), wait)
                && request.method == "is_driver_installed"@ && request.params is None && wait
                == WaitView::DriverStatus
            &&& asked.1 matches ProgressView::Ask(
                ActionView::Call(request, Reading::Controllers),
                wait,
            ) && request.method == "list_controllers"@ && request.params is None && wait == (
            WaitView::ControllerStatus { installed })
            &&& told.1 matches ProgressView::Finish(Ok(s)) && exists|document: JsonView|
                {
                    &&& s == #[trigger] json::pretty_text(document)
                    &&& status_says(document, reply.view() == JsonView::Bool(true), infos@)
                }
        }),
{
    let installed = reply.view() == JsonView::Bool(true);
    let document = status_document(installed, infos@);
    lemma_status_says(installed, infos@);
    assert(json::pretty_text(document) == json::pretty_text(document));
}

/// A document that tells whether the driver is installed, and of these controllers.
pub open spec fn status_says(
    document: JsonView,
    installed: bool,
    infos: Seq<ControllerInfo>,
) -> bool {
    &&& json::member(document, "driver_installed"@) == Some(JsonView::Bool(installed))
    &&& json::member(document, "controllers"@) matches Some(list) && list_says(list, infos)
}

/// A document that tells of these controllers, in their order.
pub open spec fn list_says(document: JsonView, infos: Seq<ControllerInfo>) -> bool {
    document matches JsonView::Array(list) && {
        &&& list.len() == infos.len()
        &&& forall|i: int|
            0 <= i < infos.len() ==> {
                &&& json::member(#[trigger] list[i], "key"@) == Some(
                    JsonView::Text(infos[i].key@),
                )
                &&& json::member(list[i], "profile_id"@) == Some(
                    JsonView::Text(infos[i].profile_id@),
                )
            }
    }
}

proof fn lemma_list_says(infos: Seq<ControllerInfo>)
    ensures
        list_says(infos_document(infos), infos),
{
    reveal_strlit("key");
    reveal_strlit("profile_id");
    assert("key"@.len() == 3);
    assert("profile_id"@.len() == 10);
}

proof fn lemma_status_says(installed: bool, infos: Seq<ControllerInfo>)
    ensures
        status_says(status_document(installed, infos), installed, infos),
{
    lemma_list_says(infos);
    reveal_strlit("driver_installed");
    reveal_strlit("controllers");
    assert("driver_installed"@.len() == 16);
    assert("controllers"@.len() == 11);
}

/// The list of controllers tells of those that the bridge gave.
pub proof fn law_controllers_are_listed(session: SessionView, infos: Vec<ControllerInfo>)
    ensures
        task_run(session, Task::ListControllers, true).1 matches ProgressView::Ask(
            ActionView::Call(request, Reading::Controllers),
            wait,
        ) && {
            let told = answered(session, wait, Event::Controllers(Ok(Ok(infos))));
            &&& request.method == "list_controllers"@ && request.params is None
            &&& told.0 == session
            &&& told.1 matches ProgressView::Finish(Ok(s)) && exists|document: JsonView|
                s == #[trigger] json::pretty_text(document) && list_says(document, infos@)
        },
{
    lemma_list_says(infos@);
    assert(json::pretty_text(infos_document(infos@)) == json::pretty_text(infos_document(infos@)));
}

/// Each operation without a result sends its own request, says what it did once the bridge
/// has confirmed it, and otherwise says what went wrong.
pub proof fn law_installations(session: SessionView, reply: JsonView, error: Error)
    ensures
        task_run(session, Task::InstallDriver, true).1 matches ProgressView::Ask(
            ActionView::Call(request, _),
            wait,
        ) && {
            &&& request.method == "install_driver"@ && request.params is None
            &&& replied(session, wait, reply) == said(
                session,
                "driver installed (or already present)"@,
            )
            &&& refused(session, wait, error) == failed(session, error.text())
        },
        task_run(session, Task::InstallUsbipBackend, true).1 matches ProgressView::Ask(
            ActionView::Call(request, _),
            wait,
        ) && {
            &&& request.method == "install_usbip_backend"@ && request.params is None
            &&& replied(session, wait, reply) == said(session, "usbip backend installed"@)
            &&& refused(session, wait, error) == failed(session, error.text())
        },
{
}

/// Loading profiles asks for the built-in catalog or for a directory, and says how many
/// the bridge counted, none where it gave no number.
pub proof fn law_profiles_are_counted(
    session: SessionView,
    dir: Option<Seq<char>>,
    number: json::NumberView,
    count: u64,
    other: JsonView,
)
    ensures
        task_run(session, Task::LoadProfiles { dir }, true).1 matches ProgressView::Ask(
            ActionView::Call(request, _),
            wait,
        ) && {
            &&& request.method == "load_profiles"@
            &&& dir is None ==> request.params is None
            &&& dir matches Some(path) ==> request.params == Some(
                protocol::ParamsView::Dir { dir: path },
            )
            &&& number.unsigned == Some(count) && count <= usize::MAX ==> replied(
                session,
                wait,
                JsonView::Number(number),
            ) == said(session, text::decimal(count as nat) + " profiles loaded"@)
            &&& !(other is Number) ==> replied(session, wait, other) == said(
                session,
                text::decimal(0) + " profiles loaded"@,
            )
        },
{
}

/// A filter is tried on each profile for itself: it keeps a profile exactly if its lower
/// case form is part of that of the id, the name or the vendor; without a filter all are
/// kept. What is kept stays in its order.
pub proof fn law_filter_keeps_what_fits(
    first: Seq<Profile>,
    second: Seq<Profile>,
    profile: Profile,
    filter: Seq<char>,
)
    ensures
        filtered(first, None) == first,
        filtered(seq![profile], Some(filter)) == (if text::is_part_of(
            lowered(profile.id@),
            lowered(filter),
        ) || text::is_part_of(lowered(profile.name@), lowered(filter)) || text::is_part_of(
            lowered(profile.vendor@),
            lowered(filter),
        ) {
            seq![profile]
        } else {
            Seq::empty()
        }),
        filtered(first + second, Some(filter)) == filtered(first, Some(filter)) + filtered(
            second,
            Some(filter),
        ),
{
    let keeps = |profile: Profile| keeps_profile(filter, profile);
    Seq::filter_distributes_over_add(first, second, keeps);
    let one = seq![profile];
    assert(one.drop_last() =~= Seq::<Profile>::empty());
    reveal_with_fuel(Seq::filter, 2);
    assert(one.filter(keeps) =~= if keeps(profile) {
        seq![profile]
    } else {
        Seq::empty()
    });
}

/// Listing profiles asks the bridge for them, writes those that the filter keeps, and says
/// what was written.
pub proof fn law_profiles_are_listed(
    session: SessionView,
    filter: Option<Seq<char>>,
    profiles: Vec<Profile>,
    words: String,
)
    ensures
        task_run(session, Task::ListProfiles { filter }, true).1 matches ProgressView::Ask(
            ActionView::Call(request, Reading::Profiles),
            wait,
        ) && {
            let listed = answered(session, wait, Event::Profiles(Ok(Ok(profiles))));
            &&& request.method == "list_profiles"@ && request.params is None
            &&& listed == (
                session,
                ProgressView::Ask(
                    ActionView::WriteProfiles(filtered(profiles@, filter)),
                    WaitView::Written,
                ),
            )
        },
        answered(session, WaitView::Written, Event::Written(words)) == said(session, words@),
{
}

/// Draining writes every event that is held, in order, and leaves none; the count of
/// discarded events and the rest of the session stay.
pub proof fn law_draining_hands_out_all_events(session: SessionView)
    ensures
        ({
            let drained = task_run(session, Task::DrainOutputEvents, true);
            &&& drained.1 == ProgressView::Ask(
                ActionView::WriteEvents(session.events.events),
                WaitView::Written,
            )
            &&& drained.0.events.events.len() == 0
            &&& drained.0.events.dropped == session.events.dropped
            &&& drained.0 == SessionView { events: drained.0.events, ..session }
        }),
{
}

/// A start pings the bridge and says what it answered, `pong` where that is no text.
pub proof fn law_start_says_the_answer(
    session: SessionView,
    recover: bool,
    s: Seq<char>,
    other: JsonView,
)
    ensures
        task_run(session, Task::Start, recover).1 matches ProgressView::Ask(
            ActionView::Call(request, _),
            wait,
        ) && {
            &&& request.method == "ping"@ && request.params is None
            &&& replied(session, wait, JsonView::Text(s)) == said(
                session,
                "bridge running ("@ + s + ")"@,
            )
            &&& !(other is Text) ==> replied(session, wait, other) == said(
                session,
                "bridge running ("@ + "pong"@ + ")"@,
            )
        },
{
}

/// A request that fails ends the call with the error in words, and the session stays as it
/// is: no mirror changes and no controller comes or goes.
pub proof fn law_failures_are_reported(session: SessionView, wait: WaitView, error: Error)
    requires
        wait is Pong || wait is DriverStatus || wait is Done || wait is ProfileCount
            || wait is NewController || wait is Removed || wait is AllRemoved
            || wait is Submitted || wait is Patched,
    ensures
        refused(session, wait, error) == failed(session, error.text()),
{
}

/// A list that the bridge gave and that cannot be read, or that it did not give, is reported
/// in words, and nothing changes.
pub proof fn law_unreadable_lists_are_reported(
    session: SessionView,
    installed: bool,
    filter: Option<Seq<char>>,
    words: String,
    error: Error,
)
    ensures
        answered(session, WaitView::ControllerList, Event::Controllers(Ok(Err(words)))) == failed(
            session,
            "bridge returned malformed JSON: "@ + words@,
        ),
        answered(
            session,
            WaitView::ControllerStatus { installed },
            Event::Controllers(Ok(Err(words))),
        ) == failed(session, "bridge returned malformed JSON: "@ + words@),
        answered(
            session,
            WaitView::ProfileList { filter },
            Event::Profiles(Ok(Err(words))),
        ) == failed(session, "bridge returned malformed JSON: "@ + words@),
        answered(session, WaitView::ControllerList, Event::Controllers(Err(error))) == failed(
            session,
            error.text(),
        ),
        answered(
            session,
            WaitView::ControllerStatus { installed },
            Event::Controllers(Err(error)),
        ) == failed(session, error.text()),
        answered(session, WaitView::ProfileList { filter }, Event::Profiles(Err(error))) == failed(
            session,
            error.text(),
        ),
{
}

/// Without a bridge a task first connects; once connected, it is the task that is run, in
/// the fresh session, and where the connection fails the call says so.
pub proof fn law_tasks_connect_first(task: TaskView, fresh: HidMaestro, error: Error)
    ensures
        task_begun(None, task).0 is None,
        task_begun(None, task).1 matches ProgressView::Ask(ActionView::Connect, wait) && {
            let connected = resumed(None, wait, Event::Connected(Ok(fresh)));
            &&& connected == (
                Some(task_run(fresh@, task, false).0),
                task_run(fresh@, task, false).1,
            )
            &&& resumed(None, wait, Event::Connected(Err(error))) == (
                None::<SessionView>,
                ProgressView::Finish(Err("failed to start bridge: "@ + error.text())),
            )
        },
{
}

/// A patch is read first, then applied to the controller that it was meant for; one that
/// cannot be read is reported.
pub proof fn law_patches_are_read_first(
    session: SessionView,
    key: Seq<char>,
    document: JsonView,
    patch: Patch,
    words: String,
)
    ensures
        command_begun(Some(session), Command::SetState { key, patch: document }) matches (
            Some(same),
            ProgressView::Ask(ActionView::ReadPatch(read), wait),
        ) && {
            &&& same == session
            &&& read == document
            &&& resumed(Some(session), wait, Event::PatchRead(Ok(patch))) == (
                Some(patch_run(session, key, patch@).0),
                patch_run(session, key, patch@).1,
            )
            &&& resumed(Some(session), wait, Event::PatchRead(Err(words))) == (
                Some(session),
                ProgressView::Finish(Err("invalid state: "@ + words@)),
            )
        },
{
}

/// A shutdown stops a connected bridge, forgets the session and says so; without a bridge it
/// says so at once.
pub proof fn law_shutdown_stops_the_bridge(session: SessionView)
    ensures
        command_begun(Some(session), Command::Shutdown) matches (
            None,
            ProgressView::Ask(ActionView::Stop(request), wait),
        ) && {
            &&& !session.shutdown_sent ==> (request matches Some(r) && r.id == session.next_id
                && r.method == "shutdown"@ && r.params is None)
            &&& session.shutdown_sent ==> request is None
            &&& resumed(None, wait, Event::Stopped) == (
                None::<SessionView>,
                ProgressView::Finish(Ok("bridge stopped; all virtual controllers removed"@)),
            )
        },
        command_begun(None, Command::Shutdown) == (
            None::<SessionView>,
            ProgressView::Finish(Ok("bridge stopped; all virtual controllers removed"@)),
        ),
{
}

/// When a pause is over, an input goes on with the steps that are left, and without any it
/// says its message; a change among them is submitted for its own controller.
pub proof fn law_inputs_go_on(
    session: SessionView,
    key: Seq<char>,
    steps: Seq<Step>,
    message: Seq<char>,
    time: u64,
    edit: gamepad::StateEdit,
)
    ensures
        answered(session, WaitView::Slept { key, steps, message }, Event::Slept) == replied(
            session,
            WaitView::Submitted { key, steps, message },
            JsonView::Null,
        ),
        answered(
            session,
            WaitView::Slept { key, steps: Seq::empty(), message },
            Event::Slept,
        ) == said(session, message),
        answered(
            session,
            WaitView::Slept { key, steps: seq![Step::Sleep(time)] + steps, message },
            Event::Slept,
        ) == (
            session,
            ProgressView::Ask(
                ActionView::Sleep(time),
                WaitView::Slept { key, steps, message },
            ),
        ),
        session.controllers.contains_key(key) ==> ({
            let next = answered(
                session,
                WaitView::Slept { key, steps: seq![Step::Edit(edit)] + steps, message },
                Event::Slept,
            );
            &&& submitted(next.1) == Some(
                (key, gamepad::edited(session.controllers[key].state, edit)),
            )
            &&& waits(next, WaitView::Submitted { key, steps, message })
        }),
{
    assert((seq![Step::Sleep(time)] + steps).skip(1) =~= steps);
    assert((seq![Step::Edit(edit)] + steps).skip(1) =~= steps);
    assert((seq![Step::Sleep(time)] + steps)[0] == Step::Sleep(time));
    assert((seq![Step::Edit(edit)] + steps)[0] == Step::Edit(edit));
}

/// Where the bridge refuses to make one controller neutral, its mirror stays, and the others
/// are still made neutral.
pub proof fn law_neutral_goes_on_after_a_refusal(
    session: SessionView,
    key: Seq<char>,
    rest: Seq<Seq<char>>,
    error: Error,
)
    ensures
        ({
            let after = refused(session, WaitView::Neutral { key, rest }, error);
            &&& after.0.controllers == session.controllers
            &&& rest.len() > 0 ==> submitted(after.1) == Some(
                (rest.last(), gamepad::neutral_view()),
            )
            &&& rest.len() == 0 ==> after.1 is Finish
        }),
{
}

} // verus!
