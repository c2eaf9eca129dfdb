//! A session with the bridge: the ids of its requests, the mirrored states of
//! its controllers, and what it makes of the bridge's replies.

use std::time::Duration;

use vstd::prelude::*;

use crate::builder;
use crate::builder::{HidMaestroBuilder, Launch};
use crate::error::{Error, Result};
use crate::events;
use crate::events::{BufferView, EventBuffer, WaitStep};
use crate::gamepad;
use crate::gamepad::{
    ControllerInfo, GamepadState, GamepadView, OutputEvent, Profile, StandardAxes, StateEdit,
};
use crate::json;
use crate::json::{Json, JsonView};
use crate::protocol;
use crate::protocol::{BridgeCall, Call, CallView, Request};
use crate::single::Single;
use crate::state::{Axis, Buttons, Hat};
use crate::text;

verus! {

broadcast use vstd::string::group_string_axioms;

/// What a session keeps of a controller that it created.
#[derive(Debug, PartialEq)]
pub struct ControllerSlot {
    pub info: ControllerInfo,
    pub state: GamepadState,
}

/// What is kept of a controller, as a mathematical value.
pub struct SlotView {
    pub profile_id: Seq<char>,
    pub state: GamepadView,
}

impl ControllerSlot {
    /// The slot as a mathematical value.
    pub open spec fn view(self) -> SlotView {
        SlotView { profile_id: self.info.profile_id@, state: self.state@ }
    }
}

/// A session with the bridge.
#[derive(Debug)]
pub struct HidMaestro {
    next_id: u64,
    slots: Vec<ControllerSlot>,
    events: EventBuffer,
    response_timeout: Duration,
    shutdown_sent: bool,
}

/// A session as a mathematical value.
#[verifier::ext_equal]
pub struct SessionView {
    /// The id of the next request.
    pub next_id: u64,
    /// The controllers by their keys.
    pub controllers: Map<Seq<char>, SlotView>,
    /// Events that nobody has taken yet.
    pub events: BufferView,
    /// How many events there is room for.
    pub room: nat,
    /// How long a request may wait for its response.
    pub response_timeout: Duration,
    /// Whether the bridge was asked to shut down.
    pub shutdown_sent: bool,
}

/// The slots by their keys.
pub open spec fn slot_map(slots: Seq<ControllerSlot>) -> Map<Seq<char>, SlotView>
    decreases slots.len(),
{
    if slots.len() == 0 {
        Map::empty()
    } else {
        slot_map(slots.drop_last()).insert(slots.last().info.key@, slots.last()@)
    }
}

/// No two slots have the same key.
pub open spec fn distinct_slots(slots: Seq<ControllerSlot>) -> bool {
    forall|i: int, j: int|
        0 <= i < j < slots.len() ==> (#[trigger] slots[i]).info.key@ != (
        #[trigger] slots[j]).info.key@
}

proof fn lemma_slot_map(slots: Seq<ControllerSlot>, key: Seq<char>)
    ensures
        slot_map(slots).contains_key(key) <==> exists|i: int|
            0 <= i < slots.len() && (#[trigger] slots[i]).info.key@ == key,
        distinct_slots(slots) ==> forall|i: int|
            0 <= i < slots.len() && (#[trigger] slots[i]).info.key@ == key ==> slot_map(slots)[key]
                == slots[i]@,
    decreases slots.len(),
{
    if slots.len() > 0 {
        let shorter = slots.drop_last();
        lemma_slot_map(shorter, key);
        assert forall|i: int| 0 <= i < shorter.len() implies shorter[i] == #[trigger] slots[i] by {}
        assert(slots.last() == slots[slots.len() - 1]);
        if slots.last().info.key@ != key {
            if slot_map(slots).contains_key(key) {
                let i = choose|i: int|
                    0 <= i < shorter.len() && (#[trigger] shorter[i]).info.key@ == key;
                assert(slots[i].info.key@ == key);
            }
            if exists|i: int| 0 <= i < slots.len() && (#[trigger] slots[i]).info.key@ == key {
                let i = choose|i: int|
                    0 <= i < slots.len() && (#[trigger] slots[i]).info.key@ == key;
                assert(shorter[i].info.key@ == key);
            }
        }
    }
}

/// Two lists of slots stand for the same map if they agree on every key.
proof fn lemma_same_slots(
    slots: Seq<ControllerSlot>,
    changed: Seq<ControllerSlot>,
    at: int,
    slot: ControllerSlot,
)
    requires
        distinct_slots(slots),
        0 <= at < slots.len(),
        changed == slots.update(at, slot),
        slot.info.key@ == slots[at].info.key@,
    ensures
        distinct_slots(changed),
        slot_map(changed) == slot_map(slots).insert(slot.info.key@, slot@),
{
    assert(distinct_slots(changed)) by {
        assert forall|i: int, j: int| 0 <= i < j < changed.len() implies (
        #[trigger] changed[i]).info.key@ != (#[trigger] changed[j]).info.key@ by {
            assert(slots[i].info.key@ != slots[j].info.key@);
        }
    }
    let expected = slot_map(slots).insert(slot.info.key@, slot@);
    assert forall|key: Seq<char>| #[trigger]
        slot_map(changed).contains_key(key) == expected.contains_key(key) && (
    expected.contains_key(key) ==> slot_map(changed)[key] == expected[key]) by {
        lemma_slot_map(slots, key);
        lemma_slot_map(changed, key);
        assert(changed[at] == slot);
        if slot_map(slots).contains_key(key) {
            let i = choose|i: int| 0 <= i < slots.len() && (#[trigger] slots[i]).info.key@ == key;
            assert(changed[i].info.key@ == key);
        }
        if slot_map(changed).contains_key(key) {
            let i = choose|i: int|
                0 <= i < changed.len() && (#[trigger] changed[i]).info.key@ == key;
            assert(slots[i].info.key@ == key);
        }
    }
    assert(slot_map(changed) =~= expected);
}

/// The slots without the one at a position stand for the map without its key.
proof fn lemma_fewer_slots(slots: Seq<ControllerSlot>, at: int)
    requires
        distinct_slots(slots),
        0 <= at < slots.len(),
    ensures
        distinct_slots(slots.remove(at)),
        slot_map(slots.remove(at)) == slot_map(slots).remove(slots[at].info.key@),
{
    let fewer = slots.remove(at);
    let gone = slots[at].info.key@;
    assert(distinct_slots(fewer)) by {
        assert forall|i: int, j: int| 0 <= i < j < fewer.len() implies (
        #[trigger] fewer[i]).info.key@ != (#[trigger] fewer[j]).info.key@ by {
            let a = if i < at {
                i
            } else {
                i + 1
            };
            let b = if j < at {
                j
            } else {
                j + 1
            };
            assert(slots[a].info.key@ != slots[b].info.key@);
        }
    }
    let expected = slot_map(slots).remove(gone);
    assert forall|key: Seq<char>| #[trigger]
        slot_map(fewer).contains_key(key) == expected.contains_key(key) && (expected.contains_key(
        key,
    ) ==> slot_map(fewer)[key] == expected[key]) by {
        lemma_slot_map(slots, key);
        lemma_slot_map(fewer, key);
        if expected.contains_key(key) {
            let i = choose|i: int| 0 <= i < slots.len() && (#[trigger] slots[i]).info.key@ == key;
            let a = if i < at {
                i
            } else {
                i - 1
            };
            assert(fewer[a] == slots[i]);
        }
        if slot_map(fewer).contains_key(key) {
            let i = choose|i: int| 0 <= i < fewer.len() && (#[trigger] fewer[i]).info.key@ == key;
            let a = if i < at {
                i
            } else {
                i + 1
            };
            assert(slots[a] == fewer[i]);
            if key == gone {
                if a < at {
                    assert(slots[a].info.key@ != slots[at].info.key@);
                } else {
                    assert(slots[at].info.key@ != slots[a].info.key@);
                }
            }
        }
    }
    assert(slot_map(fewer) =~= expected);
}

/// Keys as mathematical values.
pub open spec fn key_texts(keys: Seq<String>) -> Seq<Seq<char>> {
    keys.map_values(|key: String| key@)
}

/// The number in a reply that counts something, and zero where there is none.
pub open spec fn counted(reply: JsonView) -> usize {
    match json::unsigned_in(Some(reply)) {
        Some(n) => n as usize,
        None => 0,
    }
}

/// What a decoded reply gives: the error of the request, or else that of
/// decoding.
pub open spec fn received<T>(
    reply: Result<std::result::Result<T, String>>,
) -> Result<T> {
    match reply {
        Ok(Ok(value)) => Ok(value),
        Ok(Err(source)) => Err(Error::Protocol(source)),
        Err(error) => Err(error),
    }
}

fn receive<T>(reply: Result<std::result::Result<T, String>>) -> (result: Result<T>)
    ensures
        result == received(reply),
{
    match reply {
        Ok(Ok(value)) => Ok(value),
        Ok(Err(source)) => Err(Error::Protocol(source)),
        Err(error) => Err(error),
    }
}

/// What is known of the bridge process while it is to exit.
#[derive(Clone, Copy, Debug, PartialEq, Eq, Structural)]
pub enum ExitPoll {
    Exited,
    Running,
    /// It could not be asked.
    Failed,
}

/// What to do while the bridge process is to exit.
#[derive(Clone, Copy, Debug, PartialEq, Eq, Structural)]
pub enum StopStep {
    /// It is gone.
    Done,
    /// Ask again after this many milliseconds.
    Sleep(u64),
    /// End it by force.
    Kill,
}

/// How long a bridge that was asked to shut down may take, in milliseconds.
pub const GRACEFUL_SHUTDOWN_TIMEOUT_MS: u64 = 30_000;

/// How often such a bridge is asked whether it is gone, in milliseconds.
pub const SHUTDOWN_POLL_INTERVAL_MS: u64 = 10;

/// One step of waiting for the bridge process to exit, `elapsed_ms` after it was
/// asked to.
pub fn stop_step(poll: ExitPoll, elapsed_ms: u64) -> (step: StopStep)
    ensures
        step == (match poll {
            ExitPoll::Exited => StopStep::Done,
            ExitPoll::Running => if elapsed_ms < GRACEFUL_SHUTDOWN_TIMEOUT_MS {
                StopStep::Sleep(SHUTDOWN_POLL_INTERVAL_MS)
            } else {
                StopStep::Kill
            },
            ExitPoll::Failed => StopStep::Kill,
        }),
{
    match poll {
        ExitPoll::Exited => StopStep::Done,
        ExitPoll::Running => {
            if elapsed_ms < GRACEFUL_SHUTDOWN_TIMEOUT_MS {
                StopStep::Sleep(SHUTDOWN_POLL_INTERVAL_MS)
            } else {
                StopStep::Kill
            }
        },
        ExitPoll::Failed => StopStep::Kill,
    }
}

/// A session after a request was numbered.
pub open spec fn after_request(session: SessionView) -> SessionView {
    SessionView {
        next_id: if session.next_id == u64::MAX {
            0
        } else {
            (session.next_id + 1) as u64
        },
        ..session
    }
}

/// A session after a number of requests.
pub open spec fn after_requests(session: SessionView, count: nat) -> SessionView
    decreases count,
{
    if count == 0 {
        session
    } else {
        after_request(after_requests(session, (count - 1) as nat))
    }
}

/// A session whose bridge has been asked to shut down.
pub open spec fn after_stop(session: SessionView) -> SessionView {
    if session.shutdown_sent {
        session
    } else {
        SessionView { shutdown_sent: true, ..after_request(session) }
    }
}

/// A session with other controllers.
pub open spec fn with_controllers(
    session: SessionView,
    controllers: Map<Seq<char>, SlotView>,
) -> SessionView {
    SessionView { controllers, ..session }
}

/// The controllers after the mirrored state of one was replaced. One that the
/// session did not create has no mirror.
pub open spec fn mirrored(
    controllers: Map<Seq<char>, SlotView>,
    key: Seq<char>,
    state: GamepadView,
) -> Map<Seq<char>, SlotView> {
    if controllers.contains_key(key) {
        controllers.insert(key, SlotView { state, ..controllers[key] })
    } else {
        controllers
    }
}

/// The key in the reply to a request for a controller.
pub open spec fn created_key(reply: JsonView) -> Option<Seq<char>> {
    json::text_in(json::member(reply, "key"@))
}

impl HidMaestro {
    /// The session as a mathematical value.
    pub closed spec fn view(self) -> SessionView {
        SessionView {
            next_id: self.next_id,
            controllers: slot_map(self.slots@),
            events: self.events@,
            room: self.events.room(),
            response_timeout: self.response_timeout,
            shutdown_sent: self.shutdown_sent,
        }
    }

    /// Each controller has one slot, and the events fit in the buffer.
    pub closed spec fn wf(self) -> bool {
        distinct_slots(self.slots@) && self.events.wf()
    }

    /// The settings of a session, all at their defaults.
    pub fn builder() -> (builder: HidMaestroBuilder)
        ensures
            builder.bridge_path is None,
            builder.pipe_name is None,
            builder.args@.len() == 0,
            builder::duration_nanos(builder.response_timeout) == 120_000_000_000,
            builder.event_buffer_capacity == builder::DEFAULT_EVENT_BUFFER_CAPACITY,
            builder.env@.len() == 0,
    {
        HidMaestroBuilder::default()
    }

    /// How the bridge is reached with default settings: by the pipe that the
    /// environment names, or else as a process.
    pub fn spawn(environment_pipe_name: Option<&str>, windows: bool) -> (result: Result<Launch>)
        ensures
            match builder::chosen_pipe_name(None, text::maybe_str(environment_pipe_name)) {
                None => result == Ok::<Launch, Error>(Launch::Process),
                Some(name) => if builder::pipe_name_fault(name) is Some {
                    result matches Err(error) && builder::is_name_error(error, name)
                } else if windows {
                    result matches Ok(Launch::Pipe { name: n, path }) && n@ == name && path@
                        == "\\\\.\\pipe\\"@ + name
                } else {
                    result == Err::<Launch, Error>(Error::PipeUnsupported)
                },
            },
    {
        HidMaestro::builder().spawn(environment_pipe_name, windows)
    }

    /// A session that has just been connected.
    pub fn from_streams(event_buffer_capacity: usize, response_timeout: Duration) -> (session:
        HidMaestro)
        requires
            event_buffer_capacity > 0,
        ensures
            session.wf(),
            session@ == (SessionView {
                next_id: 1,
                controllers: Map::empty(),
                events: BufferView { events: Seq::empty(), dropped: 0 },
                room: event_buffer_capacity as nat,
                response_timeout,
                shutdown_sent: false,
            }),
    {
        HidMaestro {
            next_id: 1,
            slots: Vec::new(),
            events: EventBuffer::new(event_buffer_capacity),
            response_timeout,
            shutdown_sent: false,
        }
    }

    /// How long a request may wait for its response.
    pub fn response_timeout(&self) -> (span: Duration)
        ensures
            span == self@.response_timeout,
    {
        self.response_timeout
    }

    /// The request for an operation, under the next id.
    pub fn send_request(&mut self, call: BridgeCall) -> (request: Request)
        requires
            old(self).wf(),
        ensures
            final(self).wf(),
            final(self)@ == after_request(old(self)@),
            request@ == protocol::requested(old(self)@.next_id, call@),
    {
        let id: u64 = self.next_id;
        self.next_id = if id == u64::MAX {
            0
        } else {
            id + 1
        };
        Request::new(id, call)
    }

    /// Whether one more event can be put in the buffer and counted.
    pub fn accepts_event(&self) -> (yes: bool)
        ensures
            yes == events::accepts(self@.events, self@.room),
    {
        self.events.accepts()
    }

    /// Puts an event of the bridge in the buffer.
    pub fn accept_event(&mut self, event: OutputEvent)
        requires
            old(self).wf(),
            events::accepts(old(self)@.events, old(self)@.room),
        ensures
            final(self).wf(),
            final(self)@ == (SessionView {
                events: events::pushed(old(self)@.events, old(self)@.room, event),
                ..old(self)@
            }),
    {
        self.events.push(event);
    }

    /// Takes all output reports received so far, oldest first.
    pub fn drain_events(&mut self) -> (taken: Vec<OutputEvent>)
        requires
            old(self).wf(),
        ensures
            final(self).wf(),
            taken@ == old(self)@.events.events,
            final(self)@ == (SessionView {
                events: BufferView { events: Seq::empty(), dropped: old(self)@.events.dropped },
                ..old(self)@
            }),
    {
        self.events.drain()
    }

    /// One step of waiting, up to `limit` nanoseconds, for the next event.
    pub fn wait_event(&mut self, elapsed: u128, limit: u128, timed_out: bool) -> (step: WaitStep)
        requires
            old(self).wf(),
        ensures
            final(self).wf(),
            events::waited(
                old(self)@.events,
                final(self)@.events,
                None,
                elapsed,
                limit,
                timed_out,
                step,
            ),
            final(self)@ == (SessionView { events: final(self)@.events, ..old(self)@ }),
    {
        self.events.wait(elapsed, limit, timed_out)
    }

    /// One step of waiting, up to `limit` nanoseconds, for the next event of a
    /// controller. Events of others stay.
    pub fn wait_event_for_controller(
        &mut self,
        controller: &str,
        elapsed: u128,
        limit: u128,
        timed_out: bool,
    ) -> (step: WaitStep)
        requires
            old(self).wf(),
        ensures
            final(self).wf(),
            events::waited(
                old(self)@.events,
                final(self)@.events,
                Some(controller@),
                elapsed,
                limit,
                timed_out,
                step,
            ),
            final(self)@ == (SessionView { events: final(self)@.events, ..old(self)@ }),
    {
        self.events.wait_for_controller(controller, elapsed, limit, timed_out)
    }

    /// How many events were discarded in this session for want of room.
    pub fn dropped_event_count(&self) -> (count: u64)
        ensures
            count == self@.events.dropped,
    {
        self.events.dropped()
    }

    /// What the bridge answers to [`Call::Ping`].
    pub fn ping(&self, reply: Result<Json>) -> (result: Result<String>)
        ensures
            match reply {
                Ok(json) => result matches Ok(pong) && pong@ == (match json::text_in(
                    Some(json.view()),
                ) {
                    Some(s) => s,
                    None => "pong"@,
                }),
                Err(error) => result == Err::<String, Error>(error),
            },
    {
        match reply {
            Ok(json) => match json.as_str() {
                Some(s) => Ok(s.to_owned()),
                None => Ok("pong".to_owned()),
            },
            Err(error) => Err(error),
        }
    }

    /// What [`Call::IsDriverInstalled`] tells: true when the driver package is
    /// installed.
    pub fn is_driver_installed(&self, reply: Result<Json>) -> (result: Result<bool>)
        ensures
            result == (match reply {
                Ok(json) => Ok::<bool, Error>(json.view() == JsonView::Bool(true)),
                Err(error) => Err::<bool, Error>(error),
            }),
    {
        match reply {
            Ok(json) => match json.as_bool() {
                Some(installed) => Ok(installed),
                None => Ok(false),
            },
            Err(error) => Err(error),
        }
    }

    /// The end of [`Call::InstallDriver`].
    pub fn install_driver(&self, reply: Result<Json>) -> (result: Result<()>)
        ensures
            result == (match reply {
                Ok(_) => Ok::<(), Error>(()),
                Err(error) => Err::<(), Error>(error),
            }),
    {
        match reply {
            Ok(_) => Ok(()),
            Err(error) => Err(error),
        }
    }

    /// The end of [`Call::InstallUsbipBackend`].
    pub fn install_usbip_backend(&self, reply: Result<Json>) -> (result: Result<()>)
        ensures
            result == (match reply {
                Ok(_) => Ok::<(), Error>(()),
                Err(error) => Err::<(), Error>(error),
            }),
    {
        match reply {
            Ok(_) => Ok(()),
            Err(error) => Err(error),
        }
    }

    /// How many profiles of the built-in catalog [`Call::LoadProfiles`] loaded.
    pub fn load_default_profiles(&self, reply: Result<Json>) -> (result: Result<usize>)
        ensures
            result == (match reply {
                Ok(json) => Ok::<usize, Error>(counted(json.view())),
                Err(error) => Err::<usize, Error>(error),
            }),
    {
        match reply {
            Ok(json) => match json.as_u64() {
                Some(n) => Ok(
                    #[verifier::truncate]
                    (n as usize),
                ),
                None => Ok(0),
            },
            Err(error) => Err(error),
        }
    }

    /// How many profiles of a directory [`Call::LoadProfiles`] loaded.
    pub fn load_profiles_from_dir(&self, reply: Result<Json>) -> (result: Result<usize>)
        ensures
            result == (match reply {
                Ok(json) => Ok::<usize, Error>(counted(json.view())),
                Err(error) => Err::<usize, Error>(error),
            }),
    {
        self.load_default_profiles(reply)
    }

    /// All loaded profiles, once the reply to [`Call::ListProfiles`] was read.
    pub fn list_profiles(
        &self,
        reply: Result<std::result::Result<Vec<Profile>, String>>,
    ) -> (result: Result<Vec<Profile>>)
        ensures
            result == received(reply),
    {
        receive(reply)
    }

    /// The profile, by [`Call::GetProfile`], if it is loaded: the reply is a
    /// document, together with what it was read as. `null` says that the profile is
    /// not loaded.
    pub fn get_profile(
        &self,
        reply: Result<(Json, std::result::Result<Profile, String>)>,
    ) -> (result: Result<Option<Profile>>)
        ensures
            result == (match reply {
                Ok((Json::Null, _)) => Ok::<Option<Profile>, Error>(None),
                Ok((_, Ok(profile))) => Ok::<Option<Profile>, Error>(Some(profile)),
                Ok((_, Err(source))) => Err::<Option<Profile>, Error>(Error::Protocol(source)),
                Err(error) => Err::<Option<Profile>, Error>(error),
            }),
    {
        match reply {
            Ok((Json::Null, _)) => Ok(None),
            Ok((_, Ok(profile))) => Ok(Some(profile)),
            Ok((_, Err(source))) => Err(Error::Protocol(source)),
            Err(error) => Err(error),
        }
    }

    /// The live controllers, once the reply to [`Call::ListControllers`] was read.
    pub fn list_controllers(
        &self,
        reply: Result<std::result::Result<Vec<ControllerInfo>, String>>,
    ) -> (result: Result<Vec<ControllerInfo>>)
        ensures
            result == received(reply),
    {
        receive(reply)
    }

    /// Where the slot of a controller is.
    fn slot_of(&self, key: &str) -> (at: Option<usize>)
        requires
            self.wf(),
        ensures
            match at {
                Some(at) => at < self.slots@.len() && self.slots@[at as int].info.key@ == key@
                    && self@.controllers.contains_key(key@) && self@.controllers[key@]
                    == self.slots@[at as int]@,
                None => !self@.controllers.contains_key(key@) && forall|i: int|
                    0 <= i < self.slots@.len() ==> (#[trigger] self.slots@[i]).info.key@ != key@,
            },
    {
        proof {
            lemma_slot_map(self.slots@, key@);
        }
        for i in 0..self.slots.len()
            invariant
                self.wf(),
                forall|k: int| 0 <= k < i ==> (#[trigger] self.slots@[k]).info.key@ != key@,
        {
            if text::same_text(self.slots[i].info.key.as_str(), key) {
                proof {
                    lemma_slot_map(self.slots@, key@);
                }
                return Some(i);
            }
        }
        None
    }

    /// The end of [`Call::CreateController`]: the key of a controller that was
    /// created from a profile. Its mirror starts out neutral.
    pub fn create_controller(&mut self, profile_id: &str, reply: Result<Json>) -> (result: Result<
        String,
    >)
        requires
            old(self).wf(),
        ensures
            final(self).wf(),
            match reply {
                Ok(json) => match created_key(json.view()) {
                    Some(key) => {
                        &&& result matches Ok(k) && k@ == key
                        &&& final(self)@ == with_controllers(
                            old(self)@,
                            old(self)@.controllers.insert(
                                key,
                                SlotView {
                                    profile_id: profile_id@,
                                    state: gamepad::neutral_view(),
                                },
                            ),
                        )
                    },
                    None => {
                        &&& result matches Err(Error::Remote(message)) && message@
                            == "bad create_controller result: "@ + json::compact_text(json.view())
                        &&& final(self)@ == old(self)@
                    },
                },
                Err(error) => result == Err::<String, Error>(error) && final(self)@ == old(self)@,
            },
    {
        let json = match reply {
            Ok(json) => json,
            Err(error) => {
                return Err(error);
            },
        };
        let found = match json.get("key") {
            Some(value) => value.as_str(),
            None => None,
        };
        let key = match found {
            Some(key) => key,
            None => {
                let mut message = "bad create_controller result: ".to_owned();
                message.append(json.to_text().as_str());
                return Err(Error::Remote(message));
            },
        };
        let slot = ControllerSlot {
            info: ControllerInfo { key: key.to_owned(), profile_id: profile_id.to_owned() },
            state: GamepadState::neutral(),
        };
        let ghost before = self.slots@;
        match self.slot_of(key) {
            Some(at) => {
                self.slots.set(at, slot);
                proof {
                    lemma_same_slots(before, self.slots@, at as int, slot);
                }
            },
            None => {
                self.slots.push(slot);
                assert(self.slots@.drop_last() =~= before);
            },
        }
        Ok(key.to_owned())
    }

    /// A view of one live controller.
    pub fn controller<'a>(&'a self, key: &str) -> (result: Result<Controller<'a>>)
        requires
            self.wf(),
        ensures
            match result {
                Ok(controller) => self@.controllers.contains_key(key@) && controller.wf()
                    && controller@ == (ControllerView { key: key@, session: self@ }),
                Err(error) => !self@.controllers.contains_key(key@) && (
                error matches Error::NoSuchController(k) && k@ == key@),
            },
    {
        match self.slot_of(key) {
            Some(at) => Ok(Controller { session: self, at, key: key.to_owned() }),
            None => Err(Error::NoSuchController(key.to_owned())),
        }
    }

    /// The keys of the controllers.
    pub fn keys(&self) -> (keys: Vec<String>)
        requires
            self.wf(),
        ensures
            key_texts(keys@).no_duplicates(),
            key_texts(keys@).to_set() == self@.controllers.dom(),
    {
        let mut keys: Vec<String> = Vec::new();
        for i in 0..self.slots.len()
            invariant
                keys@.len() == i,
                forall|k: int|
                    0 <= k < i ==> (#[trigger] keys@[k])@ == self.slots@[k].info.key@,
        {
            keys.push(self.slots[i].info.key.clone());
        }
        proof {
            let texts = key_texts(keys@);
            assert forall|i: int, j: int|
                0 <= i < texts.len() && 0 <= j < texts.len() && i != j implies texts[i]
                != texts[j] by {
                assert(keys@[i]@ == self.slots@[i].info.key@);
                assert(keys@[j]@ == self.slots@[j].info.key@);
                if i < j {
                    assert(self.slots@[i].info.key@ != self.slots@[j].info.key@);
                } else {
                    assert(self.slots@[j].info.key@ != self.slots@[i].info.key@);
                }
            }
            assert forall|key: Seq<char>| texts.to_set().contains(key)
                == self@.controllers.dom().contains(key) by {
                lemma_slot_map(self.slots@, key);
                if texts.contains(key) {
                    let i = choose|i: int| 0 <= i < texts.len() && texts[i] == key;
                    assert(keys@[i]@ == self.slots@[i].info.key@);
                }
                if self@.controllers.contains_key(key) {
                    let i = choose|i: int|
                        0 <= i < self.slots@.len() && (#[trigger] self.slots@[i]).info.key@ == key;
                    assert(keys@[i]@ == self.slots@[i].info.key@);
                    assert(texts[i] == key);
                }
            }
            assert(texts.to_set() =~= self@.controllers.dom());
        }
        keys
    }

    /// The end of [`Call::SubmitState`]. The mirror follows only once the bridge
    /// has confirmed the state.
    pub fn submit_state(&mut self, key: &str, state: &GamepadState, reply: Result<Json>) -> (result:
        Result<()>)
        requires
            old(self).wf(),
        ensures
            final(self).wf(),
            result == (match reply {
                Ok(_) => Ok::<(), Error>(()),
                Err(error) => Err::<(), Error>(error),
            }),
            final(self)@ == (if reply is Ok {
                with_controllers(
                    old(self)@,
                    mirrored(old(self)@.controllers, key@, state@),
                )
            } else {
                old(self)@
            }),
    {
        match reply {
            Ok(_) => {
                if let Some(mirror) = self.state_mut(key) {
                    *mirror = state.clone();
                }
                Ok(())
            },
            Err(error) => Err(error),
        }
    }

    /// The mirrored state of a controller.
    pub fn state(&self, key: &str) -> (state: Option<&GamepadState>)
        requires
            self.wf(),
        ensures
            match state {
                Some(state) => self@.controllers.contains_key(key@) && state@
                    == self@.controllers[key@].state,
                None => !self@.controllers.contains_key(key@),
            },
    {
        match self.slot_of(key) {
            Some(at) => Some(&self.slots[at].state),
            None => None,
        }
    }

    /// The mirrored state of a controller, to be changed. Submitting it pushes it
    /// to the bridge.
    pub fn state_mut(&mut self, key: &str) -> (state: Option<&mut GamepadState>)
        requires
            old(self).wf(),
        ensures
            final(self).wf(),
            match state {
                Some(state) => {
                    &&& old(self)@.controllers.contains_key(key@)
                    &&& state@ == old(self)@.controllers[key@].state
                    &&& final(self)@ == with_controllers(
                        old(self)@,
                        mirrored(old(self)@.controllers, key@, final(state)@),
                    )
                },
                None => !old(self)@.controllers.contains_key(key@) && final(self)@ == old(self)@,
            },
    {
        match self.slot_of(key) {
            Some(at) => {
                let ghost before = self.slots@;
                let slot = &mut self.slots[at];
                let state = &mut slot.state;
                proof {
                    let changed = ControllerSlot {
                        info: before[at as int].info,
                        state: *final(state),
                    };
                    lemma_same_slots(before, before.update(at as int, changed), at as int, changed);
                }
                Some(state)
            },
            None => None,
        }
    }

    /// The end of [`Call::RemoveController`].
    pub fn remove_controller(&mut self, key: &str, reply: Result<Json>) -> (result: Result<()>)
        requires
            old(self).wf(),
        ensures
            final(self).wf(),
            result == (match reply {
                Ok(_) => Ok::<(), Error>(()),
                Err(error) => Err::<(), Error>(error),
            }),
            final(self)@ == (if reply is Ok {
                with_controllers(old(self)@, old(self)@.controllers.remove(key@))
            } else {
                old(self)@
            }),
    {
        match reply {
            Ok(_) => {
                let ghost before = self.slots@;
                match self.slot_of(key) {
                    Some(at) => {
                        proof {
                            lemma_fewer_slots(before, at as int);
                        }
                        let _ = self.slots.remove(at);
                    },
                    None => {
                        assert(self@.controllers.remove(key@) =~= self@.controllers);
                    },
                }
                Ok(())
            },
            Err(error) => Err(error),
        }
    }

    /// The end of [`Call::RemoveAllControllers`].
    pub fn remove_all_controllers(&mut self, reply: Result<Json>) -> (result: Result<()>)
        requires
            old(self).wf(),
        ensures
            final(self).wf(),
            result == (match reply {
                Ok(_) => Ok::<(), Error>(()),
                Err(error) => Err::<(), Error>(error),
            }),
            final(self)@ == (if reply is Ok {
                with_controllers(old(self)@, Map::empty())
            } else {
                old(self)@
            }),
    {
        match reply {
            Ok(_) => {
                self.slots = Vec::new();
                Ok(())
            },
            Err(error) => Err(error),
        }
    }

    /// The request that asks the bridge to dispose of all controllers and exit,
    /// unless it was asked before.
    pub fn stop_bridge(&mut self) -> (request: Option<Request>)
        requires
            old(self).wf(),
        ensures
            final(self).wf(),
            final(self)@ == after_stop(old(self)@),
            match request {
                Some(request) => !old(self)@.shutdown_sent && request@ == protocol::requested(
                    old(self)@.next_id,
                    Call::Shutdown,
                ),
                None => old(self)@.shutdown_sent,
            },
    {
        if self.shutdown_sent {
            return None;
        }
        let request = self.send_request(Call::Shutdown);
        self.shutdown_sent = true;
        Some(request)
    }

    /// Ends the session; gives the request that stops the bridge.
    pub fn shutdown(self) -> (request: Option<Request>)
        requires
            self.wf(),
        ensures
            match request {
                Some(request) => !self@.shutdown_sent && request@ == protocol::requested(
                    self@.next_id,
                    Call::Shutdown,
                ),
                None => self@.shutdown_sent,
            },
    {
        let mut session = self;
        session.stop_bridge()
    }
}

/// A view of one live controller. Its methods give the operation that brings the
/// controller to a new state; the mirror follows when the bridge has confirmed
/// it, so that after a failure the last confirmed state is still there.
pub struct Controller<'a> {
    session: &'a HidMaestro,
    at: usize,
    key: String,
}

/// A controller in its session, as a mathematical value.
pub struct ControllerView {
    pub key: Seq<char>,
    pub session: SessionView,
}

/// What it takes to press buttons for a while.
#[derive(Debug, PartialEq)]
pub struct Tap {
    /// Presses the buttons.
    pub press: BridgeCall,
    /// How long they are held.
    pub hold: Duration,
    /// Releases them, once the bridge has confirmed that they are pressed.
    pub release: BridgeCall,
}

impl ControllerView {
    /// The mirrored state.
    pub open spec fn state(self) -> GamepadView {
        self.session.controllers[self.key].state
    }

    /// The operation that submits a state.
    pub open spec fn submits(self, state: GamepadView) -> CallView {
        Call::SubmitState { key: self.key, state }
    }
}

impl<'a> Controller<'a> {
    /// The controller as a mathematical value.
    pub closed spec fn view(self) -> ControllerView {
        ControllerView { key: self.key@, session: self.session@ }
    }

    /// The controller is one of its session's.
    pub closed spec fn wf(self) -> bool {
        &&& self.session.wf()
        &&& self.at < self.session.slots@.len()
        &&& self.session.slots@[self.at as int].info.key@ == self.key@
    }

    /// The key of the controller.
    pub fn key(&self) -> (key: &str)
        ensures
            key@ == self@.key,
    {
        self.key.as_str()
    }

    /// The key and the profile of the controller.
    pub fn info(&self) -> (info: &ControllerInfo)
        requires
            self.wf(),
        ensures
            info.key@ == self@.key,
            info.profile_id@ == self@.session.controllers[self@.key].profile_id,
    {
        proof {
            lemma_slot_map(self.session.slots@, self.key@);
        }
        &self.session.slots[self.at].info
    }

    /// The mirrored state.
    pub fn state(&self) -> (state: &GamepadState)
        requires
            self.wf(),
        ensures
            state@ == self@.state(),
    {
        proof {
            lemma_slot_map(self.session.slots@, self.key@);
        }
        &self.session.slots[self.at].state
    }

    /// Submits the mirrored state.
    pub fn submit(&self) -> (call: BridgeCall)
        requires
            self.wf(),
        ensures
            call@ == self@.submits(self@.state()),
    {
        self.submit_state(self.state().clone())
    }

    /// Submits a state in place of the mirrored one.
    pub fn submit_state(&self, state: GamepadState) -> (call: BridgeCall)
        ensures
            call@ == self@.submits(state@),
    {
        Call::SubmitState { key: self.key.clone(), state }
    }

    /// Back to neutral.
    pub fn reset(&self) -> (call: BridgeCall)
        ensures
            call@ == self@.submits(gamepad::neutral_view()),
    {
        self.submit_state(GamepadState::neutral())
    }

    /// Holds buttons down, without releasing others.
    pub fn press(&self, buttons: Buttons) -> (call: BridgeCall)
        requires
            self.wf(),
        ensures
            call@ == self@.submits(gamepad::edited(self@.state(), StateEdit::Press(buttons))),
    {
        self.submit_state(self.state().edit(StateEdit::Press(buttons)))
    }

    /// Releases buttons, leaving others held.
    pub fn release(&self, buttons: Buttons) -> (call: BridgeCall)
        requires
            self.wf(),
        ensures
            call@ == self@.submits(gamepad::edited(self@.state(), StateEdit::Release(buttons))),
    {
        self.submit_state(self.state().edit(StateEdit::Release(buttons)))
    }

    /// Presses, holds for a while, and releases.
    pub fn tap(&self, buttons: Buttons, hold: Duration) -> (tap: Tap)
        requires
            self.wf(),
        ensures
            tap.hold == hold,
            tap.press@ == self@.submits(gamepad::edited(self@.state(), StateEdit::Press(buttons))),
            tap.release@ == self@.submits(
                gamepad::edited(
                    gamepad::edited(self@.state(), StateEdit::Press(buttons)),
                    StateEdit::Release(buttons),
                ),
            ),
    {
        let pressed = self.state().edit(StateEdit::Press(buttons));
        let released = pressed.edit(StateEdit::Release(buttons));
        Tap { press: self.press(buttons), hold, release: self.submit_state(released) }
    }

    /// Sets the direction of the d-pad.
    pub fn set_hat(&self, hat: Hat) -> (call: BridgeCall)
        requires
            self.wf(),
        ensures
            call@ == self@.submits(gamepad::edited(self@.state(), StateEdit::SetHat(hat))),
    {
        self.submit_state(self.state().edit(StateEdit::SetHat(hat)))
    }

    /// Sets one axis, limited to the unit range, by its HID usage.
    pub fn set_axis(&self, axis: Axis, value: Single) -> (call: BridgeCall)
        requires
            self.wf(),
        ensures
            call@ == self@.submits(gamepad::edited(self@.state(), StateEdit::SetAxis(axis, value))),
    {
        self.submit_state(self.state().edit(StateEdit::SetAxis(axis, value)))
    }

    /// Sets the canonical six axes.
    pub fn set_standard_axes(&self, axes: StandardAxes) -> (call: BridgeCall)
        requires
            self.wf(),
        ensures
            call@ == self@.submits(
                gamepad::edited(self@.state(), StateEdit::SetStandardAxes(axes)),
            ),
    {
        self.submit_state(self.state().edit(StateEdit::SetStandardAxes(axes)))
    }

    /// Makes any change: what every one of the operations above does to the mirrored
    /// state is its own change and nothing else.
    pub fn apply(&self, edit: StateEdit) -> (call: BridgeCall)
        requires
            self.wf(),
        ensures
            call@ == self@.submits(gamepad::edited(self@.state(), edit)),
    {
        match edit {
            StateEdit::Press(buttons) => self.press(buttons),
            StateEdit::Release(buttons) => self.release(buttons),
            StateEdit::SetHat(hat) => self.set_hat(hat),
            StateEdit::SetAxis(axis, value) => self.set_axis(axis, value),
            StateEdit::SetStandardAxes(axes) => self.set_standard_axes(axes),
            StateEdit::Reset => self.reset(),
            StateEdit::SetButtons(_) | StateEdit::MoveSticks(_) => self.submit_state(
                self.state().edit(edit),
            ),
        }
    }

    /// Removes the controller.
    pub fn remove(self) -> (call: BridgeCall)
        ensures
            call@ == (CallView::RemoveController { key: self@.key }),
    {
        Call::RemoveController { key: self.key }
    }
}

proof fn lemma_request_ids(session: SessionView, count: nat)
    ensures
        after_requests(session, count).next_id == (session.next_id + count)
            % 0x1_0000_0000_0000_0000,
        after_requests(session, count) == (SessionView {
            next_id: after_requests(session, count).next_id,
            ..session
        }),
    decreases count,
{
    if count > 0 {
        lemma_request_ids(session, (count - 1) as nat);
    }
}

/// Requests are numbered one after the other, so that two of them share an id
/// only if at least as many lie between them as there are ids. Numbering
/// changes nothing else in the session.
pub proof fn law_request_ids_differ(session: SessionView, first: nat, second: nat)
    requires
        first < second < first + 0x1_0000_0000_0000_0000,
    ensures
        after_requests(session, first).next_id != after_requests(session, second).next_id,
        after_requests(session, first).controllers == session.controllers,
        after_requests(session, first).events == session.events,
{
    lemma_request_ids(session, first);
    lemma_request_ids(session, second);
    let a = session.next_id + first;
    let b = session.next_id + second;
    let m = 0x1_0000_0000_0000_0000int;
    if a % m == b % m {
        let k = b / m - a / m;
        assert(b - a == k * m) by (nonlinear_arith)
            requires
                a % m == b % m,
                k == b / m - a / m,
                m > 0,
        ;
        assert(k >= 1 ==> k * m >= m) by (nonlinear_arith)
            requires
                m > 0,
        ;
        assert(k <= 0 ==> k * m <= 0) by (nonlinear_arith)
            requires
                m > 0,
        ;
    }
}

/// A bridge is asked to shut down at most once in a session.
pub proof fn law_shutdown_is_sent_once(session: SessionView)
    ensures
        after_stop(session).shutdown_sent,
        after_stop(after_stop(session)) == after_stop(session),
{
}

/// A confirmed state becomes the mirror of its controller, and the mirrors of
/// the others stay.
pub proof fn law_confirmed_state_is_mirrored(
    controllers: Map<Seq<char>, SlotView>,
    key: Seq<char>,
    state: GamepadView,
    other: Seq<char>,
)
    requires
        controllers.contains_key(key),
    ensures
        mirrored(controllers, key, state).dom() == controllers.dom(),
        mirrored(controllers, key, state)[key].state == state,
        mirrored(controllers, key, state)[key].profile_id == controllers[key].profile_id,
        other != key && controllers.contains_key(other) ==> mirrored(controllers, key, state)[other]
            == controllers[other],
{
    assert(mirrored(controllers, key, state).dom() =~= controllers.dom());
}

/// Tapping buttons, once both states are confirmed, leaves the controller as a
/// release would have left it.
pub proof fn law_tap_releases(
    controllers: Map<Seq<char>, SlotView>,
    key: Seq<char>,
    buttons: Buttons,
)
    requires
        controllers.contains_key(key),
    ensures
        ({
            let state = controllers[key].state;
            let pressed = gamepad::edited(state, StateEdit::Press(buttons));
            let released = gamepad::edited(pressed, StateEdit::Release(buttons));
            let after = mirrored(mirrored(controllers, key, pressed), key, released);
            &&& after[key].state == gamepad::edited(state, StateEdit::Release(buttons))
            &&& after[key].state.buttons & buttons.mask() == 0
        }),
{
    gamepad::law_press_then_release(controllers[key].state, buttons);
}

} // verus!
