//! The server: it reads requests of an agent line by line, and answers them.

use vstd::prelude::*;

use crate::command;
use crate::events;
use crate::gamepad;
use crate::gamepad::OutputEvent;
use crate::json;
use crate::json::{Json, JsonView};
use crate::message;
use crate::protocol;
use crate::protocol::Call;
use crate::session;
use crate::session::{HidMaestro, SessionView};
use crate::text;
use crate::work;
use crate::work::{Action, ActionView, Event, Progress, ProgressView, Wait, WaitView};

verus! {

broadcast use vstd::string::group_string_axioms;

/// A call that waits for outside work.
#[derive(Debug, PartialEq)]
pub struct Pending {
    /// The id of the request; a notification has none, and gets no answer.
    pub id: Option<Json>,
    pub wait: Wait,
}

/// A call that waits, as a mathematical value.
#[verifier::ext_equal]
pub struct PendingView {
    pub id: Option<JsonView>,
    pub wait: WaitView,
}

/// The server.
#[derive(Debug)]
pub struct Server {
    version: String,
    session: Option<HidMaestro>,
    pending: Option<Pending>,
}

/// The server as a mathematical value.
#[verifier::ext_equal]
pub struct ServerView {
    /// The version that it announces.
    pub version: Seq<char>,
    /// The session, once the bridge is connected.
    pub session: Option<SessionView>,
    /// The call that waits.
    pub pending: Option<PendingView>,
}

/// The document behind an optional value.
pub open spec fn maybe_document(document: Option<Json>) -> Option<JsonView> {
    match document {
        Some(document) => Some(document.view()),
        None => None,
    }
}

/// A result answers a request, and nothing answers a notification.
pub open spec fn result_for(id: Option<JsonView>, result: JsonView) -> ActionView {
    match id {
        Some(id) => ActionView::Respond(message::response(id, result)),
        None => ActionView::Idle,
    }
}

/// An error answers a request, and nothing answers a notification.
pub open spec fn error_for(id: Option<JsonView>, code: i64, words: Seq<char>) -> ActionView {
    match id {
        Some(id) => ActionView::Respond(message::error_response(id, code, words)),
        None => ActionView::Idle,
    }
}

fn give_result(id: Option<Json>, result: Json) -> (action: Action)
    ensures
        action@ == result_for(maybe_document(id), result.view()),
{
    match id {
        Some(id) => Action::Respond(message::respond(id, result)),
        None => Action::Idle,
    }
}

fn give_error(id: Option<Json>, code: i64, words: &str) -> (action: Action)
    ensures
        action@ == error_for(maybe_document(id), code, words@),
{
    match id {
        Some(id) => Action::Respond(message::respond_error(id, code, words)),
        None => Action::Idle,
    }
}

/// The server when a call has come this far.
pub open spec fn progressed(
    version: Seq<char>,
    id: Option<JsonView>,
    session: Option<SessionView>,
    progress: ProgressView,
) -> (ServerView, ActionView) {
    match progress {
        ProgressView::Ask(action, wait) => (
            ServerView { version, session, pending: Some(PendingView { id, wait }) },
            action,
        ),
        ProgressView::Finish(outcome) => (
            ServerView { version, session, pending: None },
            result_for(id, message::tool_result(outcome)),
        ),
    }
}

/// The arguments of a call: none means no arguments, and what is no object cannot
/// be used.
pub open spec fn call_arguments(message: JsonView) -> Option<JsonView> {
    match message::parameter(message, "arguments"@) {
        None => Some(JsonView::Object(Map::empty())),
        Some(JsonView::Object(members)) => Some(JsonView::Object(members)),
        Some(_) => None,
    }
}

/// The name of the tool that is called.
pub open spec fn call_name(message: JsonView) -> Seq<char> {
    match json::text_in(message::parameter(message, "name"@)) {
        Some(name) => name,
        None => ""@,
    }
}

/// What a call of a tool does first.
pub open spec fn called(server: ServerView, id: Option<JsonView>, message: JsonView) -> (
    ServerView,
    ActionView,
) {
    match call_arguments(message) {
        None => (
            server,
            error_for(id, message::INVALID_PARAMS, "tools/call 'arguments' must be an object"@),
        ),
        Some(arguments) => match command::named_command(call_name(message), arguments) {
            Err(words) => progressed(
                server.version,
                id,
                server.session,
                ProgressView::Finish(Err(words)),
            ),
            Ok(command) => {
                let (session, progress) = work::command_begun(server.session, command);
                progressed(server.version, id, session, progress)
            },
        },
    }
}

/// What a message does.
pub open spec fn handled(server: ServerView, message: JsonView) -> (ServerView, ActionView) {
    let id = json::member(message, "id"@);
    match json::text_in(json::member(message, "method"@)) {
        None => (server, ActionView::Idle),
        Some(method) => if method == "initialize"@ {
            (server, result_for(id, message::initialize_document(server.version)))
        } else if method == "ping"@ {
            (server, result_for(id, JsonView::Object(Map::empty())))
        } else if method == "tools/list"@ {
            (server, result_for(id, message::list_document(message::is_modern(message))))
        } else if method == "tools/call"@ {
            called(server, id, message)
        } else if method == "server/discover"@ && message::is_modern(message) {
            (server, result_for(id, message::discover_document(server.version)))
        } else {
            (server, error_for(id, message::METHOD_NOT_FOUND, "Method not found"@))
        },
    }
}

/// What a line does.
pub open spec fn received(server: ServerView, line: Seq<char>) -> (ServerView, ActionView) {
    if text::blank(line) {
        (server, ActionView::Idle)
    } else {
        match json::parsed(line) {
            Ok(message) => handled(server, message),
            Err(words) => (
                server,
                ActionView::Respond(
                    message::error_response(JsonView::Null, message::PARSE_ERROR, words),
                ),
            ),
        }
    }
}

/// What the result of outside work does. Without a call that waits for it,
/// nothing.
pub open spec fn continued(server: ServerView, event: Event) -> (ServerView, ActionView) {
    match server.pending {
        None => (server, ActionView::Idle),
        Some(pending) => {
            let (session, progress) = work::resumed(server.session, pending.wait, event);
            progressed(server.version, pending.id, session, progress)
        },
    }
}

/// What the end of the input does: a connected bridge is stopped.
pub open spec fn ended(server: ServerView) -> (ServerView, ActionView) {
    (
        ServerView { version: server.version, session: None, pending: None },
        match server.session {
            Some(session) => ActionView::Stop(work::stop_request(session)),
            None => ActionView::Idle,
        },
    )
}

/// What it does to make controllers neutral, in an order.
pub open spec fn neutralized(server: ServerView, keys: Seq<Seq<char>>) -> (ServerView, ActionView) {
    match server.session {
        None => (server, ActionView::Idle),
        Some(session) => {
            let (after, progress) = work::neutral_run(session, keys);
            progressed(server.version, None, Some(after), progress)
        },
    }
}

/// What comes of the input.
#[derive(Debug, PartialEq, Eq)]
pub enum Input {
    /// A line.
    Line(String),
    /// Nothing, for the time that was given.
    Quiet,
    /// The end.
    Closed,
}

/// How the server watches for a pause in the input.
#[derive(Clone, Copy, Debug, PartialEq, Eq, Structural)]
pub struct Watch {
    /// After how many milliseconds a pause makes controllers neutral, if it does.
    pub limit: Option<u64>,
    /// Whether this pause has done so.
    pub neutral: bool,
}

/// How long to wait for input, in milliseconds: without end where no pause counts,
/// or where this one has done its work.
pub open spec fn watch_time(watch: Watch) -> Option<u64> {
    if watch.neutral {
        None
    } else {
        watch.limit
    }
}

/// The watch after something came of the input: a line begins anew, and a pause
/// does its work once.
pub open spec fn watched(watch: Watch, input: Input) -> Watch {
    match input {
        Input::Line(_) => Watch { neutral: false, ..watch },
        Input::Quiet => Watch { neutral: true, ..watch },
        Input::Closed => watch,
    }
}

impl Watch {
    /// The watch at the start, with the setting from the environment.
    pub fn new(setting: Option<&str>) -> (watch: Watch)
        ensures
            watch == (Watch {
                limit: inactivity_time(text::maybe_str(setting)),
                neutral: false,
            }),
    {
        Watch { limit: inactivity_limit(setting), neutral: false }
    }

    /// How long to wait for input, in milliseconds, if not without end.
    pub fn time(self) -> (time: Option<u64>)
        ensures
            time == watch_time(self),
    {
        if self.neutral {
            None
        } else {
            self.limit
        }
    }
}

/// Making all controllers neutral is begun, in some order.
pub open spec fn neutral_begun(before: ServerView, after: ServerView, action: ActionView) -> bool {
    exists|keys: Seq<Seq<char>>|
        {
            &&& keys.no_duplicates()
            &&& before.session matches Some(session) ==> keys.to_set()
                == session.controllers.dom()
            &&& (after, action) == #[trigger] neutralized(before, keys)
        }
}

/// What something that came of the input does.
pub open spec fn turned(
    before: ServerView,
    input: Input,
    after: ServerView,
    action: ActionView,
) -> bool {
    match input {
        Input::Line(line) => (after, action) == received(before, line@),
        Input::Quiet => neutral_begun(before, after, action),
        Input::Closed => (after, action) == ended(before),
    }
}

impl Server {
    /// The server as a mathematical value.
    pub closed spec fn view(self) -> ServerView {
        ServerView {
            version: self.version@,
            session: work::maybe_session(self.session),
            pending: match self.pending {
                Some(pending) => Some(
                    PendingView { id: maybe_document(pending.id), wait: pending.wait@ },
                ),
                None => None,
            },
        }
    }

    /// A session that is there keeps its rules.
    pub closed spec fn wf(self) -> bool {
        work::session_wf(self.session)
    }

    /// A server without a bridge, of a version.
    pub fn new(version: &str) -> (server: Server)
        ensures
            server.wf(),
            server@ == (ServerView { version: version@, session: None, pending: None }),
    {
        Server { version: version.to_owned(), session: None, pending: None }
    }

    /// The session, once the bridge is connected.
    pub fn session(&self) -> (session: Option<&HidMaestro>)
        requires
            self.wf(),
        ensures
            match session {
                Some(session) => session.wf() && self@.session == Some(session@),
                None => self@.session is None,
            },
    {
        self.session.as_ref()
    }

    fn progress(&mut self, id: Option<Json>, session: Option<HidMaestro>, progress: Progress) -> (
        action: Action)
        requires
            work::session_wf(session),
        ensures
            final(self).wf(),
            (final(self)@, action@) == progressed(
                old(self)@.version,
                maybe_document(id),
                work::maybe_session(session),
                progress@,
            ),
    {
        self.session = session;
        match progress {
            Progress::Ask(action, wait) => {
                self.pending = Some(Pending { id, wait });
                action
            },
            Progress::Finish(outcome) => {
                self.pending = None;
                match outcome {
                    Ok(words) => give_result(id, message::tool_ok(words.as_str())),
                    Err(words) => give_result(id, message::tool_error(words.as_str())),
                }
            },
        }
    }

    /// What a call of a tool does first.
    fn call_tool(&mut self, id: Option<Json>, message: &Json) -> (action: Action)
        requires
            old(self).wf(),
        ensures
            final(self).wf(),
            (final(self)@, action@) == called(old(self)@, maybe_document(id), message.view()),
    {
        let arguments = match message::find_parameter(message, "arguments") {
            None => Json::Object(Vec::new()),
            Some(arguments) => match arguments {
                Json::Object(_) => arguments.clone(),
                _ => {
                    return give_error(
                        id,
                        message::INVALID_PARAMS,
                        "tools/call 'arguments' must be an object",
                    );
                },
            },
        };
        let name = match message::find_parameter(message, "name") {
            Some(name) => match name.as_str() {
                Some(name) => name,
                None => "",
            },
            None => "",
        };
        let session = self.session.take();
        match command::decode_call(name, &arguments) {
            Err(words) => self.progress(id, session, Progress::Finish(Err(words))),
            Ok(command) => {
                let (session, progress) = work::begin_command(session, command);
                self.progress(id, session, progress)
            },
        }
    }

    /// Handles a message.
    pub fn handle(&mut self, message: &Json) -> (action: Action)
        requires
            old(self).wf(),
        ensures
            final(self).wf(),
            (final(self)@, action@) == handled(old(self)@, message.view()),
    {
        let method = match message.get("method") {
            Some(method) => match method.as_str() {
                Some(method) => method,
                None => {
                    return Action::Idle;
                },
            },
            None => {
                return Action::Idle;
            },
        };
        let id = match message.get("id") {
            Some(id) => Some(id.clone()),
            None => None,
        };
        if text::same_text(method, "initialize") {
            give_result(id, message::initialize_result(self.version.as_str()))
        } else if text::same_text(method, "ping") {
            give_result(id, Json::Object(Vec::new()))
        } else if text::same_text(method, "tools/list") {
            give_result(id, message::list_result(message::speaks_modern(message)))
        } else if text::same_text(method, "tools/call") {
            self.call_tool(id, message)
        } else if text::same_text(method, "server/discover") && message::speaks_modern(message) {
            give_result(id, message::discover_result(self.version.as_str()))
        } else {
            give_error(id, message::METHOD_NOT_FOUND, "Method not found")
        }
    }

    /// Handles a line of the input.
    pub fn receive(&mut self, line: &str) -> (action: Action)
        requires
            old(self).wf(),
        ensures
            final(self).wf(),
            (final(self)@, action@) == received(old(self)@, line@),
    {
        if text::is_blank(line) {
            return Action::Idle;
        }
        match Json::parse(line) {
            Ok(message) => self.handle(&message),
            Err(words) => Action::Respond(
                message::respond_error(Json::Null, message::PARSE_ERROR, words.as_str()),
            ),
        }
    }

    /// Takes the result of outside work.
    pub fn resume(&mut self, event: Event) -> (action: Action)
        requires
            old(self).wf(),
            work::event_wf(event),
        ensures
            final(self).wf(),
            (final(self)@, action@) == continued(old(self)@, event),
    {
        match self.pending.take() {
            None => Action::Idle,
            Some(pending) => {
                let session = self.session.take();
                let (session, progress) = work::resume(session, pending.wait, event);
                self.progress(pending.id, session, progress)
            },
        }
    }

    /// Ends the server, at the end of the input.
    pub fn finish(&mut self) -> (action: Action)
        requires
            old(self).wf(),
        ensures
            final(self).wf(),
            (final(self)@, action@) == ended(old(self)@),
    {
        self.pending = None;
        match self.session.take() {
            Some(session) => Action::Stop(session.shutdown()),
            None => Action::Idle,
        }
    }

    /// Starts to make all controllers neutral, after a time without input. The
    /// order in which they come is open.
    pub fn neutralize(&mut self) -> (action: Action)
        requires
            old(self).wf(),
        ensures
            final(self).wf(),
            neutral_begun(old(self)@, final(self)@, action@),
    {
        match self.session.take() {
            None => {
                let ghost keys = Seq::<Seq<char>>::empty();
                assert((self@, ActionView::Idle) == neutralized(old(self)@, keys));
                Action::Idle
            },
            Some(session) => {
                let keys = session.keys();
                let ghost texts = session::key_texts(keys@);
                let (session, progress) = work::run_neutral(session, keys);
                let action = self.progress(None, Some(session), progress);
                assert((self@, action@) == neutralized(old(self)@, texts));
                action
            },
        }
    }

    /// Takes what came of the input, and gives the watch for what comes next.
    pub fn turn(&mut self, watch: Watch, input: Input) -> (result: (Watch, Action))
        requires
            old(self).wf(),
        ensures
            final(self).wf(),
            result.0 == watched(watch, input),
            turned(old(self)@, input, final(self)@, result.1@),
    {
        match input {
            Input::Line(line) => (
                Watch { limit: watch.limit, neutral: false },
                self.receive(line.as_str()),
            ),
            Input::Quiet => (Watch { limit: watch.limit, neutral: true }, self.neutralize()),
            Input::Closed => (watch, self.finish()),
        }
    }

    /// Puts an event of the bridge in the buffer of the session.
    pub fn accept_event(&mut self, event: OutputEvent)
        requires
            old(self).wf(),
            old(self)@.session matches Some(session) ==> events::accepts(
                session.events,
                session.room,
            ),
        ensures
            final(self).wf(),
            final(self)@ == (ServerView {
                session: match old(self)@.session {
                    Some(session) => Some(
                        SessionView {
                            events: events::pushed(session.events, session.room, event),
                            ..session
                        },
                    ),
                    None => None,
                },
                ..old(self)@
            }),
    {
        if let Some(session) = self.session.take() {
            let mut session = session;
            session.accept_event(event);
            self.session = Some(session);
        }
    }
}

/// After how many milliseconds without input controllers are made neutral: a
/// positive number in decimal, or never.
pub open spec fn inactivity_time(setting: Option<Seq<char>>) -> Option<u64> {
    match setting {
        Some(digits) => match text::unsigned_number(digits, 10, u64::MAX as nat) {
            Some(time) => if time > 0 {
                Some(time as u64)
            } else {
                None
            },
            None => None,
        },
        None => None,
    }
}

/// Environment variable with the milliseconds without input after which
/// controllers are made neutral.
pub const INACTIVITY_ENV: &'static str = "HIDMAESTRO_MCP_INACTIVITY_MS";

/// After how many milliseconds without input controllers are made neutral.
pub fn inactivity_limit(setting: Option<&str>) -> (limit: Option<u64>)
    ensures
        limit == inactivity_time(text::maybe_str(setting)),
{
    match setting {
        Some(digits) => {
            let chars = text::chars_of(digits);
            assert(chars@.skip(0) =~= chars@);
            match text::parse_unsigned(&chars, 0, 10, u64::MAX) {
                Some(time) => {
                    if time > 0 {
                        Some(time)
                    } else {
                        None
                    }
                },
                None => None,
            }
        },
        None => None,
    }
}

/// The documents that answer a request with an id.
pub open spec fn answers(action: ActionView, id: Option<JsonView>) -> bool {
    action matches ActionView::Respond(document) ==> {
        &&& id matches Some(id) && json::member(document, "id"@) == Some(id)
        &&& json::member(document, "jsonrpc"@) == Some(JsonView::Text("2.0"@))
    }
}

proof fn lemma_response_members(id: JsonView, result: JsonView, code: i64, words: Seq<char>)
    ensures
        json::member(message::response(id, result), "id"@) == Some(id),
        json::member(message::response(id, result), "jsonrpc"@) == Some(JsonView::Text("2.0"@)),
        json::member(message::response(id, result), "result"@) == Some(result),
        json::member(message::response(id, result), "error"@) is None,
        json::member(message::error_response(id, code, words), "id"@) == Some(id),
        json::member(message::error_response(id, code, words), "jsonrpc"@) == Some(
            JsonView::Text("2.0"@),
        ),
        json::member(message::error_response(id, code, words), "error"@) == Some(
            message::object2(
                "code"@,
                JsonView::Number(json::integer_view(code)),
                "message"@,
                JsonView::Text(words),
            ),
        ),
        json::member(message::error_response(id, code, words), "result"@) is None,
{
    reveal_strlit("id");
    reveal_strlit("jsonrpc");
    reveal_strlit("result");
    reveal_strlit("error");
    assert("id"@.len() == 2);
    assert("jsonrpc"@.len() == 7);
    assert("result"@.len() == 6);
    assert("error"@.len() == 5);
}

proof fn lemma_result_answers(id: Option<JsonView>, result: JsonView, code: i64, words: Seq<char>)
    ensures
        answers(result_for(id, result), id),
        answers(error_for(id, code, words), id),
{
    if let Some(id) = id {
        lemma_response_members(id, result, code, words);
    }
}

proof fn lemma_progress_answers(
    version: Seq<char>,
    id: Option<JsonView>,
    session: Option<SessionView>,
    progress: ProgressView,
)
    requires
        progress matches ProgressView::Ask(action, _) ==> !(action is Respond),
    ensures
        answers(progressed(version, id, session, progress).1, id),
        progressed(version, id, session, progress).0.pending matches Some(pending) ==> pending.id
            == id,
{
    if let ProgressView::Finish(outcome) = progress {
        lemma_result_answers(id, message::tool_result(outcome), 0, Seq::empty());
    }
}

/// A message is answered, if at all, under its own id, and a notification is never
/// answered. A call that has to wait keeps the id for its answer.
pub proof fn law_messages_are_answered_by_id(server: ServerView, message: JsonView)
    requires
        server.pending is None,
    ensures
        answers(handled(server, message).1, json::member(message, "id"@)),
        handled(server, message).0.pending matches Some(pending) ==> pending.id == json::member(
            message,
            "id"@,
        ),
{
    let id = json::member(message, "id"@);
    lemma_result_answers(
        id,
        message::initialize_document(server.version),
        message::METHOD_NOT_FOUND,
        "Method not found"@,
    );
    lemma_result_answers(
        id,
        JsonView::Object(Map::empty()),
        message::INVALID_PARAMS,
        "tools/call 'arguments' must be an object"@,
    );
    lemma_result_answers(id, message::list_document(message::is_modern(message)), 0, Seq::empty());
    lemma_result_answers(id, message::discover_document(server.version), 0, Seq::empty());
    if let Some(arguments) = call_arguments(message) {
        match command::named_command(call_name(message), arguments) {
            Err(words) => {
                lemma_progress_answers(
                    server.version,
                    id,
                    server.session,
                    ProgressView::Finish(Err(words)),
                );
            },
            Ok(command) => {
                let (session, progress) = work::command_begun(server.session, command);
                lemma_progress_answers(server.version, id, session, progress);
            },
        }
    }
}

/// A call that waited is answered, if at all, under the id that it came with, and
/// keeps that id while it waits on.
pub proof fn law_calls_are_answered_by_id(server: ServerView, event: Event)
    requires
        server.pending is Some,
    ensures
        answers(continued(server, event).1, server.pending->0.id),
        continued(server, event).0.pending matches Some(pending) ==> pending.id
            == server.pending->0.id,
{
    let pending = server.pending->0;
    let (session, progress) = work::resumed(server.session, pending.wait, event);
    lemma_progress_answers(server.version, pending.id, session, progress);
}

/// A call that waits, waits for something that can come.
pub open spec fn server_settled(server: ServerView) -> bool {
    server.pending matches Some(pending) ==> work::settled(server.session, pending.wait)
}

/// Whatever comes of a line, of outside work or of inactivity, a call that then
/// waits, waits for something that can come.
pub proof fn law_server_stays_settled(
    server: ServerView,
    line: Seq<char>,
    event: Event,
    keys: Seq<Seq<char>>,
)
    requires
        server_settled(server),
    ensures
        server_settled(received(server, line).0),
        server_settled(continued(server, event).0),
        server_settled(neutralized(server, keys).0),
        server_settled(ended(server).0),
{
    if let Some(pending) = server.pending {
        work::law_calls_come_to_an_end(server.session, pending.wait, event);
    }
    if let Ok(message) = json::parsed(line) {
        if let Some(arguments) = call_arguments(message) {
            if let Ok(command) = command::named_command(call_name(message), arguments) {
                work::law_commands_begin_settled(server.session, command);
            }
        }
    }
}

/// Every call is answered in the end: each result of outside work either brings
/// the answer, for a request, or brings it nearer.
pub proof fn law_calls_are_answered(server: ServerView, event: Event)
    requires
        server.pending is Some,
        server_settled(server),
    ensures
        ({
            let (after, action) = continued(server, event);
            match after.pending {
                Some(pending) => work::wait_rank(pending.wait) < work::wait_rank(
                    server.pending->0.wait,
                ),
                None => (action is Respond) == (server.pending->0.id is Some),
            }
        }),
{
    let pending = server.pending->0;
    work::law_calls_come_to_an_end(server.session, pending.wait, event);
}

/// A request for a method that is not known is told so, and nothing else happens.
pub proof fn law_unknown_method_is_not_found(
    server: ServerView,
    message: JsonView,
    method: Seq<char>,
    id: JsonView,
)
    requires
        json::text_in(json::member(message, "method"@)) == Some(method),
        json::member(message, "id"@) == Some(id),
        method != "initialize"@,
        method != "ping"@,
        method != "tools/list"@,
        method != "tools/call"@,
        method != "server/discover"@ || !message::is_modern(message),
    ensures
        handled(server, message) == (
            server,
            ActionView::Respond(
                message::error_response(id, message::METHOD_NOT_FOUND, "Method not found"@),
            ),
        ),
{
}

/// A call whose arguments are no object runs nothing.
pub proof fn law_bad_arguments_run_nothing(server: ServerView, message: JsonView)
    requires
        json::text_in(json::member(message, "method"@)) == Some("tools/call"@),
        message::parameter(message, "arguments"@) matches Some(arguments) && !(
        arguments is Object),
    ensures
        handled(server, message).0 == server,
        handled(server, message).1 == error_for(
            json::member(message, "id"@),
            message::INVALID_PARAMS,
            "tools/call 'arguments' must be an object"@,
        ),
{
    reveal_strlit("initialize");
    reveal_strlit("ping");
    reveal_strlit("tools/list");
    reveal_strlit("tools/call");
    assert("initialize"@.len() == 10);
    assert("ping"@.len() == 4);
    assert("tools/list"@[6] == 'l');
    assert("tools/call"@[6] == 'c');
    assert("initialize"@[0] == 'i');
    assert("tools/call"@[0] == 't');
}

/// Without an id, and without a call of a tool, a message changes nothing and gets
/// no answer.
pub proof fn law_notifications_are_silent(server: ServerView, message: JsonView)
    requires
        json::member(message, "id"@) is None,
        json::text_in(json::member(message, "method"@)) != Some("tools/call"@),
    ensures
        handled(server, message) == (server, ActionView::Idle),
{
}

/// At the end of the input a connected bridge is asked to shut down, unless it was
/// asked before, and no session is left.
pub proof fn law_end_of_input_stops_the_bridge(server: ServerView)
    ensures
        ended(server).0.session is None,
        server.session matches Some(session) ==> ended(server).1 == ActionView::Stop(
            if session.shutdown_sent {
                None
            } else {
                Some(protocol::requested(session.next_id, Call::Shutdown))
            },
        ),
        server.session is None ==> ended(server).1 == ActionView::Idle,
{
}

/// A call that cannot be read is answered with what is wrong, and nothing is asked
/// of the bridge: the session stays as it is and no call waits.
pub proof fn law_unreadable_call_asks_nothing(
    server: ServerView,
    id: Option<JsonView>,
    message: JsonView,
    words: Seq<char>,
)
    requires
        call_arguments(message) matches Some(arguments) && command::named_command(
            call_name(message),
            arguments,
        ) == Err::<command::CommandView, Seq<char>>(words),
    ensures
        called(server, id, message) == (
            ServerView { pending: None, ..server },
            result_for(id, message::tool_error_document(words)),
        ),
{
}

/// A pause makes controllers neutral once: after it has, the server waits for input
/// without end, and only a line sets the time again.
pub proof fn law_a_pause_counts_once(watch: Watch, line: String)
    ensures
        watch_time(watched(watch, Input::Quiet)) is None,
        watch_time(watched(watched(watch, Input::Quiet), Input::Line(line))) == watch.limit,
        watch.limit is None ==> watch_time(watch) is None,
{
}

/// The message asks for a method, under an id.
pub open spec fn asks_for(message: JsonView, method: Seq<char>, id: JsonView) -> bool {
    &&& json::member(message, "method"@) == Some(JsonView::Text(method))
    &&& json::member(message, "id"@) == Some(id)
}

/// The result in a response.
pub open spec fn result_in(action: ActionView) -> Option<JsonView> {
    match action {
        ActionView::Respond(document) => json::member(document, "result"@),
        _ => None,
    }
}

/// A request to initialize is told the protocol, the server and its version; a ping gets an
/// empty object; and a request for the tools their list, with the result type where it
/// speaks the newer version. None of them changes anything.
pub proof fn law_questions_are_answered(server: ServerView, message: JsonView, id: JsonView)
    ensures
        asks_for(message, "initialize"@, id) ==> {
            &&& handled(server, message).0 == server
            &&& result_in(handled(server, message).1) == Some(
                message::initialize_document(server.version),
            )
        },
        asks_for(message, "ping"@, id) ==> {
            &&& handled(server, message).0 == server
            &&& result_in(handled(server, message).1) == Some(JsonView::Object(Map::empty()))
        },
        asks_for(message, "tools/list"@, id) ==> {
            &&& handled(server, message).0 == server
            &&& result_in(handled(server, message).1) == Some(
                message::list_document(message::is_modern(message)),
            )
        },
        asks_for(message, "server/discover"@, id) && message::is_modern(message) ==> {
            &&& handled(server, message).0 == server
            &&& result_in(handled(server, message).1) == Some(
                message::discover_document(server.version),
            )
        },
{
    lemma_method_names();
    lemma_response_members(id, message::initialize_document(server.version), 0, Seq::empty());
    lemma_response_members(id, JsonView::Object(Map::empty()), 0, Seq::empty());
    lemma_response_members(
        id,
        message::list_document(message::is_modern(message)),
        0,
        Seq::empty(),
    );
    lemma_response_members(id, message::discover_document(server.version), 0, Seq::empty());
}

proof fn lemma_method_names()
    ensures
        "initialize"@ != "ping"@,
        "initialize"@ != "tools/list"@,
        "initialize"@ != "tools/call"@,
        "initialize"@ != "server/discover"@,
        "ping"@ != "tools/list"@,
        "ping"@ != "tools/call"@,
        "ping"@ != "server/discover"@,
        "tools/list"@ != "tools/call"@,
        "tools/list"@ != "server/discover"@,
        "tools/call"@ != "server/discover"@,
{
    reveal_strlit("initialize");
    reveal_strlit("ping");
    reveal_strlit("tools/list");
    reveal_strlit("tools/call");
    reveal_strlit("server/discover");
    assert("ping"@.len() == 4);
    assert("server/discover"@.len() == 15);
    assert("initialize"@.len() == 10);
    assert("initialize"@[0] == 'i');
    assert("tools/list"@.len() == 10);
    assert("tools/list"@[0] == 't');
    assert("tools/list"@[6] == 'l');
    assert("tools/call"@.len() == 10);
    assert("tools/call"@[0] == 't');
    assert("tools/call"@[6] == 'c');
}

/// A call runs the tool that it names with the arguments that it gives, none where it gives
/// none, and keeps its id for the answer.
pub proof fn law_calls_run_the_named_tool(
    server: ServerView,
    message: JsonView,
    params: JsonView,
    id: JsonView,
    name: Seq<char>,
    arguments: Map<Seq<char>, JsonView>,
)
    requires
        asks_for(message, "tools/call"@, id),
        json::member(message, "params"@) == Some(params),
        json::member(params, "name"@) == Some(JsonView::Text(name)),
        json::member(params, "arguments"@) == Some(JsonView::Object(arguments)) || (json::member(
            params,
            "arguments"@,
        ) is None && arguments == Map::<Seq<char>, JsonView>::empty()),
    ensures
        match command::named_command(name, JsonView::Object(arguments)) {
            Ok(command) => {
                let (session, progress) = work::command_begun(server.session, command);
                let (after, action) = handled(server, message);
                &&& after.session == session
                &&& after.version == server.version
                &&& match progress {
                    ProgressView::Ask(asked, wait) => action == asked && (
                    after.pending matches Some(pending) && pending.wait == wait && pending.id
                        == Some(id)),
                    ProgressView::Finish(outcome) => after.pending is None && result_in(action)
                        == Some(message::tool_result(outcome)),
                }
            },
            Err(words) => {
                &&& handled(server, message).0.session == server.session
                &&& handled(server, message).0.pending is None
                &&& result_in(handled(server, message).1) == Some(
                    message::tool_result(Err(words)),
                )
            },
        },
{
    lemma_method_names();
    match command::named_command(name, JsonView::Object(arguments)) {
        Ok(command) => {
            if let ProgressView::Finish(outcome) = work::command_begun(
                server.session,
                command,
            ).1 {
                lemma_response_members(id, message::tool_result(outcome), 0, Seq::empty());
            }
        },
        Err(words) => {
            lemma_response_members(id, message::tool_result(Err(words)), 0, Seq::empty());
        },
    }
}

/// When a call that waited ends, its answer is the result of its tool.
pub proof fn law_answers_hold_the_result(server: ServerView, event: Event, id: JsonView)
    requires
        server.pending matches Some(pending) && pending.id == Some(id),
    ensures
        ({
            let (session, progress) = work::resumed(
                server.session,
                server.pending->0.wait,
                event,
            );
            let (after, action) = continued(server, event);
            &&& after.session == session
            &&& match progress {
                ProgressView::Ask(asked, wait) => action == asked && (
                after.pending matches Some(pending) && pending.wait == wait && pending.id == Some(
                    id,
                )),
                ProgressView::Finish(outcome) => after.pending is None && result_in(action)
                    == Some(message::tool_result(outcome)),
            }
        }),
{
    let (_, progress) = work::resumed(server.session, server.pending->0.wait, event);
    if let ProgressView::Finish(outcome) = progress {
        lemma_response_members(id, message::tool_result(outcome), 0, Seq::empty());
    }
}

/// A line that is no JSON is answered with the parser's words under a null id; a blank one is
/// passed over; and any other is handled as the message it is.
pub proof fn law_lines(server: ServerView, line: Seq<char>, words: Seq<char>)
    ensures
        text::blank(line) ==> received(server, line) == (server, ActionView::Idle),
        !text::blank(line) && json::parsed(line) == Err::<JsonView, Seq<char>>(words) ==> (
        received(server, line) matches (same, ActionView::Respond(document)) && {
            &&& same == server
            &&& json::member(document, "id"@) == Some(JsonView::Null)
            &&& json::member(document, "error"@) matches Some(error) && {
                &&& json::member(error, "code"@) matches Some(JsonView::Number(number))
                    && (number.signed matches Some(c) && c == -32700)
                &&& json::member(error, "message"@) == Some(JsonView::Text(words))
            }
        }),
        !text::blank(line) ==> (json::parsed(line) matches Ok(message) ==> received(server, line)
            == handled(server, message)),
{
    lemma_response_members(JsonView::Null, JsonView::Null, message::PARSE_ERROR, words);
    reveal_strlit("code");
    reveal_strlit("message");
    assert("code"@.len() == 4);
    assert("message"@.len() == 7);
}

/// The errors of the protocol carry their codes and words.
pub proof fn law_protocol_errors(
    server: ServerView,
    message: JsonView,
    id: JsonView,
    method: Seq<char>,
)
    requires
        asks_for(message, method, id),
    ensures
        method == "tools/call"@ && (message::parameter(message, "arguments"@) matches Some(given)
            && !(given is Object)) ==> error_says(
            handled(server, message).1,
            -32602,
            "tools/call 'arguments' must be an object"@,
        ),
        method != "initialize"@ && method != "ping"@ && method != "tools/list"@ && method
            != "tools/call"@ && method != "server/discover"@ ==> error_says(
            handled(server, message).1,
            -32601,
            "Method not found"@,
        ),
        method == "server/discover"@ && !message::is_modern(message) ==> error_says(
            handled(server, message).1,
            -32601,
            "Method not found"@,
        ),
{
    lemma_method_names();
    lemma_response_members(
        id,
        JsonView::Null,
        message::INVALID_PARAMS,
        "tools/call 'arguments' must be an object"@,
    );
    lemma_response_members(
        id,
        JsonView::Null,
        message::METHOD_NOT_FOUND,
        "Method not found"@,
    );
    reveal_strlit("code");
    reveal_strlit("message");
    assert("code"@.len() == 4);
    assert("message"@.len() == 7);
}

/// The action answers with an error of this code and these words, and with no result.
pub open spec fn error_says(action: ActionView, code: int, words: Seq<char>) -> bool {
    action matches ActionView::Respond(document) && {
        &&& json::member(document, "result"@) is None
        &&& json::member(document, "error"@) matches Some(error) && {
            &&& json::member(error, "code"@) matches Some(JsonView::Number(number))
                && (number.signed matches Some(c) && c == code)
            &&& json::member(error, "message"@) == Some(JsonView::Text(words))
        }
    }
}

/// The setting for inactivity is a positive number of milliseconds, and anything else, or
/// nothing, turns it off.
pub proof fn law_inactivity_setting(time: u64, other: Seq<char>)
    ensures
        time > 0 ==> inactivity_time(Some(text::decimal(time as nat))) == Some(time),
        inactivity_time(Some(text::decimal(0))) is None,
        inactivity_time(None) is None,
        text::unsigned_number(other, 10, u64::MAX as nat) is None ==> inactivity_time(
            Some(other),
        ) is None,
        inactivity_time(Some(other)) matches Some(limit) ==> limit > 0,
{
    text::law_number_reading(time as nat, u64::MAX as nat, other, 0);
    text::law_number_reading(0, u64::MAX as nat, other, 0);
}

/// A pause makes the controllers of a connected bridge neutral, one of them first; without a
/// bridge, or without controllers, it asks for nothing. The end of the input stops the bridge,
/// and a line is handled.
pub proof fn law_turns(
    before: ServerView,
    after: ServerView,
    action: ActionView,
    line: String,
    key: Seq<char>,
)
    ensures
        turned(before, Input::Quiet, after, action) ==> {
            &&& before.session is None ==> after == before && action is Idle
            &&& before.session matches Some(session) ==> {
                &&& session.controllers.contains_key(key) ==> (work::submitted(
                    ProgressView::Ask(action, WaitView::Written),
                ) matches Some((first, state)) && session.controllers.contains_key(first)
                    && state == gamepad::neutral_view())
                &&& after.session matches Some(s) && s.controllers == session.controllers
            }
        },
        turned(before, Input::Closed, after, action) ==> {
            &&& after.session is None
            &&& before.session is None ==> action is Idle
            &&& before.session is Some ==> action is Stop
        },
        turned(before, Input::Line(line), after, action) ==> (after, action) == received(
            before,
            line@,
        ),
{
    if turned(before, Input::Quiet, after, action) {
        if let Some(session) = before.session {
            let keys = choose|keys: Seq<Seq<char>>|
                {
                    &&& keys.no_duplicates()
                    &&& before.session matches Some(session) ==> keys.to_set()
                        == session.controllers.dom()
                    &&& (after, action) == #[trigger] neutralized(before, keys)
                };
            if keys.len() > 0 {
                assert(keys.to_set().contains(keys.last())) by {
                    assert(keys[keys.len() - 1] == keys.last());
                }
            } else if session.controllers.contains_key(key) {
                assert(keys.to_set().contains(key));
                let i = choose|i: int| 0 <= i < keys.len() && keys[i] == key;
                assert(false);
            }
        }
    }
}

} // verus!
