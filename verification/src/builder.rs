//! How a session is set up: where the bridge is, and how it is reached.

use std::path::PathBuf;
use std::time::Duration;

use vstd::prelude::*;

use crate::error::{Error, Result};
use crate::text;

verus! {

broadcast use vstd::string::group_string_axioms;

/// `std::path::PathBuf`: an owned path.
#[verifier::external_type_specification]
#[verifier::external_body]
pub struct ExPathBuf(PathBuf);

/// `PathBuf::clone` of the standard library: the same path.
pub assume_specification[ <PathBuf as Clone>::clone ](path: &PathBuf) -> (copy: PathBuf)
    ensures
        copy == *path,
;

/// The directory that a path lies in.
pub uninterp spec fn parent_of(path: PathBuf) -> Option<PathBuf>;

/// The path of a name in a directory.
pub uninterp spec fn path_in(directory: PathBuf, name: Seq<char>) -> PathBuf;

/// The path that a text writes.
pub uninterp spec fn path_of(text: Seq<char>) -> PathBuf;

/// `Path::parent` of the standard library, as an owned path: the path without its
/// last part, and nothing for a root or an empty path. How a path falls into parts
/// is left to the platform that the crate is built for.
#[verifier::external_body]
fn parent(path: &PathBuf) -> (directory: Option<PathBuf>)
    ensures
        directory == parent_of(*path),
{
    path.parent().map(|directory| directory.to_path_buf())
}

/// `Path::join` of the standard library: the name in the directory. How a path
/// falls into parts is left to the platform that the crate is built for.
#[verifier::external_body]
fn join(directory: &PathBuf, name: &str) -> (path: PathBuf)
    ensures
        path == path_in(*directory, name@),
{
    directory.join(name)
}

/// `PathBuf::from` of the standard library for a text: the path that it writes.
#[verifier::external_body]
fn path_from(text: &str) -> (path: PathBuf)
    ensures
        path == path_of(text@),
{
    PathBuf::from(text)
}

/// The length of a span of time in nanoseconds.
pub uninterp spec fn duration_nanos(span: Duration) -> nat;

/// `Duration::from_secs` of the standard library: a span of whole seconds.
#[verifier::external_body]
fn seconds(count: u64) -> (span: Duration)
    ensures
        duration_nanos(span) == count * 1_000_000_000,
{
    Duration::from_secs(count)
}

/// Environment variable that names the bridge executable.
pub const BRIDGE_PATH_ENV: &'static str = "HIDMAESTRO_BRIDGE_PATH";

/// Environment variable that names the pipe of a running elevated bridge.
pub const PIPE_NAME_ENV: &'static str = "HIDMAESTRO_PIPE_NAME";

/// Name of the bridge executable that is searched on `PATH`.
pub const BRIDGE_BIN_NAME: &'static str = "hidmaestro-bridge";

/// How many undrained events a session keeps, unless told otherwise.
pub const DEFAULT_EVENT_BUFFER_CAPACITY: usize = 1_024;

/// The longest accepted pipe name, in bytes.
pub const MAX_PIPE_NAME_LENGTH: usize = 128;

/// Settings of a session that is to be opened.
#[derive(Debug)]
pub struct HidMaestroBuilder {
    pub bridge_path: Option<PathBuf>,
    pub pipe_name: Option<String>,
    pub args: Vec<String>,
    pub response_timeout: Duration,
    pub event_buffer_capacity: usize,
    pub env: Vec<(String, String)>,
}

/// How the bridge is reached.
#[derive(Debug, PartialEq, Eq)]
pub enum Launch {
    /// By the pipe at this path.
    Pipe { name: String, path: String },
    /// By starting it as a process.
    Process,
}

/// An ASCII letter or digit.
pub open spec fn is_alphanumeric(c: char) -> bool {
    'a' <= c <= 'z' || 'A' <= c <= 'Z' || '0' <= c <= '9'
}

/// A character that a pipe name may contain.
pub open spec fn is_pipe_char(c: char) -> bool {
    is_alphanumeric(c) || c == '-' || c == '_' || c == '.'
}

/// What is wrong with a pipe name.
pub open spec fn pipe_name_fault(name: Seq<char>) -> Option<Seq<char>> {
    if name.len() == 0 {
        Some("name must not be empty"@)
    } else if vstd::utf8::encode_utf8(name).len() > MAX_PIPE_NAME_LENGTH {
        Some("name must be at most 128 ASCII characters"@)
    } else if !is_alphanumeric(name[0]) {
        Some("name must start with an ASCII letter or digit"@)
    } else if !(forall|i: int| 0 <= i < name.len() ==> is_pipe_char(#[trigger] name[i])) {
        Some(
            "name may contain only ASCII letters, digits, '-', '_', and '.'; do not include a path or \\\\.\\pipe\\ prefix"@,
        )
    } else {
        None
    }
}

/// The pipe name that is in force: the explicit one, or else one in the
/// environment that is not empty.
pub open spec fn chosen_pipe_name(
    explicit: Option<Seq<char>>,
    environment: Option<Seq<char>>,
) -> Option<Seq<char>> {
    match explicit {
        Some(name) => Some(name),
        None => match environment {
            Some(name) => if name.len() == 0 {
                None
            } else {
                Some(name)
            },
            None => None,
        },
    }
}

/// The error for a pipe name with a fault.
pub open spec fn is_name_error(error: Error, name: Seq<char>) -> bool {
    error matches Error::InvalidPipeName { name: n, reason } && n@ == name && pipe_name_fault(name)
        == Some(reason@)
}

fn alphanumeric(c: char) -> (yes: bool)
    ensures
        yes == is_alphanumeric(c),
{
    ('a' <= c && c <= 'z') || ('A' <= c && c <= 'Z') || ('0' <= c && c <= '9')
}

fn all_pipe_chars(chars: &Vec<char>) -> (all: bool)
    ensures
        all == (forall|i: int| 0 <= i < chars@.len() ==> is_pipe_char(#[trigger] chars@[i])),
{
    for i in 0..chars.len()
        invariant
            forall|k: int| 0 <= k < i ==> is_pipe_char(#[trigger] chars@[k]),
    {
        let c: char = chars[i];
        if !(alphanumeric(c) || c == '-' || c == '_' || c == '.') {
            assert(!is_pipe_char(chars@[i as int]));
            return false;
        }
    }
    true
}

/// Checks a pipe name and hands it back.
pub fn validate_pipe_name(name: &str) -> (result: Result<String>)
    ensures
        match result {
            Ok(valid) => pipe_name_fault(name@) is None && valid@ == name@,
            Err(error) => is_name_error(error, name@),
        },
{
    let chars = text::chars_of(name);
    let reason: &'static str = if chars.len() == 0 {
        "name must not be empty"
    } else if name.as_bytes().len() > MAX_PIPE_NAME_LENGTH {
        "name must be at most 128 ASCII characters"
    } else if !alphanumeric(chars[0]) {
        "name must start with an ASCII letter or digit"
    } else if !all_pipe_chars(&chars) {
        "name may contain only ASCII letters, digits, '-', '_', and '.'; do not include a path or \\\\.\\pipe\\ prefix"
    } else {
        return Ok(name.to_owned());
    };
    Err(Error::InvalidPipeName { name: name.to_owned(), reason })
}

/// A valid pipe name holds neither a path separator nor white space, and is
/// short.
pub proof fn law_valid_pipe_name_is_no_path(name: Seq<char>)
    requires
        pipe_name_fault(name) is None,
    ensures
        name.len() > 0,
        forall|i: int|
            0 <= i < name.len() ==> (#[trigger] name[i]) != '\\' && name[i] != '/' && name[i] != ' '
                && name[i] != ':',
{
}

proof fn lemma_pipe_name_bytes(name: Seq<char>)
    requires
        forall|i: int| 0 <= i < name.len() ==> is_pipe_char(#[trigger] name[i]),
    ensures
        vstd::utf8::encode_utf8(name).len() == name.len(),
{
    assert(vstd::utf8::is_ascii_chars(name));
    vstd::utf8::is_ascii_chars_encode_utf8(name);
}

/// What a valid pipe name begins with is a valid pipe name.
pub proof fn law_prefix_of_pipe_name_is_valid(name: Seq<char>, count: int)
    requires
        pipe_name_fault(name) is None,
        0 < count <= name.len(),
    ensures
        pipe_name_fault(name.take(count)) is None,
{
    let prefix = name.take(count);
    assert forall|i: int| 0 <= i < prefix.len() implies is_pipe_char(#[trigger] prefix[i]) by {
        assert(is_pipe_char(name[i]));
    }
    lemma_pipe_name_bytes(name);
    lemma_pipe_name_bytes(prefix);
}

/// Two valid pipe names, one after the other, are a valid pipe name exactly if
/// together they are not too long.
pub proof fn law_joined_pipe_names_are_valid(first: Seq<char>, second: Seq<char>)
    requires
        pipe_name_fault(first) is None,
        pipe_name_fault(second) is None,
    ensures
        pipe_name_fault(first + second) is None <==> first.len() + second.len()
            <= MAX_PIPE_NAME_LENGTH,
{
    let name = first + second;
    assert forall|i: int| 0 <= i < name.len() implies is_pipe_char(#[trigger] name[i]) by {
        if i < first.len() {
            assert(is_pipe_char(first[i]));
        } else {
            assert(is_pipe_char(second[i - first.len()]));
        }
    }
    lemma_pipe_name_bytes(name);
}

/// The name of the bridge executable.
pub open spec fn executable_name(windows: bool) -> Seq<char> {
    if windows {
        BRIDGE_BIN_NAME@ + ".exe"@
    } else {
        BRIDGE_BIN_NAME@
    }
}

/// The name of the bridge executable.
pub fn bridge_executable(windows: bool) -> (name: String)
    ensures
        name@ == executable_name(windows),
{
    let mut name = BRIDGE_BIN_NAME.to_owned();
    if windows {
        name.append(".exe");
    }
    name
}

/// The path of a name in the directory of the running executable.
pub open spec fn beside(current: PathBuf, name: Seq<char>) -> Option<PathBuf> {
    match parent_of(current) {
        Some(directory) => Some(path_in(directory, name)),
        None => None,
    }
}

/// Where the bridge would be in a directory.
pub fn bridge_in(directory: &PathBuf, name: &str) -> (candidate: PathBuf)
    ensures
        candidate == path_in(*directory, name@),
{
    join(directory, name)
}

/// Where the bridge would be beside the running executable.
pub fn bridge_beside(current: &PathBuf, name: &str) -> (candidate: Option<PathBuf>)
    ensures
        candidate == beside(*current, name@),
{
    match parent(current) {
        Some(directory) => Some(join(&directory, name)),
        None => None,
    }
}

/// The bridge beside the running executable, if what [`bridge_beside`] gives is a
/// file.
pub fn bridge_next_to(current: &PathBuf, name: &str, is_file: bool) -> (found: Option<PathBuf>)
    ensures
        found == (if is_file {
            beside(*current, name@)
        } else {
            None
        }),
{
    if is_file {
        bridge_beside(current, name)
    } else {
        None
    }
}

/// The first directory that is marked.
pub open spec fn first_marked(directories: Seq<(PathBuf, bool)>) -> Option<PathBuf>
    decreases directories.len(),
{
    if directories.len() == 0 {
        None
    } else if directories[0].1 {
        Some(directories[0].0)
    } else {
        first_marked(directories.skip(1))
    }
}

fn find_marked(directories: &Vec<(PathBuf, bool)>) -> (found: Option<&PathBuf>)
    ensures
        match (found, first_marked(directories@)) {
            (Some(directory), Some(expected)) => *directory == expected,
            (None, None) => true,
            _ => false,
        },
{
    let ghost all = directories@;
    assert(all.skip(0) =~= all);
    for i in 0..directories.len()
        invariant
            all == directories@,
            first_marked(all) == first_marked(all.skip(i as int)),
    {
        assert(all.skip(i as int)[0] == all[i as int]);
        assert(all.skip(i as int).skip(1) =~= all.skip(i + 1));
        if directories[i].1 {
            return Some(&directories[i].0);
        }
    }
    None
}

/// No explicit settings, two minutes for a response, and room for 1024 events.
impl Default for HidMaestroBuilder {
    fn default() -> (builder: HidMaestroBuilder)
        ensures
            builder.bridge_path is None,
            builder.pipe_name is None,
            builder.args@.len() == 0,
            duration_nanos(builder.response_timeout) == 120_000_000_000,
            builder.event_buffer_capacity == DEFAULT_EVENT_BUFFER_CAPACITY,
            builder.env@.len() == 0,
    {
        HidMaestroBuilder {
            bridge_path: None,
            pipe_name: None,
            args: Vec::new(),
            response_timeout: seconds(120),
            event_buffer_capacity: DEFAULT_EVENT_BUFFER_CAPACITY,
            env: Vec::new(),
        }
    }
}

/// The same settings.
impl Clone for HidMaestroBuilder {
    fn clone(&self) -> (copy: HidMaestroBuilder)
        ensures
            copy.bridge_path == self.bridge_path,
            text::maybe_text(copy.pipe_name) == text::maybe_text(self.pipe_name),
            copy.args@ == self.args@,
            copy.response_timeout == self.response_timeout,
            copy.event_buffer_capacity == self.event_buffer_capacity,
            copy.env@ == self.env@,
    {
        let mut args: Vec<String> = Vec::new();
        for i in 0..self.args.len()
            invariant
                args@ == self.args@.take(i as int),
        {
            args.push(self.args[i].clone());
            assert(args@ =~= self.args@.take(i + 1));
        }
        let mut env: Vec<(String, String)> = Vec::new();
        for i in 0..self.env.len()
            invariant
                env@ == self.env@.take(i as int),
        {
            env.push((self.env[i].0.clone(), self.env[i].1.clone()));
            assert(env@ =~= self.env@.take(i + 1));
        }
        assert(args@ =~= self.args@);
        assert(env@ =~= self.env@);
        HidMaestroBuilder {
            bridge_path: match &self.bridge_path {
                Some(path) => Some(path.clone()),
                None => None,
            },
            pipe_name: match &self.pipe_name {
                Some(name) => Some(name.clone()),
                None => None,
            },
            args,
            response_timeout: self.response_timeout,
            event_buffer_capacity: self.event_buffer_capacity,
            env,
        }
    }
}

impl HidMaestroBuilder {
    /// Explicit path to the bridge executable. Goes before the environment and
    /// the search.
    pub fn bridge_path(self, path: PathBuf) -> (builder: HidMaestroBuilder)
        ensures
            builder == (HidMaestroBuilder { bridge_path: Some(path), ..self }),
    {
        HidMaestroBuilder { bridge_path: Some(path), ..self }
    }

    /// Reach a running elevated bridge by this pipe, in place of starting one.
    /// Goes before the environment.
    pub fn pipe_name(self, name: &str) -> (builder: HidMaestroBuilder)
        ensures
            text::maybe_text(builder.pipe_name) == Some(name@),
            builder == (HidMaestroBuilder { pipe_name: builder.pipe_name, ..self }),
    {
        HidMaestroBuilder { pipe_name: Some(name.to_owned()), ..self }
    }

    /// One more command-line argument for the bridge process.
    pub fn arg(self, arg: &str) -> (builder: HidMaestroBuilder)
        ensures
            builder.args@.len() == self.args@.len() + 1,
            builder.args@.drop_last() == self.args@,
            builder.args@.last()@ == arg@,
            builder == (HidMaestroBuilder { args: builder.args, ..self }),
    {
        let mut args = self.args;
        let ghost before = args@;
        args.push(arg.to_owned());
        assert(args@.drop_last() =~= before);
        HidMaestroBuilder { args, ..self }
    }

    /// One more environment variable for the bridge process.
    pub fn env(self, key: &str, value: &str) -> (builder: HidMaestroBuilder)
        ensures
            builder.env@.len() == self.env@.len() + 1,
            builder.env@.drop_last() == self.env@,
            builder.env@.last().0@ == key@,
            builder.env@.last().1@ == value@,
            builder == (HidMaestroBuilder { env: builder.env, ..self }),
    {
        let mut env = self.env;
        let ghost before = env@;
        env.push((key.to_owned(), value.to_owned()));
        assert(env@.drop_last() =~= before);
        HidMaestroBuilder { env, ..self }
    }

    /// How long a request may wait for its response.
    pub fn response_timeout(self, timeout: Duration) -> (builder: HidMaestroBuilder)
        ensures
            builder == (HidMaestroBuilder { response_timeout: timeout, ..self }),
    {
        HidMaestroBuilder { response_timeout: timeout, ..self }
    }

    /// How many events are kept while nobody drains them. When there is no more
    /// room, the oldest is discarded.
    pub fn event_buffer_capacity(self, capacity: usize) -> (builder: HidMaestroBuilder)
        requires
            capacity > 0,
        ensures
            builder == (HidMaestroBuilder { event_buffer_capacity: capacity, ..self }),
    {
        HidMaestroBuilder { event_buffer_capacity: capacity, ..self }
    }

    /// The pipe name that is in force, given the one in the environment.
    pub fn configured_pipe_name(&self, environment_pipe_name: Option<&str>) -> (result: Result<
        Option<String>,
    >)
        ensures
            ({
                let chosen = chosen_pipe_name(
                    text::maybe_text(self.pipe_name),
                    text::maybe_str(environment_pipe_name),
                );
                match result {
                    Ok(name) => {
                        &&& text::maybe_text(name) == chosen
                        &&& chosen matches Some(c) ==> pipe_name_fault(c) is None
                    },
                    Err(error) => chosen matches Some(c) && is_name_error(error, c),
                }
            }),
    {
        match &self.pipe_name {
            Some(name) => match validate_pipe_name(name.as_str()) {
                Ok(valid) => Ok(Some(valid)),
                Err(error) => Err(error),
            },
            None => match environment_pipe_name {
                Some(name) => {
                    if name.is_empty() {
                        return Ok(None);
                    }
                    match validate_pipe_name(name) {
                        Ok(valid) => Ok(Some(valid)),
                        Err(error) => Err(error),
                    }
                },
                None => Ok(None),
            },
        }
    }

    /// How the bridge is to be reached. Pipes exist on Windows only.
    pub fn spawn(&self, environment_pipe_name: Option<&str>, windows: bool) -> (result: Result<
        Launch,
    >)
        ensures
            ({
                let chosen = chosen_pipe_name(
                    text::maybe_text(self.pipe_name),
                    text::maybe_str(environment_pipe_name),
                );
                match chosen {
                    None => result == Ok::<Launch, Error>(Launch::Process),
                    Some(name) => if pipe_name_fault(name) is Some {
                        result matches Err(error) && is_name_error(error, name)
                    } else if windows {
                        result matches Ok(Launch::Pipe { name: n, path }) && n@ == name && path@
                            == "\\\\.\\pipe\\"@ + name
                    } else {
                        result == Err::<Launch, Error>(Error::PipeUnsupported)
                    },
                }
            }),
    {
        match self.configured_pipe_name(environment_pipe_name) {
            Err(error) => Err(error),
            Ok(None) => Ok(Launch::Process),
            Ok(Some(name)) => {
                if windows {
                    let mut path = "\\\\.\\pipe\\".to_owned();
                    path.append(name.as_str());
                    Ok(Launch::Pipe { name, path })
                } else {
                    Err(Error::PipeUnsupported)
                }
            },
        }
    }

    /// The path of the bridge executable: the explicit one, or else the one in the
    /// environment that is not empty, or else the bridge beside the running
    /// executable, or else the bridge in the first directory of the search that has
    /// it. `bundled` tells whether what [`bridge_beside`] gives is a file, and the
    /// mark of a directory whether what [`bridge_in`] gives is one.
    pub fn resolve_path(
        &self,
        environment: Option<&str>,
        current: Option<&PathBuf>,
        bundled: bool,
        directories: &Vec<(PathBuf, bool)>,
        windows: bool,
    ) -> (result: Result<PathBuf>)
        ensures
            resolved(
                self.bridge_path,
                text::maybe_str(environment),
                match current {
                    Some(current) if bundled => beside(*current, executable_name(windows)),
                    _ => None,
                },
                first_marked(directories@),
                windows,
                result,
            ),
    {
        if let Some(path) = &self.bridge_path {
            return Ok(path.clone());
        }
        if let Some(name) = environment {
            if !name.is_empty() {
                return Ok(path_from(name));
            }
        }
        let name = bridge_executable(windows);
        if let Some(current) = current {
            if let Some(path) = bridge_next_to(current, name.as_str(), bundled) {
                return Ok(path);
            }
        }
        if let Some(directory) = find_marked(directories) {
            return Ok(bridge_in(directory, name.as_str()));
        }
        let mut hint = "set ".to_owned();
        hint.append(BRIDGE_PATH_ENV);
        hint.append(", pass builder().bridge_path(...), or put `");
        hint.append(name.as_str());
        hint.append("` on PATH");
        Err(Error::BridgeNotFound(hint))
    }
}

/// The path of the bridge: the explicit one, or else the one in the environment
/// that is not empty, or else the one beside the running executable, or else the
/// one in a directory of the search; and without any, an error that tells where it
/// may stand.
pub open spec fn resolved(
    explicit: Option<PathBuf>,
    environment: Option<Seq<char>>,
    bundled: Option<PathBuf>,
    directory: Option<PathBuf>,
    windows: bool,
    result: Result<PathBuf>,
) -> bool {
    match (explicit, environment, bundled, directory) {
        (Some(path), _, _, _) => result == Ok::<PathBuf, Error>(path),
        (None, Some(name), _, _) if name.len() > 0 => result == Ok::<PathBuf, Error>(
            path_of(name),
        ),
        (None, _, Some(path), _) => result == Ok::<PathBuf, Error>(path),
        (None, _, None, Some(directory)) => result == Ok::<PathBuf, Error>(
            path_in(directory, executable_name(windows)),
        ),
        (None, _, None, None) => result matches Err(Error::BridgeNotFound(hint)) && hint@
            == "set "@ + BRIDGE_PATH_ENV@ + ", pass builder().bridge_path(...), or put `"@
            + executable_name(windows) + "` on PATH"@,
    }
}

/// The bridge beside the running executable goes before the search, and a path
/// that was set goes before it.
pub proof fn law_bundled_bridge_is_found(
    explicit: Option<PathBuf>,
    environment: Option<Seq<char>>,
    current: PathBuf,
    directory: Option<PathBuf>,
    windows: bool,
    result: Result<PathBuf>,
)
    requires
        resolved(
            explicit,
            environment,
            beside(current, executable_name(windows)),
            directory,
            windows,
            result,
        ),
        parent_of(current) is Some,
    ensures
        explicit is None && (environment is None || environment->0.len() == 0) ==> result == Ok::<
            PathBuf,
            Error,
        >(path_in(parent_of(current)->0, executable_name(windows))),
        explicit matches Some(path) ==> result == Ok::<PathBuf, Error>(path),
{
}

/// A pipe name is valid exactly if it has 1 to 128 characters, starts with an ASCII letter
/// or digit, and holds only those, `-`, `_` and `.`.
pub proof fn law_valid_pipe_names(name: Seq<char>)
    ensures
        pipe_name_fault(name) is None <==> {
            &&& 1 <= name.len() <= 128
            &&& name[0] != '-' && name[0] != '_' && name[0] != '.'
            &&& forall|i: int|
                0 <= i < name.len() ==> {
                    ||| 'a' <= (#[trigger] name[i]) <= 'z'
                    ||| 'A' <= name[i] <= 'Z'
                    ||| '0' <= name[i] <= '9'
                    ||| name[i] == '-'
                    ||| name[i] == '_'
                    ||| name[i] == '.'
                }
        },
{
    if forall|i: int| 0 <= i < name.len() ==> is_pipe_char(#[trigger] name[i]) {
        lemma_pipe_name_bytes(name);
        if name.len() > 0 {
            assert(is_pipe_char(name[0]));
        }
    }
}

/// An explicit pipe name goes before the environment, and an empty one in the environment
/// counts as none.
pub proof fn law_explicit_pipe_name_goes_first(name: Seq<char>, environment: Option<Seq<char>>)
    ensures
        chosen_pipe_name(Some(name), environment) == Some(name),
        name.len() > 0 ==> chosen_pipe_name(None, Some(name)) == Some(name),
        chosen_pipe_name(None, Some(Seq::empty())) is None,
        chosen_pipe_name(None, None) is None,
{
}

/// The path of the bridge is the first that there is: the explicit one, then the one in the
/// environment, then the one beside the running executable, then the one of the search.
pub proof fn law_lookup_order(
    explicit: PathBuf,
    name: Seq<char>,
    bundled: PathBuf,
    directory: PathBuf,
    windows: bool,
    environment: Option<Seq<char>>,
    beside: Option<PathBuf>,
    search: Option<PathBuf>,
    result: Result<PathBuf>,
)
    ensures
        resolved(Some(explicit), environment, beside, search, windows, result) ==> result == Ok::<
            PathBuf,
            Error,
        >(explicit),
        name.len() > 0 && resolved(None, Some(name), beside, search, windows, result) ==> result
            == Ok::<PathBuf, Error>(path_of(name)),
        (environment is None || environment->0.len() == 0) ==> {
            &&& resolved(None, environment, Some(bundled), search, windows, result) ==> result
                == Ok::<PathBuf, Error>(bundled)
            &&& resolved(None, environment, None, Some(directory), true, result) ==> result == Ok::<
                PathBuf,
                Error,
            >(path_in(directory, "hidmaestro-bridge.exe"@))
            &&& resolved(None, environment, None, Some(directory), false, result) ==> result
                == Ok::<PathBuf, Error>(path_in(directory, "hidmaestro-bridge"@))
            &&& resolved(None, environment, None, None, windows, result) ==> result matches Err(
                Error::BridgeNotFound(_),
            )
        },
{
    reveal_strlit("hidmaestro-bridge");
    reveal_strlit(".exe");
    reveal_strlit("hidmaestro-bridge.exe");
    assert("hidmaestro-bridge"@ + ".exe"@ =~= "hidmaestro-bridge.exe"@);
}

/// The search ends at the first directory that has the bridge.
pub proof fn law_first_directory_counts(directories: Seq<(PathBuf, bool)>, at: int)
    requires
        0 <= at <= directories.len(),
        forall|k: int| 0 <= k < at ==> !(#[trigger] directories[k]).1,
        at < directories.len() ==> directories[at].1,
    ensures
        first_marked(directories) == (if at < directories.len() {
            Some(directories[at].0)
        } else {
            None
        }),
    decreases directories.len(),
{
    if at > 0 {
        assert(!directories[0].1);
        let rest = directories.skip(1);
        assert forall|k: int| 0 <= k < at - 1 implies !(#[trigger] rest[k]).1 by {
            assert(rest[k] == directories[k + 1]);
        }
        if at < directories.len() {
            assert(rest[at - 1] == directories[at]);
        }
        law_first_directory_counts(rest, at - 1);
    }
}

} // verus!
