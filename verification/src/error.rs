//! Errors of a bridge session.

use vstd::prelude::*;

verus! {

broadcast use vstd::string::group_string_axioms;

/// Why a request to the bridge failed. Where the cause lies outside, its text is
/// kept.
#[derive(Debug, PartialEq, Eq)]
pub enum Error {
    BridgeNotFound(String),
    Spawn { program: String, source: String },
    InvalidPipeName { name: String, reason: &'static str },
    PipeUnsupported,
    PipeConnect { name: String, source: String },
    Io(String),
    Protocol(String),
    Remote(String),
    BridgeExited(String),
    UnknownButton(String),
    UnknownAxis(String),
    UnknownHat(String),
    NoSuchController(String),
    Timeout,
}

/// What a session operation gives.
pub type Result<T> = std::result::Result<T, Error>;

impl Error {
    /// The error in words.
    pub open spec fn text(self) -> Seq<char> {
        match self {
            Error::BridgeNotFound(hint) => "bridge executable not found: "@ + hint@,
            Error::Spawn { program, source } => "failed to spawn bridge process `"@ + program@
                + "`: "@ + source@,
            Error::InvalidPipeName { name, reason } => "invalid HIDMaestro pipe name `"@ + name@
                + "`: "@ + reason@,
            Error::PipeUnsupported =>
                "named-pipe bridge mode is only supported on Windows; remove HIDMAESTRO_PIPE_NAME or use stdio bridge spawning"@,
            Error::PipeConnect { name, source } => "failed to connect to HIDMaestro named pipe `"@
                + name@ + "`: "@ + source@,
            Error::Io(source) => "bridge I/O error: "@ + source@,
            Error::Protocol(source) => "bridge returned malformed JSON: "@ + source@,
            Error::Remote(message) => "bridge error: "@ + message@,
            Error::BridgeExited(status) => "bridge exited unexpectedly"@ + status@,
            Error::UnknownButton(name) => "unknown button name: "@ + name@,
            Error::UnknownAxis(name) => "unknown axis name: "@ + name@,
            Error::UnknownHat(name) => "unknown hat direction: "@ + name@,
            Error::NoSuchController(key) => "no such controller: "@ + key@,
            Error::Timeout => "timeout waiting for bridge response"@,
        }
    }

    /// The error in words.
    pub fn message(&self) -> (message: String)
        ensures
            message@ == self.text(),
    {
        let mut message = String::new();
        match self {
            Error::BridgeNotFound(hint) => {
                message.append("bridge executable not found: ");
                message.append(hint.as_str());
            },
            Error::Spawn { program, source } => {
                message.append("failed to spawn bridge process `");
                message.append(program.as_str());
                message.append("`: ");
                message.append(source.as_str());
            },
            Error::InvalidPipeName { name, reason } => {
                message.append("invalid HIDMaestro pipe name `");
                message.append(name.as_str());
                message.append("`: ");
                message.append(reason);
            },
            Error::PipeUnsupported => {
                message.append(
                    "named-pipe bridge mode is only supported on Windows; remove HIDMAESTRO_PIPE_NAME or use stdio bridge spawning",
                );
            },
            Error::PipeConnect { name, source } => {
                message.append("failed to connect to HIDMaestro named pipe `");
                message.append(name.as_str());
                message.append("`: ");
                message.append(source.as_str());
            },
            Error::Io(source) => {
                message.append("bridge I/O error: ");
                message.append(source.as_str());
            },
            Error::Protocol(source) => {
                message.append("bridge returned malformed JSON: ");
                message.append(source.as_str());
            },
            Error::Remote(text) => {
                message.append("bridge error: ");
                message.append(text.as_str());
            },
            Error::BridgeExited(status) => {
                message.append("bridge exited unexpectedly");
                message.append(status.as_str());
            },
            Error::UnknownButton(name) => {
                message.append("unknown button name: ");
                message.append(name.as_str());
            },
            Error::UnknownAxis(name) => {
                message.append("unknown axis name: ");
                message.append(name.as_str());
            },
            Error::UnknownHat(name) => {
                message.append("unknown hat direction: ");
                message.append(name.as_str());
            },
            Error::NoSuchController(key) => {
                message.append("no such controller: ");
                message.append(key.as_str());
            },
            Error::Timeout => {
                message.append("timeout waiting for bridge response");
            },
        }
        assert(message@ =~= self.text());
        message
    }
}

/// The error for a failed write to the bridge: a broken pipe means that the
/// bridge has exited.
pub fn bridge_write_error(broken_pipe: bool, source: String) -> (error: Error)
    ensures
        broken_pipe ==> (error matches Error::BridgeExited(status) && status@ == ""@),
        !broken_pipe ==> error == Error::Io(source),
{
    if broken_pipe {
        let status = String::new();
        proof {
            reveal_strlit("");
            assert(status@ =~= ""@);
        }
        Error::BridgeExited(status)
    } else {
        Error::Io(source)
    }
}

} // verus!
