//! What a call of a tool asks for.

use vstd::prelude::*;

use crate::gamepad;
use crate::gamepad::{GamepadView, StandardAxes, StateEdit};
use crate::json;
use crate::json::{Json, JsonView};
use crate::patch;
use crate::patch::{Patch, PatchView};
use crate::single;
use crate::single::Single;
use crate::state;
use crate::state::Buttons;
use crate::text;
use crate::tools;
use crate::tools::Tool;

verus! {

broadcast use {
    vstd::string::group_string_axioms,
    crate::state::lemma_buttons_of,
    crate::state::lemma_mask_of,
};

/// The most actions in a sequence.
pub const MAX_ACTIONS: usize = 64;

/// The longest time that a sequence of actions may take, in milliseconds.
pub const MAX_ACTION_MS: u64 = 60_000;

/// One step of an input.
#[derive(Clone, Copy, Debug, PartialEq)]
pub enum Step {
    /// Change the mirrored state and submit it.
    Edit(StateEdit),
    /// Wait for this many milliseconds.
    Sleep(u64),
}

/// What is to be done with a bridge that is connected. `T` holds text, `S` steps,
/// `P` a patch.
#[derive(Debug, PartialEq)]
pub enum Task<T, S, P> {
    Start,
    Status,
    InstallDriver,
    InstallUsbipBackend,
    LoadProfiles { dir: Option<T> },
    ListProfiles { filter: Option<T> },
    CreateController { profile_id: T, index: Option<usize> },
    ListControllers,
    RemoveController { key: T },
    RemoveAllControllers,
    /// Run steps on a controller, and say a message at the end.
    Input { key: T, steps: S, message: T },
    Apply { key: T, patch: P },
    GetState { key: T },
    DrainOutputEvents,
}

/// What a tool was asked to do. `T` holds text, `J` a document, `K` a task.
#[derive(Debug, PartialEq)]
pub enum Command<T, J, K> {
    /// Stop the bridge.
    Shutdown,
    /// Read a document as a patch, and apply it.
    SetState { key: T, patch: J },
    /// Do this with the bridge.
    Run(K),
}

/// A task as it is run.
pub type BridgeTask = Task<String, Vec<Step>, Patch>;

/// A task as a mathematical value.
pub type TaskView = Task<Seq<char>, Seq<Step>, PatchView>;

/// A command as it is run.
pub type ToolCommand = Command<String, Json, BridgeTask>;

/// A command as a mathematical value.
pub type CommandView = Command<Seq<char>, JsonView, TaskView>;

impl Task<String, Vec<Step>, Patch> {
    /// The task as a mathematical value.
    pub open spec fn view(self) -> TaskView {
        match self {
            Task::Start => Task::Start,
            Task::Status => Task::Status,
            Task::InstallDriver => Task::InstallDriver,
            Task::InstallUsbipBackend => Task::InstallUsbipBackend,
            Task::LoadProfiles { dir } => Task::LoadProfiles {
                dir: match dir {
                    Some(dir) => Some(dir@),
                    None => None,
                },
            },
            Task::ListProfiles { filter } => Task::ListProfiles {
                filter: match filter {
                    Some(filter) => Some(filter@),
                    None => None,
                },
            },
            Task::CreateController { profile_id, index } => Task::CreateController {
                profile_id: profile_id@,
                index,
            },
            Task::ListControllers => Task::ListControllers,
            Task::RemoveController { key } => Task::RemoveController { key: key@ },
            Task::RemoveAllControllers => Task::RemoveAllControllers,
            Task::Input { key, steps, message } => Task::Input {
                key: key@,
                steps: steps@,
                message: message@,
            },
            Task::Apply { key, patch } => Task::Apply { key: key@, patch: patch@ },
            Task::GetState { key } => Task::GetState { key: key@ },
            Task::DrainOutputEvents => Task::DrainOutputEvents,
        }
    }
}

impl Command<String, Json, BridgeTask> {
    /// The command as a mathematical value.
    pub open spec fn view(self) -> CommandView {
        match self {
            Command::Shutdown => Command::Shutdown,
            Command::SetState { key, patch } => Command::SetState {
                key: key@,
                patch: patch.view(),
            },
            Command::Run(task) => Command::Run(task@),
        }
    }
}

/// The command, or the error in words, is the expected one.
pub open spec fn gives_command(
    result: Result<ToolCommand, String>,
    expected: Result<CommandView, Seq<char>>,
) -> bool {
    match (result, expected) {
        (Ok(command), Ok(view)) => command@ == view,
        (Err(message), Err(words)) => message@ == words,
        _ => false,
    }
}

/// What is said when an argument is missing.
pub open spec fn missing(name: Seq<char>) -> Seq<char> {
    patch::quoted("missing"@, name)
}

/// The text under a name among the arguments.
pub open spec fn text_argument(arguments: JsonView, name: Seq<char>) -> Result<
    Seq<char>,
    Seq<char>,
> {
    match json::text_in(json::member(arguments, name)) {
        Some(s) => Ok(s),
        None => Err(missing(name)),
    }
}

/// The buttons among the arguments.
pub open spec fn buttons_argument(arguments: JsonView) -> Result<u32, Seq<char>> {
    match json::member(arguments, "buttons"@) {
        Some(value) => patch::buttons_in(value),
        None => Err(missing("buttons"@)),
    }
}

/// The number under a name among the arguments, in single precision.
pub open spec fn single_argument(arguments: JsonView, name: Seq<char>) -> Option<Single> {
    match json::double_in(json::member(arguments, name)) {
        Some(bits) => Some(single::narrowed(bits)),
        None => None,
    }
}

fn find_text<'a>(arguments: &'a Json, name: &str) -> (result: Option<&'a str>)
    ensures
        match (result, json::text_in(json::member(arguments.view(), name@))) {
            (Some(s), Some(t)) => s@ == t,
            (None, None) => true,
            _ => false,
        },
{
    match arguments.get(name) {
        Some(value) => value.as_str(),
        None => None,
    }
}

fn need_text<'a>(arguments: &'a Json, name: &str) -> (result: Result<&'a str, String>)
    ensures
        match (result, text_argument(arguments.view(), name@)) {
            (Ok(s), Ok(t)) => s@ == t,
            (Err(message), Err(words)) => message@ == words,
            _ => false,
        },
{
    match find_text(arguments, name) {
        Some(s) => Ok(s),
        None => Err(patch::quote("missing", name)),
    }
}

fn need_buttons(arguments: &Json) -> (result: Result<Buttons, String>)
    ensures
        patch::gives_buttons(result, buttons_argument(arguments.view())),
{
    match arguments.get("buttons") {
        Some(value) => patch::parse_buttons(value),
        None => Err(patch::quote("missing", "buttons")),
    }
}

fn find_unsigned(arguments: &Json, name: &str) -> (n: Option<u64>)
    ensures
        n == json::unsigned_in(json::member(arguments.view(), name@)),
{
    match arguments.get(name) {
        Some(value) => value.as_u64(),
        None => None,
    }
}

fn find_single(arguments: &Json, name: &str) -> (value: Option<Single>)
    ensures
        value == single_argument(arguments.view(), name@),
{
    match arguments.get(name) {
        Some(value) => match value.as_double_bits() {
            Some(bits) => Some(Single::from_double_bits(bits)),
            None => None,
        },
        None => None,
    }
}

/// The steps that press buttons, wait, and release them.
pub open spec fn timed_press(mask: u32, hold_ms: u64) -> Seq<Step> {
    seq![
        Step::Edit(StateEdit::Press(Buttons::of(mask))),
        Step::Sleep(hold_ms),
        Step::Edit(StateEdit::Release(Buttons::of(mask))),
    ]
}

/// The names of buttons with a separator between them.
pub open spec fn button_text(mask: u32, separator: Seq<char>) -> Seq<char> {
    text::joined(state::button_names(mask, 18), separator)
}

/// Input on a controller.
pub open spec fn input(key: Seq<char>, steps: Seq<Step>, message: Seq<char>) -> CommandView {
    Command::Run(Task::Input { key, steps, message })
}

/// The input of a tool that takes buttons and, it may be, a time.
pub open spec fn button_input(
    tool: Tool,
    key: Seq<char>,
    mask: u32,
    hold_ms: Option<u64>,
) -> Result<CommandView, Seq<char>> {
    let buttons = Buttons::of(mask);
    match (tool, hold_ms) {
        (Tool::ReleaseButtons, _) => Ok(
            input(
                key,
                seq![Step::Edit(StateEdit::Release(buttons))],
                "released "@ + button_text(mask, "+"@) + " on '"@ + key + "'"@,
            ),
        ),
        (Tool::SetButtons, _) => Ok(
            input(
                key,
                seq![Step::Edit(StateEdit::SetButtons(buttons))],
                "'"@ + key + "' buttons = ["@ + button_text(mask, ", "@) + "]"@,
            ),
        ),
        (Tool::HoldButtons, Some(hold)) => Ok(
            input(
                key,
                timed_press(mask, hold),
                "held "@ + button_text(mask, "+"@) + " on '"@ + key + "' ("@ + text::decimal(
                    hold as nat,
                ) + " ms)"@,
            ),
        ),
        (Tool::HoldButtons, None) | (Tool::TapButtons, None) => Err(missing("hold_ms"@)),
        (_, Some(hold)) => Ok(
            input(
                key,
                timed_press(mask, hold),
                "tapped "@ + button_text(mask, "+"@) + " on '"@ + key + "' ("@ + text::decimal(
                    hold as nat,
                ) + " ms)"@,
            ),
        ),
        (_, None) => Ok(
            input(
                key,
                seq![Step::Edit(StateEdit::Press(buttons))],
                "holding "@ + button_text(mask, "+"@) + " on '"@ + key + "'"@,
            ),
        ),
    }
}

/// The command of a tool that takes buttons.
pub open spec fn button_command(tool: Tool, arguments: JsonView) -> Result<CommandView, Seq<char>> {
    match text_argument(arguments, "controller"@) {
        Err(message) => Err(message),
        Ok(key) => match buttons_argument(arguments) {
            Err(message) => Err(message),
            Ok(mask) => button_input(
                tool,
                key,
                mask,
                json::unsigned_in(json::member(arguments, "hold_ms"@)),
            ),
        },
    }
}

/// The steps of the first `count` actions, and the milliseconds they take.
pub open spec fn action_steps(actions: Seq<JsonView>, count: nat) -> Result<
    (Seq<Step>, nat),
    Seq<char>,
>
    decreases count,
{
    if count == 0 {
        Ok((Seq::empty(), 0))
    } else {
        let action = actions[count - 1];
        match action_steps(actions, (count - 1) as nat) {
            Err(message) => Err(message),
            Ok((steps, time)) => match buttons_argument(action) {
                Err(message) => Err(message),
                Ok(mask) => match json::unsigned_in(json::member(action, "hold_ms"@)) {
                    Some(hold) => Ok((steps + timed_press(mask, hold), time + hold as nat)),
                    None => Err(missing("hold_ms"@)),
                },
            },
        }
    }
}

/// The command that runs a sequence of actions.
pub open spec fn sequence_command(arguments: JsonView) -> Result<CommandView, Seq<char>> {
    match text_argument(arguments, "controller"@) {
        Err(message) => Err(message),
        Ok(key) => match json::member(arguments, "actions"@) {
            None => Err(missing("actions"@)),
            Some(JsonView::Array(actions)) => if actions.len() == 0 || actions.len()
                > MAX_ACTIONS {
                Err("actions must hold 1 to 64 actions"@)
            } else {
                match action_steps(actions, actions.len()) {
                    Err(message) => Err(message),
                    Ok((steps, time)) => if time > MAX_ACTION_MS {
                        Err("actions must take at most 60000 ms"@)
                    } else {
                        Ok(
                            input(
                                key,
                                steps,
                                "ran "@ + text::decimal(actions.len()) + " actions on '"@ + key
                                    + "'"@,
                            ),
                        )
                    },
                }
            },
            Some(_) => Err("actions must be an array"@),
        },
    }
}

/// The command that sets an axis.
pub open spec fn axis_command(arguments: JsonView) -> Result<CommandView, Seq<char>> {
    match text_argument(arguments, "controller"@) {
        Err(message) => Err(message),
        Ok(key) => match text_argument(arguments, "axis"@) {
            Err(message) => Err(message),
            Ok(name) => match single_argument(arguments, "value"@) {
                None => Err(missing("value"@)),
                Some(value) => match patch::one_axis(name) {
                    Err(message) => Err(message),
                    Ok(axis) => Ok(
                        input(
                            key,
                            seq![Step::Edit(StateEdit::SetAxis(axis, value))],
                            "'"@ + key + "' axis "@ + name + " = "@ + single::fixed3(value),
                        ),
                    ),
                },
            },
        },
    }
}

/// The axes among the arguments.
pub open spec fn stick_arguments(arguments: JsonView) -> StandardAxes {
    StandardAxes {
        left_stick_x: single_argument(arguments, "left_x"@),
        left_stick_y: single_argument(arguments, "left_y"@),
        right_stick_x: single_argument(arguments, "right_x"@),
        right_stick_y: single_argument(arguments, "right_y"@),
        left_trigger: single_argument(arguments, "left_trigger"@),
        right_trigger: single_argument(arguments, "right_trigger"@),
    }
}

/// The command that sets the d-pad.
pub open spec fn dpad_command(arguments: JsonView) -> Result<CommandView, Seq<char>> {
    match text_argument(arguments, "controller"@) {
        Err(message) => Err(message),
        Ok(key) => match text_argument(arguments, "direction"@) {
            Err(message) => Err(message),
            Ok(name) => match patch::one_direction(name) {
                Err(message) => Err(message),
                Ok(hat) => Ok(
                    input(
                        key,
                        seq![Step::Edit(StateEdit::SetHat(hat))],
                        "'"@ + key + "' d-pad = "@ + name,
                    ),
                ),
            },
        },
    }
}

/// The command of a tool that takes a controller and nothing that can be wrong.
pub open spec fn controller_command(
    tool: Tool,
    key: Seq<char>,
    arguments: JsonView,
) -> CommandView {
    match tool {
        Tool::RemoveController => Command::Run(Task::RemoveController { key }),
        Tool::SetSticks => input(
            key,
            seq![Step::Edit(StateEdit::MoveSticks(stick_arguments(arguments)))],
            "'"@ + key + "' sticks/triggers updated"@,
        ),
        Tool::SetState => Command::SetState {
            key,
            patch: match json::member(arguments, "state"@) {
                Some(patch) => patch,
                None => JsonView::Object(Map::empty()),
            },
        },
        Tool::ResetController => input(
            key,
            seq![Step::Edit(StateEdit::Reset)],
            "'"@ + key + "' reset to neutral"@,
        ),
        _ => Command::Run(Task::GetState { key }),
    }
}

/// The command of a call, or what is wrong with its arguments.
pub open spec fn tool_command(tool: Tool, arguments: JsonView) -> Result<CommandView, Seq<char>> {
    match tool {
        Tool::Start => Ok(Command::Run(Task::Start)),
        Tool::Status => Ok(Command::Run(Task::Status)),
        Tool::InstallDriver => Ok(Command::Run(Task::InstallDriver)),
        Tool::InstallUsbipBackend => Ok(Command::Run(Task::InstallUsbipBackend)),
        Tool::LoadProfiles => Ok(
            Command::Run(Task::LoadProfiles { dir: json::text_in(json::member(arguments, "dir"@)) }),
        ),
        Tool::Shutdown => Ok(Command::Shutdown),
        Tool::ListProfiles => Ok(
            Command::Run(Task::ListProfiles { filter: json::text_in(json::member(arguments, "filter"@)) }),
        ),
        Tool::CreateController => match text_argument(arguments, "profile_id"@) {
            Err(message) => Err(message),
            Ok(profile_id) => Ok(
                Command::Run(Task::CreateController {
                    profile_id,
                    index: match json::unsigned_in(json::member(arguments, "index"@)) {
                        Some(index) => Some(index as usize),
                        None => None,
                    },
                }),
            ),
        },
        Tool::ListControllers => Ok(Command::Run(Task::ListControllers)),
        Tool::RemoveAllControllers => Ok(Command::Run(Task::RemoveAllControllers)),
        Tool::PressButtons
        | Tool::ReleaseButtons
        | Tool::SetButtons
        | Tool::TapButtons
        | Tool::HoldButtons => button_command(tool, arguments),
        Tool::RunActionSequence => sequence_command(arguments),
        Tool::SetAxis => axis_command(arguments),
        Tool::SetDpad => dpad_command(arguments),
        Tool::RemoveController
        | Tool::SetSticks
        | Tool::SetState
        | Tool::GetState
        | Tool::ResetController => match text_argument(arguments, "controller"@) {
            Err(message) => Err(message),
            Ok(key) => Ok(controller_command(tool, key, arguments)),
        },
        Tool::DrainOutputEvents => Ok(Command::Run(Task::DrainOutputEvents)),
    }
}

/// The command of a call by name, or what is wrong with the call.
pub open spec fn named_command(name: Seq<char>, arguments: JsonView) -> Result<
    CommandView,
    Seq<char>,
> {
    match tools::tool_named(name) {
        Some(tool) => tool_command(tool, arguments),
        None => Err(patch::quoted("unknown tool"@, name)),
    }
}

fn press_for(buttons: Buttons, hold_ms: u64) -> (steps: Vec<Step>)
    ensures
        steps@ == timed_press(buttons.mask(), hold_ms),
{
    let steps: Vec<Step> = vec![
        Step::Edit(StateEdit::Press(buttons)),
        Step::Sleep(hold_ms),
        Step::Edit(StateEdit::Release(buttons)),
    ];
    assert(steps@ =~= timed_press(buttons.mask(), hold_ms));
    steps
}

fn one_step(edit: StateEdit) -> (steps: Vec<Step>)
    ensures
        steps@ == seq![Step::Edit(edit)],
{
    let steps: Vec<Step> = vec![Step::Edit(edit)];
    assert(steps@ =~= seq![Step::Edit(edit)]);
    steps
}

/// `verb`, the buttons, and the controller.
fn button_message(verb: &str, buttons: Buttons, key: &str) -> (message: String)
    ensures
        message@ == verb@ + button_text(buttons.mask(), "+"@) + " on '"@ + key@ + "'"@,
{
    let mut message = verb.to_owned();
    message.append(text::join(&buttons.names(), "+").as_str());
    message.append(" on '");
    message.append(key);
    message.append("'");
    message
}

/// The same, and the time.
fn timed_message(verb: &str, buttons: Buttons, key: &str, hold_ms: u64) -> (message: String)
    ensures
        message@ == verb@ + button_text(buttons.mask(), "+"@) + " on '"@ + key@ + "' ("@
            + text::decimal(hold_ms as nat) + " ms)"@,
{
    let mut message = verb.to_owned();
    message.append(text::join(&buttons.names(), "+").as_str());
    message.append(" on '");
    message.append(key);
    message.append("' (");
    text::push_decimal(&mut message, hold_ms as u128);
    message.append(" ms)");
    message
}

fn decode_buttons(tool: Tool, arguments: &Json) -> (result: Result<ToolCommand, String>)
    ensures
        gives_command(result, button_command(tool, arguments.view())),
{
    let key = match need_text(arguments, "controller") {
        Ok(key) => key,
        Err(message) => {
            return Err(message);
        },
    };
    let buttons = match need_buttons(arguments) {
        Ok(buttons) => buttons,
        Err(message) => {
            return Err(message);
        },
    };
    let hold_ms = find_unsigned(arguments, "hold_ms");
    match (tool, hold_ms) {
        (Tool::ReleaseButtons, _) => Ok(
            Command::Run(Task::Input {
                key: key.to_owned(),
                steps: one_step(StateEdit::Release(buttons)),
                message: button_message("released ", buttons, key),
            }),
        ),
        (Tool::SetButtons, _) => {
            let mut message = "'".to_owned();
            message.append(key);
            message.append("' buttons = [");
            message.append(text::join(&buttons.names(), ", ").as_str());
            message.append("]");
            Ok(
                Command::Run(Task::Input {
                    key: key.to_owned(),
                    steps: one_step(StateEdit::SetButtons(buttons)),
                    message,
                }),
            )
        },
        (Tool::HoldButtons, Some(hold)) => Ok(
            Command::Run(Task::Input {
                key: key.to_owned(),
                steps: press_for(buttons, hold),
                message: timed_message("held ", buttons, key, hold),
            }),
        ),
        (Tool::HoldButtons, None) | (Tool::TapButtons, None) => Err(
            patch::quote("missing", "hold_ms"),
        ),
        (_, Some(hold)) => Ok(
            Command::Run(Task::Input {
                key: key.to_owned(),
                steps: press_for(buttons, hold),
                message: timed_message("tapped ", buttons, key, hold),
            }),
        ),
        (_, None) => Ok(
            Command::Run(Task::Input {
                key: key.to_owned(),
                steps: one_step(StateEdit::Press(buttons)),
                message: button_message("holding ", buttons, key),
            }),
        ),
    }
}

proof fn lemma_action_error(actions: Seq<JsonView>, at: nat, count: nat)
    requires
        at <= count,
        action_steps(actions, at) is Err,
    ensures
        action_steps(actions, count) == action_steps(actions, at),
    decreases count,
{
    if at < count {
        lemma_action_error(actions, at, (count - 1) as nat);
    }
}

/// The steps of a list of actions, and the milliseconds they take.
fn decode_actions(list: &Vec<Json>) -> (result: Result<(Vec<Step>, u128), String>)
    requires
        list@.len() <= MAX_ACTIONS,
    ensures
        match (result, action_steps(json::items(list@), list@.len())) {
            (Ok((steps, time)), Ok((expected, total))) => steps@ == expected && time == total,
            (Err(message), Err(words)) => message@ == words,
            _ => false,
        },
{
    let ghost actions = json::items(list@);
    let mut steps: Vec<Step> = Vec::new();
    let mut time: u128 = 0;
    for i in 0..list.len()
        invariant
            actions == json::items(list@),
            list@.len() <= MAX_ACTIONS,
            time <= i * u64::MAX,
            action_steps(actions, i as nat) == Ok::<(Seq<Step>, nat), Seq<char>>(
                (steps@, time as nat),
            ),
    {
        proof {
            json::lemma_items(list@);
            assert(actions[i as int] == list@[i as int].view());
        }
        let buttons = match need_buttons(&list[i]) {
            Ok(buttons) => buttons,
            Err(message) => {
                proof {
                    lemma_action_error(actions, (i + 1) as nat, list@.len());
                }
                return Err(message);
            },
        };
        let hold: u64 = match find_unsigned(&list[i], "hold_ms") {
            Some(hold) => hold,
            None => {
                proof {
                    lemma_action_error(actions, (i + 1) as nat, list@.len());
                }
                return Err(patch::quote("missing", "hold_ms"));
            },
        };
        let mut more = press_for(buttons, hold);
        let ghost before = steps@;
        steps.append(&mut more);
        assert(steps@ =~= before + timed_press(buttons.mask(), hold));
        time = time + hold as u128;
    }
    Ok((steps, time))
}

fn decode_sequence(arguments: &Json) -> (result: Result<ToolCommand, String>)
    ensures
        gives_command(result, sequence_command(arguments.view())),
{
    let key = match need_text(arguments, "controller") {
        Ok(key) => key,
        Err(message) => {
            return Err(message);
        },
    };
    match arguments.get("actions") {
        None => Err(patch::quote("missing", "actions")),
        Some(Json::Array(list)) => {
            proof {
                json::lemma_items(list@);
            }
            if list.len() == 0 || list.len() > MAX_ACTIONS {
                return Err("actions must hold 1 to 64 actions".to_owned());
            }
            match decode_actions(list) {
                Err(message) => Err(message),
                Ok((steps, time)) => {
                    if time > MAX_ACTION_MS as u128 {
                        return Err("actions must take at most 60000 ms".to_owned());
                    }
                    let mut message = "ran ".to_owned();
                    text::push_decimal(&mut message, list.len() as u128);
                    message.append(" actions on '");
                    message.append(key);
                    message.append("'");
                    Ok(Command::Run(Task::Input { key: key.to_owned(), steps, message }))
                },
            }
        },
        Some(_) => Err("actions must be an array".to_owned()),
    }
}

fn decode_axis(arguments: &Json) -> (result: Result<ToolCommand, String>)
    ensures
        gives_command(result, axis_command(arguments.view())),
{
    let key = match need_text(arguments, "controller") {
        Ok(key) => key,
        Err(message) => {
            return Err(message);
        },
    };
    let name = match need_text(arguments, "axis") {
        Ok(name) => name,
        Err(message) => {
            return Err(message);
        },
    };
    let value = match find_single(arguments, "value") {
        Some(value) => value,
        None => {
            return Err(patch::quote("missing", "value"));
        },
    };
    match patch::parse_axis(name) {
        Err(message) => Err(message),
        Ok(axis) => {
            let mut message = "'".to_owned();
            message.append(key);
            message.append("' axis ");
            message.append(name);
            message.append(" = ");
            message.append(value.to_fixed3().as_str());
            Ok(
                Command::Run(Task::Input {
                    key: key.to_owned(),
                    steps: one_step(StateEdit::SetAxis(axis, value)),
                    message,
                }),
            )
        },
    }
}

fn decode_dpad(arguments: &Json) -> (result: Result<ToolCommand, String>)
    ensures
        gives_command(result, dpad_command(arguments.view())),
{
    let key = match need_text(arguments, "controller") {
        Ok(key) => key,
        Err(message) => {
            return Err(message);
        },
    };
    let name = match need_text(arguments, "direction") {
        Ok(name) => name,
        Err(message) => {
            return Err(message);
        },
    };
    match patch::parse_direction(name) {
        Err(message) => Err(message),
        Ok(hat) => {
            let mut message = "'".to_owned();
            message.append(key);
            message.append("' d-pad = ");
            message.append(name);
            Ok(
                Command::Run(Task::Input {
                    key: key.to_owned(),
                    steps: one_step(StateEdit::SetHat(hat)),
                    message,
                }),
            )
        },
    }
}

fn decode_for_controller(tool: Tool, key: &str, arguments: &Json) -> (command: ToolCommand)
    ensures
        command@ == controller_command(tool, key@, arguments.view()),
{
    match tool {
        Tool::RemoveController => Command::Run(Task::RemoveController { key: key.to_owned() }),
        Tool::SetSticks => {
            let change = StandardAxes {
                left_stick_x: find_single(arguments, "left_x"),
                left_stick_y: find_single(arguments, "left_y"),
                right_stick_x: find_single(arguments, "right_x"),
                right_stick_y: find_single(arguments, "right_y"),
                left_trigger: find_single(arguments, "left_trigger"),
                right_trigger: find_single(arguments, "right_trigger"),
            };
            let mut message = "'".to_owned();
            message.append(key);
            message.append("' sticks/triggers updated");
            Command::Run(Task::Input {
                key: key.to_owned(),
                steps: one_step(StateEdit::MoveSticks(change)),
                message,
            })
        },
        Tool::SetState => {
            let patch = match arguments.get("state") {
                Some(patch) => patch.clone(),
                None => Json::Object(Vec::new()),
            };
            Command::SetState { key: key.to_owned(), patch }
        },
        Tool::ResetController => {
            let mut message = "'".to_owned();
            message.append(key);
            message.append("' reset to neutral");
            Command::Run(
                Task::Input { key: key.to_owned(), steps: one_step(StateEdit::Reset), message },
            )
        },
        _ => Command::Run(Task::GetState { key: key.to_owned() }),
    }
}

/// The command of a call, or what is wrong with its arguments.
pub fn decode_tool(tool: Tool, arguments: &Json) -> (result: Result<ToolCommand, String>)
    ensures
        gives_command(result, tool_command(tool, arguments.view())),
{
    match tool {
        Tool::Start => Ok(Command::Run(Task::Start)),
        Tool::Status => Ok(Command::Run(Task::Status)),
        Tool::InstallDriver => Ok(Command::Run(Task::InstallDriver)),
        Tool::InstallUsbipBackend => Ok(Command::Run(Task::InstallUsbipBackend)),
        Tool::LoadProfiles => Ok(
            Command::Run(Task::LoadProfiles {
                dir: match find_text(arguments, "dir") {
                    Some(dir) => Some(dir.to_owned()),
                    None => None,
                },
            }),
        ),
        Tool::Shutdown => Ok(Command::Shutdown),
        Tool::ListProfiles => Ok(
            Command::Run(Task::ListProfiles {
                filter: match find_text(arguments, "filter") {
                    Some(filter) => Some(filter.to_owned()),
                    None => None,
                },
            }),
        ),
        Tool::CreateController => match need_text(arguments, "profile_id") {
            Err(message) => Err(message),
            Ok(profile_id) => Ok(
                Command::Run(Task::CreateController {
                    profile_id: profile_id.to_owned(),
                    index: match find_unsigned(arguments, "index") {
                        Some(index) => Some(
                            #[verifier::truncate]
                            (index as usize),
                        ),
                        None => None,
                    },
                }),
            ),
        },
        Tool::ListControllers => Ok(Command::Run(Task::ListControllers)),
        Tool::RemoveAllControllers => Ok(Command::Run(Task::RemoveAllControllers)),
        Tool::PressButtons
        | Tool::ReleaseButtons
        | Tool::SetButtons
        | Tool::TapButtons
        | Tool::HoldButtons => decode_buttons(tool, arguments),
        Tool::RunActionSequence => decode_sequence(arguments),
        Tool::SetAxis => decode_axis(arguments),
        Tool::SetDpad => decode_dpad(arguments),
        Tool::RemoveController
        | Tool::SetSticks
        | Tool::SetState
        | Tool::GetState
        | Tool::ResetController => match need_text(arguments, "controller") {
            Err(message) => Err(message),
            Ok(key) => Ok(decode_for_controller(tool, key, arguments)),
        },
        Tool::DrainOutputEvents => Ok(Command::Run(Task::DrainOutputEvents)),
    }
}

/// The command of a call by name, or what is wrong with the call.
pub fn decode_call(name: &str, arguments: &Json) -> (result: Result<ToolCommand, String>)
    ensures
        gives_command(result, named_command(name@, arguments.view())),
{
    match Tool::by_name(name) {
        Some(tool) => decode_tool(tool, arguments),
        None => Err(patch::quote("unknown tool", name)),
    }
}

/// The state after the edits among the first `count` steps.
pub open spec fn after_steps(state: GamepadView, steps: Seq<Step>, count: nat) -> GamepadView
    decreases count,
{
    if count == 0 {
        state
    } else {
        let before = after_steps(state, steps, (count - 1) as nat);
        match steps[count - 1] {
            Step::Edit(edit) => gamepad::edited(before, edit),
            Step::Sleep(_) => before,
        }
    }
}

/// The milliseconds that the first `count` steps wait.
pub open spec fn time_of(steps: Seq<Step>, count: nat) -> nat
    decreases count,
{
    if count == 0 {
        0
    } else {
        let before = time_of(steps, (count - 1) as nat);
        match steps[count - 1] {
            Step::Edit(_) => before,
            Step::Sleep(hold) => before + hold as nat,
        }
    }
}

proof fn lemma_steps_prefix(state: GamepadView, steps: Seq<Step>, more: Seq<Step>, count: nat)
    requires
        count <= steps.len(),
    ensures
        after_steps(state, steps + more, count) == after_steps(state, steps, count),
        time_of(steps + more, count) == time_of(steps, count),
    decreases count,
{
    if count > 0 {
        lemma_steps_prefix(state, steps, more, (count - 1) as nat);
        assert((steps + more)[count - 1] == steps[count - 1]);
    }
}

proof fn lemma_timed_press(state: GamepadView, steps: Seq<Step>, mask: u32, hold_ms: u64)
    ensures
        ({
            let all = steps + timed_press(mask, hold_ms);
            let before = after_steps(state, steps, steps.len());
            &&& after_steps(state, all, all.len()) == gamepad::edited(
                before,
                StateEdit::Release(Buttons::of(mask)),
            )
            &&& time_of(all, all.len()) == time_of(steps, steps.len()) + hold_ms
        }),
{
    let n = steps.len();
    let all = steps + timed_press(mask, hold_ms);
    let before = after_steps(state, steps, n);
    let buttons = Buttons::of(mask);
    lemma_steps_prefix(state, steps, timed_press(mask, hold_ms), n);
    assert(all[n as int] == Step::Edit(StateEdit::Press(buttons)));
    assert(all[n as int + 1] == Step::Sleep(hold_ms));
    assert(all[n as int + 2] == Step::Edit(StateEdit::Release(buttons)));
    reveal_with_fuel(after_steps, 4);
    reveal_with_fuel(time_of, 4);
    gamepad::law_press_then_release(before, buttons);
    assert(all.len() == n + 3);
}

/// A timed press leaves the state as a release would have left it, and takes as
/// long as it was asked to.
pub proof fn law_timed_press_releases(state: GamepadView, mask: u32, hold_ms: u64)
    ensures
        after_steps(state, timed_press(mask, hold_ms), 3) == gamepad::edited(
            state,
            StateEdit::Release(Buttons::of(mask)),
        ),
        after_steps(state, timed_press(mask, hold_ms), 3).buttons & mask == 0,
        time_of(timed_press(mask, hold_ms), 3) == hold_ms,
{
    lemma_timed_press(state, Seq::empty(), mask, hold_ms);
    assert(Seq::<Step>::empty() + timed_press(mask, hold_ms) =~= timed_press(mask, hold_ms));
    gamepad::law_press_then_release(state, Buttons::of(mask));
}

proof fn lemma_action_steps(state: GamepadView, actions: Seq<JsonView>, count: nat)
    requires
        action_steps(actions, count) is Ok,
    ensures
        ({
            let (steps, time) = action_steps(actions, count)->Ok_0;
            let after = after_steps(state, steps, steps.len());
            &&& steps.len() == 3 * count
            &&& time_of(steps, steps.len()) == time
            &&& after == GamepadView { buttons: after.buttons, ..state }
            &&& after.buttons & !state.buttons == 0
        }),
    decreases count,
{
    if count == 0 {
        let b = state.buttons;
        assert(b & !b == 0) by (bit_vector);
    } else {
        let action = actions[count - 1];
        let (steps, time) = action_steps(actions, (count - 1) as nat)->Ok_0;
        let mask = buttons_argument(action)->Ok_0;
        let hold = json::unsigned_in(json::member(action, "hold_ms"@))->0;
        lemma_action_steps(state, actions, (count - 1) as nat);
        lemma_timed_press(state, steps, mask, hold);
        let a = after_steps(state, steps, steps.len()).buttons;
        let b = state.buttons;
        assert((a & !mask) & !b == 0) by (bit_vector)
            requires
                a & !b == 0,
        ;
    }
}

/// A sequence of actions takes no longer than it may, holds nothing at its end
/// that was not held before, and changes nothing but buttons.
pub proof fn law_sequence_is_bounded(state: GamepadView, arguments: JsonView)
    requires
        sequence_command(arguments) is Ok,
    ensures
        sequence_command(arguments)->Ok_0 matches Command::Run(Task::Input { steps, .. }) && {
            let after = after_steps(state, steps, steps.len());
            &&& 0 < steps.len() <= 3 * MAX_ACTIONS
            &&& time_of(steps, steps.len()) <= MAX_ACTION_MS
            &&& after == GamepadView { buttons: after.buttons, ..state }
            &&& after.buttons & !state.buttons == 0
        },
{
    let actions = json::member(arguments, "actions"@)->0->Array_0;
    lemma_action_steps(state, actions, actions.len());
}

/// The tool announces that it needs the argument. A state that is left out is an
/// empty patch, so that one can be missed.
pub open spec fn needs(tool: Tool, name: Seq<char>) -> bool {
    &&& exists|i: int|
        0 <= i < tools::tool_arguments(tool).len() && (#[trigger] tools::tool_arguments(
            tool,
        )[i]).name == name && tools::tool_arguments(tool)[i].required
    &&& tool != Tool::SetState || name != "state"@
}

/// Without an argument that the tool needs there is no command; and where that
/// argument is all that is missing, the error names it.
#[verifier::rlimit(50)]
pub proof fn law_missing_argument_is_named(
    tool: Tool,
    members: Map<Seq<char>, JsonView>,
    name: Seq<char>,
    value: JsonView,
)
    requires
        needs(tool, name),
        !members.contains_key(name),
    ensures
        tool_command(tool, JsonView::Object(members)) is Err,
        tool_command(tool, JsonView::Object(members.insert(name, value))) is Ok ==> tool_command(
            tool,
            JsonView::Object(members),
        ) == Err::<CommandView, Seq<char>>(missing(name)),
{
    tools::lemma_argument_names_differ();
    let without = JsonView::Object(members);
    let with = JsonView::Object(members.insert(name, value));
    assert(json::member(without, name) is None);
    assert forall|other: Seq<char>| other != name implies json::member(with, other)
        == #[trigger] json::member(without, other) by {}
    let arguments = tools::tool_arguments(tool);
    let i = choose|i: int|
        0 <= i < arguments.len() && (#[trigger] arguments[i]).name == name && arguments[i].required;
    assert(arguments[i].name == name);
}

/// The controller, the steps and the message of a command that is an input.
pub open spec fn input_parts(result: Result<CommandView, Seq<char>>) -> Option<
    (Seq<char>, Seq<Step>, Seq<char>),
> {
    match result {
        Ok(Command::Run(Task::Input { key, steps, message })) => Some((key, steps, message)),
        _ => None,
    }
}

/// The arguments name a controller.
pub open spec fn for_controller(arguments: JsonView, key: Seq<char>) -> bool {
    json::member(arguments, "controller"@) == Some(JsonView::Text(key))
}

/// The arguments name buttons.
pub open spec fn with_buttons(arguments: JsonView, mask: u32) -> bool {
    json::member(arguments, "buttons"@) matches Some(value) && patch::buttons_in(value) == Ok::<
        u32,
        Seq<char>,
    >(mask)
}

/// Pressing, releasing and setting buttons is one change of the named controller, and
/// in any state exactly the named buttons are then held besides the others, released,
/// or held alone. Nothing but buttons changes, and no time passes.
pub proof fn law_button_tools(
    arguments: JsonView,
    key: Seq<char>,
    mask: u32,
    state: GamepadView,
)
    requires
        for_controller(arguments, key),
        with_buttons(arguments, mask),
        json::unsigned_in(json::member(arguments, "hold_ms"@)) is None,
    ensures
        input_parts(tool_command(Tool::PressButtons, arguments)) matches Some((k, steps, _)) && {
            let after = after_steps(state, steps, steps.len());
            &&& k == key && steps.len() == 1 && time_of(steps, steps.len()) == 0
            &&& after.buttons == state.buttons | mask
            &&& after == GamepadView { buttons: after.buttons, ..state }
        },
        input_parts(tool_command(Tool::ReleaseButtons, arguments)) matches Some((k, steps, _)) && {
            let after = after_steps(state, steps, steps.len());
            &&& k == key && steps.len() == 1 && time_of(steps, steps.len()) == 0
            &&& after.buttons == state.buttons & !mask
            &&& after == GamepadView { buttons: after.buttons, ..state }
        },
        input_parts(tool_command(Tool::SetButtons, arguments)) matches Some((k, steps, _)) && {
            let after = after_steps(state, steps, steps.len());
            &&& k == key && steps.len() == 1 && time_of(steps, steps.len()) == 0
            &&& after.buttons == mask
            &&& after == GamepadView { buttons: after.buttons, ..state }
        },
        tool_command(Tool::TapButtons, arguments) is Err,
        tool_command(Tool::HoldButtons, arguments) is Err,
{
    reveal_with_fuel(after_steps, 2);
    reveal_with_fuel(time_of, 2);
}

/// The tool is one that presses buttons for a time.
pub open spec fn is_timed(tool: Tool) -> bool {
    tool == Tool::PressButtons || tool == Tool::TapButtons || tool == Tool::HoldButtons
}

/// A press with a time holds exactly the named buttons besides the others for that
/// time, and then leaves the state as if they had been released.
pub proof fn law_timed_button_tools(
    tool: Tool,
    arguments: JsonView,
    key: Seq<char>,
    mask: u32,
    hold_ms: u64,
    state: GamepadView,
)
    requires
        is_timed(tool),
        for_controller(arguments, key),
        with_buttons(arguments, mask),
        json::unsigned_in(json::member(arguments, "hold_ms"@)) == Some(hold_ms),
    ensures
        input_parts(tool_command(tool, arguments)) matches Some((k, steps, _)) && {
            let held = after_steps(state, steps, 1);
            let after = after_steps(state, steps, 3);
            &&& k == key && steps.len() == 3
            &&& held.buttons == state.buttons | mask
            &&& held == GamepadView { buttons: held.buttons, ..state }
            &&& steps[1] == Step::Sleep(hold_ms)
            &&& time_of(steps, 3) == hold_ms
            &&& after.buttons == state.buttons & !mask
            &&& after == GamepadView { buttons: after.buttons, ..state }
        },
{
    reveal_with_fuel(after_steps, 2);
    law_timed_press_releases(state, mask, hold_ms);
    assert(timed_press(mask, hold_ms)[0] == Step::Edit(StateEdit::Press(Buttons::of(mask))));
}

/// Setting an axis is one change of the named controller, after which the axis of that
/// name has the value, in single precision and limited to the unit range, and no other
/// part of the state has changed.
pub proof fn law_axis_tool(
    arguments: JsonView,
    key: Seq<char>,
    name: Seq<char>,
    number: json::NumberView,
    usage: u16,
    state: GamepadView,
)
    requires
        for_controller(arguments, key),
        json::member(arguments, "axis"@) == Some(JsonView::Text(name)),
        json::member(arguments, "value"@) == Some(JsonView::Number(number)),
        state::named_axis(text::normalized(name)) == Some(state::Axis(usage)),
    ensures
        input_parts(tool_command(Tool::SetAxis, arguments)) matches Some((k, steps, _)) && {
            let after = after_steps(state, steps, steps.len());
            &&& k == key && steps.len() == 1
            &&& after.axes.contains_key(usage)
            &&& after.axes[usage] == single::unit_clamped(single::narrowed(number.double))
            &&& after.axes.remove(usage) == state.axes.remove(usage)
            &&& after == GamepadView { axes: after.axes, ..state }
        },
{
    reveal_with_fuel(after_steps, 2);
    let value = single::narrowed(number.double);
    gamepad::law_edits_change_their_part_only(
        state,
        Buttons::of(0),
        state::Hat::Neutral,
        state::Axis(usage),
        value,
        gamepad::default_axes(),
    );
}

/// Each of the six names of the sticks and triggers that is given as a number sets its
/// own axis to that number, in single precision and limited to the unit range; the axes
/// whose names are not given, or not as numbers, stay, and so does the rest.
#[verifier::rlimit(50)]
pub proof fn law_sticks_tool(arguments: JsonView, key: Seq<char>, state: GamepadView)
    requires
        for_controller(arguments, key),
    ensures
        input_parts(tool_command(Tool::SetSticks, arguments)) matches Some((k, steps, _)) && {
            let whole = after_steps(state, steps, steps.len());
            let after = whole.standard_axes->0;
            let before = match state.standard_axes {
                Some(axes) => axes,
                None => gamepad::default_axes(),
            };
            &&& k == key && steps.len() == 1
            &&& whole == GamepadView { standard_axes: Some(after), ..state }
            &&& json::member(arguments, "left_x"@) matches Some(JsonView::Number(number)) ==> after.left_stick_x
                == Some(single::unit_clamped(single::narrowed(number.double)))
            &&& !(json::member(arguments, "left_x"@) matches Some(JsonView::Number(_))) ==> after.left_stick_x
                == before.left_stick_x
            &&& json::member(arguments, "left_y"@) matches Some(JsonView::Number(number)) ==> after.left_stick_y
                == Some(single::unit_clamped(single::narrowed(number.double)))
            &&& !(json::member(arguments, "left_y"@) matches Some(JsonView::Number(_))) ==> after.left_stick_y
                == before.left_stick_y
            &&& json::member(arguments, "right_x"@) matches Some(JsonView::Number(number)) ==> after.right_stick_x
                == Some(single::unit_clamped(single::narrowed(number.double)))
            &&& !(json::member(arguments, "right_x"@) matches Some(JsonView::Number(_))) ==> after.right_stick_x
                == before.right_stick_x
            &&& json::member(arguments, "right_y"@) matches Some(JsonView::Number(number)) ==> after.right_stick_y
                == Some(single::unit_clamped(single::narrowed(number.double)))
            &&& !(json::member(arguments, "right_y"@) matches Some(JsonView::Number(_))) ==> after.right_stick_y
                == before.right_stick_y
            &&& json::member(arguments, "left_trigger"@) matches Some(JsonView::Number(number)) ==> after.left_trigger
                == Some(single::unit_clamped(single::narrowed(number.double)))
            &&& !(json::member(arguments, "left_trigger"@) matches Some(JsonView::Number(_))) ==> after.left_trigger
                == before.left_trigger
            &&& json::member(arguments, "right_trigger"@) matches Some(JsonView::Number(number)) ==> after.right_trigger
                == Some(single::unit_clamped(single::narrowed(number.double)))
            &&& !(json::member(arguments, "right_trigger"@) matches Some(JsonView::Number(_))) ==> after.right_trigger
                == before.right_trigger
        },
{
    reveal_with_fuel(after_steps, 2);
    gamepad::law_moved_axes_take_their_values(state, stick_arguments(arguments));
}

/// Setting the d-pad is one change of the named controller, after which the d-pad stands
/// in the direction of that name, without an angle.
pub proof fn law_dpad_tool(
    arguments: JsonView,
    key: Seq<char>,
    name: Seq<char>,
    hat: state::Hat,
    state: GamepadView,
)
    requires
        for_controller(arguments, key),
        json::member(arguments, "direction"@) == Some(JsonView::Text(name)),
        state::named_hat(text::normalized(name)) == Some(hat),
    ensures
        input_parts(tool_command(Tool::SetDpad, arguments)) matches Some((k, steps, _)) && {
            let after = after_steps(state, steps, steps.len());
            &&& k == key && steps.len() == 1
            &&& after.hat == hat
            &&& after.hat_degrees is None
            &&& after == GamepadView { hat: after.hat, hat_degrees: after.hat_degrees, ..state }
        },
{
    reveal_with_fuel(after_steps, 2);
}

/// A reset is one change of the named controller, after which nothing is held.
pub proof fn law_reset_tool(arguments: JsonView, key: Seq<char>, state: GamepadView)
    requires
        for_controller(arguments, key),
    ensures
        input_parts(tool_command(Tool::ResetController, arguments)) matches Some((k, steps, _))
            && {
            &&& k == key && steps.len() == 1
            &&& after_steps(state, steps, steps.len()) == gamepad::neutral_view()
        },
{
    reveal_with_fuel(after_steps, 2);
}

/// A tool for one controller acts on the controller that the arguments name, and the
/// other tools on what theirs name: the patch of a state, the profile and the place of a
/// new controller, the directory of profiles and the filter.
pub proof fn law_tools_take_their_arguments(
    arguments: JsonView,
    key: Seq<char>,
    s: Seq<char>,
    number: u64,
    document: JsonView,
)
    ensures
        for_controller(arguments, key) ==> {
            &&& tool_command(Tool::RemoveController, arguments) == Ok::<CommandView, Seq<char>>(
                Command::Run(Task::RemoveController { key }),
            )
            &&& tool_command(Tool::GetState, arguments) == Ok::<CommandView, Seq<char>>(
                Command::Run(Task::GetState { key }),
            )
            &&& json::member(arguments, "state"@) == Some(document) ==> tool_command(
                Tool::SetState,
                arguments,
            ) == Ok::<CommandView, Seq<char>>(Command::SetState { key, patch: document })
            &&& json::member(arguments, "state"@) is None ==> (tool_command(
                Tool::SetState,
                arguments,
            ) matches Ok(Command::SetState { key: k, patch }) && k == key && patch
                is Object && json::member(patch, s) is None)
        },
        json::member(arguments, "profile_id"@) == Some(JsonView::Text(s)) ==> {
            &&& json::unsigned_in(json::member(arguments, "index"@)) == Some(number) && number
                <= usize::MAX ==> (tool_command(Tool::CreateController, arguments) matches Ok(
                Command::Run(Task::CreateController { profile_id, index: Some(place) }),
            ) && profile_id == s && place == number)
            &&& json::unsigned_in(json::member(arguments, "index"@)) is None ==> tool_command(
                Tool::CreateController,
                arguments,
            ) == Ok::<CommandView, Seq<char>>(
                Command::Run(Task::CreateController { profile_id: s, index: None }),
            )
        },
        json::member(arguments, "dir"@) == Some(JsonView::Text(s)) ==> tool_command(
            Tool::LoadProfiles,
            arguments,
        ) == Ok::<CommandView, Seq<char>>(Command::Run(Task::LoadProfiles { dir: Some(s) })),
        !(json::member(arguments, "dir"@) matches Some(JsonView::Text(_))) ==> tool_command(
            Tool::LoadProfiles,
            arguments,
        ) == Ok::<CommandView, Seq<char>>(Command::Run(Task::LoadProfiles { dir: None })),
        json::member(arguments, "filter"@) == Some(JsonView::Text(s)) ==> tool_command(
            Tool::ListProfiles,
            arguments,
        ) == Ok::<CommandView, Seq<char>>(Command::Run(Task::ListProfiles { filter: Some(s) })),
        !(json::member(arguments, "filter"@) matches Some(JsonView::Text(_))) ==> tool_command(
            Tool::ListProfiles,
            arguments,
        ) == Ok::<CommandView, Seq<char>>(Command::Run(Task::ListProfiles { filter: None })),
{
}

/// The tools without arguments do what their names say, whatever they are called with.
pub proof fn law_plain_tools(arguments: JsonView)
    ensures
        named_command("start"@, arguments) == Ok::<CommandView, Seq<char>>(
            Command::Run(Task::Start),
        ),
        named_command("status"@, arguments) == Ok::<CommandView, Seq<char>>(
            Command::Run(Task::Status),
        ),
        named_command("install_driver"@, arguments) == Ok::<CommandView, Seq<char>>(
            Command::Run(Task::InstallDriver),
        ),
        named_command("install_usbip_backend"@, arguments) == Ok::<CommandView, Seq<char>>(
            Command::Run(Task::InstallUsbipBackend),
        ),
        named_command("list_controllers"@, arguments) == Ok::<CommandView, Seq<char>>(
            Command::Run(Task::ListControllers),
        ),
        named_command("remove_all_controllers"@, arguments) == Ok::<CommandView, Seq<char>>(
            Command::Run(Task::RemoveAllControllers),
        ),
        named_command("drain_output_events"@, arguments) == Ok::<CommandView, Seq<char>>(
            Command::Run(Task::DrainOutputEvents),
        ),
        named_command("shutdown"@, arguments) == Ok::<CommandView, Seq<char>>(Command::Shutdown),
{
    tools::law_announced_tools_are_found(Tool::Start, "start"@);
    tools::law_announced_tools_are_found(Tool::Status, "status"@);
    tools::law_announced_tools_are_found(Tool::InstallDriver, "install_driver"@);
    tools::law_announced_tools_are_found(Tool::InstallUsbipBackend, "install_usbip_backend"@);
    tools::law_announced_tools_are_found(Tool::ListControllers, "list_controllers"@);
    tools::law_announced_tools_are_found(Tool::RemoveAllControllers, "remove_all_controllers"@);
    tools::law_announced_tools_are_found(Tool::DrainOutputEvents, "drain_output_events"@);
    tools::law_announced_tools_are_found(Tool::Shutdown, "shutdown"@);
}

/// The tools with arguments are found under the names that say what they do.
pub proof fn law_tools_by_name(arguments: JsonView)
    ensures
        named_command("press_buttons"@, arguments) == tool_command(Tool::PressButtons, arguments),
        named_command("release_buttons"@, arguments) == tool_command(Tool::ReleaseButtons, arguments),
        named_command("set_buttons"@, arguments) == tool_command(Tool::SetButtons, arguments),
        named_command("tap_buttons"@, arguments) == tool_command(Tool::TapButtons, arguments),
        named_command("hold_buttons"@, arguments) == tool_command(Tool::HoldButtons, arguments),
        named_command("run_action_sequence"@, arguments) == tool_command(Tool::RunActionSequence, arguments),
        named_command("set_axis"@, arguments) == tool_command(Tool::SetAxis, arguments),
        named_command("set_sticks"@, arguments) == tool_command(Tool::SetSticks, arguments),
        named_command("set_dpad"@, arguments) == tool_command(Tool::SetDpad, arguments),
        named_command("set_state"@, arguments) == tool_command(Tool::SetState, arguments),
        named_command("get_state"@, arguments) == tool_command(Tool::GetState, arguments),
        named_command("reset_controller"@, arguments) == tool_command(Tool::ResetController, arguments),
        named_command("load_profiles"@, arguments) == tool_command(Tool::LoadProfiles, arguments),
        named_command("list_profiles"@, arguments) == tool_command(Tool::ListProfiles, arguments),
        named_command("create_controller"@, arguments) == tool_command(Tool::CreateController, arguments),
        named_command("remove_controller"@, arguments) == tool_command(Tool::RemoveController, arguments),
{
    tools::law_announced_tools_are_found(Tool::PressButtons, "press_buttons"@);
    tools::law_announced_tools_are_found(Tool::ReleaseButtons, "release_buttons"@);
    tools::law_announced_tools_are_found(Tool::SetButtons, "set_buttons"@);
    tools::law_announced_tools_are_found(Tool::TapButtons, "tap_buttons"@);
    tools::law_announced_tools_are_found(Tool::HoldButtons, "hold_buttons"@);
    tools::law_announced_tools_are_found(Tool::RunActionSequence, "run_action_sequence"@);
    tools::law_announced_tools_are_found(Tool::SetAxis, "set_axis"@);
    tools::law_announced_tools_are_found(Tool::SetSticks, "set_sticks"@);
    tools::law_announced_tools_are_found(Tool::SetDpad, "set_dpad"@);
    tools::law_announced_tools_are_found(Tool::SetState, "set_state"@);
    tools::law_announced_tools_are_found(Tool::GetState, "get_state"@);
    tools::law_announced_tools_are_found(Tool::ResetController, "reset_controller"@);
    tools::law_announced_tools_are_found(Tool::LoadProfiles, "load_profiles"@);
    tools::law_announced_tools_are_found(Tool::ListProfiles, "list_profiles"@);
    tools::law_announced_tools_are_found(Tool::CreateController, "create_controller"@);
    tools::law_announced_tools_are_found(Tool::RemoveController, "remove_controller"@);
}

proof fn lemma_actions_in_turn(actions: Seq<JsonView>, count: nat, at: int)
    requires
        action_steps(actions, count) is Ok,
        0 <= at < count,
    ensures
        ({
            let (steps, _) = action_steps(actions, count)->Ok_0;
            let mask = buttons_argument(actions[at])->Ok_0;
            let hold = json::unsigned_in(json::member(actions[at], "hold_ms"@))->0;
            &&& steps.len() == 3 * count
            &&& buttons_argument(actions[at]) is Ok
            &&& json::unsigned_in(json::member(actions[at], "hold_ms"@)) is Some
            &&& steps[3 * at] == Step::Edit(StateEdit::Press(Buttons::of(mask)))
            &&& steps[3 * at + 1] == Step::Sleep(hold)
            &&& steps[3 * at + 2] == Step::Edit(StateEdit::Release(Buttons::of(mask)))
        }),
    decreases count,
{
    let before = action_steps(actions, (count - 1) as nat)->Ok_0.0;
    if count - 1 > 0 {
        if at < count - 1 {
            lemma_actions_in_turn(actions, (count - 1) as nat, at);
        } else {
            lemma_actions_in_turn(actions, (count - 1) as nat, 0);
        }
    } else {
        assert(action_steps(actions, 0)->Ok_0.0.len() == 0);
    }
    assert(before.len() == 3 * (count - 1));
}

/// A sequence runs its actions in turn: each presses its own buttons, waits for its own
/// time, and releases them before the next begins.
pub proof fn law_sequence_runs_in_turn(
    arguments: JsonView,
    key: Seq<char>,
    actions: Seq<JsonView>,
    at: int,
    mask: u32,
    hold_ms: u64,
)
    requires
        for_controller(arguments, key),
        json::member(arguments, "actions"@) == Some(JsonView::Array(actions)),
        tool_command(Tool::RunActionSequence, arguments) is Ok,
        0 <= at < actions.len(),
        with_buttons(actions[at], mask),
        json::unsigned_in(json::member(actions[at], "hold_ms"@)) == Some(hold_ms),
    ensures
        input_parts(tool_command(Tool::RunActionSequence, arguments)) matches Some((k, steps, _))
            && {
            &&& k == key && steps.len() == 3 * actions.len()
            &&& steps[3 * at] == Step::Edit(StateEdit::Press(Buttons::of(mask)))
            &&& steps[3 * at + 1] == Step::Sleep(hold_ms)
            &&& steps[3 * at + 2] == Step::Edit(StateEdit::Release(Buttons::of(mask)))
        },
{
    lemma_actions_in_turn(actions, actions.len(), at);
}

/// The action names its buttons and its time.
pub open spec fn action_is_good(action: JsonView) -> bool {
    &&& json::member(action, "buttons"@) matches Some(value) && patch::buttons_in(value) is Ok
    &&& json::unsigned_in(json::member(action, "hold_ms"@)) is Some
}

/// The milliseconds that the first `count` actions ask for.
pub open spec fn asked_time(actions: Seq<JsonView>, count: nat) -> nat
    decreases count,
{
    if count == 0 {
        0
    } else {
        let hold: nat = match json::unsigned_in(json::member(actions[count - 1], "hold_ms"@)) {
            Some(hold) => hold as nat,
            None => 0,
        };
        asked_time(actions, (count - 1) as nat) + hold
    }
}

proof fn lemma_good_actions(actions: Seq<JsonView>, count: nat)
    requires
        count <= actions.len(),
    ensures
        action_steps(actions, count) is Ok <==> forall|k: int|
            0 <= k < count ==> action_is_good(#[trigger] actions[k]),
        action_steps(actions, count) matches Ok((_, time)) ==> time == asked_time(actions, count),
    decreases count,
{
    if count > 0 {
        lemma_good_actions(actions, (count - 1) as nat);
        assert(action_is_good(actions[count - 1]) <==> (buttons_argument(actions[count - 1]) is Ok
            && json::unsigned_in(json::member(actions[count - 1], "hold_ms"@)) is Some));
    }
}

/// A sequence is accepted exactly if it has 1 to 64 actions, each with buttons and a
/// time, that take at most 60000 milliseconds together.
pub proof fn law_sequence_is_accepted(
    arguments: JsonView,
    key: Seq<char>,
    actions: Seq<JsonView>,
)
    requires
        for_controller(arguments, key),
        json::member(arguments, "actions"@) == Some(JsonView::Array(actions)),
    ensures
        tool_command(Tool::RunActionSequence, arguments) is Ok <==> {
            &&& 1 <= actions.len() <= 64
            &&& forall|k: int| 0 <= k < actions.len() ==> action_is_good(#[trigger] actions[k])
            &&& asked_time(actions, actions.len()) <= 60_000
        },
{
    lemma_good_actions(actions, actions.len());
}

/// A tool that takes the argument reads the same in both.
pub open spec fn reads_same(
    a: JsonView,
    b: JsonView,
    argument: tools::Argument<Seq<char>>,
) -> bool {
    match argument.kind {
        tools::Kind::Text => json::text_in(json::member(a, argument.name)) == json::text_in(
            json::member(b, argument.name),
        ),
        tools::Kind::Integer => json::unsigned_in(json::member(a, argument.name))
            == json::unsigned_in(json::member(b, argument.name)),
        tools::Kind::Number => json::double_in(json::member(a, argument.name)) == json::double_in(
            json::member(b, argument.name),
        ),
        _ => json::member(a, argument.name) == json::member(b, argument.name),
    }
}

#[verifier::rlimit(50)]
proof fn lemma_same_reading(tool: Tool, a: JsonView, b: JsonView)
    requires
        forall|i: int|
            0 <= i < tools::tool_arguments(tool).len() ==> reads_same(
                a,
                b,
                #[trigger] tools::tool_arguments(tool)[i],
            ),
    ensures
        tool_command(tool, a) == tool_command(tool, b),
{
    match tool {
        Tool::LoadProfiles => {
            assert(reads_same(a, b, tools::tool_arguments(tool)[0]));
        },
        Tool::ListProfiles => {
            assert(reads_same(a, b, tools::tool_arguments(tool)[0]));
        },
        Tool::CreateController => {
            assert(reads_same(a, b, tools::tool_arguments(tool)[0]));
            assert(reads_same(a, b, tools::tool_arguments(tool)[1]));
        },
        Tool::PressButtons | Tool::TapButtons | Tool::HoldButtons => {
            assert(reads_same(a, b, tools::tool_arguments(tool)[0]));
            assert(reads_same(a, b, tools::tool_arguments(tool)[1]));
            assert(reads_same(a, b, tools::tool_arguments(tool)[2]));
        },
        Tool::ReleaseButtons | Tool::SetButtons => {
            assert(reads_same(a, b, tools::tool_arguments(tool)[0]));
            assert(reads_same(a, b, tools::tool_arguments(tool)[1]));
        },
        Tool::RunActionSequence => {
            assert(reads_same(a, b, tools::tool_arguments(tool)[0]));
            assert(reads_same(a, b, tools::tool_arguments(tool)[1]));
        },
        Tool::SetAxis => {
            assert(reads_same(a, b, tools::tool_arguments(tool)[0]));
            assert(reads_same(a, b, tools::tool_arguments(tool)[1]));
            assert(reads_same(a, b, tools::tool_arguments(tool)[2]));
        },
        Tool::SetSticks => {
            assert(reads_same(a, b, tools::tool_arguments(tool)[0]));
            assert(reads_same(a, b, tools::tool_arguments(tool)[1]));
            assert(reads_same(a, b, tools::tool_arguments(tool)[2]));
            assert(reads_same(a, b, tools::tool_arguments(tool)[3]));
            assert(reads_same(a, b, tools::tool_arguments(tool)[4]));
            assert(reads_same(a, b, tools::tool_arguments(tool)[5]));
            assert(reads_same(a, b, tools::tool_arguments(tool)[6]));
        },
        Tool::SetDpad => {
            assert(reads_same(a, b, tools::tool_arguments(tool)[0]));
            assert(reads_same(a, b, tools::tool_arguments(tool)[1]));
        },
        Tool::SetState => {
            assert(reads_same(a, b, tools::tool_arguments(tool)[0]));
            assert(reads_same(a, b, tools::tool_arguments(tool)[1]));
        },
        Tool::RemoveController | Tool::GetState | Tool::ResetController => {
            assert(reads_same(a, b, tools::tool_arguments(tool)[0]));
        },
        _ => {},
    }
}

/// A text, an integer or a number that a tool takes, given as something else than the
/// schema announces, counts as not given.
pub proof fn law_other_kinds_count_as_missing(
    tool: Tool,
    members: Map<Seq<char>, JsonView>,
    at: int,
    value: JsonView,
)
    requires
        0 <= at < tools::tool_arguments(tool).len(),
        ({
            let kind = tools::tool_arguments(tool)[at].kind;
            &&& kind == tools::Kind::Text || kind == tools::Kind::Integer || kind
                == tools::Kind::Number
            &&& !tools::is_of_kind(value, kind)
        }),
    ensures
        ({
            let name = tools::tool_arguments(tool)[at].name;
            tool_command(tool, JsonView::Object(members.insert(name, value))) == tool_command(
                tool,
                JsonView::Object(members.remove(name)),
            )
        }),
{
    let arguments = tools::tool_arguments(tool);
    let name = arguments[at].name;
    let with = JsonView::Object(members.insert(name, value));
    let without = JsonView::Object(members.remove(name));
    tools::lemma_distinct_arguments(tool);
    assert forall|i: int| 0 <= i < arguments.len() implies reads_same(
        with,
        without,
        #[trigger] arguments[i],
    ) by {
        if i == at {
            assert(json::member(with, name) == Some(value));
            assert(json::member(without, name) is None);
        } else {
            if i < at {
                assert(arguments[i].name != arguments[at].name);
            } else {
                assert(arguments[at].name != arguments[i].name);
            }
            assert(json::member(with, arguments[i].name) == json::member(
                without,
                arguments[i].name,
            ));
        }
    }
    lemma_same_reading(tool, with, without);
}

/// A tool reads nothing but the arguments that it announces: with the same ones, two calls
/// ask for the same.
pub proof fn law_only_announced_arguments_count(
    tool: Tool,
    first: Map<Seq<char>, JsonView>,
    second: Map<Seq<char>, JsonView>,
)
    requires
        forall|i: int|
            0 <= i < tools::tool_arguments(tool).len() ==> json::member(
                JsonView::Object(first),
                (#[trigger] tools::tool_arguments(tool)[i]).name,
            ) == json::member(JsonView::Object(second), tools::tool_arguments(tool)[i].name),
    ensures
        tool_command(tool, JsonView::Object(first)) == tool_command(
            tool,
            JsonView::Object(second),
        ),
{
    let arguments = tools::tool_arguments(tool);
    assert forall|i: int| 0 <= i < arguments.len() implies reads_same(
        JsonView::Object(first),
        JsonView::Object(second),
        #[trigger] arguments[i],
    ) by {}
    lemma_same_reading(tool, JsonView::Object(first), JsonView::Object(second));
}

proof fn lemma_missing_differs(a: Seq<char>, b: Seq<char>)
    requires
        a != b,
    ensures
        missing(a) != missing(b),
        missing(a).len() > 0,
        missing(a)[0] == 'm',
{
    reveal_strlit("missing");
    reveal_strlit(" '");
    reveal_strlit("'");
    assert("missing"@.len() == 7);
    assert(" '"@.len() == 2);
    assert("missing"@[0] == 'm');
    assert("'"@.len() == 1);
    if missing(a) == missing(b) {
        assert(missing(a).len() == a.len() + 10);
        assert(missing(b).len() == b.len() + 10);
        assert(missing(a).subrange(9, 9int + a.len()) =~= a);
        assert(missing(b).subrange(9, 9int + b.len()) =~= b);
    }
}

proof fn lemma_action_errors(actions: Seq<JsonView>, count: nat)
    ensures
        action_steps(actions, count) matches Err(words) ==> words != missing("actions"@) && words
            != missing("controller"@),
    decreases count,
{
    if count > 0 {
        tools::lemma_argument_names_differ();
        lemma_action_errors(actions, (count - 1) as nat);
        reveal_strlit("actions");
        reveal_strlit("buttons");
        reveal_strlit("hold_ms");
        assert("actions"@[0] == 'a');
        assert("buttons"@[0] == 'b');
        assert("hold_ms"@[0] == 'h');
        lemma_missing_differs("actions"@, "buttons"@);
        lemma_missing_differs("actions"@, "hold_ms"@);
        lemma_missing_differs("controller"@, "buttons"@);
        lemma_missing_differs("controller"@, "hold_ms"@);
        if let Some(value) = json::member(actions[count - 1], "buttons"@) {
            patch::lemma_button_errors(value);
        }
    }
}

/// An argument that is given as the schema announces it is never reported as missing.
#[verifier::rlimit(50)]
pub proof fn law_given_arguments_are_not_missing(
    tool: Tool,
    members: Map<Seq<char>, JsonView>,
    at: int,
    value: JsonView,
)
    requires
        0 <= at < tools::tool_arguments(tool).len(),
        tools::is_of_kind(value, tools::tool_arguments(tool)[at].kind),
    ensures
        ({
            let name = tools::tool_arguments(tool)[at].name;
            tool_command(tool, JsonView::Object(members.insert(name, value))) != Err::<
                CommandView,
                Seq<char>,
            >(missing(name))
        }),
{
    tools::lemma_argument_names_differ();
    let name = tools::tool_arguments(tool)[at].name;
    let arguments = JsonView::Object(members.insert(name, value));
    assert(json::member(arguments, name) == Some(value));
    lemma_missing_differs("controller"@, "buttons"@);
    lemma_missing_differs("buttons"@, "controller"@);
    lemma_missing_differs("controller"@, "hold_ms"@);
    lemma_missing_differs("hold_ms"@, "controller"@);
    lemma_missing_differs("buttons"@, "hold_ms"@);
    lemma_missing_differs("hold_ms"@, "buttons"@);
    lemma_missing_differs("controller"@, "actions"@);
    lemma_missing_differs("actions"@, "controller"@);
    lemma_missing_differs("controller"@, "axis"@);
    lemma_missing_differs("axis"@, "controller"@);
    lemma_missing_differs("controller"@, "value"@);
    lemma_missing_differs("value"@, "controller"@);
    lemma_missing_differs("axis"@, "value"@);
    lemma_missing_differs("value"@, "axis"@);
    lemma_missing_differs("controller"@, "direction"@);
    lemma_missing_differs("direction"@, "controller"@);
    lemma_missing_differs("profile_id"@, "index"@);
    lemma_missing_differs("controller"@, "state"@);
    lemma_missing_differs("controller"@, "left_x"@);
    lemma_missing_differs("controller"@, "left_y"@);
    lemma_missing_differs("controller"@, "right_x"@);
    lemma_missing_differs("controller"@, "right_y"@);
    lemma_missing_differs("controller"@, "left_trigger"@);
    lemma_missing_differs("controller"@, "right_trigger"@);
    assert(name.push('x').len() != name.len());
    lemma_missing_differs(name, name.push('x'));
    reveal_strlit("unknown axis");
    reveal_strlit("unknown direction");
    reveal_strlit("actions must hold 1 to 64 actions");
    reveal_strlit("actions must take at most 60000 ms");
    reveal_strlit("actions must be an array");
    assert("unknown axis"@[0] == 'u');
    assert("unknown direction"@[0] == 'u');
    assert("actions must hold 1 to 64 actions"@[0] == 'a');
    assert("actions must take at most 60000 ms"@[0] == 'a');
    assert("actions must be an array"@[0] == 'a');
    if let Some(JsonView::Text(other)) = json::member(arguments, "axis"@) {
        assert(patch::quoted("unknown axis"@, other)[0] == 'u');
    }
    if let Some(JsonView::Text(other)) = json::member(arguments, "direction"@) {
        assert(patch::quoted("unknown direction"@, other)[0] == 'u');
    }
    if let Some(buttons) = json::member(arguments, "buttons"@) {
        patch::lemma_button_errors(buttons);
    }
    if let Some(JsonView::Array(actions)) = json::member(arguments, "actions"@) {
        lemma_action_errors(actions, actions.len());
    }
}

/// The message of a command that is an input.
pub open spec fn message_of(result: Result<CommandView, Seq<char>>) -> Seq<char> {
    match input_parts(result) {
        Some((_, _, message)) => message,
        None => Seq::empty(),
    }
}

/// The message of an input tells what was done to which controller: it names the controller,
/// and names that stand for exactly the buttons.
pub proof fn law_button_messages(
    arguments: JsonView,
    key: Seq<char>,
    mask: u32,
    hold_ms: u64,
)
    requires
        for_controller(arguments, key),
        with_buttons(arguments, mask),
        mask <= 0x3_ffff,
    ensures
        exists|names: Seq<Seq<char>>|
            {
                let plus = text::joined(names, "+"@);
                let hold = json::unsigned_in(json::member(arguments, "hold_ms"@));
                &&& #[trigger] state::named_union(names) == Some(mask)
                &&& message_of(tool_command(Tool::ReleaseButtons, arguments)) == "released "@
                    + plus + " on '"@ + key + "'"@
                &&& message_of(tool_command(Tool::SetButtons, arguments)) == "'"@ + key
                    + "' buttons = ["@ + text::joined(names, ", "@) + "]"@
                &&& hold is None ==> message_of(tool_command(Tool::PressButtons, arguments)) == "holding "@ + plus + " on '"@ + key + "'"@
                &&& hold == Some(hold_ms) ==> {
                    let time = text::decimal(hold_ms as nat);
                    &&& message_of(tool_command(Tool::PressButtons, arguments)) == "tapped "@
                        + plus + " on '"@ + key + "' ("@ + time + " ms)"@
                    &&& message_of(tool_command(Tool::TapButtons, arguments)) == "tapped "@
                        + plus + " on '"@ + key + "' ("@ + time + " ms)"@
                    &&& message_of(tool_command(Tool::HoldButtons, arguments)) == "held "@
                        + plus + " on '"@ + key + "' ("@ + time + " ms)"@
                }
            },
{
    let names = state::button_names(mask, 18);
    state::law_names_round_trip(mask);
    assert(state::named_union(names) == Some(mask));
}

/// The messages of the other inputs name the controller and what was set, as it was given;
/// a number is told with three decimals.
pub proof fn law_other_messages(
    arguments: JsonView,
    key: Seq<char>,
    name: Seq<char>,
    number: json::NumberView,
    actions: Seq<JsonView>,
)
    requires
        for_controller(arguments, key),
    ensures
        json::member(arguments, "axis"@) == Some(JsonView::Text(name)) && json::member(
            arguments,
            "value"@,
        ) == Some(JsonView::Number(number)) && tool_command(Tool::SetAxis, arguments) is Ok
            ==> message_of(tool_command(Tool::SetAxis, arguments)) == "'"@ + key
            + "' axis "@ + name + " = "@ + single::fixed3(single::narrowed(number.double)),
        json::member(arguments, "direction"@) == Some(JsonView::Text(name)) && tool_command(
            Tool::SetDpad,
            arguments,
        ) is Ok ==> message_of(tool_command(Tool::SetDpad, arguments)) == "'"@ + key
            + "' d-pad = "@ + name,
        message_of(tool_command(Tool::SetSticks, arguments)) == "'"@ + key
            + "' sticks/triggers updated"@,
        message_of(tool_command(Tool::ResetController, arguments)) == "'"@ + key
            + "' reset to neutral"@,
        json::member(arguments, "actions"@) == Some(JsonView::Array(actions)) && tool_command(
            Tool::RunActionSequence,
            arguments,
        ) is Ok ==> message_of(tool_command(Tool::RunActionSequence, arguments)) == "ran "@
            + text::decimal(actions.len()) + " actions on '"@ + key + "'"@,
{
}

} // verus!
