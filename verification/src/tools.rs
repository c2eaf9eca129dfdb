//! The tools that an agent can call: their names, and what they take.

use vstd::prelude::*;

use crate::json;
use crate::json::{Json, JsonView};
use crate::text;

verus! {

broadcast use vstd::string::group_string_axioms;

/// A tool.
#[derive(Clone, Copy, Debug, PartialEq, Eq, Structural)]
pub enum Tool {
    Start,
    Status,
    InstallDriver,
    InstallUsbipBackend,
    LoadProfiles,
    ListProfiles,
    CreateController,
    ListControllers,
    RemoveController,
    RemoveAllControllers,
    PressButtons,
    ReleaseButtons,
    SetButtons,
    TapButtons,
    HoldButtons,
    RunActionSequence,
    SetAxis,
    SetSticks,
    SetDpad,
    SetState,
    GetState,
    ResetController,
    DrainOutputEvents,
    Shutdown,
}

/// How many tools there are.
pub const TOOL_COUNT: usize = 24;

/// The tool at a place in the list.
pub open spec fn tool_at(index: nat) -> Tool {
    if index == 0 {
        Tool::Start
    } else if index == 1 {
        Tool::Status
    } else if index == 2 {
        Tool::InstallDriver
    } else if index == 3 {
        Tool::InstallUsbipBackend
    } else if index == 4 {
        Tool::LoadProfiles
    } else if index == 5 {
        Tool::ListProfiles
    } else if index == 6 {
        Tool::CreateController
    } else if index == 7 {
        Tool::ListControllers
    } else if index == 8 {
        Tool::RemoveController
    } else if index == 9 {
        Tool::RemoveAllControllers
    } else if index == 10 {
        Tool::PressButtons
    } else if index == 11 {
        Tool::ReleaseButtons
    } else if index == 12 {
        Tool::SetButtons
    } else if index == 13 {
        Tool::TapButtons
    } else if index == 14 {
        Tool::HoldButtons
    } else if index == 15 {
        Tool::RunActionSequence
    } else if index == 16 {
        Tool::SetAxis
    } else if index == 17 {
        Tool::SetSticks
    } else if index == 18 {
        Tool::SetDpad
    } else if index == 19 {
        Tool::SetState
    } else if index == 20 {
        Tool::GetState
    } else if index == 21 {
        Tool::ResetController
    } else if index == 22 {
        Tool::DrainOutputEvents
    } else {
        Tool::Shutdown
    }
}

/// The name of a tool.
pub open spec fn tool_name(tool: Tool) -> Seq<char> {
    match tool {
        Tool::Start => "start"@,
        Tool::Status => "status"@,
        Tool::InstallDriver => "install_driver"@,
        Tool::InstallUsbipBackend => "install_usbip_backend"@,
        Tool::LoadProfiles => "load_profiles"@,
        Tool::ListProfiles => "list_profiles"@,
        Tool::CreateController => "create_controller"@,
        Tool::ListControllers => "list_controllers"@,
        Tool::RemoveController => "remove_controller"@,
        Tool::RemoveAllControllers => "remove_all_controllers"@,
        Tool::PressButtons => "press_buttons"@,
        Tool::ReleaseButtons => "release_buttons"@,
        Tool::SetButtons => "set_buttons"@,
        Tool::TapButtons => "tap_buttons"@,
        Tool::HoldButtons => "hold_buttons"@,
        Tool::RunActionSequence => "run_action_sequence"@,
        Tool::SetAxis => "set_axis"@,
        Tool::SetSticks => "set_sticks"@,
        Tool::SetDpad => "set_dpad"@,
        Tool::SetState => "set_state"@,
        Tool::GetState => "get_state"@,
        Tool::ResetController => "reset_controller"@,
        Tool::DrainOutputEvents => "drain_output_events"@,
        Tool::Shutdown => "shutdown"@,
    }
}

/// The tool with a name.
pub open spec fn tool_named(name: Seq<char>) -> Option<Tool> {
    if name == "start"@ {
        Some(Tool::Start)
    } else if name == "status"@ {
        Some(Tool::Status)
    } else if name == "install_driver"@ {
        Some(Tool::InstallDriver)
    } else if name == "install_usbip_backend"@ {
        Some(Tool::InstallUsbipBackend)
    } else if name == "load_profiles"@ {
        Some(Tool::LoadProfiles)
    } else if name == "list_profiles"@ {
        Some(Tool::ListProfiles)
    } else if name == "create_controller"@ {
        Some(Tool::CreateController)
    } else if name == "list_controllers"@ {
        Some(Tool::ListControllers)
    } else if name == "remove_controller"@ {
        Some(Tool::RemoveController)
    } else if name == "remove_all_controllers"@ {
        Some(Tool::RemoveAllControllers)
    } else if name == "press_buttons"@ {
        Some(Tool::PressButtons)
    } else if name == "release_buttons"@ {
        Some(Tool::ReleaseButtons)
    } else if name == "set_buttons"@ {
        Some(Tool::SetButtons)
    } else if name == "tap_buttons"@ {
        Some(Tool::TapButtons)
    } else if name == "hold_buttons"@ {
        Some(Tool::HoldButtons)
    } else if name == "run_action_sequence"@ {
        Some(Tool::RunActionSequence)
    } else if name == "set_axis"@ {
        Some(Tool::SetAxis)
    } else if name == "set_sticks"@ {
        Some(Tool::SetSticks)
    } else if name == "set_dpad"@ {
        Some(Tool::SetDpad)
    } else if name == "set_state"@ {
        Some(Tool::SetState)
    } else if name == "get_state"@ {
        Some(Tool::GetState)
    } else if name == "reset_controller"@ {
        Some(Tool::ResetController)
    } else if name == "drain_output_events"@ {
        Some(Tool::DrainOutputEvents)
    } else if name == "shutdown"@ {
        Some(Tool::Shutdown)
    } else {
        None
    }
}

/// What a tool does.
pub open spec fn tool_description(tool: Tool) -> Seq<char> {
    match tool {
        Tool::Start =>
            "Start the hidmaestro bridge process (usually automatic)."@,
        Tool::Status =>
            "Bridge/driver status and live controllers."@,
        Tool::InstallDriver =>
            "Install the HIDMaestro UMDF2 driver. Requires an elevated host the first time."@,
        Tool::InstallUsbipBackend =>
            "Install the usbip-win2 backend needed by '-composite' profiles."@,
        Tool::LoadProfiles =>
            "Load the profile catalog (or a directory of profile JSONs)."@,
        Tool::ListProfiles =>
            "List loaded device profiles (virtual controller models)."@,
        Tool::CreateController =>
            "Create a virtual controller from a profile id (e.g. 'xbox-360-wired', 'dualsense')."@,
        Tool::ListControllers =>
            "List live virtual controllers and their keys."@,
        Tool::RemoveController =>
            "Hot-unplug a virtual controller."@,
        Tool::RemoveAllControllers =>
            "Remove every virtual controller, including strays from previous sessions."@,
        Tool::PressButtons =>
            "Hold buttons down; with hold_ms, taps instead. Names: a,b,x,y,left_bumper,right_bumper,back,start,left_stick,right_stick,guide,touchpad,share,misc1 (PlayStation aliases cross,circle,square,triangle work too)."@,
        Tool::ReleaseButtons =>
            "Release held buttons."@,
        Tool::SetButtons =>
            "Replace the entire pressed-button set."@,
        Tool::TapButtons =>
            "Press buttons, then release them after hold_ms."@,
        Tool::HoldButtons =>
            "Hold buttons for hold_ms, then let go."@,
        Tool::RunActionSequence =>
            "Hold sets of buttons one after the other, each for its hold_ms. At most 64 actions and 60000 ms in all."@,
        Tool::SetAxis =>
            "Set one analog axis by name (0.0..1.0; 0.5 = stick center, 0.0 = trigger released). Names: x,y,z,rx,ry,rz,slider,dial,wheel,throttle,brake,clutch,rudder, or a raw usage like '0x0130'."@,
        Tool::SetSticks =>
            "Set canonical sticks/triggers (each 0.0..1.0; omitted fields unchanged)."@,
        Tool::SetDpad =>
            "Set the d-pad: none, up, up_right, right, down_right, down, down_left, left, up_left."@,
        Tool::SetState =>
            "Patch several state fields at once (buttons, hat, axes, standard_axes)."@,
        Tool::GetState =>
            "Return the server's mirrored state for a controller."@,
        Tool::ResetController =>
            "Reset a controller to neutral (sticks centered, nothing held)."@,
        Tool::DrainOutputEvents =>
            "Drain raw and decoded output reports (rumble/LED/FFB writes games sent to the virtual pad)."@,
        Tool::Shutdown =>
            "Stop the bridge and remove all virtual controllers."@,
    }
}

/// What an argument is.
#[derive(Clone, Copy, Debug, PartialEq, Eq, Structural)]
pub enum Kind {
    Text,
    Integer,
    Number,
    Object,
    /// A name of a button, a list of names, or a mask.
    Buttons,
    /// A list of buttons to hold, each with a time.
    Actions,
}

/// An argument of a tool. `T` holds text.
#[derive(Debug, PartialEq, Eq)]
pub struct Argument<T> {
    pub name: T,
    pub kind: Kind,
    pub description: Option<T>,
    pub required: bool,
}

impl Argument<&'static str> {
    /// The argument as a mathematical value.
    pub open spec fn view(self) -> Argument<Seq<char>> {
        Argument {
            name: self.name@,
            kind: self.kind,
            description: match self.description {
                Some(words) => Some(words@),
                None => None,
            },
            required: self.required,
        }
    }
}

/// Arguments as mathematical values.
pub open spec fn argument_views(arguments: Seq<Argument<&'static str>>) -> Seq<
    Argument<Seq<char>>,
> {
    arguments.map_values(|argument: Argument<&'static str>| argument.view())
}

/// The argument that names the controller.
pub open spec fn controller_argument() -> Argument<Seq<char>> {
    Argument { name: "controller"@, kind: Kind::Text, description: None, required: true }
}

/// The argument that names buttons.
pub open spec fn buttons_argument() -> Argument<Seq<char>> {
    Argument { name: "buttons"@, kind: Kind::Buttons, description: None, required: true }
}

/// An argument that may be left out.
pub open spec fn optional(name: Seq<char>, kind: Kind) -> Argument<Seq<char>> {
    Argument { name, kind, description: None, required: false }
}

/// An argument that is needed.
pub open spec fn needed(name: Seq<char>, kind: Kind) -> Argument<Seq<char>> {
    Argument { name, kind, description: None, required: true }
}

/// An argument with a description.
pub open spec fn described(argument: Argument<Seq<char>>, words: Seq<char>) -> Argument<Seq<char>> {
    Argument { description: Some(words), ..argument }
}

/// The arguments of a tool.
pub open spec fn tool_arguments(tool: Tool) -> Seq<Argument<Seq<char>>> {
    match tool {
        Tool::LoadProfiles => seq![described(optional("dir"@, Kind::Text), "Optional directory of profile JSON files"@)],
        Tool::ListProfiles => seq![described(optional("filter"@, Kind::Text), "Substring filter on id/name/vendor"@)],
        Tool::CreateController => seq![
            needed("profile_id"@, Kind::Text),
            described(optional("index"@, Kind::Integer), "Optional enumeration slot"@),
        ],
        Tool::RemoveController => seq![described(needed("controller"@, Kind::Text), "Controller key, e.g. 'c1'"@)],
        Tool::PressButtons => seq![
            controller_argument(),
            buttons_argument(),
            described(optional("hold_ms"@, Kind::Integer), "If set, press then release after this many ms"@),
        ],
        Tool::ReleaseButtons => seq![
            controller_argument(),
            buttons_argument(),
        ],
        Tool::SetButtons => seq![
            controller_argument(),
            buttons_argument(),
        ],
        Tool::TapButtons => seq![
            controller_argument(),
            buttons_argument(),
            described(needed("hold_ms"@, Kind::Integer), "How long the buttons stay pressed, in ms"@),
        ],
        Tool::HoldButtons => seq![
            controller_argument(),
            buttons_argument(),
            described(needed("hold_ms"@, Kind::Integer), "How long the buttons stay held, in ms"@),
        ],
        Tool::RunActionSequence => seq![
            controller_argument(),
            needed("actions"@, Kind::Actions),
        ],
        Tool::SetAxis => seq![
            controller_argument(),
            needed("axis"@, Kind::Text),
            needed("value"@, Kind::Number),
        ],
        Tool::SetSticks => seq![
            controller_argument(),
            optional("left_x"@, Kind::Number),
            optional("left_y"@, Kind::Number),
            optional("right_x"@, Kind::Number),
            optional("right_y"@, Kind::Number),
            optional("left_trigger"@, Kind::Number),
            optional("right_trigger"@, Kind::Number),
        ],
        Tool::SetDpad => seq![
            controller_argument(),
            needed("direction"@, Kind::Text),
        ],
        Tool::SetState => seq![
            controller_argument(),
            needed("state"@, Kind::Object),
        ],
        Tool::GetState => seq![controller_argument()],
        Tool::ResetController => seq![controller_argument()],
        _ => seq![],
    }
}

/// The fact that a document is of a type.
pub open spec fn of_type(name: Seq<char>) -> JsonView {
    JsonView::Object(Map::empty().insert("type"@, JsonView::Text(name)))
}

/// The schema of one action: buttons, and how long they are held.
pub open spec fn action_schema() -> JsonView {
    JsonView::Object(
        Map::empty().insert("type"@, JsonView::Text("object"@)).insert(
            "properties"@,
            JsonView::Object(
                Map::empty().insert("buttons"@, buttons_schema()).insert(
                    "hold_ms"@,
                    of_type("integer"@),
                ),
            ),
        ).insert(
            "required"@,
            JsonView::Array(seq![JsonView::Text("buttons"@), JsonView::Text("hold_ms"@)]),
        ),
    )
}

/// The schema of buttons: a name, a list of names, or a mask.
pub open spec fn buttons_schema() -> JsonView {
    JsonView::Object(
        Map::empty().insert(
            "oneOf"@,
            JsonView::Array(
                seq![
                    of_type("string"@),
                    JsonView::Object(
                        Map::empty().insert("type"@, JsonView::Text("array"@)).insert(
                            "items"@,
                            of_type("string"@),
                        ),
                    ),
                    of_type("integer"@),
                ],
            ),
        ),
    )
}

/// The members of the schema of an argument, but for its description.
pub open spec fn kind_members(kind: Kind) -> Map<Seq<char>, JsonView> {
    match kind {
        Kind::Text => Map::empty().insert("type"@, JsonView::Text("string"@)),
        Kind::Integer => Map::empty().insert("type"@, JsonView::Text("integer"@)),
        Kind::Number => Map::empty().insert("type"@, JsonView::Text("number"@)),
        Kind::Object => Map::empty().insert("type"@, JsonView::Text("object"@)),
        Kind::Buttons => buttons_schema()->Object_0,
        Kind::Actions => Map::empty().insert("type"@, JsonView::Text("array"@)).insert(
            "items"@,
            action_schema(),
        ),
    }
}

/// The schema of an argument.
pub open spec fn argument_schema(argument: Argument<Seq<char>>) -> JsonView {
    JsonView::Object(
        match argument.description {
            Some(words) => kind_members(argument.kind).insert(
                "description"@,
                JsonView::Text(words),
            ),
            None => kind_members(argument.kind),
        },
    )
}

/// The schemas of the first `count` arguments, by their names.
pub open spec fn properties(arguments: Seq<Argument<Seq<char>>>, count: nat) -> Map<
    Seq<char>,
    JsonView,
>
    decreases count,
{
    if count == 0 {
        Map::empty()
    } else {
        properties(arguments, (count - 1) as nat).insert(
            arguments[count - 1].name,
            argument_schema(arguments[count - 1]),
        )
    }
}

/// The names of those of the first `count` arguments that are needed.
pub open spec fn needed_names(arguments: Seq<Argument<Seq<char>>>, count: nat) -> Seq<JsonView>
    decreases count,
{
    if count == 0 {
        Seq::empty()
    } else {
        let before = needed_names(arguments, (count - 1) as nat);
        if arguments[count - 1].required {
            before.push(JsonView::Text(arguments[count - 1].name))
        } else {
            before
        }
    }
}

/// The schema of the arguments of a tool.
pub open spec fn input_schema(tool: Tool) -> JsonView {
    let arguments = tool_arguments(tool);
    let needed = needed_names(arguments, arguments.len());
    let schema = Map::empty().insert("type"@, JsonView::Text("object"@)).insert(
        "properties"@,
        JsonView::Object(properties(arguments, arguments.len())),
    );
    JsonView::Object(
        if needed.len() > 0 {
            schema.insert("required"@, JsonView::Array(needed))
        } else {
            schema
        },
    )
}

/// What is announced of a tool.
pub open spec fn tool_document(tool: Tool) -> JsonView {
    JsonView::Object(
        Map::empty().insert("name"@, JsonView::Text(tool_name(tool))).insert(
            "description"@,
            JsonView::Text(tool_description(tool)),
        ).insert("inputSchema"@, input_schema(tool)),
    )
}

/// What is announced of all tools.
pub open spec fn tool_list() -> JsonView {
    JsonView::Array(Seq::new(TOOL_COUNT as nat, |i: int| tool_document(tool_at(i as nat))))
}

impl Tool {
    /// The tool at a place in the list.
    pub fn at(index: usize) -> (tool: Tool)
        requires
            index < TOOL_COUNT,
        ensures
            tool == tool_at(index as nat),
    {
        match index {
            0 => Tool::Start,
            1 => Tool::Status,
            2 => Tool::InstallDriver,
            3 => Tool::InstallUsbipBackend,
            4 => Tool::LoadProfiles,
            5 => Tool::ListProfiles,
            6 => Tool::CreateController,
            7 => Tool::ListControllers,
            8 => Tool::RemoveController,
            9 => Tool::RemoveAllControllers,
            10 => Tool::PressButtons,
            11 => Tool::ReleaseButtons,
            12 => Tool::SetButtons,
            13 => Tool::TapButtons,
            14 => Tool::HoldButtons,
            15 => Tool::RunActionSequence,
            16 => Tool::SetAxis,
            17 => Tool::SetSticks,
            18 => Tool::SetDpad,
            19 => Tool::SetState,
            20 => Tool::GetState,
            21 => Tool::ResetController,
            22 => Tool::DrainOutputEvents,
            _ => Tool::Shutdown,
        }
    }

    /// The name of the tool.
    pub fn name(self) -> (name: &'static str)
        ensures
            name@ == tool_name(self),
    {
        match self {
            Tool::Start => "start",
            Tool::Status => "status",
            Tool::InstallDriver => "install_driver",
            Tool::InstallUsbipBackend => "install_usbip_backend",
            Tool::LoadProfiles => "load_profiles",
            Tool::ListProfiles => "list_profiles",
            Tool::CreateController => "create_controller",
            Tool::ListControllers => "list_controllers",
            Tool::RemoveController => "remove_controller",
            Tool::RemoveAllControllers => "remove_all_controllers",
            Tool::PressButtons => "press_buttons",
            Tool::ReleaseButtons => "release_buttons",
            Tool::SetButtons => "set_buttons",
            Tool::TapButtons => "tap_buttons",
            Tool::HoldButtons => "hold_buttons",
            Tool::RunActionSequence => "run_action_sequence",
            Tool::SetAxis => "set_axis",
            Tool::SetSticks => "set_sticks",
            Tool::SetDpad => "set_dpad",
            Tool::SetState => "set_state",
            Tool::GetState => "get_state",
            Tool::ResetController => "reset_controller",
            Tool::DrainOutputEvents => "drain_output_events",
            Tool::Shutdown => "shutdown",
        }
    }

    /// The tool with a name.
    pub fn by_name(name: &str) -> (tool: Option<Tool>)
        ensures
            tool == tool_named(name@),
    {
        let n = text::chars_of(name);
        if text::spells(&n, "start") {
            Some(Tool::Start)
        } else if text::spells(&n, "status") {
            Some(Tool::Status)
        } else if text::spells(&n, "install_driver") {
            Some(Tool::InstallDriver)
        } else if text::spells(&n, "install_usbip_backend") {
            Some(Tool::InstallUsbipBackend)
        } else if text::spells(&n, "load_profiles") {
            Some(Tool::LoadProfiles)
        } else if text::spells(&n, "list_profiles") {
            Some(Tool::ListProfiles)
        } else if text::spells(&n, "create_controller") {
            Some(Tool::CreateController)
        } else if text::spells(&n, "list_controllers") {
            Some(Tool::ListControllers)
        } else if text::spells(&n, "remove_controller") {
            Some(Tool::RemoveController)
        } else if text::spells(&n, "remove_all_controllers") {
            Some(Tool::RemoveAllControllers)
        } else if text::spells(&n, "press_buttons") {
            Some(Tool::PressButtons)
        } else if text::spells(&n, "release_buttons") {
            Some(Tool::ReleaseButtons)
        } else if text::spells(&n, "set_buttons") {
            Some(Tool::SetButtons)
        } else if text::spells(&n, "tap_buttons") {
            Some(Tool::TapButtons)
        } else if text::spells(&n, "hold_buttons") {
            Some(Tool::HoldButtons)
        } else if text::spells(&n, "run_action_sequence") {
            Some(Tool::RunActionSequence)
        } else if text::spells(&n, "set_axis") {
            Some(Tool::SetAxis)
        } else if text::spells(&n, "set_sticks") {
            Some(Tool::SetSticks)
        } else if text::spells(&n, "set_dpad") {
            Some(Tool::SetDpad)
        } else if text::spells(&n, "set_state") {
            Some(Tool::SetState)
        } else if text::spells(&n, "get_state") {
            Some(Tool::GetState)
        } else if text::spells(&n, "reset_controller") {
            Some(Tool::ResetController)
        } else if text::spells(&n, "drain_output_events") {
            Some(Tool::DrainOutputEvents)
        } else if text::spells(&n, "shutdown") {
            Some(Tool::Shutdown)
        } else {
            None
        }
    }

    /// What the tool does.
    pub fn description(self) -> (words: &'static str)
        ensures
            words@ == tool_description(self),
    {
        match self {
            Tool::Start =>
                "Start the hidmaestro bridge process (usually automatic).",
            Tool::Status =>
                "Bridge/driver status and live controllers.",
            Tool::InstallDriver =>
                "Install the HIDMaestro UMDF2 driver. Requires an elevated host the first time.",
            Tool::InstallUsbipBackend =>
                "Install the usbip-win2 backend needed by '-composite' profiles.",
            Tool::LoadProfiles =>
                "Load the profile catalog (or a directory of profile JSONs).",
            Tool::ListProfiles =>
                "List loaded device profiles (virtual controller models).",
            Tool::CreateController =>
                "Create a virtual controller from a profile id (e.g. 'xbox-360-wired', 'dualsense').",
            Tool::ListControllers =>
                "List live virtual controllers and their keys.",
            Tool::RemoveController =>
                "Hot-unplug a virtual controller.",
            Tool::RemoveAllControllers =>
                "Remove every virtual controller, including strays from previous sessions.",
            Tool::PressButtons =>
                "Hold buttons down; with hold_ms, taps instead. Names: a,b,x,y,left_bumper,right_bumper,back,start,left_stick,right_stick,guide,touchpad,share,misc1 (PlayStation aliases cross,circle,square,triangle work too).",
            Tool::ReleaseButtons =>
                "Release held buttons.",
            Tool::SetButtons =>
                "Replace the entire pressed-button set.",
            Tool::TapButtons =>
                "Press buttons, then release them after hold_ms.",
            Tool::HoldButtons =>
                "Hold buttons for hold_ms, then let go.",
            Tool::RunActionSequence =>
                "Hold sets of buttons one after the other, each for its hold_ms. At most 64 actions and 60000 ms in all.",
            Tool::SetAxis =>
                "Set one analog axis by name (0.0..1.0; 0.5 = stick center, 0.0 = trigger released). Names: x,y,z,rx,ry,rz,slider,dial,wheel,throttle,brake,clutch,rudder, or a raw usage like '0x0130'.",
            Tool::SetSticks =>
                "Set canonical sticks/triggers (each 0.0..1.0; omitted fields unchanged).",
            Tool::SetDpad =>
                "Set the d-pad: none, up, up_right, right, down_right, down, down_left, left, up_left.",
            Tool::SetState =>
                "Patch several state fields at once (buttons, hat, axes, standard_axes).",
            Tool::GetState =>
                "Return the server's mirrored state for a controller.",
            Tool::ResetController =>
                "Reset a controller to neutral (sticks centered, nothing held).",
            Tool::DrainOutputEvents =>
                "Drain raw and decoded output reports (rumble/LED/FFB writes games sent to the virtual pad).",
            Tool::Shutdown =>
                "Stop the bridge and remove all virtual controllers.",
        }
    }

    /// The arguments of the tool.
    pub fn arguments(self) -> (arguments: Vec<Argument<&'static str>>)
        ensures
            argument_views(arguments@) == tool_arguments(self),
    {
        let arguments: Vec<Argument<&'static str>> = match self {
            Tool::LoadProfiles => vec![describe(argument("dir", Kind::Text, false), "Optional directory of profile JSON files")],
            Tool::ListProfiles => vec![describe(argument("filter", Kind::Text, false), "Substring filter on id/name/vendor")],
            Tool::CreateController => vec![
                argument("profile_id", Kind::Text, true),
                describe(argument("index", Kind::Integer, false), "Optional enumeration slot"),
            ],
            Tool::RemoveController => vec![describe(argument("controller", Kind::Text, true), "Controller key, e.g. 'c1'")],
            Tool::PressButtons => vec![
                argument("controller", Kind::Text, true),
                argument("buttons", Kind::Buttons, true),
                describe(argument("hold_ms", Kind::Integer, false), "If set, press then release after this many ms"),
            ],
            Tool::ReleaseButtons => vec![
                argument("controller", Kind::Text, true),
                argument("buttons", Kind::Buttons, true),
            ],
            Tool::SetButtons => vec![
                argument("controller", Kind::Text, true),
                argument("buttons", Kind::Buttons, true),
            ],
            Tool::TapButtons => vec![
                argument("controller", Kind::Text, true),
                argument("buttons", Kind::Buttons, true),
                describe(argument("hold_ms", Kind::Integer, true), "How long the buttons stay pressed, in ms"),
            ],
            Tool::HoldButtons => vec![
                argument("controller", Kind::Text, true),
                argument("buttons", Kind::Buttons, true),
                describe(argument("hold_ms", Kind::Integer, true), "How long the buttons stay held, in ms"),
            ],
            Tool::RunActionSequence => vec![
                argument("controller", Kind::Text, true),
                argument("actions", Kind::Actions, true),
            ],
            Tool::SetAxis => vec![
                argument("controller", Kind::Text, true),
                argument("axis", Kind::Text, true),
                argument("value", Kind::Number, true),
            ],
            Tool::SetSticks => vec![
                argument("controller", Kind::Text, true),
                argument("left_x", Kind::Number, false),
                argument("left_y", Kind::Number, false),
                argument("right_x", Kind::Number, false),
                argument("right_y", Kind::Number, false),
                argument("left_trigger", Kind::Number, false),
                argument("right_trigger", Kind::Number, false),
            ],
            Tool::SetDpad => vec![
                argument("controller", Kind::Text, true),
                argument("direction", Kind::Text, true),
            ],
            Tool::SetState => vec![
                argument("controller", Kind::Text, true),
                argument("state", Kind::Object, true),
            ],
            Tool::GetState => vec![argument("controller", Kind::Text, true)],
            Tool::ResetController => vec![argument("controller", Kind::Text, true)],
            _ => Vec::new(),
        };
        assert(argument_views(arguments@) =~= tool_arguments(self));
        arguments
    }

    /// The schema of the arguments.
    pub fn input_schema(self) -> (schema: Json)
        ensures
            schema.view() == input_schema(self),
    {
        let arguments = self.arguments();
        let ghost views = argument_views(arguments@);
        let mut members: Vec<(String, Json)> = Vec::new();
        let mut required: Vec<Json> = Vec::new();
        for i in 0..arguments.len()
            invariant
                views == argument_views(arguments@),
                json::members(members@) == properties(views, i as nat),
                json::items(required@) == needed_names(views, i as nat),
        {
            assert(views[i as int] == arguments@[i as int].view());
            json::put(&mut members, arguments[i].name, arguments[i].schema());
            if arguments[i].required {
                let ghost before = required@;
                required.push(Json::text(arguments[i].name));
                assert(required@.drop_last() =~= before);
            }
        }
        proof {
            json::lemma_items(required@);
        }
        let mut schema: Vec<(String, Json)> = Vec::new();
        json::put(&mut schema, "type", Json::text("object"));
        json::put(&mut schema, "properties", Json::Object(members));
        if required.len() > 0 {
            json::put(&mut schema, "required", Json::Array(required));
        }
        Json::Object(schema)
    }

    /// What is announced of the tool.
    pub fn document(self) -> (document: Json)
        ensures
            document.view() == tool_document(self),
    {
        let mut entries: Vec<(String, Json)> = Vec::new();
        json::put(&mut entries, "name", Json::text(self.name()));
        json::put(&mut entries, "description", Json::text(self.description()));
        json::put(&mut entries, "inputSchema", self.input_schema());
        Json::Object(entries)
    }
}

/// An argument without a description.
fn argument(name: &'static str, kind: Kind, required: bool) -> (argument: Argument<&'static str>)
    ensures
        argument.view() == (Argument { name: name@, kind, description: None, required }),
{
    Argument { name, kind, description: None, required }
}

/// The argument with a description.
fn describe(argument: Argument<&'static str>, words: &'static str) -> (same: Argument<&'static str>)
    ensures
        same.view() == described(argument.view(), words@),
{
    Argument { description: Some(words), ..argument }
}

/// A list of two documents.
fn pair(first: Json, second: Json) -> (list: Json)
    ensures
        list.view() == JsonView::Array(seq![first.view(), second.view()]),
{
    let list: Vec<Json> = vec![first, second];
    proof {
        json::lemma_items(list@);
        assert(json::items(list@) =~= seq![first.view(), second.view()]);
    }
    Json::Array(list)
}

fn typed(name: &str) -> (schema: Json)
    ensures
        schema.view() == of_type(name@),
{
    Json::single("type", Json::text(name))
}

fn array_of(items: Json) -> (members: Vec<(String, Json)>)
    ensures
        json::members(members@) == Map::empty().insert("type"@, JsonView::Text("array"@)).insert(
            "items"@,
            items.view(),
        ),
{
    let mut members: Vec<(String, Json)> = Vec::new();
    json::put(&mut members, "type", Json::text("array"));
    json::put(&mut members, "items", items);
    members
}

fn buttons_members() -> (members: Vec<(String, Json)>)
    ensures
        json::members(members@) == buttons_schema()->Object_0,
{
    let forms: Vec<Json> = vec![
        typed("string"),
        Json::Object(array_of(typed("string"))),
        typed("integer"),
    ];
    proof {
        json::lemma_items(forms@);
        assert(json::items(forms@) =~= seq![
            of_type("string"@),
            JsonView::Object(
                Map::empty().insert("type"@, JsonView::Text("array"@)).insert(
                    "items"@,
                    of_type("string"@),
                ),
            ),
            of_type("integer"@),
        ]);
    }
    let mut members: Vec<(String, Json)> = Vec::new();
    json::put(&mut members, "oneOf", Json::Array(forms));
    members
}

fn action_json() -> (schema: Json)
    ensures
        schema.view() == action_schema(),
{
    let mut parts: Vec<(String, Json)> = Vec::new();
    json::put(&mut parts, "buttons", Json::Object(buttons_members()));
    json::put(&mut parts, "hold_ms", typed("integer"));
    let mut members: Vec<(String, Json)> = Vec::new();
    json::put(&mut members, "type", Json::text("object"));
    json::put(&mut members, "properties", Json::Object(parts));
    json::put(&mut members, "required", pair(Json::text("buttons"), Json::text("hold_ms")));
    Json::Object(members)
}

impl Argument<&'static str> {
    /// The schema of the argument.
    pub fn schema(&self) -> (schema: Json)
        ensures
            schema.view() == argument_schema(self.view()),
    {
        let mut members: Vec<(String, Json)> = Vec::new();
        match self.kind {
            Kind::Text => {
                json::put(&mut members, "type", Json::text("string"));
            },
            Kind::Integer => {
                json::put(&mut members, "type", Json::text("integer"));
            },
            Kind::Number => {
                json::put(&mut members, "type", Json::text("number"));
            },
            Kind::Object => {
                json::put(&mut members, "type", Json::text("object"));
            },
            Kind::Buttons => {
                members = buttons_members();
            },
            Kind::Actions => {
                members = array_of(action_json());
            },
        }
        if let Some(words) = self.description {
            json::put(&mut members, "description", Json::text(words));
        }
        Json::Object(members)
    }
}

/// What is announced of all tools.
pub fn tools() -> (list: Json)
    ensures
        list.view() == tool_list(),
{
    let mut list: Vec<Json> = Vec::new();
    for index in 0..TOOL_COUNT
        invariant
            list@.len() == index,
            forall|i: int|
                0 <= i < index ==> (#[trigger] list@[i]).view() == tool_document(tool_at(i as nat)),
    {
        list.push(Tool::at(index).document());
    }
    proof {
        json::lemma_items(list@);
        let all = Seq::new(TOOL_COUNT as nat, |i: int| tool_document(tool_at(i as nat)));
        assert forall|i: int| 0 <= i < TOOL_COUNT implies json::items(list@)[i] == all[i] by {
            assert(list@[i].view() == tool_document(tool_at(i as nat)));
        }
        assert(json::items(list@) =~= all);
    }
    Json::Array(list)
}

/// A tool is found by the name under which it is announced, and by no other, and
/// every tool is announced.
pub proof fn law_announced_tools_are_found(tool: Tool, name: Seq<char>)
    ensures
        tool_named(name) == Some(tool) <==> name == tool_name(tool),
        exists|index: nat| index < TOOL_COUNT && #[trigger] tool_at(index) == tool,
{
    reveal_strlit("start");
    reveal_strlit("status");
    reveal_strlit("install_driver");
    reveal_strlit("install_usbip_backend");
    reveal_strlit("load_profiles");
    reveal_strlit("list_profiles");
    reveal_strlit("create_controller");
    reveal_strlit("list_controllers");
    reveal_strlit("remove_controller");
    reveal_strlit("remove_all_controllers");
    reveal_strlit("press_buttons");
    reveal_strlit("release_buttons");
    reveal_strlit("set_buttons");
    reveal_strlit("tap_buttons");
    reveal_strlit("hold_buttons");
    reveal_strlit("run_action_sequence");
    reveal_strlit("set_axis");
    reveal_strlit("set_sticks");
    reveal_strlit("set_dpad");
    reveal_strlit("set_state");
    reveal_strlit("get_state");
    reveal_strlit("reset_controller");
    reveal_strlit("drain_output_events");
    reveal_strlit("shutdown");
    assert("start"@.len() == 5);
    assert("status"@.len() == 6);
    assert("install_driver"@.len() == 14);
    assert("install_usbip_backend"@.len() == 21);
    assert("load_profiles"@.len() == 13);
    assert("list_profiles"@.len() == 13);
    assert("create_controller"@.len() == 17);
    assert("list_controllers"@.len() == 16);
    assert("remove_controller"@.len() == 17);
    assert("remove_all_controllers"@.len() == 22);
    assert("press_buttons"@.len() == 13);
    assert("release_buttons"@.len() == 15);
    assert("set_buttons"@.len() == 11);
    assert("tap_buttons"@.len() == 11);
    assert("hold_buttons"@.len() == 12);
    assert("run_action_sequence"@.len() == 19);
    assert("set_axis"@.len() == 8);
    assert("set_sticks"@.len() == 10);
    assert("set_dpad"@.len() == 8);
    assert("set_state"@.len() == 9);
    assert("get_state"@.len() == 9);
    assert("reset_controller"@.len() == 16);
    assert("drain_output_events"@.len() == 19);
    assert("shutdown"@.len() == 8);
    assert("create_controller"@[0] == 'c');
    assert("drain_output_events"@[0] == 'd');
    assert("get_state"@[0] == 'g');
    assert("list_controllers"@[0] == 'l');
    assert("list_profiles"@[1] == 'i');
    assert("load_profiles"@[1] == 'o');
    assert("press_buttons"@[1] == 'r');
    assert("remove_controller"@[0] == 'r');
    assert("reset_controller"@[0] == 'r');
    assert("run_action_sequence"@[0] == 'r');
    assert("set_axis"@[4] == 'a');
    assert("set_buttons"@[0] == 's');
    assert("set_dpad"@[1] == 'e');
    assert("set_dpad"@[4] == 'd');
    assert("set_state"@[0] == 's');
    assert("shutdown"@[1] == 'h');
    assert("shutdown"@[4] == 'd');
    assert("tap_buttons"@[0] == 't');
    assert(tool_at(0) == Tool::Start);
    assert(tool_at(1) == Tool::Status);
    assert(tool_at(2) == Tool::InstallDriver);
    assert(tool_at(3) == Tool::InstallUsbipBackend);
    assert(tool_at(4) == Tool::LoadProfiles);
    assert(tool_at(5) == Tool::ListProfiles);
    assert(tool_at(6) == Tool::CreateController);
    assert(tool_at(7) == Tool::ListControllers);
    assert(tool_at(8) == Tool::RemoveController);
    assert(tool_at(9) == Tool::RemoveAllControllers);
    assert(tool_at(10) == Tool::PressButtons);
    assert(tool_at(11) == Tool::ReleaseButtons);
    assert(tool_at(12) == Tool::SetButtons);
    assert(tool_at(13) == Tool::TapButtons);
    assert(tool_at(14) == Tool::HoldButtons);
    assert(tool_at(15) == Tool::RunActionSequence);
    assert(tool_at(16) == Tool::SetAxis);
    assert(tool_at(17) == Tool::SetSticks);
    assert(tool_at(18) == Tool::SetDpad);
    assert(tool_at(19) == Tool::SetState);
    assert(tool_at(20) == Tool::GetState);
    assert(tool_at(21) == Tool::ResetController);
    assert(tool_at(22) == Tool::DrainOutputEvents);
    assert(tool_at(23) == Tool::Shutdown);
    assert(tool_named("start"@) == Some(Tool::Start));
    assert(tool_named("status"@) == Some(Tool::Status));
    assert(tool_named("install_driver"@) == Some(Tool::InstallDriver));
    assert(tool_named("install_usbip_backend"@) == Some(Tool::InstallUsbipBackend));
    assert(tool_named("load_profiles"@) == Some(Tool::LoadProfiles));
    assert(tool_named("list_profiles"@) == Some(Tool::ListProfiles));
    assert(tool_named("create_controller"@) == Some(Tool::CreateController));
    assert(tool_named("list_controllers"@) == Some(Tool::ListControllers));
    assert(tool_named("remove_controller"@) == Some(Tool::RemoveController));
    assert(tool_named("remove_all_controllers"@) == Some(Tool::RemoveAllControllers));
    assert(tool_named("press_buttons"@) == Some(Tool::PressButtons));
    assert(tool_named("release_buttons"@) == Some(Tool::ReleaseButtons));
    assert(tool_named("set_buttons"@) == Some(Tool::SetButtons));
    assert(tool_named("tap_buttons"@) == Some(Tool::TapButtons));
    assert(tool_named("hold_buttons"@) == Some(Tool::HoldButtons));
    assert(tool_named("run_action_sequence"@) == Some(Tool::RunActionSequence));
    assert(tool_named("set_axis"@) == Some(Tool::SetAxis));
    assert(tool_named("set_sticks"@) == Some(Tool::SetSticks));
    assert(tool_named("set_dpad"@) == Some(Tool::SetDpad));
    assert(tool_named("set_state"@) == Some(Tool::SetState));
    assert(tool_named("get_state"@) == Some(Tool::GetState));
    assert(tool_named("reset_controller"@) == Some(Tool::ResetController));
    assert(tool_named("drain_output_events"@) == Some(Tool::DrainOutputEvents));
    assert(tool_named("shutdown"@) == Some(Tool::Shutdown));
}

/// The names of the arguments of a tool differ.
pub proof fn lemma_argument_names_differ()
    ensures
        "controller"@ != "buttons"@,
        "controller"@ != "hold_ms"@,
        "buttons"@ != "hold_ms"@,
        "controller"@ != "actions"@,
        "controller"@ != "axis"@,
        "controller"@ != "value"@,
        "axis"@ != "value"@,
        "controller"@ != "left_x"@,
        "controller"@ != "left_y"@,
        "controller"@ != "right_x"@,
        "controller"@ != "right_y"@,
        "controller"@ != "left_trigger"@,
        "controller"@ != "right_trigger"@,
        "left_x"@ != "left_y"@,
        "left_x"@ != "right_x"@,
        "left_x"@ != "right_y"@,
        "left_x"@ != "left_trigger"@,
        "left_x"@ != "right_trigger"@,
        "left_y"@ != "right_x"@,
        "left_y"@ != "right_y"@,
        "left_y"@ != "left_trigger"@,
        "left_y"@ != "right_trigger"@,
        "right_x"@ != "right_y"@,
        "right_x"@ != "left_trigger"@,
        "right_x"@ != "right_trigger"@,
        "right_y"@ != "left_trigger"@,
        "right_y"@ != "right_trigger"@,
        "left_trigger"@ != "right_trigger"@,
        "controller"@ != "direction"@,
        "controller"@ != "state"@,
        "profile_id"@ != "index"@,
{
    reveal_strlit("controller");
    reveal_strlit("buttons");
    reveal_strlit("hold_ms");
    reveal_strlit("axis");
    reveal_strlit("value");
    reveal_strlit("actions");
    reveal_strlit("direction");
    reveal_strlit("state");
    reveal_strlit("profile_id");
    reveal_strlit("index");
    reveal_strlit("dir");
    reveal_strlit("filter");
    reveal_strlit("left_x");
    reveal_strlit("left_y");
    reveal_strlit("right_x");
    reveal_strlit("right_y");
    reveal_strlit("left_trigger");
    reveal_strlit("right_trigger");
    assert("controller"@.len() == 10);
    assert("buttons"@.len() == 7);
    assert("hold_ms"@.len() == 7);
    assert("axis"@.len() == 4);
    assert("value"@.len() == 5);
    assert("actions"@.len() == 7);
    assert("direction"@.len() == 9);
    assert("state"@.len() == 5);
    assert("profile_id"@.len() == 10);
    assert("index"@.len() == 5);
    assert("dir"@.len() == 3);
    assert("filter"@.len() == 6);
    assert("left_x"@.len() == 6);
    assert("left_y"@.len() == 6);
    assert("right_x"@.len() == 7);
    assert("right_y"@.len() == 7);
    assert("left_trigger"@.len() == 12);
    assert("right_trigger"@.len() == 13);
    assert("actions"@[0] == 'a');
    assert("buttons"@[0] == 'b');
    assert("controller"@[0] == 'c');
    assert("filter"@[0] == 'f');
    assert("hold_ms"@[0] == 'h');
    assert("index"@[0] == 'i');
    assert("left_x"@[0] == 'l');
    assert("left_x"@[5] == 'x');
    assert("left_y"@[0] == 'l');
    assert("left_y"@[5] == 'y');
    assert("profile_id"@[0] == 'p');
    assert("right_x"@[0] == 'r');
    assert("right_x"@[6] == 'x');
    assert("right_y"@[0] == 'r');
    assert("right_y"@[6] == 'y');
    assert("state"@[0] == 's');
    assert("value"@[0] == 'v');
}

/// The value is of the kind. Buttons may be anything; what is no name of buttons is told
/// apart later.
pub open spec fn is_of_kind(value: JsonView, kind: Kind) -> bool {
    match kind {
        Kind::Text => value is Text,
        Kind::Integer => value matches JsonView::Number(number) && number.unsigned is Some,
        Kind::Number => value is Number,
        Kind::Object => value is Object,
        Kind::Buttons => true,
        Kind::Actions => value is Array,
    }
}

/// The schema asks for the kind.
pub open spec fn schema_asks(schema: JsonView, kind: Kind) -> bool {
    match kind {
        Kind::Text => json::member(schema, "type"@) == Some(JsonView::Text("string"@)),
        Kind::Integer => json::member(schema, "type"@) == Some(JsonView::Text("integer"@)),
        Kind::Number => json::member(schema, "type"@) == Some(JsonView::Text("number"@)),
        Kind::Object => json::member(schema, "type"@) == Some(JsonView::Text("object"@)),
        Kind::Buttons => json::member(schema, "oneOf"@) matches Some(JsonView::Array(forms)) && {
            &&& forms.len() == 3
            &&& json::member(forms[0], "type"@) == Some(JsonView::Text("string"@))
            &&& json::member(forms[1], "type"@) == Some(JsonView::Text("array"@))
            &&& json::member(forms[1], "items"@) matches Some(item) && json::member(
                item,
                "type"@,
            ) == Some(JsonView::Text("string"@))
            &&& json::member(forms[2], "type"@) == Some(JsonView::Text("integer"@))
        },
        Kind::Actions => {
            &&& json::member(schema, "type"@) == Some(JsonView::Text("array"@))
            &&& json::member(schema, "items"@) matches Some(item) && {
                &&& json::member(item, "type"@) == Some(JsonView::Text("object"@))
                &&& json::member(item, "properties"@) matches Some(parts) && {
                    &&& json::member(parts, "buttons"@) matches Some(buttons) && json::member(
                        buttons,
                        "oneOf"@,
                    ) is Some
                    &&& json::member(parts, "hold_ms"@) matches Some(time) && json::member(
                        time,
                        "type"@,
                    ) == Some(JsonView::Text("integer"@))
                }
            }
        },
    }
}

proof fn lemma_schema_keys()
    ensures
        "type"@ != "properties"@,
        "type"@ != "required"@,
        "type"@ != "description"@,
        "type"@ != "oneOf"@,
        "type"@ != "items"@,
        "properties"@ != "required"@,
        "properties"@ != "description"@,
        "properties"@ != "oneOf"@,
        "properties"@ != "items"@,
        "required"@ != "description"@,
        "required"@ != "oneOf"@,
        "required"@ != "items"@,
        "description"@ != "oneOf"@,
        "description"@ != "items"@,
        "oneOf"@ != "items"@,
{
    reveal_strlit("type");
    reveal_strlit("properties");
    reveal_strlit("required");
    reveal_strlit("description");
    reveal_strlit("oneOf");
    reveal_strlit("items");
    assert("type"@.len() == 4);
    assert("properties"@.len() == 10);
    assert("required"@.len() == 8);
    assert("description"@.len() == 11);
    assert("oneOf"@.len() == 5);
    assert("items"@.len() == 5);
    assert("items"@[0] == 'i');
    assert("oneOf"@[0] == 'o');
}

#[verifier::rlimit(50)]
proof fn lemma_schema_asks(argument: Argument<Seq<char>>)
    ensures
        schema_asks(argument_schema(argument), argument.kind),
        argument.description matches Some(words) ==> json::member(
            argument_schema(argument),
            "description"@,
        ) == Some(JsonView::Text(words)),
{
    lemma_schema_keys();
    lemma_argument_names_differ();
}

/// No two arguments have one name.
pub open spec fn distinct_arguments(arguments: Seq<Argument<Seq<char>>>) -> bool {
    forall|i: int, j: int|
        0 <= i < j < arguments.len() ==> (#[trigger] arguments[i]).name != (
        #[trigger] arguments[j]).name
}

/// The arguments of a tool have different names.
#[verifier::rlimit(50)]
pub proof fn lemma_distinct_arguments(tool: Tool)
    ensures
        distinct_arguments(tool_arguments(tool)),
{
    lemma_argument_names_differ();
}

proof fn lemma_properties(arguments: Seq<Argument<Seq<char>>>, count: nat, at: int)
    requires
        distinct_arguments(arguments),
        0 <= at < count <= arguments.len(),
    ensures
        properties(arguments, count).contains_key(arguments[at].name),
        properties(arguments, count)[arguments[at].name] == argument_schema(arguments[at]),
    decreases count,
{
    if at < count - 1 {
        lemma_properties(arguments, (count - 1) as nat, at);
        assert(arguments[at].name != arguments[count - 1].name);
    }
}

proof fn lemma_needed_names(arguments: Seq<Argument<Seq<char>>>, count: nat, at: int)
    requires
        distinct_arguments(arguments),
        count <= arguments.len(),
        0 <= at < arguments.len(),
    ensures
        needed_names(arguments, count).contains(JsonView::Text(arguments[at].name)) <==> (at < count
            && arguments[at].required),
    decreases count,
{
    if count > 0 {
        lemma_needed_names(arguments, (count - 1) as nat, at);
        let before = needed_names(arguments, (count - 1) as nat);
        let after = needed_names(arguments, count);
        let wanted = JsonView::Text(arguments[at].name);
        let last = arguments[count - 1];
        if last.required {
            assert(after == before.push(JsonView::Text(last.name)));
            assert(after[after.len() - 1] == JsonView::Text(last.name));
            if before.contains(wanted) {
                let k = choose|k: int| 0 <= k < before.len() && before[k] == wanted;
                assert(after[k] == wanted);
            }
            if after.contains(wanted) && at != count - 1 {
                let k = choose|k: int| 0 <= k < after.len() && after[k] == wanted;
                if k == after.len() - 1 {
                    if at < count - 1 {
                        assert(arguments[at].name != arguments[count - 1].name);
                    } else {
                        assert(arguments[count - 1].name != arguments[at].name);
                    }
                } else {
                    assert(before[k] == wanted);
                }
            }
        }
    }
}

/// The schema of a tool announces each of its arguments under its name and with its kind,
/// and lists as required exactly those that are.
pub proof fn law_schema_announces_arguments(tool: Tool, at: int)
    requires
        0 <= at < tool_arguments(tool).len(),
    ensures
        ({
            let argument = tool_arguments(tool)[at];
            let schema = input_schema(tool);
            let required = json::member(schema, "required"@);
            &&& json::member(schema, "type"@) == Some(JsonView::Text("object"@))
            &&& json::member(schema, "properties"@) matches Some(parts) && (json::member(
                parts,
                argument.name,
            ) matches Some(part) && schema_asks(part, argument.kind))
            &&& argument.required <==> (required matches Some(JsonView::Array(names))
                && names.contains(JsonView::Text(argument.name)))
        }),
{
    let arguments = tool_arguments(tool);
    lemma_schema_keys();
    lemma_distinct_arguments(tool);
    lemma_properties(arguments, arguments.len(), at);
    lemma_needed_names(arguments, arguments.len(), at);
    lemma_schema_asks(arguments[at]);
}

/// A tool is announced, under its name, with what it does.
#[verifier::rlimit(50)]
pub proof fn law_tools_are_described(name: Seq<char>)
    ensures
        name == "start"@ ==> (tool_named(name) matches Some(tool) && tool_description(tool)
            == "Start the hidmaestro bridge process (usually automatic)."@),
        name == "status"@ ==> (tool_named(name) matches Some(tool) && tool_description(tool)
            == "Bridge/driver status and live controllers."@),
        name == "install_driver"@ ==> (tool_named(name) matches Some(tool) && tool_description(tool)
            == "Install the HIDMaestro UMDF2 driver. Requires an elevated host the first time."@),
        name == "install_usbip_backend"@ ==> (tool_named(name) matches Some(tool) && tool_description(tool)
            == "Install the usbip-win2 backend needed by '-composite' profiles."@),
        name == "load_profiles"@ ==> (tool_named(name) matches Some(tool) && tool_description(tool)
            == "Load the profile catalog (or a directory of profile JSONs)."@),
        name == "list_profiles"@ ==> (tool_named(name) matches Some(tool) && tool_description(tool)
            == "List loaded device profiles (virtual controller models)."@),
        name == "create_controller"@ ==> (tool_named(name) matches Some(tool) && tool_description(tool)
            == "Create a virtual controller from a profile id (e.g. 'xbox-360-wired', 'dualsense')."@),
        name == "list_controllers"@ ==> (tool_named(name) matches Some(tool) && tool_description(tool)
            == "List live virtual controllers and their keys."@),
        name == "remove_controller"@ ==> (tool_named(name) matches Some(tool) && tool_description(tool)
            == "Hot-unplug a virtual controller."@),
        name == "remove_all_controllers"@ ==> (tool_named(name) matches Some(tool) && tool_description(tool)
            == "Remove every virtual controller, including strays from previous sessions."@),
        name == "press_buttons"@ ==> (tool_named(name) matches Some(tool) && tool_description(tool)
            == "Hold buttons down; with hold_ms, taps instead. Names: a,b,x,y,left_bumper,right_bumper,back,start,left_stick,right_stick,guide,touchpad,share,misc1 (PlayStation aliases cross,circle,square,triangle work too)."@),
        name == "release_buttons"@ ==> (tool_named(name) matches Some(tool) && tool_description(tool)
            == "Release held buttons."@),
        name == "set_buttons"@ ==> (tool_named(name) matches Some(tool) && tool_description(tool)
            == "Replace the entire pressed-button set."@),
        name == "tap_buttons"@ ==> (tool_named(name) matches Some(tool) && tool_description(tool)
            == "Press buttons, then release them after hold_ms."@),
        name == "hold_buttons"@ ==> (tool_named(name) matches Some(tool) && tool_description(tool)
            == "Hold buttons for hold_ms, then let go."@),
        name == "run_action_sequence"@ ==> (tool_named(name) matches Some(tool) && tool_description(tool)
            == "Hold sets of buttons one after the other, each for its hold_ms. At most 64 actions and 60000 ms in all."@),
        name == "set_axis"@ ==> (tool_named(name) matches Some(tool) && tool_description(tool)
            == "Set one analog axis by name (0.0..1.0; 0.5 = stick center, 0.0 = trigger released). Names: x,y,z,rx,ry,rz,slider,dial,wheel,throttle,brake,clutch,rudder, or a raw usage like '0x0130'."@),
        name == "set_sticks"@ ==> (tool_named(name) matches Some(tool) && tool_description(tool)
            == "Set canonical sticks/triggers (each 0.0..1.0; omitted fields unchanged)."@),
        name == "set_dpad"@ ==> (tool_named(name) matches Some(tool) && tool_description(tool)
            == "Set the d-pad: none, up, up_right, right, down_right, down, down_left, left, up_left."@),
        name == "set_state"@ ==> (tool_named(name) matches Some(tool) && tool_description(tool)
            == "Patch several state fields at once (buttons, hat, axes, standard_axes)."@),
        name == "get_state"@ ==> (tool_named(name) matches Some(tool) && tool_description(tool)
            == "Return the server's mirrored state for a controller."@),
        name == "reset_controller"@ ==> (tool_named(name) matches Some(tool) && tool_description(tool)
            == "Reset a controller to neutral (sticks centered, nothing held)."@),
        name == "drain_output_events"@ ==> (tool_named(name) matches Some(tool) && tool_description(tool)
            == "Drain raw and decoded output reports (rumble/LED/FFB writes games sent to the virtual pad)."@),
        name == "shutdown"@ ==> (tool_named(name) matches Some(tool) && tool_description(tool)
            == "Stop the bridge and remove all virtual controllers."@),
{
    law_announced_tools_are_found(Tool::Start, "start"@);
    law_announced_tools_are_found(Tool::Status, "status"@);
    law_announced_tools_are_found(Tool::InstallDriver, "install_driver"@);
    law_announced_tools_are_found(Tool::InstallUsbipBackend, "install_usbip_backend"@);
    law_announced_tools_are_found(Tool::LoadProfiles, "load_profiles"@);
    law_announced_tools_are_found(Tool::ListProfiles, "list_profiles"@);
    law_announced_tools_are_found(Tool::CreateController, "create_controller"@);
    law_announced_tools_are_found(Tool::ListControllers, "list_controllers"@);
    law_announced_tools_are_found(Tool::RemoveController, "remove_controller"@);
    law_announced_tools_are_found(Tool::RemoveAllControllers, "remove_all_controllers"@);
    law_announced_tools_are_found(Tool::PressButtons, "press_buttons"@);
    law_announced_tools_are_found(Tool::ReleaseButtons, "release_buttons"@);
    law_announced_tools_are_found(Tool::SetButtons, "set_buttons"@);
    law_announced_tools_are_found(Tool::TapButtons, "tap_buttons"@);
    law_announced_tools_are_found(Tool::HoldButtons, "hold_buttons"@);
    law_announced_tools_are_found(Tool::RunActionSequence, "run_action_sequence"@);
    law_announced_tools_are_found(Tool::SetAxis, "set_axis"@);
    law_announced_tools_are_found(Tool::SetSticks, "set_sticks"@);
    law_announced_tools_are_found(Tool::SetDpad, "set_dpad"@);
    law_announced_tools_are_found(Tool::SetState, "set_state"@);
    law_announced_tools_are_found(Tool::GetState, "get_state"@);
    law_announced_tools_are_found(Tool::ResetController, "reset_controller"@);
    law_announced_tools_are_found(Tool::DrainOutputEvents, "drain_output_events"@);
    law_announced_tools_are_found(Tool::Shutdown, "shutdown"@);
}

/// What is announced of a tool holds its name, what it does and its schema, and the list
/// holds every tool.
pub proof fn law_tools_are_listed(tool: Tool)
    ensures
        json::member(tool_document(tool), "name"@) == Some(JsonView::Text(tool_name(tool))),
        json::member(tool_document(tool), "description"@) == Some(
            JsonView::Text(tool_description(tool)),
        ),
        json::member(tool_document(tool), "inputSchema"@) == Some(input_schema(tool)),
        tool_list() matches JsonView::Array(list) && list.contains(tool_document(tool)),
{
    reveal_strlit("name");
    reveal_strlit("description");
    reveal_strlit("inputSchema");
    assert("name"@.len() == 4);
    assert("description"@.len() == 11);
    assert("inputSchema"@.len() == 11);
    assert("description"@[0] == 'd');
    assert("inputSchema"@[0] == 'i');
    law_announced_tools_are_found(tool, tool_name(tool));
    let index = choose|index: nat| index < TOOL_COUNT && #[trigger] tool_at(index) == tool;
    let list = tool_list()->Array_0;
    assert(list[index as int] == tool_document(tool));
}

} // verus!
