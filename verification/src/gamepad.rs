//! The state of a virtual controller, and what the bridge reports of it.

use std::collections::BTreeMap;

use vstd::prelude::*;
use vstd::std_specs::cmp::OrdSpec;
use vstd::std_specs::iter::IteratorSpec;

use crate::json;
use crate::json::Json;
use crate::single;
use crate::single::Single;
use crate::state::{Axis, Buttons, Hat};

verus! {

broadcast use {vstd::laws_cmp::group_laws_cmp, vstd::std_specs::btree::group_btree_axioms};

/// Values of axes, by usage.
#[derive(Debug, PartialEq)]
pub struct AxisValues {
    values: BTreeMap<u16, Single>,
}

/// The entries stand in the order of the usages, each usage once.
pub open spec fn ordered(entries: Seq<(Axis, Single)>) -> bool {
    forall|i: int, j: int|
        0 <= i < j < entries.len() ==> (#[trigger] entries[i]).0.0 < (#[trigger] entries[j]).0.0
}

/// The value of a usage among ordered entries.
pub open spec fn entry_of(entries: Seq<(Axis, Single)>, usage: u16) -> Option<Single>
    decreases entries.len(),
{
    if entries.len() == 0 {
        None
    } else if entries.last().0.0 == usage {
        Some(entries.last().1)
    } else {
        entry_of(entries.drop_last(), usage)
    }
}

/// The entries as a map from usages to values.
pub open spec fn entry_map(entries: Seq<(Axis, Single)>) -> Map<u16, Single> {
    Map::new(
        |usage: u16| entry_of(entries, usage) is Some,
        |usage: u16| entry_of(entries, usage)->0,
    )
}

proof fn lemma_entry_of(entries: Seq<(Axis, Single)>, usage: u16)
    requires
        ordered(entries),
    ensures
        entry_of(entries, usage) is None ==> forall|i: int|
            0 <= i < entries.len() ==> (#[trigger] entries[i]).0.0 != usage,
        forall|i: int|
            0 <= i < entries.len() && (#[trigger] entries[i]).0.0 == usage ==> entry_of(
                entries,
                usage,
            ) == Some(entries[i].1),
        entry_of(entries, usage) is Some ==> exists|i: int|
            0 <= i < entries.len() && (#[trigger] entries[i]).0.0 == usage,
    decreases entries.len(),
{
    if entries.len() > 0 {
        let shorter = entries.drop_last();
        assert(ordered(shorter)) by {
            assert forall|i: int, j: int| 0 <= i < j < shorter.len() implies (
            #[trigger] shorter[i]).0.0 < (#[trigger] shorter[j]).0.0 by {
                assert(entries[i].0.0 < entries[j].0.0);
            }
        }
        lemma_entry_of(shorter, usage);
        assert forall|i: int|
            0 <= i < entries.len() && (#[trigger] entries[i]).0.0 == usage implies entry_of(
            entries,
            usage,
        ) == Some(entries[i].1) by {
            if i < shorter.len() {
                assert(shorter[i] == entries[i]);
                assert(entries[i].0.0 < entries[entries.len() - 1].0.0);
            }
        }
        if entries.last().0.0 == usage {
            assert(entries[entries.len() - 1].0.0 == usage);
        } else if entry_of(entries, usage) is Some {
            let i = choose|i: int| 0 <= i < shorter.len() && (#[trigger] shorter[i]).0.0 == usage;
            assert(entries[i].0.0 == usage);
        } else {
            assert forall|i: int| 0 <= i < entries.len() implies (#[trigger] entries[i]).0.0
                != usage by {
                if i < shorter.len() {
                    assert(shorter[i].0.0 != usage);
                }
            }
        }
    }
}

impl AxisValues {
    /// The values by usage.
    pub closed spec fn view(self) -> Map<u16, Single> {
        self.values@
    }

    /// No values.
    pub fn new() -> (values: AxisValues)
        ensures
            values@ == Map::<u16, Single>::empty(),
    {
        AxisValues { values: BTreeMap::new() }
    }

    /// The values in the order of the usages.
    pub fn entries(&self) -> (entries: Vec<(Axis, Single)>)
        ensures
            ordered(entries@),
            self@ == entry_map(entries@),
    {
        let pairs = self.values.iter();
        let ghost all = pairs.remaining();
        let mut entries: Vec<(Axis, Single)> = Vec::new();
        for pair in iter: pairs
            invariant
                iter.seq() == all,
                entries@.len() == iter.index(),
                forall|k: int|
                    0 <= k < entries@.len() ==> (#[trigger] entries@[k]) == (
                        Axis(*all[k].0),
                        *all[k].1,
                    ),
        {
            entries.push((Axis(*pair.0), *pair.1));
        }
        proof {
            let keys = all.map_values(|kv: (&u16, &Single)| *kv.0);
            assert(vstd::std_specs::btree::increasing_seq(keys));
            assert forall|i: int, j: int| 0 <= i < j < entries@.len() implies (
            #[trigger] entries@[i]).0.0 < (#[trigger] entries@[j]).0.0 by {
                assert(keys[i] == *all[i].0);
                assert(keys[j] == *all[j].0);
                assert(keys[i].cmp_spec(&keys[j]) is Less);
            }
            assert forall|usage: u16| self@.contains_key(usage) == (entry_of(
                entries@,
                usage,
            ) is Some) && (self@.contains_key(usage) ==> entry_of(entries@, usage) == Some(
                self@[usage],
            )) by {
                lemma_entry_of(entries@, usage);
                if self@.contains_key(usage) {
                    assert(all.contains((&usage, &self@[usage])));
                    let k = choose|k: int| 0 <= k < all.len() && all[k] == (&usage, &self@[usage]);
                    assert(entries@[k].0.0 == usage);
                }
                if entry_of(entries@, usage) is Some {
                    let k = choose|k: int|
                        0 <= k < entries@.len() && (#[trigger] entries@[k]).0.0 == usage;
                    assert(self@.contains_key(*all[k].0));
                }
            }
            assert(self@ =~= entry_map(entries@));
        }
        entries
    }

    /// The value of an axis.
    pub fn get(&self, axis: Axis) -> (value: Option<Single>)
        ensures
            value == (if self@.contains_key(axis.0) {
                Some(self@[axis.0])
            } else {
                None
            }),
    {
        match self.values.get(&axis.0) {
            Some(value) => Some(*value),
            None => None,
        }
    }

    /// These values, with the value of one axis put in place of the old one.
    pub fn with(&self, axis: Axis, value: Single) -> (values: AxisValues)
        ensures
            values@ == self@.insert(axis.0, value),
    {
        let mut values = self.values.clone();
        let _ = values.insert(axis.0, value);
        AxisValues { values }
    }
}

impl Clone for AxisValues {
    fn clone(&self) -> (copy: AxisValues)
        ensures
            copy@ == self@,
    {
        AxisValues { values: self.values.clone() }
    }
}

/// The six canonical axes of a gamepad. The bridge finds the HID axes for them
/// in the profile. A field without a value stays at its default: sticks
/// centered, triggers released.
#[derive(Clone, Copy, Debug, PartialEq)]
pub struct StandardAxes {
    pub left_stick_x: Option<Single>,
    pub left_stick_y: Option<Single>,
    pub right_stick_x: Option<Single>,
    pub right_stick_y: Option<Single>,
    pub left_trigger: Option<Single>,
    pub right_trigger: Option<Single>,
}

/// Every axis at its default.
pub open spec fn default_axes() -> StandardAxes {
    StandardAxes {
        left_stick_x: None,
        left_stick_y: None,
        right_stick_x: None,
        right_stick_y: None,
        left_trigger: None,
        right_trigger: None,
    }
}

/// A new value, limited to the unit range, in place of the old one if there is
/// a new one.
pub open spec fn moved(old_value: Option<Single>, new_value: Option<Single>) -> Option<Single> {
    match new_value {
        Some(value) => Some(single::unit_clamped(value)),
        None => old_value,
    }
}

/// The axes after those that have a value in `change` are set.
pub open spec fn moved_axes(axes: StandardAxes, change: StandardAxes) -> StandardAxes {
    StandardAxes {
        left_stick_x: moved(axes.left_stick_x, change.left_stick_x),
        left_stick_y: moved(axes.left_stick_y, change.left_stick_y),
        right_stick_x: moved(axes.right_stick_x, change.right_stick_x),
        right_stick_y: moved(axes.right_stick_y, change.right_stick_y),
        left_trigger: moved(axes.left_trigger, change.left_trigger),
        right_trigger: moved(axes.right_trigger, change.right_trigger),
    }
}

fn move_axis(old_value: Option<Single>, new_value: Option<Single>) -> (value: Option<Single>)
    ensures
        value == moved(old_value, new_value),
{
    match new_value {
        Some(value) => Some(value.clamp_unit()),
        None => old_value,
    }
}

impl StandardAxes {
    /// Sets the axes that have a value in `change`, each limited to the unit
    /// range.
    pub fn with(self, change: StandardAxes) -> (axes: StandardAxes)
        ensures
            axes == moved_axes(self, change),
    {
        StandardAxes {
            left_stick_x: move_axis(self.left_stick_x, change.left_stick_x),
            left_stick_y: move_axis(self.left_stick_y, change.left_stick_y),
            right_stick_x: move_axis(self.right_stick_x, change.right_stick_x),
            right_stick_y: move_axis(self.right_stick_y, change.right_stick_y),
            left_trigger: move_axis(self.left_trigger, change.left_trigger),
            right_trigger: move_axis(self.right_trigger, change.right_trigger),
        }
    }
}

/// Every axis at its default.
impl Default for StandardAxes {
    fn default() -> (axes: StandardAxes)
        ensures
            axes == default_axes(),
    {
        StandardAxes {
            left_stick_x: None,
            left_stick_y: None,
            right_stick_x: None,
            right_stick_y: None,
            left_trigger: None,
            right_trigger: None,
        }
    }
}

/// The abstract state that is pushed to a virtual controller. The bridge turns
/// it into the native report of the profile.
#[derive(Debug, PartialEq)]
pub struct GamepadState {
    /// Pressed buttons.
    pub buttons: Buttons,
    /// Octant of the d-pad.
    pub hat: Hat,
    /// Angle of the d-pad in degrees, clockwise from north. Goes before `hat`.
    pub hat_degrees: Option<Single>,
    /// Any axis that the descriptor declares, by HID usage. Goes on top of
    /// `standard_axes`.
    pub axes: AxisValues,
    /// The canonical axes.
    pub standard_axes: Option<StandardAxes>,
    /// Battery capacity from 0 to 10.
    pub battery_level: Option<u8>,
    /// Whether the battery is charging.
    pub battery_charging: Option<bool>,
    /// Accelerometer in g: right, up, toward the player.
    pub accel_g: Option<[Single; 3]>,
    /// Gyroscope in degrees per second, around the same axes.
    pub gyro_dps: Option<[Single; 3]>,
}

/// A controller state as a mathematical value.
#[verifier::ext_equal]
pub struct GamepadView {
    pub buttons: u32,
    pub hat: Hat,
    pub hat_degrees: Option<Single>,
    pub axes: Map<u16, Single>,
    pub standard_axes: Option<StandardAxes>,
    pub battery_level: Option<u8>,
    pub battery_charging: Option<bool>,
    pub accel_g: Option<[Single; 3]>,
    pub gyro_dps: Option<[Single; 3]>,
}

/// Nothing held: sticks centered, triggers released.
pub open spec fn neutral_view() -> GamepadView {
    GamepadView {
        buttons: 0,
        hat: Hat::Neutral,
        hat_degrees: None,
        axes: Map::empty(),
        standard_axes: None,
        battery_level: None,
        battery_charging: None,
        accel_g: None,
        gyro_dps: None,
    }
}

/// A change of a controller state.
#[derive(Clone, Copy, Debug, PartialEq)]
pub enum StateEdit {
    /// Hold buttons down, without releasing others.
    Press(Buttons),
    /// Release buttons, leaving others held.
    Release(Buttons),
    /// Hold exactly these buttons.
    SetButtons(Buttons),
    /// Set the d-pad to a direction.
    SetHat(Hat),
    /// Set one axis, limited to the unit range.
    SetAxis(Axis, Single),
    /// Replace the canonical axes.
    SetStandardAxes(StandardAxes),
    /// Set those canonical axes that have a value, limited to the unit range.
    MoveSticks(StandardAxes),
    /// Back to neutral.
    Reset,
}

/// The state after a change.
pub open spec fn edited(state: GamepadView, edit: StateEdit) -> GamepadView {
    match edit {
        StateEdit::Press(buttons) => GamepadView {
            buttons: state.buttons | buttons.mask(),
            ..state
        },
        StateEdit::Release(buttons) => GamepadView {
            buttons: state.buttons & !buttons.mask(),
            ..state
        },
        StateEdit::SetButtons(buttons) => GamepadView { buttons: buttons.mask(), ..state },
        StateEdit::SetHat(hat) => GamepadView { hat: hat, hat_degrees: None, ..state },
        StateEdit::SetAxis(axis, value) => GamepadView {
            axes: state.axes.insert(axis.0, single::unit_clamped(value)),
            ..state
        },
        StateEdit::SetStandardAxes(axes) => GamepadView { standard_axes: Some(axes), ..state },
        StateEdit::MoveSticks(change) => GamepadView {
            standard_axes: Some(
                moved_axes(
                    match state.standard_axes {
                        Some(axes) => axes,
                        None => default_axes(),
                    },
                    change,
                ),
            ),
            ..state
        },
        StateEdit::Reset => neutral_view(),
    }
}

impl GamepadState {
    /// The state as a mathematical value.
    pub open spec fn view(self) -> GamepadView {
        GamepadView {
            buttons: self.buttons.mask(),
            hat: self.hat,
            hat_degrees: self.hat_degrees,
            axes: self.axes@,
            standard_axes: self.standard_axes,
            battery_level: self.battery_level,
            battery_charging: self.battery_charging,
            accel_g: self.accel_g,
            gyro_dps: self.gyro_dps,
        }
    }

    /// Neutral state: all sticks centered, triggers released, nothing held.
    pub fn neutral() -> (state: GamepadState)
        ensures
            state@ == neutral_view(),
    {
        GamepadState {
            buttons: Buttons::empty(),
            hat: Hat::Neutral,
            hat_degrees: None,
            axes: AxisValues::new(),
            standard_axes: None,
            battery_level: None,
            battery_charging: None,
            accel_g: None,
            gyro_dps: None,
        }
    }

    /// The state after a change.
    pub fn edit(&self, edit: StateEdit) -> (state: GamepadState)
        ensures
            state@ == edited(self@, edit),
    {
        match edit {
            StateEdit::Press(buttons) => {
                let mut state = self.clone();
                state.buttons = self.buttons.union(buttons);
                state
            },
            StateEdit::Release(buttons) => {
                let mut state = self.clone();
                state.buttons = self.buttons.difference(buttons);
                state
            },
            StateEdit::SetButtons(buttons) => {
                let mut state = self.clone();
                state.buttons = buttons;
                state
            },
            StateEdit::SetHat(hat) => {
                let mut state = self.clone();
                state.hat = hat;
                state.hat_degrees = None;
                state
            },
            StateEdit::SetAxis(axis, value) => {
                let mut state = self.clone();
                state.axes = self.axes.with(axis, value.clamp_unit());
                state
            },
            StateEdit::SetStandardAxes(axes) => {
                let mut state = self.clone();
                state.standard_axes = Some(axes);
                state
            },
            StateEdit::MoveSticks(change) => {
                let axes: StandardAxes = match self.standard_axes {
                    Some(axes) => axes,
                    None => StandardAxes::default(),
                };
                let mut state = self.clone();
                state.standard_axes = Some(axes.with(change));
                state
            },
            StateEdit::Reset => GamepadState::neutral(),
        }
    }
}

impl Clone for GamepadState {
    fn clone(&self) -> (copy: GamepadState)
        ensures
            copy@ == self@,
    {
        GamepadState {
            buttons: self.buttons,
            hat: self.hat,
            hat_degrees: self.hat_degrees,
            axes: self.axes.clone(),
            standard_axes: self.standard_axes,
            battery_level: self.battery_level,
            battery_charging: self.battery_charging,
            accel_g: self.accel_g,
            gyro_dps: self.gyro_dps,
        }
    }
}

/// Nothing held.
impl Default for GamepadState {
    fn default() -> (state: GamepadState)
        ensures
            state@ == neutral_view(),
    {
        GamepadState::neutral()
    }
}

/// What a profile says of a device model.
#[derive(Debug, PartialEq, Eq)]
pub struct Profile {
    pub id: String,
    pub name: String,
    pub vendor: String,
    pub vendor_id: u16,
    pub product_id: u16,
    pub display_name: String,
    pub connection: String,
    pub backend: String,
    pub button_count: usize,
    pub axis_count: usize,
    pub has_hat: bool,
    pub deployable: bool,
    pub requires_usbip_backend: bool,
}

impl Clone for Profile {
    fn clone(&self) -> (copy: Profile)
        ensures
            copy == *self,
    {
        Profile {
            id: self.id.clone(),
            name: self.name.clone(),
            vendor: self.vendor.clone(),
            vendor_id: self.vendor_id,
            product_id: self.product_id,
            display_name: self.display_name.clone(),
            connection: self.connection.clone(),
            backend: self.backend.clone(),
            button_count: self.button_count,
            axis_count: self.axis_count,
            has_hat: self.has_hat,
            deployable: self.deployable,
            requires_usbip_backend: self.requires_usbip_backend,
        }
    }
}

/// A live controller.
#[derive(Debug, PartialEq, Eq)]
pub struct ControllerInfo {
    pub key: String,
    pub profile_id: String,
}

impl Clone for ControllerInfo {
    fn clone(&self) -> (copy: ControllerInfo)
        ensures
            copy == *self,
    {
        ControllerInfo { key: self.key.clone(), profile_id: self.profile_id.clone() }
    }
}

/// An output report (rumble, LEDs, force feedback) that the bridge forwards.
/// Each packet gives a raw event, and a second one with decoded fields where
/// the packet can be decoded.
#[derive(Debug, PartialEq)]
pub struct OutputEvent {
    pub controller: String,
    pub report_id: u8,
    pub fields: Vec<(String, Json)>,
    pub raw: Vec<u8>,
    /// False for a raw event, and where the checksum failed.
    pub crc_valid: bool,
}

/// The same event.
impl Clone for OutputEvent {
    fn clone(&self) -> (copy: OutputEvent)
        ensures
            copy.controller == self.controller,
            copy.report_id == self.report_id,
            json::members(copy.fields@) == json::members(self.fields@),
            copy.raw@ == self.raw@,
            copy.crc_valid == self.crc_valid,
    {
        let mut fields: Vec<(String, Json)> = Vec::new();
        for i in 0..self.fields.len()
            invariant
                json::members(fields@) == json::members(self.fields@.take(i as int)),
        {
            let ghost before = fields@;
            assert(self.fields@.take(i + 1).drop_last() =~= self.fields@.take(i as int));
            fields.push((self.fields[i].0.clone(), self.fields[i].1.clone()));
            assert(fields@.drop_last() =~= before);
        }
        let mut raw: Vec<u8> = Vec::new();
        for i in 0..self.raw.len()
            invariant
                raw@ == self.raw@.take(i as int),
        {
            raw.push(self.raw[i]);
            assert(raw@ =~= self.raw@.take(i + 1));
        }
        assert(self.fields@.take(self.fields@.len() as int) =~= self.fields@);
        assert(raw@ =~= self.raw@);
        OutputEvent {
            controller: self.controller.clone(),
            report_id: self.report_id,
            fields,
            raw,
            crc_valid: self.crc_valid,
        }
    }
}

/// Holding and then releasing buttons releases exactly those, and every other
/// part of the state stays.
pub proof fn law_press_then_release(state: GamepadView, buttons: Buttons)
    ensures
        edited(edited(state, StateEdit::Press(buttons)), StateEdit::Release(buttons)) == edited(
            state,
            StateEdit::Release(buttons),
        ),
        edited(edited(state, StateEdit::Press(buttons)), StateEdit::Press(buttons)) == edited(
            state,
            StateEdit::Press(buttons),
        ),
        edited(state, StateEdit::Press(buttons)).buttons & buttons.mask() == buttons.mask(),
        edited(state, StateEdit::Press(buttons)).buttons & !buttons.mask() == state.buttons
            & !buttons.mask(),
        edited(state, StateEdit::Release(buttons)).buttons & buttons.mask() == 0,
        edited(state, StateEdit::Release(buttons)).buttons & !buttons.mask() == state.buttons
            & !buttons.mask(),
{
    let a = state.buttons;
    let b = buttons.mask();
    assert((a | b) & !b == a & !b) by (bit_vector);
    assert((a | b) | b == a | b) by (bit_vector);
    assert((a | b) & b == b) by (bit_vector);
    assert((a & !b) & b == 0) by (bit_vector);
    assert((a & !b) & !b == a & !b) by (bit_vector);
}

/// A discrete direction clears the angle.
pub proof fn law_direction_clears_angle(state: GamepadView, hat: Hat)
    ensures
        edited(state, StateEdit::SetHat(hat)).hat == hat,
        edited(state, StateEdit::SetHat(hat)).hat_degrees is None,
{
}

/// Every value of the canonical axes is missing or in the unit range.
pub open spec fn axes_in_range(axes: StandardAxes) -> bool {
    &&& axes.left_stick_x matches Some(value) ==> single::in_unit_range(value)
    &&& axes.left_stick_y matches Some(value) ==> single::in_unit_range(value)
    &&& axes.right_stick_x matches Some(value) ==> single::in_unit_range(value)
    &&& axes.right_stick_y matches Some(value) ==> single::in_unit_range(value)
    &&& axes.left_trigger matches Some(value) ==> single::in_unit_range(value)
    &&& axes.right_trigger matches Some(value) ==> single::in_unit_range(value)
}

/// Every value of the canonical axes is missing or a number.
pub open spec fn axes_are_numbers(axes: StandardAxes) -> bool {
    &&& axes.left_stick_x matches Some(value) ==> !single::is_nan(value)
    &&& axes.left_stick_y matches Some(value) ==> !single::is_nan(value)
    &&& axes.right_stick_x matches Some(value) ==> !single::is_nan(value)
    &&& axes.right_stick_y matches Some(value) ==> !single::is_nan(value)
    &&& axes.left_trigger matches Some(value) ==> !single::is_nan(value)
    &&& axes.right_trigger matches Some(value) ==> !single::is_nan(value)
}

/// An axis that is set to a number ends up in the unit range, and no other axis
/// moves.
pub proof fn law_set_axis_in_range(state: GamepadView, axis: Axis, value: Single, other: u16)
    requires
        !single::is_nan(value),
    ensures
        ({
            let after = edited(state, StateEdit::SetAxis(axis, value)).axes;
            &&& after.contains_key(axis.0) && single::in_unit_range(after[axis.0])
            &&& other != axis.0 ==> after.contains_key(other) == state.axes.contains_key(other)
                && after[other] == state.axes[other]
        }),
{
    single::law_clamp(value);
}

/// Sticks and triggers that are moved by numbers stay in the unit range, and one
/// that is not named does not move.
pub proof fn law_moved_axes_in_range(axes: StandardAxes, change: StandardAxes)
    requires
        axes_in_range(axes),
        axes_are_numbers(change),
    ensures
        axes_in_range(moved_axes(axes, change)),
        change.left_stick_x is None ==> moved_axes(axes, change).left_stick_x == axes.left_stick_x,
        change.left_stick_y is None ==> moved_axes(axes, change).left_stick_y == axes.left_stick_y,
        change.right_stick_x is None ==> moved_axes(axes, change).right_stick_x
            == axes.right_stick_x,
        change.right_stick_y is None ==> moved_axes(axes, change).right_stick_y
            == axes.right_stick_y,
        change.left_trigger is None ==> moved_axes(axes, change).left_trigger == axes.left_trigger,
        change.right_trigger is None ==> moved_axes(axes, change).right_trigger
            == axes.right_trigger,
{
    if let Some(value) = change.left_stick_x {
        single::law_clamp(value);
    }
    if let Some(value) = change.left_stick_y {
        single::law_clamp(value);
    }
    if let Some(value) = change.right_stick_x {
        single::law_clamp(value);
    }
    if let Some(value) = change.right_stick_y {
        single::law_clamp(value);
    }
    if let Some(value) = change.left_trigger {
        single::law_clamp(value);
    }
    if let Some(value) = change.right_trigger {
        single::law_clamp(value);
    }
}

/// A change sets its own part of the state and leaves every other part alone: the
/// buttons that are pressed, released or set, the direction with its angle, one axis,
/// or the canonical axes.
pub proof fn law_edits_change_their_part_only(
    state: GamepadView,
    buttons: Buttons,
    hat: Hat,
    axis: Axis,
    value: Single,
    axes: StandardAxes,
)
    ensures
        ({
            let after = edited(state, StateEdit::Press(buttons));
            &&& after.buttons == state.buttons | buttons.mask()
            &&& after == GamepadView { buttons: after.buttons, ..state }
        }),
        ({
            let after = edited(state, StateEdit::Release(buttons));
            &&& after.buttons & buttons.mask() == 0
            &&& after.buttons | (state.buttons & buttons.mask()) == state.buttons
            &&& after == GamepadView { buttons: after.buttons, ..state }
        }),
        ({
            let after = edited(state, StateEdit::SetButtons(buttons));
            &&& after.buttons == buttons.mask()
            &&& after == GamepadView { buttons: after.buttons, ..state }
        }),
        ({
            let after = edited(state, StateEdit::SetHat(hat));
            &&& after.hat == hat
            &&& after.hat_degrees is None
            &&& after == GamepadView { hat: after.hat, hat_degrees: after.hat_degrees, ..state }
        }),
        ({
            let after = edited(state, StateEdit::SetAxis(axis, value));
            &&& after.axes.contains_key(axis.0)
            &&& single::in_unit_range(value) ==> after.axes[axis.0] == value
            &&& after.axes.remove(axis.0) == state.axes.remove(axis.0)
            &&& after == GamepadView { axes: after.axes, ..state }
        }),
        ({
            let after = edited(state, StateEdit::SetStandardAxes(axes));
            &&& after.standard_axes == Some(axes)
            &&& after == GamepadView { standard_axes: after.standard_axes, ..state }
        }),
        ({
            let after = edited(state, StateEdit::MoveSticks(axes));
            &&& after.standard_axes is Some
            &&& after == GamepadView { standard_axes: after.standard_axes, ..state }
        }),
{
    let a = state.buttons;
    let b = buttons.mask();
    assert((a & !b) & b == 0) by (bit_vector);
    assert((a & !b) | (a & b) == a) by (bit_vector);
    single::law_clamp(value);
    assert(edited(state, StateEdit::SetAxis(axis, value)).axes.remove(axis.0)
        =~= state.axes.remove(axis.0));
}

/// A reset leaves nothing held and nothing set, whatever the state was.
pub proof fn law_reset_is_neutral(state: GamepadView, usage: u16)
    ensures
        ({
            let after = edited(state, StateEdit::Reset);
            &&& after.buttons == 0
            &&& crate::state::hat_byte(after.hat) == 0
            &&& after.hat_degrees is None
            &&& !after.axes.contains_key(usage)
            &&& after.standard_axes is None
            &&& after.battery_level is None
            &&& after.battery_charging is None
            &&& after.accel_g is None
            &&& after.gyro_dps is None
        }),
        edited(state, StateEdit::Reset) == neutral_view(),
{
}

/// Each stick axis and each trigger that is moved takes its own new value, limited to
/// the unit range; one without a new value keeps its own old one. Before the first
/// move all of them are at their defaults.
pub proof fn law_moved_axes_take_their_values(state: GamepadView, change: StandardAxes)
    ensures
        ({
            let before = match state.standard_axes {
                Some(axes) => axes,
                None => default_axes(),
            };
            let after = edited(state, StateEdit::MoveSticks(change)).standard_axes->0;
            &&& after.left_stick_x == (match change.left_stick_x {
                Some(value) => Some(single::unit_clamped(value)),
                None => before.left_stick_x,
            })
            &&& after.left_stick_y == (match change.left_stick_y {
                Some(value) => Some(single::unit_clamped(value)),
                None => before.left_stick_y,
            })
            &&& after.right_stick_x == (match change.right_stick_x {
                Some(value) => Some(single::unit_clamped(value)),
                None => before.right_stick_x,
            })
            &&& after.right_stick_y == (match change.right_stick_y {
                Some(value) => Some(single::unit_clamped(value)),
                None => before.right_stick_y,
            })
            &&& after.left_trigger == (match change.left_trigger {
                Some(value) => Some(single::unit_clamped(value)),
                None => before.left_trigger,
            })
            &&& after.right_trigger == (match change.right_trigger {
                Some(value) => Some(single::unit_clamped(value)),
                None => before.right_trigger,
            })
        }),
        default_axes().left_stick_x is None,
        default_axes().left_stick_y is None,
        default_axes().right_stick_x is None,
        default_axes().right_stick_y is None,
        default_axes().left_trigger is None,
        default_axes().right_trigger is None,
{
}

/// A state is seen as it is, in every part.
pub proof fn law_state_is_seen_whole(state: GamepadState)
    ensures
        state@.buttons == state.buttons.mask(),
        state@.hat == state.hat,
        state@.hat_degrees == state.hat_degrees,
        state@.axes == state.axes@,
        state@.standard_axes == state.standard_axes,
        state@.battery_level == state.battery_level,
        state@.battery_charging == state.battery_charging,
        state@.accel_g == state.accel_g,
        state@.gyro_dps == state.gyro_dps,
{
}

} // verus!
