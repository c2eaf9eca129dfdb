//! Changes of several parts of a controller state at once.

use vstd::prelude::*;

use crate::gamepad::{GamepadState, GamepadView, StandardAxes};
use crate::json;
use crate::json::{Json, JsonView};
use crate::single;
use crate::single::Single;
use crate::state;
use crate::state::{Axis, Buttons, Hat};
use crate::text;

verus! {

broadcast use vstd::string::group_string_axioms;

/// Parts of a controller state that are to be replaced.
#[derive(Debug, PartialEq)]
pub struct Patch {
    /// Buttons, in any form that [`parse_buttons`] reads.
    pub buttons: Option<Json>,
    /// A direction of the d-pad.
    pub hat: Option<String>,
    /// An angle of the d-pad, or none.
    pub hat_degrees: Option<Option<Single>>,
    /// Axes by their names.
    pub axes: Option<Vec<(String, Json)>>,
    /// The canonical axes.
    pub standard_axes: Option<StandardAxes>,
}

/// A patch as a mathematical value.
pub struct PatchView {
    pub buttons: Option<JsonView>,
    pub hat: Option<Seq<char>>,
    pub hat_degrees: Option<Option<Single>>,
    pub axes: Option<Seq<(Seq<char>, JsonView)>>,
    pub standard_axes: Option<StandardAxes>,
}

/// Entries as mathematical values.
pub open spec fn entry_views(entries: Seq<(String, Json)>) -> Seq<(Seq<char>, JsonView)> {
    entries.map_values(|entry: (String, Json)| (entry.0@, entry.1.view()))
}

impl Patch {
    /// The patch as a mathematical value.
    pub open spec fn view(self) -> PatchView {
        PatchView {
            buttons: match self.buttons {
                Some(value) => Some(value.view()),
                None => None,
            },
            hat: match self.hat {
                Some(name) => Some(name@),
                None => None,
            },
            hat_degrees: self.hat_degrees,
            axes: match self.axes {
                Some(entries) => Some(entry_views(entries@)),
                None => None,
            },
            standard_axes: self.standard_axes,
        }
    }
}

/// A text between quotes, after some words.
pub open spec fn quoted(words: Seq<char>, name: Seq<char>) -> Seq<char> {
    words + " '"@ + name + "'"@
}

/// A text between quotes, after some words.
pub fn quote(words: &str, name: &str) -> (message: String)
    ensures
        message@ == quoted(words@, name@),
{
    let mut message = words.to_owned();
    message.append(" '");
    message.append(name);
    message.append("'");
    message
}

/// The button with a name.
pub open spec fn one_button(name: Seq<char>) -> Result<u32, Seq<char>> {
    match state::named_button(text::normalized(name)) {
        Some(mask) => Ok(mask),
        None => Err(quoted("unknown button"@, name)),
    }
}

/// The buttons in the first `count` documents of a list of names, or what is
/// wrong with the first that is no name of a button.
pub open spec fn listed_buttons(names: Seq<JsonView>, count: nat) -> Result<u32, Seq<char>>
    decreases count,
{
    if count == 0 {
        Ok(0)
    } else {
        match listed_buttons(names, (count - 1) as nat) {
            Err(message) => Err(message),
            Ok(mask) => match names[count - 1] {
                JsonView::Text(name) => match one_button(name) {
                    Ok(button) => Ok(mask | button),
                    Err(message) => Err(message),
                },
                _ => Err("buttons must be strings"@),
            },
        }
    }
}

/// The buttons that a document stands for: a list of names, a name, or a mask of
/// which the low 32 bits count, and of those the bits of known buttons.
pub open spec fn buttons_in(value: JsonView) -> Result<u32, Seq<char>> {
    match value {
        JsonView::Array(names) => listed_buttons(names, names.len()),
        JsonView::Text(name) => one_button(name),
        JsonView::Number(number) => match number.unsigned {
            Some(bits) => Ok((bits as u32) & state::ALL_BUTTONS),
            None => Err("buttons bitmask must be an unsigned integer"@),
        },
        _ => Err("buttons must be a string, array of names, or integer bitmask"@),
    }
}

/// The buttons, or the error in words, are the expected ones.
pub open spec fn gives_buttons(
    result: Result<Buttons, String>,
    expected: Result<u32, Seq<char>>,
) -> bool {
    match (result, expected) {
        (Ok(buttons), Ok(mask)) => buttons.mask() == mask,
        (Err(message), Err(words)) => message@ == words,
        _ => false,
    }
}

fn parse_button(name: &str) -> (result: Result<Buttons, String>)
    ensures
        gives_buttons(result, one_button(name@)),
{
    match Buttons::by_name(name) {
        Some(button) => Ok(button),
        None => Err(quote("unknown button", name)),
    }
}

proof fn lemma_listed_error(names: Seq<JsonView>, at: nat, count: nat)
    requires
        at <= count,
        listed_buttons(names, at) is Err,
    ensures
        listed_buttons(names, count) == listed_buttons(names, at),
    decreases count,
{
    if at < count {
        lemma_listed_error(names, at, (count - 1) as nat);
    }
}

/// The buttons that a document stands for, or what is wrong with it.
pub fn parse_buttons(value: &Json) -> (result: Result<Buttons, String>)
    ensures
        gives_buttons(result, buttons_in(value.view())),
{
    match value {
        Json::Array(list) => {
            let ghost names = json::items(list@);
            proof {
                json::lemma_items(list@);
            }
            let mut buttons = Buttons::empty();
            for i in 0..list.len()
                invariant
                    names == json::items(list@),
                    names.len() == list@.len(),
                    listed_buttons(names, i as nat) == Ok::<u32, Seq<char>>(buttons.mask()),
                    value.view() == JsonView::Array(names),
            {
                proof {
                    json::lemma_items(list@);
                    assert(names[i as int] == list@[i as int].view());
                }
                let parsed = match list[i].as_str() {
                    Some(name) => parse_button(name),
                    None => Err("buttons must be strings".to_owned()),
                };
                match parsed {
                    Ok(button) => {
                        buttons = buttons.union(button);
                    },
                    Err(message) => {
                        proof {
                            lemma_listed_error(names, (i + 1) as nat, names.len());
                        }
                        return Err(message);
                    },
                }
            }
            Ok(buttons)
        },
        Json::Text(name) => parse_button(name.as_str()),
        Json::Number(_) => match value.as_u64() {
            Some(bits) => Ok(
                Buttons::from_bits_truncate(
                    #[verifier::truncate]
                    (bits as u32),
                ),
            ),
            None => Err("buttons bitmask must be an unsigned integer".to_owned()),
        },
        _ => Err("buttons must be a string, array of names, or integer bitmask".to_owned()),
    }
}

/// The direction with a name.
pub open spec fn one_direction(name: Seq<char>) -> Result<Hat, Seq<char>> {
    match state::named_hat(text::normalized(name)) {
        Some(hat) => Ok(hat),
        None => Err(quoted("unknown direction"@, name)),
    }
}

/// The axis with a name.
pub open spec fn one_axis(name: Seq<char>) -> Result<Axis, Seq<char>> {
    match state::named_axis(text::normalized(name)) {
        Some(axis) => Ok(axis),
        None => Err(quoted("unknown axis"@, name)),
    }
}

/// The direction with a name, or what is wrong with it.
pub fn parse_direction(name: &str) -> (result: Result<Hat, String>)
    ensures
        match (result, one_direction(name@)) {
            (Ok(hat), Ok(expected)) => hat == expected,
            (Err(message), Err(words)) => message@ == words,
            _ => false,
        },
{
    match Hat::by_name(name) {
        Some(hat) => Ok(hat),
        None => Err(quote("unknown direction", name)),
    }
}

/// The axis with a name, or what is wrong with it.
pub fn parse_axis(name: &str) -> (result: Result<Axis, String>)
    ensures
        match (result, one_axis(name@)) {
            (Ok(axis), Ok(expected)) => axis == expected,
            (Err(message), Err(words)) => message@ == words,
            _ => false,
        },
{
    match Axis::by_name(name) {
        Some(axis) => Ok(axis),
        None => Err(quote("unknown axis", name)),
    }
}

/// The axes after the first `count` entries were applied, one after the other,
/// each value limited to the unit range; or what is wrong with the first entry
/// that cannot be applied.
pub open spec fn patched_axes(
    axes: Map<u16, Single>,
    entries: Seq<(Seq<char>, JsonView)>,
    count: nat,
) -> Result<Map<u16, Single>, Seq<char>>
    decreases count,
{
    if count == 0 {
        Ok(axes)
    } else {
        let (name, value) = entries[count - 1];
        match patched_axes(axes, entries, (count - 1) as nat) {
            Err(message) => Err(message),
            Ok(before) => match one_axis(name) {
                Err(message) => Err(message),
                Ok(axis) => match json::double_in(Some(value)) {
                    Some(bits) => Ok(
                        before.insert(axis.0, single::unit_clamped(single::narrowed(bits))),
                    ),
                    None => Err("axis values must be numbers"@),
                },
            },
        }
    }
}

/// The state after its buttons were replaced.
pub open spec fn with_buttons(state: GamepadView, value: Option<JsonView>) -> Result<
    GamepadView,
    Seq<char>,
> {
    match value {
        None => Ok(state),
        Some(value) => match buttons_in(value) {
            Ok(buttons) => Ok(GamepadView { buttons, ..state }),
            Err(message) => Err(message),
        },
    }
}

/// The state after its direction was replaced, which clears the angle.
pub open spec fn with_direction(state: GamepadView, name: Option<Seq<char>>) -> Result<
    GamepadView,
    Seq<char>,
> {
    match name {
        None => Ok(state),
        Some(name) => match one_direction(name) {
            Ok(hat) => Ok(GamepadView { hat, hat_degrees: None, ..state }),
            Err(message) => Err(message),
        },
    }
}

/// The state after its angle was replaced.
pub open spec fn with_angle(state: GamepadView, angle: Option<Option<Single>>) -> GamepadView {
    match angle {
        None => state,
        Some(hat_degrees) => GamepadView { hat_degrees, ..state },
    }
}

/// The state after its axes were changed.
pub open spec fn with_axes(
    state: GamepadView,
    entries: Option<Seq<(Seq<char>, JsonView)>>,
) -> Result<GamepadView, Seq<char>> {
    match entries {
        None => Ok(state),
        Some(entries) => match patched_axes(state.axes, entries, entries.len()) {
            Ok(axes) => Ok(GamepadView { axes, ..state }),
            Err(message) => Err(message),
        },
    }
}

/// The state after a patch, or what is wrong with the first part that cannot be
/// applied. The angle goes on top of the direction.
pub open spec fn patched(state: GamepadView, patch: PatchView) -> Result<GamepadView, Seq<char>> {
    match with_buttons(state, patch.buttons) {
        Err(message) => Err(message),
        Ok(pressed) => match with_direction(pressed, patch.hat) {
            Err(message) => Err(message),
            Ok(directed) => match with_axes(with_angle(directed, patch.hat_degrees), patch.axes) {
                Err(message) => Err(message),
                Ok(moved) => match patch.standard_axes {
                    Some(axes) => Ok(GamepadView { standard_axes: Some(axes), ..moved }),
                    None => Ok(moved),
                },
            },
        },
    }
}

/// The state, or the error in words, is the expected one.
pub open spec fn gives_state(
    result: Result<GamepadState, String>,
    expected: Result<GamepadView, Seq<char>>,
) -> bool {
    match (result, expected) {
        (Ok(state), Ok(view)) => state@ == view,
        (Err(message), Err(words)) => message@ == words,
        _ => false,
    }
}

proof fn lemma_patched_error(
    axes: Map<u16, Single>,
    entries: Seq<(Seq<char>, JsonView)>,
    at: nat,
    count: nat,
)
    requires
        at <= count,
        patched_axes(axes, entries, at) is Err,
    ensures
        patched_axes(axes, entries, count) == patched_axes(axes, entries, at),
    decreases count,
{
    if at < count {
        lemma_patched_error(axes, entries, at, (count - 1) as nat);
    }
}

fn patch_axes(state: GamepadState, entries: &Vec<(String, Json)>) -> (result: Result<
    GamepadState,
    String,
>)
    ensures
        gives_state(result, with_axes(state@, Some(entry_views(entries@)))),
{
    let ghost views = entry_views(entries@);
    let ghost before = state@;
    let mut patched = state;
    for i in 0..entries.len()
        invariant
            views == entry_views(entries@),
            before == state@,
            patched_axes(before.axes, views, i as nat) == Ok::<Map<u16, Single>, Seq<char>>(
                patched.axes@,
            ),
            patched@ == (GamepadView { axes: patched.axes@, ..before }),
    {
        assert(views[i as int] == (entries@[i as int].0@, entries@[i as int].1.view()));
        let axis = match parse_axis(entries[i].0.as_str()) {
            Ok(axis) => axis,
            Err(message) => {
                proof {
                    lemma_patched_error(before.axes, views, (i + 1) as nat, views.len());
                }
                return Err(message);
            },
        };
        let bits = match entries[i].1.as_double_bits() {
            Some(bits) => bits,
            None => {
                proof {
                    lemma_patched_error(before.axes, views, (i + 1) as nat, views.len());
                }
                return Err("axis values must be numbers".to_owned());
            },
        };
        patched.axes = patched.axes.with(axis, Single::from_double_bits(bits).clamp_unit());
    }
    Ok(patched)
}

/// The state after a patch, or what is wrong with the patch.
pub fn patched_state(state: GamepadState, patch: Patch) -> (result: Result<GamepadState, String>)
    ensures
        gives_state(result, patched(state@, patch@)),
{
    let mut patched = state;
    if let Some(value) = &patch.buttons {
        patched.buttons = match parse_buttons(value) {
            Ok(buttons) => buttons,
            Err(message) => {
                return Err(message);
            },
        };
    }
    if let Some(name) = &patch.hat {
        patched.hat = match parse_direction(name.as_str()) {
            Ok(hat) => hat,
            Err(message) => {
                return Err(message);
            },
        };
        patched.hat_degrees = None;
    }
    if let Some(hat_degrees) = patch.hat_degrees {
        patched.hat_degrees = hat_degrees;
    }
    if let Some(entries) = &patch.axes {
        patched = match patch_axes(patched, entries) {
            Ok(state) => state,
            Err(message) => {
                return Err(message);
            },
        };
    }
    if let Some(axes) = patch.standard_axes {
        patched.standard_axes = Some(axes);
    }
    Ok(patched)
}

/// A direction without an angle clears the angle; an angle, or its absence, goes
/// on top of any direction; and a patch with neither leaves both alone.
pub proof fn law_patched_direction(state: GamepadView, patch: PatchView)
    requires
        patched(state, patch) is Ok,
    ensures
        ({
            let after = patched(state, patch)->Ok_0;
            &&& patch.hat matches Some(name) ==> one_direction(name) == Ok::<Hat, Seq<char>>(
                after.hat,
            )
            &&& patch.hat is None ==> after.hat == state.hat
            &&& patch.hat_degrees matches Some(angle) ==> after.hat_degrees == angle
            &&& patch.hat is Some && patch.hat_degrees is None ==> after.hat_degrees is None
            &&& patch.hat is None && patch.hat_degrees is None ==> after.hat_degrees
                == state.hat_degrees
        }),
{
}

/// A part that a patch does not hold stays, and so do the parts that no patch
/// reaches.
pub proof fn law_patch_keeps_the_rest(state: GamepadView, patch: PatchView)
    requires
        patched(state, patch) is Ok,
    ensures
        ({
            let after = patched(state, patch)->Ok_0;
            &&& patch.buttons is None ==> after.buttons == state.buttons
            &&& patch.axes is None ==> after.axes == state.axes
            &&& patch.standard_axes is None ==> after.standard_axes == state.standard_axes
            &&& after.battery_level == state.battery_level
            &&& after.battery_charging == state.battery_charging
            &&& after.accel_g == state.accel_g
            &&& after.gyro_dps == state.gyro_dps
        }),
{
}

/// Every number among the entries is finite, as every JSON number is.
pub open spec fn finite_entries(entries: Seq<(Seq<char>, JsonView)>) -> bool {
    forall|i: int|
        0 <= i < entries.len() ==> (json::double_in(Some((#[trigger] entries[i]).1)) matches Some(
            bits,
        ) ==> bits % 0x8000_0000_0000_0000 < 0x7ff0_0000_0000_0000)
}

/// Every axis value that a patch sets lies in the unit range.
pub proof fn law_patched_axes_in_range(
    axes: Map<u16, Single>,
    entries: Seq<(Seq<char>, JsonView)>,
    count: nat,
)
    requires
        count <= entries.len(),
        finite_entries(entries),
        patched_axes(axes, entries, count) is Ok,
        forall|usage: u16|
            axes.contains_key(usage) ==> single::in_unit_range(#[trigger] axes[usage]),
    ensures
        forall|usage: u16|
            patched_axes(axes, entries, count)->Ok_0.contains_key(usage) ==> single::in_unit_range(
                #[trigger] patched_axes(axes, entries, count)->Ok_0[usage],
            ),
    decreases count,
{
    if count > 0 {
        law_patched_axes_in_range(axes, entries, (count - 1) as nat);
        let value = entries[count - 1].1;
        let bits = json::double_in(Some(value))->0;
        single::law_narrowed_is_a_number(bits);
        single::law_clamp(single::narrowed(bits));
    }
}

/// The documents of a list of names.
pub open spec fn name_documents(names: Seq<Seq<char>>) -> Seq<JsonView> {
    names.map_values(|name: Seq<char>| JsonView::Text(name))
}

proof fn lemma_listed_union(names: Seq<Seq<char>>, count: nat)
    requires
        count <= names.len(),
        state::named_union(names.take(count as int)) is Some,
    ensures
        listed_buttons(name_documents(names), count) == Ok::<u32, Seq<char>>(
            state::named_union(names.take(count as int))->0,
        ),
    decreases count,
{
    if count > 0 {
        assert(names.take(count as int).drop_last() =~= names.take(count - 1));
        assert(names.take(count as int).last() == names[count - 1]);
        lemma_listed_union(names, (count - 1) as nat);
    }
}

/// Reading the canonical names of a set of buttons gives the set.
pub proof fn law_names_are_read_back(mask: u32)
    requires
        mask <= state::ALL_BUTTONS,
    ensures
        buttons_in(JsonView::Array(name_documents(state::button_names(mask, 18)))) == Ok::<
            u32,
            Seq<char>,
        >(mask),
{
    let names = state::button_names(mask, 18);
    state::law_names_round_trip(mask);
    assert(names.take(names.len() as int) =~= names);
    lemma_listed_union(names, names.len());
}

/// What an accepted patch holds is what the state after it holds: exactly the buttons
/// that it names, the direction that it names, its angle, and its canonical axes.
pub proof fn law_patch_ends_up_in_the_state(state: GamepadView, patch: PatchView)
    requires
        patched(state, patch) is Ok,
    ensures
        ({
            let after = patched(state, patch)->Ok_0;
            &&& patch.buttons matches Some(value) ==> buttons_in(value) == Ok::<u32, Seq<char>>(
                after.buttons,
            )
            &&& patch.hat matches Some(name) ==> state::named_hat(text::normalized(name)) == Some(
                after.hat,
            )
            &&& patch.hat_degrees matches Some(angle) ==> after.hat_degrees == angle
            &&& patch.standard_axes matches Some(axes) ==> after.standard_axes == Some(axes)
        }),
{
}

/// The entry names the axis with this usage.
pub open spec fn entry_names(entry: (Seq<char>, JsonView), usage: u16) -> bool {
    state::named_axis(text::normalized(entry.0)) == Some(Axis(usage))
}

/// Every axis that entries name ends up with the value of the last entry that names
/// it, limited to the unit range, and an axis that none of them names stays as it was.
pub proof fn law_patched_axes_take_their_values(
    axes: Map<u16, Single>,
    entries: Seq<(Seq<char>, JsonView)>,
    count: nat,
    at: int,
    usage: u16,
)
    requires
        count <= entries.len(),
        patched_axes(axes, entries, count) is Ok,
    ensures
        0 <= at < count && entry_names(entries[at], usage) && (forall|later: int|
            at < later < count ==> !entry_names(#[trigger] entries[later], usage)) ==> ({
            let after = patched_axes(axes, entries, count)->Ok_0;
            &&& entries[at].1 is Number
            &&& after.contains_key(usage)
            &&& after[usage] == single::unit_clamped(
                single::narrowed(entries[at].1->Number_0.double),
            )
        }),
        (forall|k: int| 0 <= k < count ==> !entry_names(#[trigger] entries[k], usage)) ==> ({
            let after = patched_axes(axes, entries, count)->Ok_0;
            &&& after.contains_key(usage) == axes.contains_key(usage)
            &&& axes.contains_key(usage) ==> after[usage] == axes[usage]
        }),
        forall|k: int|
            0 <= k < count ==> state::named_axis(
                text::normalized((#[trigger] entries[k]).0),
            ) is Some && entries[k].1 is Number,
    decreases count,
{
    if count > 0 {
        let last = entries[count - 1];
        law_patched_axes_take_their_values(axes, entries, (count - 1) as nat, at, usage);
        let axis = state::named_axis(text::normalized(last.0))->0;
        assert(entry_names(last, axis.0));
        if entry_names(last, usage) {
            assert(axis.0 == usage);
        } else {
            assert(axis.0 != usage) by {
                if axis.0 == usage {
                    assert(axis == Axis(usage));
                }
            }
        }
    }
}

/// The axes of a state after an accepted patch are those that its entries make of the
/// axes before, and a patch without entries leaves them alone.
pub proof fn law_patch_moves_axes(state: GamepadView, patch: PatchView)
    requires
        patched(state, patch) is Ok,
    ensures
        ({
            let after = patched(state, patch)->Ok_0;
            match patch.axes {
                Some(entries) => patched_axes(state.axes, entries, entries.len()) == Ok::<
                    Map<u16, Single>,
                    Seq<char>,
                >(after.axes),
                None => after.axes == state.axes,
            }
        }),
{
}

/// An entry can be applied: it names an axis and holds a number.
pub open spec fn entry_is_good(entry: (Seq<char>, JsonView)) -> bool {
    state::named_axis(text::normalized(entry.0)) is Some && entry.1 is Number
}

proof fn lemma_good_entries(
    axes: Map<u16, Single>,
    entries: Seq<(Seq<char>, JsonView)>,
    count: nat,
)
    requires
        count <= entries.len(),
    ensures
        patched_axes(axes, entries, count) is Ok <==> forall|k: int|
            0 <= k < count ==> entry_is_good(#[trigger] entries[k]),
    decreases count,
{
    if count > 0 {
        lemma_good_entries(axes, entries, (count - 1) as nat);
        assert(entry_is_good(entries[count - 1]) <==> (one_axis(entries[count - 1].0) is Ok
            && json::double_in(Some(entries[count - 1].1)) is Some));
    }
}

/// A patch is accepted exactly if every part of it can be applied, whatever the state
/// is.
pub proof fn law_patch_is_accepted(state: GamepadView, patch: PatchView)
    ensures
        patched(state, patch) is Ok <==> {
            &&& patch.buttons matches Some(value) ==> buttons_in(value) is Ok
            &&& patch.hat matches Some(name) ==> state::named_hat(text::normalized(name)) is Some
            &&& patch.axes matches Some(entries) ==> forall|k: int|
                0 <= k < entries.len() ==> entry_is_good(#[trigger] entries[k])
        },
{
    if let Some(entries) = patch.axes {
        lemma_good_entries(state.axes, entries, entries.len());
    }
}

/// Buttons are read in each form: a name gives its button, a list of names gives all of
/// theirs together, and a mask of known buttons gives itself; other documents give none.
pub proof fn law_buttons_in_each_form(
    name: Seq<char>,
    first: Seq<JsonView>,
    second: Seq<JsonView>,
    document: JsonView,
)
    ensures
        buttons_in(JsonView::Text(name)) is Ok <==> state::named_button(
            text::normalized(name),
        ) is Some,
        state::named_button(text::normalized(name)) matches Some(button) ==> buttons_in(
            JsonView::Text(name),
        ) == Ok::<u32, Seq<char>>(button),
        buttons_in(JsonView::Array(Seq::empty())) == Ok::<u32, Seq<char>>(0),
        state::named_button(text::normalized(name)) matches Some(button) ==> buttons_in(
            JsonView::Array(seq![JsonView::Text(name)]),
        ) == Ok::<u32, Seq<char>>(button),
        buttons_in(JsonView::Array(first)) matches Ok(a) ==> (buttons_in(
            JsonView::Array(second),
        ) matches Ok(b) ==> buttons_in(JsonView::Array(first + second)) == Ok::<u32, Seq<char>>(
            a | b,
        )),
        document matches JsonView::Number(number) ==> (number.unsigned matches Some(bits)
            ==> bits <= 0x3_ffff ==> buttons_in(document) == Ok::<u32, Seq<char>>(bits as u32)),
        document matches JsonView::Number(number) ==> number.unsigned is None ==> buttons_in(
            document,
        ) is Err,
        document is Null || document is Bool || document is Object ==> buttons_in(document) is Err,
{
    let one = seq![JsonView::Text(name)];
    reveal_with_fuel(listed_buttons, 2);
    if let Some(button) = state::named_button(text::normalized(name)) {
        assert(0u32 | button == button) by (bit_vector);
    }
    assert(one[0] == JsonView::Text(name));
    if let JsonView::Number(number) = document {
        if let Some(bits) = number.unsigned {
            if bits <= 0x3_ffff {
                let low = bits as u32;
                assert(low & 0x3_ffff == low) by (bit_vector)
                    requires
                        low <= 0x3_ffff,
                ;
            }
        }
    }
    if listed_buttons(first, first.len()) is Ok {
        lemma_listed_in_parts(first, second, second.len());
    }
}

proof fn lemma_listed_prefix(first: Seq<JsonView>, second: Seq<JsonView>, count: nat)
    requires
        count <= first.len(),
    ensures
        listed_buttons(first + second, count) == listed_buttons(first, count),
    decreases count,
{
    if count > 0 {
        lemma_listed_prefix(first, second, (count - 1) as nat);
        assert((first + second)[count - 1] == first[count - 1]);
    }
}

proof fn lemma_listed_in_parts(first: Seq<JsonView>, second: Seq<JsonView>, count: nat)
    requires
        count <= second.len(),
        listed_buttons(first, first.len()) is Ok,
    ensures
        listed_buttons(second, count) matches Ok(b) ==> listed_buttons(
            first + second,
            first.len() + count,
        ) == Ok::<u32, Seq<char>>(listed_buttons(first, first.len())->Ok_0 | b),
    decreases count,
{
    let a = listed_buttons(first, first.len())->Ok_0;
    if count == 0 {
        lemma_listed_prefix(first, second, first.len());
        assert(a | 0u32 == a) by (bit_vector);
    } else if listed_buttons(second, count) is Ok {
        lemma_listed_in_parts(first, second, (count - 1) as nat);
        let b = listed_buttons(second, (count - 1) as nat)->Ok_0;
        assert((first + second)[first.len() + count - 1] == second[count - 1]);
        if let JsonView::Text(name) = second[count - 1] {
            let c = one_button(name)->Ok_0;
            assert((a | b) | c == a | (b | c)) by (bit_vector);
        }
    }
}

/// A patch is seen as it is: each of its parts, and each of its axes in their order.
pub proof fn law_patch_is_seen_whole(patch: Patch, at: int)
    ensures
        patch@.buttons is Some <==> patch.buttons is Some,
        patch.buttons matches Some(value) ==> patch@.buttons == Some(value.view()),
        patch@.hat is Some <==> patch.hat is Some,
        patch.hat matches Some(name) ==> patch@.hat == Some(name@),
        patch@.hat_degrees == patch.hat_degrees,
        patch@.standard_axes == patch.standard_axes,
        patch@.axes is Some <==> patch.axes is Some,
        patch.axes matches Some(entries) ==> {
            &&& patch@.axes->0.len() == entries@.len()
            &&& 0 <= at < entries@.len() ==> patch@.axes->0[at] == (
                entries@[at].0@,
                entries@[at].1.view(),
            )
        },
{
}

/// A name that is not known is told between quotes: of a button, a direction or an axis.
pub proof fn law_unknown_names_are_told(
    state: GamepadView,
    name: Seq<char>,
    value: JsonView,
    patch: PatchView,
)
    ensures
        state::named_button(text::normalized(name)) is None ==> buttons_in(JsonView::Text(name))
            == Err::<u32, Seq<char>>("unknown button '"@ + name + "'"@),
        state::named_hat(text::normalized(name)) is None && patch.buttons is None && patch.hat
            == Some(name) ==> patched(state, patch) == Err::<GamepadView, Seq<char>>(
            "unknown direction '"@ + name + "'"@,
        ),
        state::named_axis(text::normalized(name)) is None && patch.buttons is None
            && patch.hat is None && patch.axes == Some(seq![(name, value)]) ==> patched(
            state,
            patch,
        ) == Err::<GamepadView, Seq<char>>("unknown axis '"@ + name + "'"@),
{
    reveal_strlit("unknown button");
    reveal_strlit("unknown button '");
    reveal_strlit("unknown direction");
    reveal_strlit("unknown direction '");
    reveal_strlit("unknown axis");
    reveal_strlit("unknown axis '");
    reveal_strlit(" '");
    assert("unknown button"@ + " '"@ =~= "unknown button '"@);
    assert("unknown direction"@ + " '"@ =~= "unknown direction '"@);
    assert("unknown axis"@ + " '"@ =~= "unknown axis '"@);
    reveal_with_fuel(patched_axes, 2);
    assert(seq![(name, value)][0] == (name, value));
}

/// What is wrong with buttons is never told in the words for a missing argument.
pub proof fn lemma_button_errors(value: JsonView)
    ensures
        buttons_in(value) matches Err(words) ==> words.len() > 0 && words[0] != 'm',
{
    reveal_strlit("unknown button");
    reveal_strlit("buttons must be strings");
    reveal_strlit("buttons bitmask must be an unsigned integer");
    reveal_strlit("buttons must be a string, array of names, or integer bitmask");
    assert("unknown button"@[0] == 'u');
    assert("buttons must be strings"@[0] == 'b');
    assert("buttons bitmask must be an unsigned integer"@[0] == 'b');
    assert("buttons must be a string, array of names, or integer bitmask"@[0] == 'b');
    if let JsonView::Array(names) = value {
        lemma_list_errors(names, names.len());
    }
    if let JsonView::Text(name) = value {
        assert(quoted("unknown button"@, name)[0] == "unknown button"@[0]);
    }
}

proof fn lemma_list_errors(names: Seq<JsonView>, count: nat)
    ensures
        listed_buttons(names, count) matches Err(words) ==> words.len() > 0 && words[0] != 'm',
    decreases count,
{
    if count > 0 {
        lemma_list_errors(names, (count - 1) as nat);
        reveal_strlit("unknown button");
        reveal_strlit("buttons must be strings");
        assert("unknown button"@[0] == 'u');
        assert("buttons must be strings"@[0] == 'b');
        if let JsonView::Text(name) = names[count - 1] {
            assert(quoted("unknown button"@, name)[0] == "unknown button"@[0]);
        }
    }
}

} // verus!
