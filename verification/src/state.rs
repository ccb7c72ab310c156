//! The application state, the actions on it, and the step from one state
//! to the next.

use crate::model::{AirType, Settings, SettingsView};
use crate::token::{
    airtype_of, format_of, get_airtype, get_format, get_overlay, is_token, level_of, overlay_of,
    parse_level,
};
use vstd::prelude::*;
use vstd::std_specs::cmp::PartialEqSpecImpl;

verus! {

/// Why an action was turned down.
#[derive(Clone, Copy, Debug, PartialEq, Eq, Structural)]
pub enum ErrorKind {
    /// The value given for the level ceiling does not write a number of
    /// sixteen bits.
    InvalidNumericInput,
}

/// Application state.
#[derive(Debug)]
pub struct State {
    pub settings: Settings,
}

impl View for State {
    type V = SettingsView;

    open spec fn view(&self) -> SettingsView {
        self.settings@
    }
}

impl Default for State {
    fn default() -> (s: Self)
        ensures
            s@ == crate::model::default_settings(),
    {
        State { settings: Settings::default() }
    }
}

impl PartialEq for State {
    /// Two states are equal where their settings say the same.
    fn eq(&self, other: &Self) -> (b: bool) {
        self.settings == other.settings
    }
}

impl PartialEqSpecImpl for State {
    open spec fn obeys_eq_spec() -> bool {
        true
    }

    open spec fn eq_spec(&self, other: &State) -> bool {
        self@ == other@
    }
}

/// State actions.
pub enum Action {
    SetOption { name: String, value: String },
    SetLoa { name: String, checked: bool },
    SetRat { name: String, checked: bool },
    SetWave { name: String, checked: bool },
    ClearLoa,
    ClearRat,
    ClearWave,
}

/// What an action says, each text as its characters.
pub enum ActionView {
    SetOption { name: Seq<char>, value: Seq<char> },
    SetLoa { name: Seq<char>, checked: bool },
    SetRat { name: Seq<char>, checked: bool },
    SetWave { name: Seq<char>, checked: bool },
    ClearLoa,
    ClearRat,
    ClearWave,
}

impl View for Action {
    type V = ActionView;

    open spec fn view(&self) -> ActionView {
        match self {
            Action::SetOption { name, value } => ActionView::SetOption { name: name@, value: value@ },
            Action::SetLoa { name, checked } => ActionView::SetLoa {
                name: name@,
                checked: *checked,
            },
            Action::SetRat { name, checked } => ActionView::SetRat {
                name: name@,
                checked: *checked,
            },
            Action::SetWave { name, checked } => ActionView::SetWave {
                name: name@,
                checked: *checked,
            },
            Action::ClearLoa => ActionView::ClearLoa,
            Action::ClearRat => ActionView::ClearRat,
            Action::ClearWave => ActionView::ClearWave,
        }
    }
}

/// A group of names after `name` was ticked or unticked.
pub open spec fn toggled(names: Set<Seq<char>>, name: Seq<char>, checked: bool) -> Set<Seq<char>> {
    if checked {
        names.insert(name)
    } else {
        names.remove(name)
    }
}

/// The mapping that a token gives the ATZ: the type it names, else CTR.
pub open spec fn atz_of(value: Seq<char>) -> AirType {
    match airtype_of(value) {
        Some(t) => t,
        None => AirType::Ctr,
    }
}

/// The home site that a value gives: none for the token "no", else the
/// value as it stands.
pub open spec fn home_of(value: Seq<char>) -> Option<Seq<char>> {
    if value == "no"@ {
        None
    } else {
        Some(value)
    }
}

/// Whether an action is turned down: only a level ceiling whose value
/// writes no number is.
pub open spec fn rejected(a: ActionView) -> bool {
    match a {
        ActionView::SetOption { name, value } => name == "max_level"@ && level_of(value) is None,
        _ => false,
    }
}

/// Whether the field called `name` takes `value`: every field takes
/// every value, but the level ceiling, which takes only a number.
pub open spec fn level_accepted(name: Seq<char>, value: Seq<char>) -> bool {
    !rejected(ActionView::SetOption { name, value })
}

/// The settings after the field called `name` was given `value`. The
/// name is matched as it stands; an unknown name changes nothing, and
/// neither does a level ceiling that writes no number.
pub open spec fn with_field(s: SettingsView, name: Seq<char>, value: Seq<char>) -> SettingsView {
    if name == "atz"@ {
        SettingsView { atz: atz_of(value), ..s }
    } else if name == "ils"@ {
        SettingsView { ils: airtype_of(value), ..s }
    } else if name == "unlicensed"@ {
        SettingsView { unlicensed: airtype_of(value), ..s }
    } else if name == "microlight"@ {
        SettingsView { microlight: airtype_of(value), ..s }
    } else if name == "gliding"@ {
        SettingsView { gliding: airtype_of(value), ..s }
    } else if name == "hirta_gvs"@ {
        SettingsView { hirta_gvs: airtype_of(value), ..s }
    } else if name == "obstacle"@ {
        SettingsView { obstacle: airtype_of(value), ..s }
    } else if name == "max_level"@ {
        match level_of(value) {
            Some(level) => SettingsView { max_level: level, ..s },
            None => s,
        }
    } else if name == "radio"@ {
        SettingsView { radio: value == "yes"@, ..s }
    } else if name == "home"@ {
        SettingsView { home: home_of(value), ..s }
    } else if name == "overlay"@ {
        SettingsView { overlay: overlay_of(value), ..s }
    } else if name == "format"@ {
        SettingsView { format: format_of(value), ..s }
    } else {
        s
    }
}

/// The settings that follow `s` under the action `a`.
pub open spec fn step(s: SettingsView, a: ActionView) -> SettingsView {
    match a {
        ActionView::SetOption { name, value } => with_field(s, name, value),
        ActionView::SetLoa { name, checked } => SettingsView {
            loa: toggled(s.loa, name, checked),
            ..s
        },
        ActionView::SetRat { name, checked } => SettingsView {
            rat: toggled(s.rat, name, checked),
            ..s
        },
        ActionView::SetWave { name, checked } => SettingsView {
            wave: toggled(s.wave, name, checked),
            ..s
        },
        ActionView::ClearLoa => SettingsView { loa: Set::empty(), ..s },
        ActionView::ClearRat => SettingsView { rat: Set::empty(), ..s },
        ActionView::ClearWave => SettingsView { wave: Set::empty(), ..s },
    }
}

/// What `reduce` owes for a state and an action: the next state, or the
/// error where the action is turned down.
pub open spec fn reduces_to(s: SettingsView, a: ActionView, r: Result<State, ErrorKind>) -> bool {
    match r {
        Ok(next) => !rejected(a) && next@ == step(s, a),
        Err(e) => rejected(a) && e == ErrorKind::InvalidNumericInput,
    }
}

/// The name of the level ceiling is none of the names that are looked at
/// before it.
pub proof fn lemma_level_name_stands_alone()
    ensures
        "max_level"@ != "atz"@,
        "max_level"@ != "ils"@,
        "max_level"@ != "unlicensed"@,
        "max_level"@ != "microlight"@,
        "max_level"@ != "gliding"@,
        "max_level"@ != "hirta_gvs"@,
        "max_level"@ != "obstacle"@,
{
    reveal_strlit("max_level");
    reveal_strlit("atz");
    reveal_strlit("ils");
    reveal_strlit("unlicensed");
    reveal_strlit("microlight");
    reveal_strlit("gliding");
    reveal_strlit("hirta_gvs");
    reveal_strlit("obstacle");
    assert("max_level"@.len() == 9);
    assert("atz"@.len() == 3);
    assert("ils"@.len() == 3);
    assert("unlicensed"@.len() == 10);
    assert("microlight"@.len() == 10);
    assert("gliding"@.len() == 7);
    assert("obstacle"@.len() == 8);
    assert("max_level"@[0] != "hirta_gvs"@[0]);
}

/// Gives the field of `set` called `name` the value that `value` writes.
pub fn set_field(set: &mut Settings, name: &String, value: String) -> (r: Result<(), ErrorKind>)
    ensures
        match r {
            Ok(()) => level_accepted(name@, value@) && final(set)@ == with_field(
                old(set)@,
                name@,
                value@,
            ),
            Err(e) => !level_accepted(name@, value@) && e == ErrorKind::InvalidNumericInput
                && final(set)@ == old(set)@,
        },
{
    proof {
        lemma_level_name_stands_alone();
    }
    if is_token(name, "atz") {
        set.atz = match get_airtype(value.as_str()) {
            Some(t) => t,
            None => AirType::Ctr,
        };
    } else if is_token(name, "ils") {
        set.ils = get_airtype(value.as_str());
    } else if is_token(name, "unlicensed") {
        set.unlicensed = get_airtype(value.as_str());
    } else if is_token(name, "microlight") {
        set.microlight = get_airtype(value.as_str());
    } else if is_token(name, "gliding") {
        set.gliding = get_airtype(value.as_str());
    } else if is_token(name, "hirta_gvs") {
        set.hirta_gvs = get_airtype(value.as_str());
    } else if is_token(name, "obstacle") {
        set.obstacle = get_airtype(value.as_str());
    } else if is_token(name, "max_level") {
        match parse_level(value.as_str()) {
            Some(level) => {
                set.max_level = level;
            },
            None => {
                return Err(ErrorKind::InvalidNumericInput);
            },
        }
    } else if is_token(name, "radio") {
        set.radio = is_token(&value, "yes");
    } else if is_token(name, "home") {
        set.home = if is_token(&value, "no") {
            None
        } else {
            Some(value)
        };
    } else if is_token(name, "overlay") {
        set.overlay = get_overlay(value.as_str());
    } else if is_token(name, "format") {
        set.format = get_format(value.as_str());
    }
    Ok(())
}

impl State {
    /// The state that follows this one under `action`. This state is
    /// left as it is. An action that is turned down gives the error and
    /// no new state.
    pub fn reduce(&self, action: Action) -> (r: Result<State, ErrorKind>)
        ensures
            reduces_to(self@, action@, r),
    {
        let mut set = self.settings.clone();
        match action {
            Action::SetOption { name, value } => {
                match set_field(&mut set, &name, value) {
                    Ok(()) => {},
                    Err(e) => {
                        return Err(e);
                    },
                }
            },
            Action::SetLoa { name, checked } => {
                if checked {
                    set.loa.insert(name);
                } else {
                    set.loa.remove(name.as_str());
                }
            },
            Action::SetRat { name, checked } => {
                if checked {
                    set.rat.insert(name);
                } else {
                    set.rat.remove(name.as_str());
                }
            },
            Action::SetWave { name, checked } => {
                if checked {
                    set.wave.insert(name);
                } else {
                    set.wave.remove(name.as_str());
                }
            },
            Action::ClearLoa => set.loa.clear(),
            Action::ClearRat => set.rat.clear(),
            Action::ClearWave => set.wave.clear(),
        }
        Ok(State { settings: set })
    }
}

} // verus!
