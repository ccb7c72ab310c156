//! What holds of the step from one state to the next, whatever the
//! settings and the action.

use crate::model::{AirType, Format, Overlay, SettingsView};
use crate::state::{
    atz_of, home_of, lemma_level_name_stands_alone, reduces_to, rejected, step, ActionView,
    ErrorKind, State,
};
use crate::token::{airtype_of, format_of, level_of, overlay_of};
use vstd::prelude::*;

verus! {

/// The settings after a run of actions, taken one after the other.
pub open spec fn run(s: SettingsView, actions: Seq<ActionView>) -> SettingsView
    decreases actions.len(),
{
    if actions.len() == 0 {
        s
    } else {
        step(run(s, actions.drop_last()), actions.last())
    }
}

/// The step is a function of the state and the action: two outcomes for
/// the same pair are both states that say the same, or both the same error.
pub proof fn lemma_reduce_is_a_function(
    s: SettingsView,
    a: ActionView,
    r1: Result<State, ErrorKind>,
    r2: Result<State, ErrorKind>,
)
    requires
        reduces_to(s, a, r1),
        reduces_to(s, a, r2),
    ensures
        r1 is Ok <==> r2 is Ok,
        r1 is Ok ==> r1->Ok_0@ == r2->Ok_0@,
        r1 is Err ==> r1->Err_0 == r2->Err_0,
{
}

/// An action is turned down only where it gives the level ceiling a value;
/// ticking, unticking and clearing always go through.
pub proof fn lemma_only_a_field_is_rejected(a: ActionView)
    ensures
        rejected(a) ==> a is SetOption,
{
}

/// An action that is turned down would not have changed the settings.
pub proof fn lemma_rejected_changes_nothing(s: SettingsView, a: ActionView)
    requires
        rejected(a),
    ensures
        step(s, a) == s,
{
    lemma_level_name_stands_alone();
}

/// Taking the same action twice leaves what taking it once leaves: a name
/// ticked twice is in its group once, a name unticked twice is out of it,
/// a group cleared twice is empty, a field set twice holds the value.
pub proof fn lemma_step_idempotent(s: SettingsView, a: ActionView)
    ensures
        step(step(s, a), a) == step(s, a),
{
    let once = step(s, a);
    let twice = step(once, a);
    assert(twice.loa =~= once.loa);
    assert(twice.rat =~= once.rat);
    assert(twice.wave =~= once.wave);
}

/// Unticking a name after ticking it leaves what unticking alone leaves:
/// the group without the name, and every other field as it was.
pub proof fn lemma_untick_after_tick(s: SettingsView, name: Seq<char>)
    ensures
        step(
            step(s, ActionView::SetLoa { name, checked: true }),
            ActionView::SetLoa { name, checked: false },
        ) == step(s, ActionView::SetLoa { name, checked: false }),
        step(
            step(s, ActionView::SetRat { name, checked: true }),
            ActionView::SetRat { name, checked: false },
        ) == step(s, ActionView::SetRat { name, checked: false }),
        step(
            step(s, ActionView::SetWave { name, checked: true }),
            ActionView::SetWave { name, checked: false },
        ) == step(s, ActionView::SetWave { name, checked: false }),
{
    assert(s.loa.insert(name).remove(name) =~= s.loa.remove(name));
    assert(s.rat.insert(name).remove(name) =~= s.rat.remove(name));
    assert(s.wave.insert(name).remove(name) =~= s.wave.remove(name));
}

/// Ticking a name that was not in the Letters of Agreement and then
/// unticking it gives the settings back as they were.
pub proof fn lemma_tick_then_untick_loa(s: SettingsView, name: Seq<char>)
    requires
        !s.loa.contains(name),
    ensures
        step(
            step(s, ActionView::SetLoa { name, checked: true }),
            ActionView::SetLoa { name, checked: false },
        ) == s,
{
    assert(s.loa.insert(name).remove(name) =~= s.loa);
}

/// Ticking a name that was not among the RAT zones and then unticking it
/// gives the settings back as they were.
pub proof fn lemma_tick_then_untick_rat(s: SettingsView, name: Seq<char>)
    requires
        !s.rat.contains(name),
    ensures
        step(
            step(s, ActionView::SetRat { name, checked: true }),
            ActionView::SetRat { name, checked: false },
        ) == s,
{
    assert(s.rat.insert(name).remove(name) =~= s.rat);
}

/// Ticking a name that was not among the wave boxes and then unticking it
/// gives the settings back as they were.
pub proof fn lemma_tick_then_untick_wave(s: SettingsView, name: Seq<char>)
    requires
        !s.wave.contains(name),
    ensures
        step(
            step(s, ActionView::SetWave { name, checked: true }),
            ActionView::SetWave { name, checked: false },
        ) == s,
{
    assert(s.wave.insert(name).remove(name) =~= s.wave);
}

/// Clearing a group after any run of actions leaves that group empty,
/// and every other field as the run left it.
pub proof fn lemma_clear_after_any_run(s: SettingsView, actions: Seq<ActionView>)
    ensures
        step(run(s, actions), ActionView::ClearLoa) == (SettingsView {
            loa: Set::empty(),
            ..run(s, actions)
        }),
        step(run(s, actions), ActionView::ClearRat) == (SettingsView {
            rat: Set::empty(),
            ..run(s, actions)
        }),
        step(run(s, actions), ActionView::ClearWave) == (SettingsView {
            wave: Set::empty(),
            ..run(s, actions)
        }),
        run(s, actions.push(ActionView::ClearLoa)).loa == Set::<Seq<char>>::empty(),
        run(s, actions.push(ActionView::ClearRat)).rat == Set::<Seq<char>>::empty(),
        run(s, actions.push(ActionView::ClearWave)).wave == Set::<Seq<char>>::empty(),
{
    assert(actions.push(ActionView::ClearLoa).drop_last() =~= actions);
    assert(actions.push(ActionView::ClearRat).drop_last() =~= actions);
    assert(actions.push(ActionView::ClearWave).drop_last() =~= actions);
}

/// An action on one group of names leaves the two other groups, and
/// every field that is no group, as they were.
pub proof fn lemma_groups_are_independent(s: SettingsView, a: ActionView)
    ensures
        a is SetLoa || a is ClearLoa ==> step(s, a) == (SettingsView { loa: step(s, a).loa, ..s }),
        a is SetRat || a is ClearRat ==> step(s, a) == (SettingsView { rat: step(s, a).rat, ..s }),
        a is SetWave || a is ClearWave ==> step(s, a) == (SettingsView {
            wave: step(s, a).wave,
            ..s
        }),
        a is SetOption ==> step(s, a).loa == s.loa && step(s, a).rat == s.rat && step(s, a).wave
            == s.wave,
{
}

/// Each of the seven mapping tokens names its own airspace type,
/// whatever the order in which the tokens are looked at.
pub proof fn lemma_airtype_tokens()
    ensures
        airtype_of("classd"@) == Some(AirType::ClassD),
        airtype_of("classf"@) == Some(AirType::ClassF),
        airtype_of("classg"@) == Some(AirType::ClassG),
        airtype_of("ctr"@) == Some(AirType::Ctr),
        airtype_of("danger"@) == Some(AirType::Danger),
        airtype_of("restricted"@) == Some(AirType::Restricted),
        airtype_of("gsec"@) == Some(AirType::Gliding),
{
    reveal_strlit("classd");
    reveal_strlit("classf");
    reveal_strlit("classg");
    reveal_strlit("ctr");
    reveal_strlit("danger");
    reveal_strlit("restricted");
    reveal_strlit("gsec");
    assert("classd"@.len() == 6 && "classf"@.len() == 6 && "classg"@.len() == 6);
    assert("ctr"@.len() == 3 && "danger"@.len() == 6);
    assert("restricted"@.len() == 10 && "gsec"@.len() == 4);
    assert("classd"@[5] == 'd' && "classf"@[5] == 'f' && "classg"@[5] == 'g');
    assert("danger"@[0] == 'd' && "classd"@[0] == 'c');
    assert("classf"@[0] == 'c' && "classg"@[0] == 'c');
}

/// The mapping tokens reach seven airspace types and no other: classes A,
/// B, C and E, CTA, MATZ, Other, Prohibited, RMZ and TMZ are named by no
/// text at all.
pub proof fn lemma_airtype_targets(token: Seq<char>)
    ensures
        match airtype_of(token) {
            Some(t) => t == AirType::ClassD || t == AirType::ClassF || t == AirType::ClassG || t
                == AirType::Ctr || t == AirType::Danger || t == AirType::Restricted || t
                == AirType::Gliding,
            None => true,
        },
        atz_of(token) == AirType::Ctr <==> airtype_of(token) is None || airtype_of(token) == Some(
            AirType::Ctr,
        ),
{
}

/// Each overlay token names its own overlay, and each format token its
/// own format.
pub proof fn lemma_overlay_and_format_tokens()
    ensures
        overlay_of("fl195"@) == Some(Overlay::FL195),
        overlay_of("fl105"@) == Some(Overlay::FL105),
        overlay_of("atzdz"@) == Some(Overlay::AtzDz),
        format_of("ratonly"@) == Format::RatOnly,
        format_of("competition"@) == Format::Competition,
{
    reveal_strlit("fl195");
    reveal_strlit("fl105");
    reveal_strlit("atzdz");
    reveal_strlit("ratonly");
    reveal_strlit("competition");
    assert("fl195"@.len() == 5 && "fl105"@.len() == 5 && "atzdz"@.len() == 5);
    assert("fl195"@[3] == '9' && "fl105"@[3] == '0');
    assert("atzdz"@[0] == 'a' && "fl195"@[0] == 'f' && "fl105"@[0] == 'f');
    assert("ratonly"@.len() == 7 && "competition"@.len() == 11);
}

/// What each of the twelve field names does, whatever the order in which
/// the names are looked at: it gives its own field what the value stands
/// for, and leaves every other field as it was.
pub proof fn lemma_field_table(s: SettingsView, value: Seq<char>)
    ensures
        step(s, ActionView::SetOption { name: "atz"@, value }) == (SettingsView {
            atz: atz_of(value),
            ..s
        }),
        step(s, ActionView::SetOption { name: "ils"@, value }) == (SettingsView {
            ils: airtype_of(value),
            ..s
        }),
        step(s, ActionView::SetOption { name: "unlicensed"@, value }) == (SettingsView {
            unlicensed: airtype_of(value),
            ..s
        }),
        step(s, ActionView::SetOption { name: "microlight"@, value }) == (SettingsView {
            microlight: airtype_of(value),
            ..s
        }),
        step(s, ActionView::SetOption { name: "gliding"@, value }) == (SettingsView {
            gliding: airtype_of(value),
            ..s
        }),
        step(s, ActionView::SetOption { name: "hirta_gvs"@, value }) == (SettingsView {
            hirta_gvs: airtype_of(value),
            ..s
        }),
        step(s, ActionView::SetOption { name: "obstacle"@, value }) == (SettingsView {
            obstacle: airtype_of(value),
            ..s
        }),
        step(s, ActionView::SetOption { name: "max_level"@, value }) == (SettingsView {
            max_level: match level_of(value) {
                Some(level) => level,
                None => s.max_level,
            },
            ..s
        }),
        step(s, ActionView::SetOption { name: "radio"@, value }) == (SettingsView {
            radio: value == "yes"@,
            ..s
        }),
        step(s, ActionView::SetOption { name: "home"@, value }) == (SettingsView {
            home: home_of(value),
            ..s
        }),
        step(s, ActionView::SetOption { name: "overlay"@, value }) == (SettingsView {
            overlay: overlay_of(value),
            ..s
        }),
        step(s, ActionView::SetOption { name: "format"@, value }) == (SettingsView {
            format: format_of(value),
            ..s
        }),
{
    reveal_strlit("atz");
    reveal_strlit("ils");
    reveal_strlit("unlicensed");
    reveal_strlit("microlight");
    reveal_strlit("gliding");
    reveal_strlit("hirta_gvs");
    reveal_strlit("obstacle");
    reveal_strlit("max_level");
    reveal_strlit("radio");
    reveal_strlit("home");
    reveal_strlit("overlay");
    reveal_strlit("format");
    assert("atz"@.len() == 3 && "ils"@.len() == 3);
    assert("unlicensed"@.len() == 10 && "microlight"@.len() == 10);
    assert("gliding"@.len() == 7 && "overlay"@.len() == 7);
    assert("hirta_gvs"@.len() == 9 && "max_level"@.len() == 9);
    assert("obstacle"@.len() == 8 && "radio"@.len() == 5);
    assert("home"@.len() == 4 && "format"@.len() == 6);
    assert("atz"@[0] == 'a' && "ils"@[0] == 'i');
    assert("unlicensed"@[0] == 'u' && "microlight"@[0] == 'm');
    assert("gliding"@[0] == 'g' && "overlay"@[0] == 'o');
    assert("hirta_gvs"@[0] == 'h' && "max_level"@[0] == 'm');
}

/// A field name other than the twelve changes nothing.
pub proof fn lemma_unknown_field(s: SettingsView, name: Seq<char>, value: Seq<char>)
    requires
        name != "atz"@,
        name != "ils"@,
        name != "unlicensed"@,
        name != "microlight"@,
        name != "gliding"@,
        name != "hirta_gvs"@,
        name != "obstacle"@,
        name != "max_level"@,
        name != "radio"@,
        name != "home"@,
        name != "overlay"@,
        name != "format"@,
    ensures
        step(s, ActionView::SetOption { name, value }) == s,
        !rejected(ActionView::SetOption { name, value }),
{
}

} // verus!
