//! The rules of the desktop side's window commands: colour mode and window
//! background effect (Mica, Acrylic or none).

use vstd::prelude::*;
use vstd::string::*;
use crate::localdata::WindowState;

verus! {

/// The name of a colour mode.
pub open spec fn mode_name(dark: bool) -> Seq<char> {
    if dark {
        "Dark"@
    } else {
        "Light"@
    }
}

/// The name of a colour mode: "Dark" or "Light".
pub fn mode_text(dark: bool) -> (s: String)
    ensures
        s@ == mode_name(dark),
{
    if dark {
        String::from_str("Dark")
    } else {
        String::from_str("Light")
    }
}

/// A window theme as the window reports it.
#[derive(Clone, Copy, Debug, PartialEq, Eq, Structural)]
pub enum Theme {
    Light,
    Dark,
}

/// Whether the window is dark. `theme` is `None` when the window could not
/// report its theme, which counts as light.
pub fn colormode_isdark(theme: Option<Theme>) -> (dark: bool)
    ensures
        dark == (theme == Some(Theme::Dark)),
{
    match theme {
        Some(Theme::Dark) => true,
        _ => false,
    }
}

/// The reply to the command that minimizes the window: `false` whatever the
/// outcome, which is only logged.
pub fn window_minimize(outcome: &Result<(), String>) -> (reply: bool)
    ensures
        !reply,
{
    match outcome {
        Ok(()) => false,
        Err(_) => false,
    }
}

/// The reply to the command that closes the window: `false` whatever the
/// outcome, which is only logged.
pub fn window_close(outcome: &Result<(), String>) -> (reply: bool)
    ensures
        !reply,
{
    match outcome {
        Ok(()) => false,
        Err(_) => false,
    }
}

/// A background effect of the window.
#[derive(Clone, Copy, Debug, PartialEq, Eq, Structural)]
pub enum Effect {
    Mica,
    Acrylic,
}

/// The name under which the window state records an effect.
pub open spec fn effect_name(e: Effect) -> Seq<char> {
    match e {
        Effect::Mica => "Mica"@,
        Effect::Acrylic => "Acrylic"@,
    }
}

/// The name recorded when the window has no effect.
pub open spec fn no_effect() -> Seq<char> {
    "None"@
}

/// The effect that a recorded name stands for.
pub open spec fn recorded_effect(name: Seq<char>) -> Option<Effect> {
    if name == "Mica"@ {
        Some(Effect::Mica)
    } else if name == "Acrylic"@ {
        Some(Effect::Acrylic)
    } else {
        None
    }
}

/// The window state's effect is one of the three names in use.
pub open spec fn effect_known(state: WindowState) -> bool {
    state.effect@ == "Mica"@ || state.effect@ == "Acrylic"@ || state.effect@ == no_effect()
}

/// The name of `e`.
pub fn effect_text(e: Effect) -> (s: String)
    ensures
        s@ == effect_name(e),
{
    match e {
        Effect::Mica => String::from_str("Mica"),
        Effect::Acrylic => String::from_str("Acrylic"),
    }
}

/// Which effect a recorded name stands for.
pub fn effect_of(name: &String) -> (e: Option<Effect>)
    ensures
        e == recorded_effect(name@),
{
    if *name == String::from_str("Mica") {
        Some(Effect::Mica)
    } else if *name == String::from_str("Acrylic") {
        Some(Effect::Acrylic)
    } else {
        None
    }
}

/// The effect that the window gets at start-up: Mica if it could be
/// applied, else Acrylic if that could, else none. (Acrylic is only tried
/// when Mica failed.)
pub fn startup_effect(mica_applied: bool, acrylic_applied: bool) -> (name: String)
    ensures
        name@ == (if mica_applied {
            "Mica"@
        } else if acrylic_applied {
            "Acrylic"@
        } else {
            no_effect()
        }),
{
    if mica_applied {
        effect_text(Effect::Mica)
    } else if acrylic_applied {
        effect_text(Effect::Acrylic)
    } else {
        String::from_str("None")
    }
}

/// The window state at start-up.
pub fn startup_state(dark: bool, mica_applied: bool, acrylic_applied: bool) -> (s: WindowState)
    ensures
        s.darkmode == dark,
        s.effect@ == (if mica_applied {
            "Mica"@
        } else if acrylic_applied {
            "Acrylic"@
        } else {
            no_effect()
        }),
        effect_known(s),
{
    WindowState { effect: startup_effect(mica_applied, acrylic_applied), darkmode: dark }
}

/// The current effect's name.
pub fn windoweffect_get(state: &WindowState) -> (name: String)
    ensures
        name == state.effect,
{
    state.effect.clone()
}

/// The log line of a colour mode change.
pub open spec fn colormode_change_line(dark: bool, effect: Seq<char>) -> Seq<char> {
    "[INFO] Changed colormode to "@ + mode_name(dark) + (if effect == "Mica"@ {
        " (Mica)"@
    } else {
        Seq::<char>::empty()
    }) + "."@
}

/// Whether a colour mode change applies Mica again: when it is the effect.
pub open spec fn reapplies_mica(effect: Seq<char>) -> bool {
    effect == "Mica"@
}

/// The effect recorded once a colour mode change is over; `mica_ok` tells
/// whether Mica was applied again.
pub open spec fn effect_after_colormode(effect: Seq<char>, mica_ok: bool) -> Seq<char> {
    if mica_ok {
        "Mica"@
    } else {
        effect
    }
}

/// Changing the colour mode: the state records `isdark`. The result says
/// whether Mica is to be applied again with the new mode (only when it is
/// the current effect); the caller then calls `colormode_change_done`.
pub fn colormode_change(state: &mut WindowState, isdark: bool) -> (reapply_mica: bool)
    ensures
        final(state).darkmode == isdark,
        final(state).effect == old(state).effect,
        reapply_mica == reapplies_mica(old(state).effect@),
        reapply_mica == (old(state).effect@ == "Mica"@),
{
    state.darkmode = isdark;
    effect_of(&state.effect) == Some(Effect::Mica)
}

/// The log line of a colour mode change to `isdark` with the effect
/// `effect`.
pub fn colormode_change_message(isdark: bool, effect: &String) -> (line: String)
    ensures
        line@ == colormode_change_line(isdark, effect@),
{
    let mut line = String::from_str("[INFO] Changed colormode to ");
    let mode = mode_text(isdark);
    line.append(mode.as_str());
    if effect_of(effect) == Some(Effect::Mica) {
        line.append(" (Mica)");
    }
    line.append(".");
    line
}

/// The reply to a colour mode change. `mica` is `None` when Mica was not to
/// be applied again, else the outcome of applying it. The reply is `Ok(true)`
/// exactly when Mica was applied; the state then records Mica.
pub fn colormode_change_done(state: &mut WindowState, mica: Option<Result<(), String>>) -> (reply:
    Result<bool, bool>)
    ensures
        reply == Ok::<bool, bool>(mica matches Some(Ok(_))),
        final(state).darkmode == old(state).darkmode,
        final(state).effect@ == effect_after_colormode(old(state).effect@, mica matches Some(Ok(_))),
        !(mica matches Some(Ok(_))) ==> *final(state) == *old(state),
        mica matches Some(Ok(_)) ==> final(state).effect@ == "Mica"@,
{
    match mica {
        Some(Ok(())) => {
            state.effect = effect_text(Effect::Mica);
            Ok(true)
        },
        _ => Ok(false),
    }
}

/// What a window effect command does to the window.
#[derive(Clone, Debug)]
pub enum EffectPlan {
    /// Nothing; the reply is this text.
    Reply(String),
    /// Clear this effect from the window.
    Clear(Effect),
    /// Clear `clear` from the window (which must succeed), then apply
    /// `apply`, with `dark` as the colour mode argument of the call.
    Switch { clear: Effect, apply: Effect, dark: Option<bool> },
}

/// A plan as values.
pub enum EffectPlanView {
    Reply(Seq<char>),
    Clear(Effect),
    Switch { clear: Effect, apply: Effect, dark: Option<bool> },
}

impl View for EffectPlan {
    type V = EffectPlanView;

    open spec fn view(&self) -> EffectPlanView {
        match self {
            EffectPlan::Reply(t) => EffectPlanView::Reply(t@),
            EffectPlan::Clear(e) => EffectPlanView::Clear(*e),
            EffectPlan::Switch { clear, apply, dark } => EffectPlanView::Switch {
                clear: *clear,
                apply: *apply,
                dark: *dark,
            },
        }
    }
}

/// The plan of the window effect command. With `ifclear` the current effect
/// is cleared; without, Mica and Acrylic are swapped. With no known effect
/// nothing is done, and the reply is "None" (when clearing) or the recorded
/// name.
pub open spec fn effect_plan(effect: Seq<char>, dark: bool, ifclear: bool) -> EffectPlanView {
    match recorded_effect(effect) {
        Some(e) => if ifclear {
            EffectPlanView::Clear(e)
        } else {
            match e {
                Effect::Mica => EffectPlanView::Switch {
                    clear: Effect::Mica,
                    apply: Effect::Acrylic,
                    dark: None,
                },
                Effect::Acrylic => EffectPlanView::Switch {
                    clear: Effect::Acrylic,
                    apply: Effect::Mica,
                    dark: Some(dark),
                },
            }
        },
        None => EffectPlanView::Reply(
            if ifclear {
                no_effect()
            } else {
                effect
            },
        ),
    }
}

/// First part of the window effect command: what to do to the window.
pub fn windoweffect_plan(state: &WindowState, ifclear: bool) -> (plan: EffectPlan)
    ensures
        plan@ == effect_plan(state.effect@, state.darkmode, ifclear),
        state.effect@ == "Acrylic"@ && !ifclear ==> plan@ == (EffectPlanView::Switch {
            clear: Effect::Acrylic,
            apply: Effect::Mica,
            dark: Some(state.darkmode),
        }),
        state.effect@ == "Mica"@ && !ifclear ==> plan@ == (EffectPlanView::Switch {
            clear: Effect::Mica,
            apply: Effect::Acrylic,
            dark: None,
        }),
{
    proof {
        reveal_strlit("Mica");
        reveal_strlit("Acrylic");
        assert("Acrylic"@.len() != "Mica"@.len());
    }
    match effect_of(&state.effect) {
        Some(e) => {
            if ifclear {
                EffectPlan::Clear(e)
            } else {
                match e {
                    Effect::Mica => EffectPlan::Switch {
                        clear: Effect::Mica,
                        apply: Effect::Acrylic,
                        dark: None,
                    },
                    Effect::Acrylic => EffectPlan::Switch {
                        clear: Effect::Acrylic,
                        apply: Effect::Mica,
                        dark: Some(state.darkmode),
                    },
                }
            }
        },
        None => {
            if ifclear {
                EffectPlan::Reply(String::from_str("None"))
            } else {
                EffectPlan::Reply(state.effect.clone())
            }
        },
    }
}

/// The effect recorded after carrying out `plan` with `outcome` (the outcome
/// of the clearing, or of the applying for a switch).
pub open spec fn effect_after(effect: Seq<char>, plan: EffectPlanView, ok: bool) -> Seq<char> {
    match plan {
        EffectPlanView::Reply(_) => effect,
        EffectPlanView::Clear(_) => if ok {
            no_effect()
        } else {
            effect
        },
        EffectPlanView::Switch { apply, .. } => if ok {
            effect_name(apply)
        } else {
            effect
        },
    }
}

/// Last part of the window effect command: `outcome` is the outcome of the
/// clearing (for `Clear`) or of the applying (for `Switch`); it is not read
/// for `Reply`. The state records the new effect, and the reply is the
/// recorded effect, or the text of a `Reply`.
pub fn windoweffect_done(state: &mut WindowState, plan: &EffectPlan, outcome: &Result<(), String>) -> (reply: String)
    ensures
        final(state).darkmode == old(state).darkmode,
        final(state).effect@ == effect_after(old(state).effect@, plan@, outcome is Ok),
        match plan {
            EffectPlan::Reply(t) => reply@ == t@,
            _ => reply@ == final(state).effect@,
        },
{
    match plan {
        EffectPlan::Reply(t) => t.clone(),
        EffectPlan::Clear(_) => {
            if outcome.is_ok() {
                state.effect = String::from_str("None");
            }
            state.effect.clone()
        },
        EffectPlan::Switch { apply, .. } => {
            if outcome.is_ok() {
                state.effect = effect_text(*apply);
            }
            state.effect.clone()
        },
    }
}


// ---------------------------------------------------------------------------
// Laws of the window commands.

/// A window effect command keeps the recorded effect one of "Mica",
/// "Acrylic" and "None", whatever the outcome of the call on the window,
/// and its reply is then the recorded effect.
pub proof fn law_windoweffect_keeps_known_effect(effect: Seq<char>, dark: bool, ifclear: bool, ok: bool)
    requires
        effect == "Mica"@ || effect == "Acrylic"@ || effect == no_effect(),
    ensures
        ({
            let after = effect_after(effect, effect_plan(effect, dark, ifclear), ok);
            &&& after == "Mica"@ || after == "Acrylic"@ || after == no_effect()
            &&& effect_plan(effect, dark, ifclear) matches EffectPlanView::Reply(t) ==> t == after
        }),
{
    reveal_strlit("Mica");
    reveal_strlit("Acrylic");
    reveal_strlit("None");
}

/// Swapping the effect twice, both times with success, gives back the
/// effect that the window had.
pub proof fn law_windoweffect_swap_twice_restores(effect: Seq<char>, dark: bool)
    requires
        recorded_effect(effect) is Some,
    ensures
        ({
            let once = effect_after(effect, effect_plan(effect, dark, false), true);
            effect_after(once, effect_plan(once, dark, false), true) == effect
        }),
{
    reveal_strlit("Mica");
    reveal_strlit("Acrylic");
}

/// Clearing the effect with success leaves the window with none, and
/// clearing it again then does nothing and replies "None".
pub proof fn law_windoweffect_clear(effect: Seq<char>, dark: bool)
    requires
        recorded_effect(effect) is Some,
    ensures
        effect_after(effect, effect_plan(effect, dark, true), true) == no_effect(),
        effect_plan(no_effect(), dark, true) == EffectPlanView::Reply(no_effect()),
{
    reveal_strlit("Mica");
    reveal_strlit("Acrylic");
    reveal_strlit("None");
    assert(no_effect()[0] != "Mica"@[0]);
    assert(recorded_effect(no_effect()) is None);
}

/// A window effect command whose call on the window fails leaves the
/// recorded effect as it was.
pub proof fn law_windoweffect_failure_keeps_effect(effect: Seq<char>, dark: bool, ifclear: bool)
    ensures
        effect_after(effect, effect_plan(effect, dark, ifclear), false) == effect,
{
}

/// A colour mode change leaves the recorded effect as it was: Mica is only
/// applied again when it is the effect.
pub proof fn law_colormode_change_keeps_effect(effect: Seq<char>, mica_ok: bool)
    requires
        mica_ok ==> reapplies_mica(effect),
    ensures
        effect_after_colormode(effect, mica_ok) == effect,
{
}


/// The plan of every window effect command, by the recorded effect: Mica
/// and Acrylic are cleared or swapped (Mica is applied with the window's
/// recorded colour mode, Acrylic with no colour); any other record leads to
/// no call, and the reply "None" when clearing, else the record itself.
pub proof fn law_effect_plan_by_effect(effect: Seq<char>, dark: bool)
    ensures
        effect == "Mica"@ ==> effect_plan(effect, dark, true) == EffectPlanView::Clear(Effect::Mica)
            && effect_plan(effect, dark, false) == (EffectPlanView::Switch {
            clear: Effect::Mica,
            apply: Effect::Acrylic,
            dark: None,
        }),
        effect == "Acrylic"@ ==> effect_plan(effect, dark, true) == EffectPlanView::Clear(
            Effect::Acrylic,
        ) && effect_plan(effect, dark, false) == (EffectPlanView::Switch {
            clear: Effect::Acrylic,
            apply: Effect::Mica,
            dark: Some(dark),
        }),
        effect != "Mica"@ && effect != "Acrylic"@ ==> effect_plan(effect, dark, true)
            == EffectPlanView::Reply("None"@) && effect_plan(effect, dark, false)
            == EffectPlanView::Reply(effect),
{
    reveal_strlit("Mica");
    reveal_strlit("Acrylic");
    assert("Acrylic"@.len() != "Mica"@.len());
}

/// What carrying out a plan records: a cleared window has no effect, a
/// swapped one has the applied effect, and a failed call or a mere reply
/// leaves the record.
pub proof fn law_effect_after_by_plan(effect: Seq<char>, e: Effect, clear: Effect, dark: Option<bool>, ok: bool)
    ensures
        effect_after(effect, EffectPlanView::Clear(e), true) == "None"@,
        effect_after(effect, EffectPlanView::Switch { clear, apply: e, dark }, true) == (
        match e {
            Effect::Mica => "Mica"@,
            Effect::Acrylic => "Acrylic"@,
        }),
        effect_after(effect, EffectPlanView::Clear(e), false) == effect,
        effect_after(effect, EffectPlanView::Switch { clear, apply: e, dark }, false) == effect,
        effect_after(effect, EffectPlanView::Reply(effect), ok) == effect,
{
}

/// A colour mode change applies Mica again exactly when the recorded effect
/// is "Mica", and a successful application records "Mica".
pub proof fn law_colormode_change_reapplies_exactly_mica(effect: Seq<char>)
    ensures
        reapplies_mica(effect) <==> effect == "Mica"@,
        effect_after_colormode(effect, true) == "Mica"@,
        effect_after_colormode(effect, false) == effect,
{
}

} // verus!
