//! The auto-launch registrar: a handle on the OS "run at login"
//! registration, with a fail-safe query and a serialized toggle.
//!
//! The OS registration itself lives outside the process (a startup file or
//! registry entry), so its current value can only be sampled, never tracked.
//! The trusted wrappers below promise nothing of those samples; everything
//! the toggle decides from a sample is verified here, and the abstract
//! one-bit state machine [`AutoLaunchModel`] carries the laws that relate
//! successive toggles.

use vstd::prelude::*;

verus! {

/// auto_launch's registrar handle. Opaque here: its methods are reached
/// only through the trusted wrappers below.
#[verifier::external_type_specification]
#[verifier::external_body]
pub struct ExAutoLaunch(auto_launch::AutoLaunch);

/// Relies on auto_launch::AutoLaunchBuilder::build: yields a registrar
/// bound to the given application name and executable path, or an error
/// (name or path unusable, platform unsupported). Whether it succeeds
/// depends on the platform, so nothing is promised of the outcome.
#[verifier::external_body]
fn al_build(app_name: &str, app_path: &str) -> (r: Option<auto_launch::AutoLaunch>) {
    auto_launch::AutoLaunchBuilder::new()
        .set_app_name(app_name)
        .set_app_path(app_path)
        .build()
        .ok()
}

/// Relies on auto_launch::AutoLaunch::is_enabled: reads whether the OS
/// startup registration currently exists. The answer depends on machine
/// state outside this process, so nothing is promised of the outcome.
#[verifier::external_body]
fn al_is_enabled(handle: &auto_launch::AutoLaunch) -> (r: Result<bool, String>) {
    handle.is_enabled().map_err(|e| e.to_string())
}

/// Relies on auto_launch::AutoLaunch::enable: writes the OS startup
/// registration. Success depends on the machine, so nothing is promised.
#[verifier::external_body]
fn al_enable(handle: &auto_launch::AutoLaunch) -> (r: Result<(), String>) {
    handle.enable().map_err(|e| e.to_string())
}

/// Relies on auto_launch::AutoLaunch::disable: removes the OS startup
/// registration. Success depends on the machine, so nothing is promised.
#[verifier::external_body]
fn al_disable(handle: &auto_launch::AutoLaunch) -> (r: Result<(), String>) {
    handle.disable().map_err(|e| e.to_string())
}

/// The message every operation on an uninitialized registrar reports.
pub open spec fn not_initialized_msg() -> Seq<char> {
    "AutoLaunch not initialized"@
}

/// The error value for an uninitialized registrar.
pub fn not_initialized_error() -> (m: String)
    ensures
        m@ == not_initialized_msg(),
{
    "AutoLaunch not initialized".to_owned()
}

/// Fail-safe reading of an autostart query: a failed query counts as
/// "not enabled", never as an error.
pub open spec fn fail_safe_enabled(q: Result<bool, String>) -> bool {
    match q {
        Ok(b) => b,
        Err(_) => false,
    }
}

/// Applies the fail-safe-disabled policy to a query outcome.
pub fn enabled_from_query(q: Result<bool, String>) -> (r: bool)
    ensures
        r == fail_safe_enabled(q),
{
    match q {
        Ok(b) => b,
        Err(_) => false,
    }
}

/// What a toggle answers once the OS call's outcome is known: the state
/// it drove the registration to on success, the OS error's text otherwise.
pub open spec fn toggle_reply(target: bool, op: Result<(), String>) -> Result<bool, String> {
    match op {
        Ok(_) => Ok(target),
        Err(e) => Err(e),
    }
}

/// Turns the outcome of the enable/disable call into the toggle's answer.
pub fn toggle_outcome(target: bool, op: Result<(), String>) -> (r: Result<bool, String>)
    ensures
        r == toggle_reply(target, op),
{
    match op {
        Ok(_) => Ok(target),
        Err(e) => Err(e),
    }
}

/// The process-wide auto-launch registrar: an OS handle when platform
/// setup succeeded, absent otherwise. In the degraded (absent) mode every
/// toggle reports failure and every query reads as disabled; nothing
/// crashes.
pub struct Registrar {
    handle: Option<auto_launch::AutoLaunch>,
}

impl Registrar {
    /// Whether platform setup yielded a usable OS handle.
    pub closed spec fn initialized(&self) -> bool {
        self.handle is Some
    }

    /// Builds a registrar bound to the application name and the running
    /// executable's path; the handle is absent when the platform refuses.
    pub fn initialize(app_name: &str, app_path: &str) -> (r: Registrar) {
        Registrar { handle: al_build(app_name, app_path) }
    }

    /// A registrar whose platform setup failed (degraded mode).
    pub fn uninitialized() -> (r: Registrar)
        ensures
            !r.initialized(),
    {
        Registrar { handle: None }
    }

    /// Whether a handle is present.
    pub fn is_initialized(&self) -> (r: bool)
        ensures
            r == self.initialized(),
    {
        self.handle.is_some()
    }

    /// Queries the OS registration directly; a failed query, or an absent
    /// handle, reads as "not enabled" (fail-safe-disabled policy).
    pub fn is_enabled(&self) -> (r: bool)
        ensures
            !self.initialized() ==> r == false,
    {
        match &self.handle {
            None => false,
            Some(h) => enabled_from_query(al_is_enabled(h)),
        }
    }

    /// Reads the current registration, drives the OS to the opposite
    /// state, and answers the state reached. An absent handle is a
    /// distinct error, never silently read as disabled; when the OS
    /// refuses the change, its error text is passed through and the
    /// registration is left as it was.
    pub fn toggle(&self) -> (r: Result<bool, String>)
        ensures
            !self.initialized() ==> (r matches Err(m) && m@ == not_initialized_msg()),
            r is Ok ==> self.initialized(),
    {
        match &self.handle {
            None => Err(not_initialized_error()),
            Some(h) => {
                let was_enabled = enabled_from_query(al_is_enabled(h));
                let op = if was_enabled {
                    al_disable(h)
                } else {
                    al_enable(h)
                };
                toggle_outcome(!was_enabled, op)
            },
        }
    }
}

/// The abstract state a registrar stands for: whether platform setup
/// succeeded, and the OS's one registration bit. The bit itself lives
/// outside the process; this model is what the registrar's contract says a
/// successful toggle does to it.
pub struct AutoLaunchModel {
    pub initialized: bool,
    pub enabled: bool,
}

/// One toggle step on the abstract state: an initialized registrar flips
/// the bit and reports the new value; an uninitialized one changes
/// nothing and reports the distinct error.
pub open spec fn model_toggle(m: AutoLaunchModel) -> (AutoLaunchModel, Result<bool, Seq<char>>) {
    if m.initialized {
        (AutoLaunchModel { initialized: true, enabled: !m.enabled }, Ok(!m.enabled))
    } else {
        (m, Err(not_initialized_msg()))
    }
}

/// Law: a toggle on an initialized registrar reports the flipped state,
/// and a second toggle restores the original state exactly — toggling is
/// its own inverse after two calls.
pub proof fn lemma_toggle_round_trip(m: AutoLaunchModel)
    requires
        m.initialized,
    ensures
        ({
            let (m1, r1) = model_toggle(m);
            let (m2, r2) = model_toggle(m1);
            &&& r1 == Ok::<bool, Seq<char>>(!m.enabled)
            &&& m1.enabled == !m.enabled
            &&& r2 == Ok::<bool, Seq<char>>(m.enabled)
            &&& m2 == m
        }),
{
}

/// Law: two toggles serialized through the registrar's guard never see
/// the same "before" state — the second starts from the state the first
/// left, so the two report opposite values.
pub proof fn lemma_serialized_toggles_differ(m: AutoLaunchModel)
    requires
        m.initialized,
    ensures
        ({
            let (m1, r1) = model_toggle(m);
            &&& m1.enabled != m.enabled
            &&& model_toggle(m1).1 == Ok::<bool, Seq<char>>(m.enabled)
            &&& r1 != model_toggle(m1).1
        }),
{
}

/// Law: an uninitialized registrar reports the distinct error and leaves
/// the state untouched.
pub proof fn lemma_uninitialized_toggle_is_error(m: AutoLaunchModel)
    requires
        !m.initialized,
    ensures
        model_toggle(m).0 == m,
        model_toggle(m).1 == Err::<bool, Seq<char>>(not_initialized_msg()),
{
}

} // verus!
