//! The signup orchestrator: one attempt is a fixed, linear sequence of page
//! interactions. The step machine here decides everything — which step comes
//! next, what interaction each step performs, and that a failed interaction
//! aborts the attempt — while the shell around the library merely executes
//! each returned action against the live browser session.

use crate::settings::Configuration;
use vstd::prelude::*;
use vstd::string::StringExecFns;

verus! {

/// The ten form interactions of one signup attempt, in their fixed order.
#[derive(Clone, Copy, PartialEq, Eq, Structural, Debug)]
pub enum SignupStep {
    Navigate,
    FirstName,
    LastName,
    Email,
    CountryCode,
    Phone,
    Password,
    Submit,
    Address,
    Suggestion,
}

pub open spec fn spec_step_index(s: SignupStep) -> int {
    match s {
        SignupStep::Navigate => 0,
        SignupStep::FirstName => 1,
        SignupStep::LastName => 2,
        SignupStep::Email => 3,
        SignupStep::CountryCode => 4,
        SignupStep::Phone => 5,
        SignupStep::Password => 6,
        SignupStep::Submit => 7,
        SignupStep::Address => 8,
        SignupStep::Suggestion => 9,
    }
}

pub open spec fn spec_next_step(s: SignupStep) -> Option<SignupStep> {
    match s {
        SignupStep::Navigate => Some(SignupStep::FirstName),
        SignupStep::FirstName => Some(SignupStep::LastName),
        SignupStep::LastName => Some(SignupStep::Email),
        SignupStep::Email => Some(SignupStep::CountryCode),
        SignupStep::CountryCode => Some(SignupStep::Phone),
        SignupStep::Phone => Some(SignupStep::Password),
        SignupStep::Password => Some(SignupStep::Submit),
        SignupStep::Submit => Some(SignupStep::Address),
        SignupStep::Address => Some(SignupStep::Suggestion),
        SignupStep::Suggestion => None,
    }
}

/// The step every attempt begins at.
pub fn first_step() -> (s: SignupStep)
    ensures
        s == SignupStep::Navigate,
{
    SignupStep::Navigate
}

pub fn next_step(s: SignupStep) -> (r: Option<SignupStep>)
    ensures
        r == spec_next_step(s),
{
    match s {
        SignupStep::Navigate => Some(SignupStep::FirstName),
        SignupStep::FirstName => Some(SignupStep::LastName),
        SignupStep::LastName => Some(SignupStep::Email),
        SignupStep::Email => Some(SignupStep::CountryCode),
        SignupStep::CountryCode => Some(SignupStep::Phone),
        SignupStep::Phone => Some(SignupStep::Password),
        SignupStep::Password => Some(SignupStep::Submit),
        SignupStep::Submit => Some(SignupStep::Address),
        SignupStep::Address => Some(SignupStep::Suggestion),
        SignupStep::Suggestion => None,
    }
}

pub fn step_index(s: SignupStep) -> (i: u32)
    ensures
        i == spec_step_index(s),
{
    match s {
        SignupStep::Navigate => 0,
        SignupStep::FirstName => 1,
        SignupStep::LastName => 2,
        SignupStep::Email => 3,
        SignupStep::CountryCode => 4,
        SignupStep::Phone => 5,
        SignupStep::Password => 6,
        SignupStep::Submit => 7,
        SignupStep::Address => 8,
        SignupStep::Suggestion => 9,
    }
}

/// The steps advance strictly in order, one at a time, none skipped, and
/// only the last step has no successor.
pub proof fn lemma_steps_linear(s: SignupStep)
    ensures
        spec_next_step(s) matches Some(t) ==> spec_step_index(t) == spec_step_index(s) + 1,
        spec_next_step(s) is None <==> s == SignupStep::Suggestion,
{
}

/// A human-readable name for a step, for attempt-failure diagnostics.
pub open spec fn spec_step_name(s: SignupStep) -> Seq<char> {
    match s {
        SignupStep::Navigate => "navigate"@,
        SignupStep::FirstName => "first name"@,
        SignupStep::LastName => "last name"@,
        SignupStep::Email => "email"@,
        SignupStep::CountryCode => "country code"@,
        SignupStep::Phone => "phone"@,
        SignupStep::Password => "password"@,
        SignupStep::Submit => "submit"@,
        SignupStep::Address => "address"@,
        SignupStep::Suggestion => "address suggestion"@,
    }
}

pub fn step_name(s: SignupStep) -> (r: &'static str)
    ensures
        r@ == spec_step_name(s),
{
    match s {
        SignupStep::Navigate => "navigate",
        SignupStep::FirstName => "first name",
        SignupStep::LastName => "last name",
        SignupStep::Email => "email",
        SignupStep::CountryCode => "country code",
        SignupStep::Phone => "phone",
        SignupStep::Password => "password",
        SignupStep::Submit => "submit",
        SignupStep::Address => "address",
        SignupStep::Suggestion => "address suggestion",
    }
}

/// The ghost model of one page interaction.
pub enum ActionModel {
    /// Navigate the session to a URL.
    Goto(Seq<char>),
    /// Locate the first element matching a CSS selector and type text into it.
    Fill(Seq<char>, Seq<char>),
    /// Locate the first element matching a CSS selector and click it.
    ClickFirst(Seq<char>),
    /// Locate an element by CSS selector, then click the child the XPath names.
    ClickOption(Seq<char>, Seq<char>),
}

/// One page interaction for the shell to execute, with every selector and
/// every typed text pinned by the step machine.
pub enum PageAction {
    Goto(String),
    Fill(String, String),
    ClickFirst(String),
    ClickOption(String, String),
}

impl View for PageAction {
    type V = ActionModel;

    open spec fn view(&self) -> ActionModel {
        match self {
            PageAction::Goto(url) => ActionModel::Goto(url@),
            PageAction::Fill(sel, text) => ActionModel::Fill(sel@, text@),
            PageAction::ClickFirst(sel) => ActionModel::ClickFirst(sel@),
            PageAction::ClickOption(sel, opt) => ActionModel::ClickOption(sel@, opt@),
        }
    }
}

pub open spec fn signup_url() -> Seq<char> {
    "https://identity.doordash.com/auth/user/signup?client_id=1666519390426295040&enable_last_social=false&intl=en-US&layout=consumer_web&prompt=none&redirect_uri=https%3A%2F%2Fwww.doordash.com%2Fpost-login%2F&response_type=code&scope=%2A&state=%2Fen-US%2Fhome%2F%7C%7Cf0e073b3-2117-4d5e-9129-f5254065cdf3"@
}

pub open spec fn sel_first_name() -> Seq<char> {
    "input[data-anchor-id=IdentitySignupFirstNameField]"@
}

pub open spec fn sel_last_name() -> Seq<char> {
    "input[data-anchor-id=IdentitySignupLastNameField]"@
}

pub open spec fn sel_email() -> Seq<char> {
    "input[data-anchor-id=IdentitySignupEmailField]"@
}

pub open spec fn sel_country_wrapper() -> Seq<char> {
    "#FieldWrapper-3"@
}

pub open spec fn xpath_country_au() -> Seq<char> {
    "option[@value='AU']"@
}

pub open spec fn sel_phone() -> Seq<char> {
    "input[data-anchor-id=IdentitySignupPhoneField]"@
}

pub open spec fn sel_password() -> Seq<char> {
    "input[data-anchor-id=IdentitySignupPasswordField]"@
}

pub open spec fn sel_submit() -> Seq<char> {
    "button[data-anchor-id=IdentitySignupSubmitButton]"@
}

pub open spec fn sel_address() -> Seq<char> {
    "input[aria-label='Your delivery address']"@
}

pub open spec fn sel_suggestion() -> Seq<char> {
    "span[data-anchor-id=AddressAutocompleteSuggestion-0]"@
}

/// What each step does, as a function of the settings and the synthesized
/// email and phone of the attempt.
pub open spec fn step_model(
    step: SignupStep,
    c: Configuration,
    email: Seq<char>,
    phone: Seq<char>,
) -> ActionModel {
    match step {
        SignupStep::Navigate => ActionModel::Goto(signup_url()),
        SignupStep::FirstName => ActionModel::Fill(sel_first_name(), c.first_name@),
        SignupStep::LastName => ActionModel::Fill(sel_last_name(), c.last_name@),
        SignupStep::Email => ActionModel::Fill(sel_email(), email),
        SignupStep::CountryCode => ActionModel::ClickOption(
            sel_country_wrapper(),
            xpath_country_au(),
        ),
        SignupStep::Phone => ActionModel::Fill(sel_phone(), phone),
        SignupStep::Password => ActionModel::Fill(sel_password(), c.password@),
        SignupStep::Submit => ActionModel::ClickFirst(sel_submit()),
        SignupStep::Address => ActionModel::Fill(sel_address(), c.address@),
        SignupStep::Suggestion => ActionModel::ClickFirst(sel_suggestion()),
    }
}

/// Builds the page interaction for one step. The shell executes exactly what
/// comes back; every selector and every typed text is pinned here.
pub fn step_action(step: SignupStep, config: &Configuration, email: &str, phone: &str) -> (a:
    PageAction)
    ensures
        a@ == step_model(step, *config, email@, phone@),
{
    match step {
        SignupStep::Navigate => PageAction::Goto(
            "https://identity.doordash.com/auth/user/signup?client_id=1666519390426295040&enable_last_social=false&intl=en-US&layout=consumer_web&prompt=none&redirect_uri=https%3A%2F%2Fwww.doordash.com%2Fpost-login%2F&response_type=code&scope=%2A&state=%2Fen-US%2Fhome%2F%7C%7Cf0e073b3-2117-4d5e-9129-f5254065cdf3".to_owned(),
        ),
        SignupStep::FirstName => PageAction::Fill(
            "input[data-anchor-id=IdentitySignupFirstNameField]".to_owned(),
            clone_string(&config.first_name),
        ),
        SignupStep::LastName => PageAction::Fill(
            "input[data-anchor-id=IdentitySignupLastNameField]".to_owned(),
            clone_string(&config.last_name),
        ),
        SignupStep::Email => PageAction::Fill(
            "input[data-anchor-id=IdentitySignupEmailField]".to_owned(),
            email.to_owned(),
        ),
        SignupStep::CountryCode => PageAction::ClickOption(
            "#FieldWrapper-3".to_owned(),
            "option[@value='AU']".to_owned(),
        ),
        SignupStep::Phone => PageAction::Fill(
            "input[data-anchor-id=IdentitySignupPhoneField]".to_owned(),
            phone.to_owned(),
        ),
        SignupStep::Password => PageAction::Fill(
            "input[data-anchor-id=IdentitySignupPasswordField]".to_owned(),
            clone_string(&config.password),
        ),
        SignupStep::Submit => PageAction::ClickFirst(
            "button[data-anchor-id=IdentitySignupSubmitButton]".to_owned(),
        ),
        SignupStep::Address => PageAction::Fill(
            "input[aria-label='Your delivery address']".to_owned(),
            clone_string(&config.address),
        ),
        SignupStep::Suggestion => PageAction::ClickFirst(
            "span[data-anchor-id=AddressAutocompleteSuggestion-0]".to_owned(),
        ),
    }
}

/// A clone whose contract keeps the character sequence.
fn clone_string(s: &String) -> (r: String)
    ensures
        r@ == s@,
{
    s.as_str().to_owned()
}

/// The state of one attempt: in progress at a step, or terminal.
#[derive(Clone, Copy, PartialEq, Eq, Structural, Debug)]
pub enum AttemptState {
    InProgress(SignupStep),
    Succeeded,
    Failed(SignupStep),
}

/// How one attempt's state moves on one interaction result: success at the
/// last step finishes the attempt, success elsewhere moves to the next step
/// in order, a failed interaction aborts the attempt at its step, and the
/// terminal states never change.
pub open spec fn spec_advance(state: AttemptState, step_ok: bool) -> AttemptState {
    match state {
        AttemptState::InProgress(s) => if !step_ok {
            AttemptState::Failed(s)
        } else {
            match spec_next_step(s) {
                Some(t) => AttemptState::InProgress(t),
                None => AttemptState::Succeeded,
            }
        },
        AttemptState::Succeeded => AttemptState::Succeeded,
        AttemptState::Failed(s) => AttemptState::Failed(s),
    }
}

/// Every attempt starts at the first step.
pub fn start_attempt() -> (s: AttemptState)
    ensures
        s == AttemptState::InProgress(SignupStep::Navigate),
{
    AttemptState::InProgress(SignupStep::Navigate)
}

pub fn advance(state: AttemptState, step_ok: bool) -> (r: AttemptState)
    ensures
        r == spec_advance(state, step_ok),
{
    match state {
        AttemptState::InProgress(s) => {
            if !step_ok {
                AttemptState::Failed(s)
            } else {
                match next_step(s) {
                    Some(t) => AttemptState::InProgress(t),
                    None => AttemptState::Succeeded,
                }
            }
        },
        AttemptState::Succeeded => AttemptState::Succeeded,
        AttemptState::Failed(s) => AttemptState::Failed(s),
    }
}

/// A single failed interaction aborts the attempt immediately at that step,
/// and a finished attempt, successful or not, never changes again.
pub proof fn lemma_failure_aborts(s: SignupStep, ok: bool)
    ensures
        spec_advance(AttemptState::InProgress(s), false) == AttemptState::Failed(s),
        spec_advance(AttemptState::Failed(s), ok) == AttemptState::Failed(s),
        spec_advance(AttemptState::Succeeded, ok) == AttemptState::Succeeded,
{
}

} // verus!
