//! The command that logs in to an appliance and keeps the credential.

use vstd::prelude::*;

use crate::configuration::{appliance_url, rewritten_scheme, ConfigError};
use crate::credential_manager::{Credential, CredentialView};
use crate::synology_api::file_station::{
    credential_after_login, login_response_post, login_url, spec_login, FileStationView,
    HttpOutcome, SynologyFileStation,
};
use crate::synology_api::responses::{
    LoginError, LoginResponse, SynologyErrorStatus, SynologyResult,
};

verus! {

/// The command `login`.
#[derive(Clone, Copy, Debug)]
pub struct LoginSubcommand {}

/// Where the command stands.
#[derive(Clone, Copy, Debug, PartialEq, Eq, Structural)]
pub enum LoginState {
    /// Nothing was sent yet.
    Start,
    /// The first attempt was sent and its answer is awaited.
    FirstSent,
    /// The user is asked for the one-time code.
    Prompting,
    /// The second attempt was sent and its answer is awaited.
    SecondSent,
    /// The command has ended.
    Finished,
}

/// What happened since the command's last step.
pub enum LoginEvent {
    /// The command begins.
    Begin,
    /// The client has taken the reply to the attempt that was sent.
    Answer(Result<Credential, SynologyErrorStatus>),
    /// The user has typed the one-time code.
    Totp(String),
}

/// What the command does next.
pub enum LoginStep {
    /// Send a login to this address and hand the reply to the client.
    Send(String),
    /// The login succeeded: write the credential to the store.
    Store(Credential),
    /// The appliance asks for a one-time code: ask the user for it and try again.
    PromptTotp,
    /// The login failed.
    Fail(SynologyErrorStatus),
}

/// A step as plain values.
pub enum LoginStepView {
    Send(Seq<char>),
    Store(CredentialView),
    PromptTotp,
    Fail(SynologyErrorStatus),
}

impl View for LoginStep {
    type V = LoginStepView;

    open spec fn view(&self) -> LoginStepView {
        match *self {
            LoginStep::Send(url) => LoginStepView::Send(url@),
            LoginStep::Store(credential) => LoginStepView::Store(credential@),
            LoginStep::PromptTotp => LoginStepView::PromptTotp,
            LoginStep::Fail(e) => LoginStepView::Fail(e),
        }
    }
}

/// The credential to log in with: the user as given; the password and the
/// device token that the store holds for the appliance, or, where it holds
/// none, the password that the user typed.
pub open spec fn spec_login_credential(
    user: Seq<char>,
    stored: Option<CredentialView>,
    typed: Seq<char>,
) -> CredentialView {
    match stored {
        Some(kept) => CredentialView {
            user,
            password: kept.password,
            totp: None,
            device_id: kept.device_id,
        },
        None => CredentialView { user, password: typed, totp: None, device_id: None },
    }
}

/// What follows the first attempt: success is kept, a request for a
/// one-time code leads to a second attempt, every other failure ends the command.
pub open spec fn spec_after_first(result: Result<Credential, SynologyErrorStatus>) -> LoginStepView {
    match result {
        Ok(credential) => LoginStepView::Store(credential@),
        Err(SynologyErrorStatus::NoTotp) => LoginStepView::PromptTotp,
        Err(e) => LoginStepView::Fail(e),
    }
}

/// What follows the second attempt: success is kept, every failure ends the command.
pub open spec fn spec_after_second(result: Result<Credential, SynologyErrorStatus>) -> LoginStepView {
    match result {
        Ok(credential) => LoginStepView::Store(credential@),
        Err(e) => LoginStepView::Fail(e),
    }
}

/// The next state and the next step of the command. It sends the first
/// attempt without asking for a device token and without code. A request
/// for a one-time code leads to the prompt, and the code to the second
/// attempt, which asks for a device token. Nothing else is ever sent: what
/// the second answer gives is final, and an event that has no place ends the
/// command.
pub open spec fn spec_login_step(
    base: Seq<char>,
    credential: CredentialView,
    hostname: Seq<char>,
    state: LoginState,
    event: LoginEvent,
) -> (LoginState, LoginStepView) {
    match (state, event) {
        (LoginState::Start, LoginEvent::Begin) => (
            LoginState::FirstSent,
            LoginStepView::Send(login_url(base, credential, false, None, hostname)),
        ),
        (LoginState::FirstSent, LoginEvent::Answer(result)) => match spec_after_first(result) {
            LoginStepView::PromptTotp => (LoginState::Prompting, LoginStepView::PromptTotp),
            step => (LoginState::Finished, step),
        },
        (LoginState::Prompting, LoginEvent::Totp(code)) => (
            LoginState::SecondSent,
            LoginStepView::Send(login_url(base, credential, true, Some(code@), hostname)),
        ),
        (LoginState::SecondSent, LoginEvent::Answer(result)) => (
            LoginState::Finished,
            spec_after_second(result),
        ),
        _ => (LoginState::Finished, LoginStepView::Fail(SynologyErrorStatus::UnknownError)),
    }
}

impl LoginSubcommand {
    /// Takes what happened and gives what to do next.
    pub fn step(
        &self,
        file_station: &SynologyFileStation,
        credential: &Credential,
        hostname: &str,
        state: LoginState,
        event: LoginEvent,
    ) -> (r: (LoginState, LoginStep))
        ensures
            r.0 == spec_login_step(file_station@.url, credential@, hostname@, state, event).0,
            r.1@ == spec_login_step(file_station@.url, credential@, hostname@, state, event).1,
    {
        match state {
            LoginState::Start => match event {
                LoginEvent::Begin => (
                    LoginState::FirstSent,
                    LoginStep::Send(self.first_attempt(file_station, credential, hostname)),
                ),
                _ => (LoginState::Finished, LoginStep::Fail(SynologyErrorStatus::UnknownError)),
            },
            LoginState::FirstSent => match event {
                LoginEvent::Answer(result) => match self.after_first_attempt(result) {
                    LoginStep::PromptTotp => (LoginState::Prompting, LoginStep::PromptTotp),
                    step => (LoginState::Finished, step),
                },
                _ => (LoginState::Finished, LoginStep::Fail(SynologyErrorStatus::UnknownError)),
            },
            LoginState::Prompting => match event {
                LoginEvent::Totp(code) => (
                    LoginState::SecondSent,
                    LoginStep::Send(self.second_attempt(file_station, credential, code, hostname)),
                ),
                _ => (LoginState::Finished, LoginStep::Fail(SynologyErrorStatus::UnknownError)),
            },
            LoginState::SecondSent => match event {
                LoginEvent::Answer(result) => (
                    LoginState::Finished,
                    self.after_second_attempt(result),
                ),
                _ => (LoginState::Finished, LoginStep::Fail(SynologyErrorStatus::UnknownError)),
            },
            LoginState::Finished => (
                LoginState::Finished,
                LoginStep::Fail(SynologyErrorStatus::UnknownError),
            ),
        }
    }

    /// The address of the appliance for the URL as the user gives it: the
    /// URL with its scheme rewritten. The client is made for this address and
    /// the credential is kept under it.
    pub fn appliance(&self, url: &str) -> (r: Result<String, ConfigError>)
        ensures
            match rewritten_scheme(url@) {
                Some(address) => r matches Ok(built) && built@ == address,
                None => r matches Err(e) && e == ConfigError::UnknownScheme,
            },
    {
        appliance_url(url)
    }

    /// Whether the user is to be asked for the password: only where the
    /// store holds no credential for the appliance.
    pub fn needs_password(&self, stored: &Option<Credential>) -> (r: bool)
        ensures
            r == (*stored is None),
    {
        stored.is_none()
    }

    /// The credential to log in with.
    pub fn credential(&self, user: &str, stored: Option<Credential>, typed: String) -> (r: Credential)
        ensures
            r@ == spec_login_credential(
                user@,
                match stored {
                    Some(kept) => Some(kept@),
                    None => None,
                },
                typed@,
            ),
    {
        match stored {
            Some(kept) => Credential {
                user: user.to_string(),
                password: kept.password,
                totp: None,
                device_id: kept.device_id,
            },
            None => Credential::new(user.to_string(), typed),
        }
    }

    /// The address of the first attempt: without asking for a device token
    /// and without one-time code.
    pub fn first_attempt(&self, file_station: &SynologyFileStation, credential: &Credential, hostname: &str) -> (r:
        String)
        ensures
            r@ == login_url(file_station@.url, credential@, false, None, hostname@),
    {
        file_station.login(credential, false, None, hostname)
    }

    /// What follows the first attempt.
    pub fn after_first_attempt(&self, result: Result<Credential, SynologyErrorStatus>) -> (r: LoginStep)
        ensures
            r@ == spec_after_first(result),
    {
        match result {
            Ok(credential) => LoginStep::Store(credential),
            Err(SynologyErrorStatus::NoTotp) => LoginStep::PromptTotp,
            Err(e) => LoginStep::Fail(e),
        }
    }

    /// The address of the second attempt: with the one-time code that the
    /// user typed, and asking for a device token so that later logins need none.
    pub fn second_attempt(
        &self,
        file_station: &SynologyFileStation,
        credential: &Credential,
        totp: String,
        hostname: &str,
    ) -> (r: String)
        ensures
            r@ == login_url(file_station@.url, credential@, true, Some(totp@), hostname@),
    {
        file_station.login(credential, true, Some(totp), hostname)
    }

    /// What follows the second attempt.
    pub fn after_second_attempt(&self, result: Result<Credential, SynologyErrorStatus>) -> (r: LoginStep)
        ensures
            r@ == spec_after_second(result),
    {
        match result {
            Ok(credential) => LoginStep::Store(credential),
            Err(e) => LoginStep::Fail(e),
        }
    }
}

/// A login that the appliance accepts at once ends after its first
/// attempt: the client holds the session of the reply, and the credential
/// to write to the store is the one that was used, with the device token
/// that the reply issued if it issued one.
pub proof fn lemma_login_accepted(
    credential: CredentialView,
    outcome: HttpOutcome<SynologyResult<LoginResponse, LoginError>>,
    before: FileStationView,
    after: FileStationView,
    result: Result<Credential, SynologyErrorStatus>,
)
    requires
        login_response_post(credential, outcome, before, after, result),
        spec_login(outcome) is Ok,
    ensures
        spec_after_first(result) == LoginStepView::Store(
            credential_after_login(credential, spec_login(outcome)->Ok_0),
        ),
        after.sid == Some(spec_login(outcome)->Ok_0.sid@),
{
}

/// A login that the appliance answers with a request for a one-time code
/// takes exactly one more attempt. The first answer leaves the client
/// without session and leads to the prompt. What the second answer gives is
/// final: where it succeeds, the client holds its session and the credential
/// to write to the store carries the device token that it issued; where it
/// fails, the command fails, also where a code is asked for again.
pub proof fn lemma_login_with_totp(
    credential: CredentialView,
    first: HttpOutcome<SynologyResult<LoginResponse, LoginError>>,
    second: HttpOutcome<SynologyResult<LoginResponse, LoginError>>,
    before: FileStationView,
    between: FileStationView,
    after: FileStationView,
    first_result: Result<Credential, SynologyErrorStatus>,
    second_result: Result<Credential, SynologyErrorStatus>,
)
    requires
        login_response_post(credential, first, before, between, first_result),
        login_response_post(credential, second, between, after, second_result),
        spec_login(first) == Err::<LoginResponse, SynologyErrorStatus>(SynologyErrorStatus::NoTotp),
    ensures
        spec_after_first(first_result) == LoginStepView::PromptTotp,
        between == before,
        match spec_login(second) {
            Ok(response) => {
                &&& spec_after_second(second_result) matches LoginStepView::Store(kept)
                &&& kept == credential_after_login(credential, response)
                &&& response.did matches Some(token) ==> kept.device_id == Some(token@)
                &&& after.sid == Some(response.sid@)
            },
            Err(e) => spec_after_second(second_result) == LoginStepView::Fail(e) && after == before,
        },
{
}

/// The steps of a login with a one-time code, one after the other: the
/// first attempt is sent without device token and code; its answer asks for
/// a code and leads to the prompt; the code is sent with the second attempt,
/// which asks for a device token; its answer ends the command, with the
/// credential to store where the appliance accepted. These are the only two
/// logins that are sent.
pub proof fn lemma_login_with_totp_steps(
    base: Seq<char>,
    credential: CredentialView,
    hostname: Seq<char>,
    first_result: Result<Credential, SynologyErrorStatus>,
    code: String,
    second_result: Result<Credential, SynologyErrorStatus>,
)
    requires
        first_result == Err::<Credential, SynologyErrorStatus>(SynologyErrorStatus::NoTotp),
    ensures
        ({
            let first = spec_login_step(base, credential, hostname, LoginState::Start, LoginEvent::Begin);
            let asked = spec_login_step(
                base,
                credential,
                hostname,
                first.0,
                LoginEvent::Answer(first_result),
            );
            let second = spec_login_step(base, credential, hostname, asked.0, LoginEvent::Totp(code));
            let last = spec_login_step(
                base,
                credential,
                hostname,
                second.0,
                LoginEvent::Answer(second_result),
            );
            &&& first.1 == LoginStepView::Send(login_url(base, credential, false, None, hostname))
            &&& asked.1 == LoginStepView::PromptTotp
            &&& second.1 == LoginStepView::Send(
                login_url(base, credential, true, Some(code@), hostname),
            )
            &&& last.0 == LoginState::Finished
            &&& last.1 == spec_after_second(second_result)
            &&& !(last.1 is Send) && !(last.1 is PromptTotp)
        }),
{
}

/// A login is sent only at the beginning and after the code was typed, and
/// once the command has ended it stays ended: at most two logins are sent.
pub proof fn lemma_login_sends(
    base: Seq<char>,
    credential: CredentialView,
    hostname: Seq<char>,
    state: LoginState,
    event: LoginEvent,
)
    ensures
        spec_login_step(base, credential, hostname, state, event).1 is Send ==> (state
            == LoginState::Start && spec_login_step(base, credential, hostname, state, event).0
            == LoginState::FirstSent) || (state == LoginState::Prompting && spec_login_step(
            base,
            credential,
            hostname,
            state,
            event,
        ).0 == LoginState::SecondSent),
        state == LoginState::Finished ==> spec_login_step(base, credential, hostname, state, event).0
            == LoginState::Finished,
        spec_login_step(base, credential, hostname, state, event).0 != LoginState::Start,
{
}

} // verus!
