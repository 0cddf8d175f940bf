//! The decisions of the email provider's runner, which hosts the provider app
//! in a conductor: whether to install the app, and whether to publish new
//! credentials and stop or to stay and mail what the provider zome signals.
use vstd::prelude::*;

use crate::email_types::EmailCredentials;

verus! {

/// The id under which the provider app is installed.
pub const PROVIDER_APP_ID: &'static str = "email_notifications_provider";

/// Whether the provider app still has to be installed: only when the conductor
/// holds no app yet.
pub fn install_needed(installed_apps: usize) -> (res: bool)
    ensures
        res == (installed_apps == 0),
{
    installed_apps == 0
}

/// What the runner does once the provider app is running.
#[derive(Debug)]
pub enum RunnerPlan {
    /// Publish these credentials through the provider zome, then exit.
    PublishCredentials(EmailCredentials),
    /// Stay up and mail each email that the provider zome signals.
    ListenForSignals,
}

/// The plan for a command line: publishing when it names credentials to
/// register, listening otherwise.
pub fn runner_plan(register: Option<EmailCredentials>) -> (res: RunnerPlan)
    ensures
        register matches Some(c) ==> res == RunnerPlan::PublishCredentials(c),
        register is None ==> res == RunnerPlan::ListenForSignals,
{
    match register {
        Some(c) => RunnerPlan::PublishCredentials(c),
        None => RunnerPlan::ListenForSignals,
    }
}

} // verus!
