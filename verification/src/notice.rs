//! The notifications that the backend sends to the frontend.

use vstd::prelude::*;

verus! {

/// A user-visible notification: an event name and, for most, a text.
#[derive(Debug, Clone, PartialEq, Eq)]
pub enum Notice {
    /// The engine restarted.
    SetConfigOk,
    /// The engine did not restart; the text is the error.
    SetConfigError(String),
    /// The application is about to restart.
    RestartAppInfo,
    /// The application cannot restart in process; the text says why.
    RestartAppError(String),
    /// A subscription was imported; the text is the new item's identifier.
    ImportSubUrlOk(String),
    /// A subscription was not imported; the text is the error.
    ImportSubUrlError(String),
    /// Backend startup completed.
    StartupCompleted,
}

impl Notice {
    /// The event name under which the frontend receives the notification.
    pub open spec fn event_name(self) -> Seq<char> {
        match self {
            Notice::SetConfigOk => "set_config::ok"@,
            Notice::SetConfigError(_) => "set_config::error"@,
            Notice::RestartAppInfo => "restart_app::info"@,
            Notice::RestartAppError(_) => "restart_app::error"@,
            Notice::ImportSubUrlOk(_) => "import_sub_url::ok"@,
            Notice::ImportSubUrlError(_) => "import_sub_url::error"@,
            Notice::StartupCompleted => "startup-completed"@,
        }
    }

    /// The text that the notification carries.
    pub open spec fn text(self) -> Seq<char> {
        match self {
            Notice::SetConfigOk => "ok"@,
            Notice::SetConfigError(text) => text@,
            Notice::RestartAppInfo => "Restarting application..."@,
            Notice::RestartAppError(text) => text@,
            Notice::ImportSubUrlOk(uid) => uid@,
            Notice::ImportSubUrlError(text) => text@,
            Notice::StartupCompleted => Seq::empty(),
        }
    }

    /// Computes `event_name`.
    pub fn name(&self) -> (name: &'static str)
        ensures
            name@ == self.event_name(),
    {
        match self {
            Notice::SetConfigOk => "set_config::ok",
            Notice::SetConfigError(_) => "set_config::error",
            Notice::RestartAppInfo => "restart_app::info",
            Notice::RestartAppError(_) => "restart_app::error",
            Notice::ImportSubUrlOk(_) => "import_sub_url::ok",
            Notice::ImportSubUrlError(_) => "import_sub_url::error",
            Notice::StartupCompleted => "startup-completed",
        }
    }

    /// Computes `text`.
    pub fn payload(&self) -> (payload: String)
        ensures
            payload@ == self.text(),
    {
        match self {
            Notice::SetConfigOk => "ok".to_owned(),
            Notice::SetConfigError(text) => text.clone(),
            Notice::RestartAppInfo => "Restarting application...".to_owned(),
            Notice::RestartAppError(text) => text.clone(),
            Notice::ImportSubUrlOk(uid) => uid.clone(),
            Notice::ImportSubUrlError(text) => text.clone(),
            Notice::StartupCompleted => String::new(),
        }
    }
}

} // verus!
