//! The mail account that reminders are sent from.

use vstd::prelude::*;

verus! {

/// What [`MailSettings`] holds, as mathematical values.
pub struct MailSettingsView {
    pub email: Seq<char>,
    pub app_password: Seq<char>,
    pub notification_minutes: i32,
}

/// The sender's address, its app password, and the threshold in minutes
/// before the due date that holds for tasks without one of their own.
#[derive(Debug)]
pub struct MailSettings {
    pub email: String,
    pub app_password: String,
    pub notification_minutes: i32,
}

impl View for MailSettings {
    type V = MailSettingsView;

    open spec fn view(&self) -> MailSettingsView {
        MailSettingsView {
            email: self.email@,
            app_password: self.app_password@,
            notification_minutes: self.notification_minutes,
        }
    }
}

impl DeepView for MailSettings {
    type V = MailSettingsView;

    open spec fn deep_view(&self) -> MailSettingsView {
        self@
    }
}

/// The settings of a fresh install: no account, reminders one day ahead.
pub open spec fn default_settings() -> MailSettingsView {
    MailSettingsView { email: Seq::empty(), app_password: Seq::empty(), notification_minutes: 1440 }
}

/// Reminders can be sent only when both the address and the password are set.
pub open spec fn is_configured(settings: MailSettingsView) -> bool {
    settings.email.len() > 0 && settings.app_password.len() > 0
}

impl Default for MailSettings {
    fn default() -> (settings: Self)
        ensures
            settings@ == default_settings(),
    {
        MailSettings { email: String::new(), app_password: String::new(), notification_minutes: 1440 }
    }
}

impl Clone for MailSettings {
    fn clone(&self) -> (copy: Self)
        ensures
            copy@ == self@,
    {
        MailSettings {
            email: self.email.clone(),
            app_password: self.app_password.clone(),
            notification_minutes: self.notification_minutes,
        }
    }
}

impl MailSettings {
    /// Whether an account is set, so that reminders can be sent at all.
    pub fn is_configured(&self) -> (configured: bool)
        ensures
            configured == is_configured(self@),
    {
        !self.email.as_str().is_empty() && !self.app_password.as_str().is_empty()
    }
}

} // verus!
