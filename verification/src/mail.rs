//! What a reminder says, and whether mail can be sent at all.

use crate::settings::{is_configured, MailSettings, MailSettingsView};
use crate::task::{Task, TaskView};
use vstd::prelude::*;
use vstd::string::StringExecFns;

verus! {

/// Why no mail can be sent.
#[derive(Clone, Copy, Debug, PartialEq, Eq, Structural)]
pub enum ConfigurationError {
    /// The sender's address or its password is empty.
    NotConfigured,
}

/// What an [`OutgoingMail`] holds, as mathematical values.
pub struct OutgoingMailView {
    pub from: Seq<char>,
    pub password: Seq<char>,
    pub to: Seq<char>,
    pub subject: Seq<char>,
    pub body: Seq<char>,
}

/// A message that is ready to be handed to the mail transport, with the
/// account it is sent from.
#[derive(Debug)]
pub struct OutgoingMail {
    pub from: String,
    pub password: String,
    pub to: String,
    pub subject: String,
    pub body: String,
}

impl View for OutgoingMail {
    type V = OutgoingMailView;

    open spec fn view(&self) -> OutgoingMailView {
        OutgoingMailView {
            from: self.from@,
            password: self.password@,
            to: self.to@,
            subject: self.subject@,
            body: self.body@,
        }
    }
}

/// What the making of a message ended in, as mathematical values.
pub open spec fn outcome_view(mail: Result<OutgoingMail, ConfigurationError>) -> Result<
    OutgoingMailView,
    ConfigurationError,
> {
    match mail {
        Ok(message) => Ok(message@),
        Err(error) => Err(error),
    }
}

/// The message that goes out under `settings`, or the reason why none does.
pub open spec fn prepared_mail(
    settings: MailSettingsView,
    to: Seq<char>,
    subject: Seq<char>,
    body: Seq<char>,
) -> Result<OutgoingMailView, ConfigurationError> {
    if is_configured(settings) {
        Ok(
            OutgoingMailView {
                from: settings.email,
                password: settings.app_password,
                to,
                subject,
                body,
            },
        )
    } else {
        Err(ConfigurationError::NotConfigured)
    }
}

/// Makes a message ready for the transport. Without an account no message
/// is made, so nothing is ever sent from an empty address.
pub fn prepare_email(settings: &MailSettings, to: &str, subject: &str, body: &str) -> (mail: Result<
    OutgoingMail,
    ConfigurationError,
>)
    ensures
        outcome_view(mail) == prepared_mail(
            settings@,
            to@,
            subject@,
            body@,
        ),
{
    if !settings.is_configured() {
        return Err(ConfigurationError::NotConfigured);
    }
    Ok(
        OutgoingMail {
            from: settings.email.clone(),
            password: settings.app_password.clone(),
            to: to.to_owned(),
            subject: subject.to_owned(),
            body: body.to_owned(),
        },
    )
}

/// The subject line of the reminder for `task`.
pub open spec fn reminder_subject_text(task: TaskView) -> Seq<char> {
    "[Todo App] Task Due: "@ + task.description
}

/// The body of the reminder for `task`: description, due date, details and
/// group.
pub open spec fn reminder_body_text(task: TaskView) -> Seq<char> {
    "Your task '"@ + task.description + "' is due on "@ + task.due_date + ".\n\nDetails: "@
        + task.details + "\nGroup: "@ + task.group
}

/// The subject line of the reminder for `task`.
pub fn reminder_subject(task: &Task) -> (subject: String)
    ensures
        subject@ == reminder_subject_text(task@),
{
    let mut subject = "[Todo App] Task Due: ".to_owned();
    subject.append(task.description.as_str());
    subject
}

/// The body of the reminder for `task`.
pub fn reminder_body(task: &Task) -> (body: String)
    ensures
        body@ == reminder_body_text(task@),
{
    let mut body = "Your task '".to_owned();
    body.append(task.description.as_str());
    body.append("' is due on ");
    body.append(task.due_date.as_str());
    body.append(".\n\nDetails: ");
    body.append(task.details.as_str());
    body.append("\nGroup: ");
    body.append(task.group.as_str());
    body
}

/// The reminder for `task`, addressed to the account's own address.
pub fn reminder_for(settings: &MailSettings, task: &Task) -> (mail: Result<
    OutgoingMail,
    ConfigurationError,
>)
    ensures
        outcome_view(mail) == prepared_mail(
            settings@,
            settings@.email,
            reminder_subject_text(task@),
            reminder_body_text(task@),
        ),
{
    let subject = reminder_subject(task);
    let body = reminder_body(task);
    prepare_email(settings, settings.email.as_str(), subject.as_str(), body.as_str())
}

/// The message that tries out the account: it goes to the account's own
/// address.
pub fn test_email(settings: &MailSettings) -> (mail: Result<OutgoingMail, ConfigurationError>)
    ensures
        outcome_view(mail) == prepared_mail(
            settings@,
            settings@.email,
            "Test Email from Tauri Todo"@,
            "This is a test email to verify your settings."@,
        ),
{
    prepare_email(
        settings,
        settings.email.as_str(),
        "Test Email from Tauri Todo",
        "This is a test email to verify your settings.",
    )
}

} // verus!
