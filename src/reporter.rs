//! The handler's configuration and the report state machine that fans an
//! error message out to the configured sinks.

use vstd::prelude::*;
use std::path::PathBuf;
use twilight_model::id::marker::{ChannelMarker, WebhookMarker};
use twilight_model::id::Id;
use crate::model::{
    accepts, action_of, attempt_content, from_channel, from_file, from_webhook, next_message,
    next_step, opening, step_configured, ActionView, Attempt, HandlerView, Outcome, Step,
    DEFAULT_ERROR_MESSAGE,
};

verus! {

/// The main struct to handle errors
pub struct ErrorHandler {
    /// Channel to create message in on error
    channel: Option<Id<ChannelMarker>>,
    /// Webhook to execute on error
    webhook: Option<(Id<WebhookMarker>, String)>,
    /// File to append to on error
    file: Option<PathBuf>,
}

impl View for ErrorHandler {
    type V = HandlerView;

    closed spec fn view(&self) -> HandlerView {
        HandlerView {
            channel: self.channel,
            webhook: match self.webhook {
                Some((id, token)) => Some((id, token@)),
                None => None,
            },
            file: self.file,
        }
    }
}

impl ErrorHandler {
    /// Make a handler that only prints errors to `stderr`
    pub fn new() -> (r: Self)
        ensures
            r@ == (HandlerView { channel: None, webhook: None, file: None }),
    {
        Self { channel: None, webhook: None, file: None }
    }

    /// Set the handler to create a message in the given channel on errors
    ///
    /// The channel can also be DM channel, such as the owner's
    pub fn channel(&mut self, channel_id: Id<ChannelMarker>) -> (r: &mut Self)
        ensures
            r@ == old(self)@.with_channel(channel_id),
            *final(self) == *final(r),
    {
        self.channel = Some(channel_id);
        self
    }

    /// Set the handler to execute the given webhook on errors
    pub fn webhook(&mut self, webhook_id: Id<WebhookMarker>, token: String) -> (r: &mut Self)
        ensures
            r@ == old(self)@.with_webhook(webhook_id, token@),
            *final(self) == *final(r),
    {
        self.webhook = Some((webhook_id, token));
        self
    }

    /// Set the file to append to on error
    ///
    /// The file will be created if it doesn't exist
    pub fn file(&mut self, path: PathBuf) -> (r: &mut Self)
        ensures
            r@ == old(self)@.with_file(path),
            *final(self) == *final(r),
    {
        self.file = Some(path);
        self
    }

    /// The channel that errors are posted to, if any.
    pub fn channel_id(&self) -> (r: Option<Id<ChannelMarker>>)
        ensures
            r == self@.channel,
    {
        self.channel
    }

    /// The webhook that errors are sent through, with its token, if any.
    pub fn webhook_target(&self) -> (r: Option<(Id<WebhookMarker>, &str)>)
        ensures
            r is Some <==> self@.webhook is Some,
            r is Some ==> (r->0).0 == (self@.webhook->0).0 && (r->0).1@ == (self@.webhook->0).1,
    {
        match &self.webhook {
            Some((id, token)) => Some((*id, token.as_str())),
            None => None,
        }
    }

    /// The file that errors are appended to, if any.
    pub fn file_path(&self) -> (r: Option<&PathBuf>)
        ensures
            r is Some <==> self@.file is Some,
            r is Some ==> *(r->0) == self@.file->0,
    {
        match &self.file {
            Some(path) => Some(path),
            None => None,
        }
    }

    /// Start reporting an error, given its rendered description.
    ///
    /// The message starts as two newlines followed by the description; the
    /// report then visits the channel, the webhook and the file, each only if
    /// it is set, and ends by printing the message.
    pub fn report<'a>(&'a self, description: &str) -> (r: Report<'a>)
        ensures
            r.wf(),
            r@ == (ReportView {
                handler: self@,
                step: from_channel(self@),
                message: opening(description@),
            }),
    {
        let step = if self.channel.is_some() {
            Step::Channel(Attempt::Primary)
        } else {
            self.after_channel()
        };
        Report { handler: self, step, message: opening_message(description) }
    }

    /// Start reporting an error while ignoring the channel and the webhook.
    ///
    /// Only the file, if set, is appended to before the message is printed.
    pub fn report_sync<'a>(&'a self, description: &str) -> (r: Report<'a>)
        ensures
            r.wf(),
            r@ == (ReportView {
                handler: self@,
                step: from_file(self@),
                message: opening(description@),
            }),
    {
        Report { handler: self, step: self.after_webhook(), message: opening_message(description) }
    }

    /// The step that follows the channel sink.
    fn after_channel(&self) -> (r: Step)
        ensures
            r == from_webhook(self@),
    {
        if self.webhook.is_some() {
            Step::Webhook(Attempt::Primary)
        } else {
            self.after_webhook()
        }
    }

    /// The step that follows the webhook sink.
    fn after_webhook(&self) -> (r: Step)
        ensures
            r == from_file(self@),
    {
        if self.file.is_some() {
            Step::File
        } else {
            Step::Finished
        }
    }
}

/// The message a report starts with.
fn opening_message(description: &str) -> (r: String)
    ensures
        r@ == opening(description@),
{
    let mut message = String::from_str("\n\n");
    message.append(description);
    message
}

/// A delivery that the caller is asked to perform, or the final print.
pub enum Action<'b> {
    /// Create a message with `content` in the channel.
    CreateMessage { channel_id: Id<ChannelMarker>, content: &'b str },
    /// Execute the webhook with `content`.
    ExecuteWebhook { webhook_id: Id<WebhookMarker>, token: &'b str, content: &'b str },
    /// Append `content` to the file at `path`, creating it if absent.
    AppendToFile { path: &'b PathBuf, content: &'b str },
    /// Print `content` to `stderr`; the report is over.
    Print { content: &'b str },
}

impl<'b> View for Action<'b> {
    type V = ActionView;

    open spec fn view(&self) -> ActionView {
        match *self {
            Action::CreateMessage { channel_id, content } => ActionView::CreateMessage {
                channel_id,
                content: content@,
            },
            Action::ExecuteWebhook { webhook_id, token, content } => ActionView::ExecuteWebhook {
                webhook_id,
                token: token@,
                content: content@,
            },
            Action::AppendToFile { path, content } => ActionView::AppendToFile {
                path: *path,
                content: content@,
            },
            Action::Print { content } => ActionView::Print { content: content@ },
        }
    }
}

/// A report in progress: the handler it came from, where it stands, and the
/// message so far, which grows by one line for each sink that failed.
pub struct Report<'a> {
    handler: &'a ErrorHandler,
    step: Step,
    message: String,
}

/// What a report is, mathematically.
pub struct ReportView {
    pub handler: HandlerView,
    pub step: Step,
    pub message: Seq<char>,
}

impl<'a> View for Report<'a> {
    type V = ReportView;

    closed spec fn view(&self) -> ReportView {
        ReportView { handler: self.handler@, step: self.step, message: self.message@ }
    }
}

impl<'a> Report<'a> {
    /// The report only ever stands at a sink that its handler has.
    pub closed spec fn wf(&self) -> bool {
        step_configured(self.handler@, self.step)
    }

    /// Where the report stands.
    pub fn step(&self) -> (r: Step)
        ensures
            r == self@.step,
    {
        self.step
    }

    /// The message so far.
    pub fn message(&self) -> (r: &str)
        ensures
            r@ == self@.message,
    {
        self.message.as_str()
    }

    /// Whether the last action, the print, has been reached.
    pub fn is_finished(&self) -> (r: bool)
        ensures
            r == (self@.step is Finished),
    {
        matches!(self.step, Step::Finished)
    }

    /// Whether `outcome` can be handed to [`Self::advance`] now.
    pub fn accepts(&self, outcome: &Outcome) -> (r: bool)
        ensures
            r == accepts(self@.step, *outcome),
    {
        match self.step {
            Step::Channel(Attempt::Primary) | Step::Webhook(Attempt::Primary) => true,
            Step::Channel(Attempt::Fallback) | Step::Webhook(Attempt::Fallback) | Step::File => {
                !matches!(outcome, Outcome::ContentRejected)
            },
            Step::Finished => false,
        }
    }

    /// What is to be done next.
    pub fn action(&self) -> (r: Action<'_>)
        requires
            self.wf(),
        ensures
            r@ == action_of(self@.handler, self@.step, self@.message),
    {
        match self.step {
            Step::Channel(attempt) => {
                let channel_id = self.handler.channel.unwrap();
                Action::CreateMessage { channel_id, content: self.content(attempt) }
            },
            Step::Webhook(attempt) => {
                let target = self.handler.webhook.as_ref().unwrap();
                Action::ExecuteWebhook {
                    webhook_id: target.0,
                    token: target.1.as_str(),
                    content: self.content(attempt),
                }
            },
            Step::File => {
                let path = self.handler.file.as_ref().unwrap();
                Action::AppendToFile { path, content: self.message.as_str() }
            },
            Step::Finished => Action::Print { content: self.message.as_str() },
        }
    }

    /// The content a network sink sends on `attempt`.
    fn content(&self, attempt: Attempt) -> (r: &str)
        ensures
            r@ == attempt_content(attempt, self@.message),
    {
        match attempt {
            Attempt::Primary => self.message.as_str(),
            Attempt::Fallback => DEFAULT_ERROR_MESSAGE,
        }
    }

    /// Take what the current action returned and move on.
    ///
    /// A refused content on a first network attempt asks for a second one with
    /// [`DEFAULT_ERROR_MESSAGE`]. Any other failure is appended to the message,
    /// which the later sinks and the final print then carry; the next
    /// configured sink is attempted either way.
    pub fn advance(&mut self, outcome: Outcome)
        requires
            old(self).wf(),
            accepts(old(self)@.step, outcome),
        ensures
            final(self).wf(),
            final(self)@ == (ReportView {
                handler: old(self)@.handler,
                step: next_step(old(self)@.handler, old(self)@.step, outcome),
                message: next_message(old(self)@.step, old(self)@.message, outcome),
            }),
    {
        match self.step {
            Step::Channel(_) => self.created_message(outcome),
            Step::Webhook(_) => self.executed_webhook(outcome),
            _ => self.appended_to_file(outcome),
        }
    }

    /// The channel sink's attempt returned `outcome`.
    fn created_message(&mut self, outcome: Outcome)
        requires
            old(self).wf(),
            old(self).step is Channel,
            accepts(old(self)@.step, outcome),
        ensures
            final(self).wf(),
            final(self).handler == old(self).handler,
            final(self)@.step == next_step(old(self)@.handler, old(self)@.step, outcome),
            final(self)@.message == next_message(old(self)@.step, old(self)@.message, outcome),
    {
        match outcome {
            Outcome::ContentRejected => {
                self.step = Step::Channel(Attempt::Fallback);
            },
            Outcome::Delivered => {
                self.step = self.handler.after_channel();
            },
            Outcome::Failed(e) => {
                self.message.append("\n\nFailed to create message: ");
                self.message.append(e.as_str());
                self.step = self.handler.after_channel();
            },
        }
    }

    /// The webhook sink's attempt returned `outcome`.
    fn executed_webhook(&mut self, outcome: Outcome)
        requires
            old(self).wf(),
            old(self).step is Webhook,
            accepts(old(self)@.step, outcome),
        ensures
            final(self).wf(),
            final(self).handler == old(self).handler,
            final(self)@.step == next_step(old(self)@.handler, old(self)@.step, outcome),
            final(self)@.message == next_message(old(self)@.step, old(self)@.message, outcome),
    {
        match outcome {
            Outcome::ContentRejected => {
                self.step = Step::Webhook(Attempt::Fallback);
            },
            Outcome::Delivered => {
                self.step = self.handler.after_webhook();
            },
            Outcome::Failed(e) => {
                self.message.append("\n\nFailed to execute webhook: ");
                self.message.append(e.as_str());
                self.step = self.handler.after_webhook();
            },
        }
    }

    /// The file sink's append returned `outcome`.
    fn appended_to_file(&mut self, outcome: Outcome)
        requires
            old(self).wf(),
            old(self).step is File,
            accepts(old(self)@.step, outcome),
        ensures
            final(self).wf(),
            final(self).handler == old(self).handler,
            final(self)@.step == next_step(old(self)@.handler, old(self)@.step, outcome),
            final(self)@.message == next_message(old(self)@.step, old(self)@.message, outcome),
    {
        if let Outcome::Failed(e) = outcome {
            self.message.append("\n\nFailed to append to file: ");
            self.message.append(e.as_str());
        }
        self.step = Step::Finished;
    }
}

} // verus!
