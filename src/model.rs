//! The mathematical model of error reporting: the handler's configuration,
//! the steps of a report, and how each delivery outcome moves a report on.

use vstd::prelude::*;
use std::path::PathBuf;
use twilight_model::id::marker::{ChannelMarker, WebhookMarker};
use twilight_model::id::Id;

verus! {

/// The error message to fall back to if the previous error message isn't valid
/// as a webhook or message content (if it's too long)
pub const DEFAULT_ERROR_MESSAGE: &'static str = "An error occurred, check the `stderr` for more info";

/// What a handler is configured with: at most one target per sink kind.
pub struct HandlerView {
    pub channel: Option<Id<ChannelMarker>>,
    pub webhook: Option<(Id<WebhookMarker>, Seq<char>)>,
    pub file: Option<PathBuf>,
}

impl HandlerView {
    pub open spec fn with_channel(self, channel_id: Id<ChannelMarker>) -> HandlerView {
        HandlerView { channel: Some(channel_id), ..self }
    }

    pub open spec fn with_webhook(self, webhook_id: Id<WebhookMarker>, token: Seq<char>) -> HandlerView {
        HandlerView { webhook: Some((webhook_id, token)), ..self }
    }

    pub open spec fn with_file(self, path: PathBuf) -> HandlerView {
        HandlerView { file: Some(path), ..self }
    }
}

/// Which content a network sink is sending.
#[derive(Clone, Copy, PartialEq, Eq, Structural, Debug)]
pub enum Attempt {
    /// The accumulated error message.
    Primary,
    /// [`DEFAULT_ERROR_MESSAGE`], after the transport refused the message.
    Fallback,
}

/// Where a report stands. Sinks are visited in a fixed order: channel,
/// webhook, file, and then the message is printed.
#[derive(Clone, Copy, PartialEq, Eq, Structural, Debug)]
pub enum Step {
    Channel(Attempt),
    Webhook(Attempt),
    File,
    Finished,
}

/// What a delivery returned.
#[derive(Debug)]
pub enum Outcome {
    /// The sink accepted the content.
    Delivered,
    /// The transport refused the content itself (too long, for instance)
    /// before anything was sent.
    ContentRejected,
    /// The delivery failed; the string describes the failure.
    Failed(String),
}

/// The first thing a report does, as seen from the sinks at and after the channel.
pub open spec fn from_channel(h: HandlerView) -> Step {
    if h.channel is Some { Step::Channel(Attempt::Primary) } else { from_webhook(h) }
}

/// The next step once the channel sink is behind.
pub open spec fn from_webhook(h: HandlerView) -> Step {
    if h.webhook is Some { Step::Webhook(Attempt::Primary) } else { from_file(h) }
}

/// The next step once the network sinks are behind.
pub open spec fn from_file(h: HandlerView) -> Step {
    if h.file is Some { Step::File } else { Step::Finished }
}

/// The message a report starts with: two newlines, then the description.
pub open spec fn opening(description: Seq<char>) -> Seq<char> {
    "\n\n"@ + description
}

/// Appended when the channel sink ultimately fails.
pub open spec fn create_message_failure(e: Seq<char>) -> Seq<char> {
    "\n\nFailed to create message: "@ + e
}

/// Appended when the webhook sink ultimately fails.
pub open spec fn execute_webhook_failure(e: Seq<char>) -> Seq<char> {
    "\n\nFailed to execute webhook: "@ + e
}

/// Appended when the file sink fails.
pub open spec fn append_failure(e: Seq<char>) -> Seq<char> {
    "\n\nFailed to append to file: "@ + e
}

/// The step names a sink that the handler has.
pub open spec fn step_configured(h: HandlerView, step: Step) -> bool {
    match step {
        Step::Channel(_) => h.channel is Some,
        Step::Webhook(_) => h.webhook is Some,
        Step::File => h.file is Some,
        Step::Finished => true,
    }
}

/// An outcome can be handed to a report at this step: the report is not
/// finished, and only a first network attempt can have its content refused.
pub open spec fn accepts(step: Step, outcome: Outcome) -> bool {
    &&& !(step is Finished)
    &&& (outcome is ContentRejected ==> step == Step::Channel(Attempt::Primary)
        || step == Step::Webhook(Attempt::Primary))
}

/// The step after `step` once `outcome` came back.
pub open spec fn next_step(h: HandlerView, step: Step, outcome: Outcome) -> Step {
    match step {
        Step::Channel(_) => if outcome is ContentRejected {
            Step::Channel(Attempt::Fallback)
        } else {
            from_webhook(h)
        },
        Step::Webhook(_) => if outcome is ContentRejected {
            Step::Webhook(Attempt::Fallback)
        } else {
            from_file(h)
        },
        _ => Step::Finished,
    }
}

/// The message after `step` once `outcome` came back: a failure is appended
/// to it, with the verb of the sink that failed.
pub open spec fn next_message(step: Step, message: Seq<char>, outcome: Outcome) -> Seq<char> {
    match outcome {
        Outcome::Failed(e) => match step {
            Step::Channel(_) => message + create_message_failure(e@),
            Step::Webhook(_) => message + execute_webhook_failure(e@),
            Step::File => message + append_failure(e@),
            Step::Finished => message,
        },
        _ => message,
    }
}

/// The content that a network sink sends on the given attempt.
pub open spec fn attempt_content(attempt: Attempt, message: Seq<char>) -> Seq<char> {
    match attempt {
        Attempt::Primary => message,
        Attempt::Fallback => DEFAULT_ERROR_MESSAGE@,
    }
}

/// A delivery to perform, or the final print.
pub enum ActionView {
    CreateMessage { channel_id: Id<ChannelMarker>, content: Seq<char> },
    ExecuteWebhook { webhook_id: Id<WebhookMarker>, token: Seq<char>, content: Seq<char> },
    AppendToFile { path: PathBuf, content: Seq<char> },
    Print { content: Seq<char> },
}

/// What a report at `step` with `message` asks to be done.
pub open spec fn action_of(h: HandlerView, step: Step, message: Seq<char>) -> ActionView {
    match step {
        Step::Channel(a) => ActionView::CreateMessage {
            channel_id: h.channel->0,
            content: attempt_content(a, message),
        },
        Step::Webhook(a) => ActionView::ExecuteWebhook {
            webhook_id: (h.webhook->0).0,
            token: (h.webhook->0).1,
            content: attempt_content(a, message),
        },
        Step::File => ActionView::AppendToFile { path: h.file->0, content: message },
        Step::Finished => ActionView::Print { content: message },
    }
}

} // verus!
