//! Laws of error reporting, stated over the model that the handler's and the
//! report's contracts use.

use vstd::prelude::*;
use std::path::PathBuf;
use crate::model::{
    accepts, action_of, append_failure, create_message_failure, from_channel, from_file,
    next_message, next_step, opening, ActionView, Attempt, HandlerView, Outcome, Step,
    DEFAULT_ERROR_MESSAGE,
};

verus! {

/// With no sink set, a report (and a synchronous one) goes straight to the
/// print, and prints two newlines followed by the description.
pub proof fn lemma_no_sinks_only_prints(h: HandlerView, description: Seq<char>)
    requires
        h.channel is None,
        h.webhook is None,
        h.file is None,
    ensures
        from_channel(h) == Step::Finished,
        from_file(h) == Step::Finished,
        action_of(h, Step::Finished, opening(description)) == (ActionView::Print {
            content: opening(description),
        }),
{
}

/// With only a file set, a report first appends two newlines and the
/// description to that file, then prints the same text, followed by the
/// file's failure if the append failed.
pub proof fn lemma_file_only(h: HandlerView, description: Seq<char>, outcome: Outcome)
    requires
        h.channel is None,
        h.webhook is None,
        h.file is Some,
        accepts(Step::File, outcome),
    ensures
        from_channel(h) == Step::File,
        from_file(h) == Step::File,
        action_of(h, Step::File, opening(description)) == (ActionView::AppendToFile {
            path: h.file->0,
            content: opening(description),
        }),
        next_step(h, Step::File, outcome) == Step::Finished,
        action_of(h, Step::Finished, next_message(Step::File, opening(description), outcome)) == (
        ActionView::Print {
            content: match outcome {
                Outcome::Failed(e) => opening(description) + append_failure(e@),
                _ => opening(description),
            },
        }),
{
}

/// Setting the file twice keeps only the last path, and leaves the channel
/// and the webhook as they were.
pub proof fn lemma_set_file_twice(h: HandlerView, first: PathBuf, second: PathBuf)
    ensures
        h.with_file(first).with_file(second) == h.with_file(second),
        h.with_file(first).with_file(second).channel == h.channel,
        h.with_file(first).with_file(second).webhook == h.webhook,
{
}

/// A failed channel delivery does not stop the webhook: it is attempted next,
/// with the message that already carries the channel's failure.
pub proof fn lemma_channel_failure_reaches_webhook(
    h: HandlerView,
    attempt: Attempt,
    message: Seq<char>,
    e: String,
)
    requires
        h.channel is Some,
        h.webhook is Some,
    ensures
        next_step(h, Step::Channel(attempt), Outcome::Failed(e)) == Step::Webhook(Attempt::Primary),
        action_of(
            h,
            Step::Webhook(Attempt::Primary),
            next_message(Step::Channel(attempt), message, Outcome::Failed(e)),
        ) == (ActionView::ExecuteWebhook {
            webhook_id: (h.webhook->0).0,
            token: (h.webhook->0).1,
            content: message + create_message_failure(e@),
        }),
{
}

/// When a network sink refuses the message itself, its second attempt sends
/// exactly the fallback message, and the report's message is left unchanged.
pub proof fn lemma_rejected_content_falls_back(h: HandlerView, message: Seq<char>)
    ensures
        h.channel is Some ==> {
            let step = next_step(h, Step::Channel(Attempt::Primary), Outcome::ContentRejected);
            &&& step == Step::Channel(Attempt::Fallback)
            &&& action_of(h, step, message) == (ActionView::CreateMessage {
                channel_id: h.channel->0,
                content: DEFAULT_ERROR_MESSAGE@,
            })
        },
        h.webhook is Some ==> {
            let step = next_step(h, Step::Webhook(Attempt::Primary), Outcome::ContentRejected);
            &&& step == Step::Webhook(Attempt::Fallback)
            &&& action_of(h, step, message) == (ActionView::ExecuteWebhook {
                webhook_id: (h.webhook->0).0,
                token: (h.webhook->0).1,
                content: DEFAULT_ERROR_MESSAGE@,
            })
        },
        next_message(Step::Channel(Attempt::Primary), message, Outcome::ContentRejected) == message,
        next_message(Step::Webhook(Attempt::Primary), message, Outcome::ContentRejected) == message,
{
}

/// A step never takes anything away from the message: what a sink was sent
/// is a prefix of what every later sink and the print get.
pub proof fn lemma_message_only_grows(step: Step, message: Seq<char>, outcome: Outcome)
    ensures
        message.is_prefix_of(next_message(step, message, outcome)),
{
    assert(next_message(step, message, outcome).subrange(0, message.len() as int) =~= message);
}

/// With all three sinks set and a failed channel delivery, the channel's
/// failure is in what the file gets and in what is printed, whatever the
/// webhook and the file return.
pub proof fn lemma_channel_failure_reaches_file_and_print(
    h: HandlerView,
    channel_attempt: Attempt,
    webhook_attempt: Attempt,
    message: Seq<char>,
    e: String,
    webhook_outcome: Outcome,
    file_outcome: Outcome,
)
    requires
        h.channel is Some,
        h.webhook is Some,
        h.file is Some,
        !(webhook_outcome is ContentRejected),
        accepts(Step::File, file_outcome),
    ensures
        ({
            let failed = message + create_message_failure(e@);
            let at_file = next_message(Step::Webhook(webhook_attempt), failed, webhook_outcome);
            let printed = next_message(Step::File, at_file, file_outcome);
            &&& next_message(Step::Channel(channel_attempt), message, Outcome::Failed(e)) == failed
            &&& next_step(h, Step::Webhook(webhook_attempt), webhook_outcome) == Step::File
            &&& next_step(h, Step::File, file_outcome) == Step::Finished
            &&& failed.is_prefix_of(at_file)
            &&& failed.is_prefix_of(printed)
            &&& action_of(h, Step::File, at_file) == (ActionView::AppendToFile {
                path: h.file->0,
                content: at_file,
            })
            &&& action_of(h, Step::Finished, printed) == (ActionView::Print { content: printed })
        }),
{
    let failed = message + create_message_failure(e@);
    let at_file = next_message(Step::Webhook(webhook_attempt), failed, webhook_outcome);
    let printed = next_message(Step::File, at_file, file_outcome);
    lemma_message_only_grows(Step::Webhook(webhook_attempt), failed, webhook_outcome);
    lemma_message_only_grows(Step::File, at_file, file_outcome);
    assert(printed.subrange(0, failed.len() as int) =~= at_file.subrange(0, failed.len() as int));
}

/// The file is the last sink: whatever it returns, only the print follows,
/// so its failure never reaches the channel or the webhook.
pub proof fn lemma_file_is_last(h: HandlerView, outcome: Outcome)
    ensures
        next_step(h, Step::File, outcome) == Step::Finished,
{
}

} // verus!
