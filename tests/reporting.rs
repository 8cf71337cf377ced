use std::path::PathBuf;

use twilight_error::{Action, Attempt, ErrorHandler, Outcome, Report, Step, DEFAULT_ERROR_MESSAGE};
use twilight_model::id::Id;

/// One delivery as a sink saw it: which sink, and the content it was given.
#[derive(Debug, Clone, PartialEq, Eq)]
enum Sent {
    Channel(u64, String),
    Webhook(u64, String, String),
    File(PathBuf, String),
}

/// Drives a report to its end, asking `respond` for each delivery's outcome.
/// Returns the deliveries in order and the printed text.
fn drive(mut report: Report<'_>, mut respond: impl FnMut(&Sent) -> Outcome) -> (Vec<Sent>, String) {
    let mut sent = Vec::new();
    loop {
        let delivery = match report.action() {
            Action::CreateMessage { channel_id, content } => {
                Sent::Channel(channel_id.get(), content.to_owned())
            }
            Action::ExecuteWebhook { webhook_id, token, content } => {
                Sent::Webhook(webhook_id.get(), token.to_owned(), content.to_owned())
            }
            Action::AppendToFile { path, content } => Sent::File(path.clone(), content.to_owned()),
            Action::Print { content } => return (sent, content.to_owned()),
        };
        let outcome = respond(&delivery);
        sent.push(delivery);
        assert!(report.accepts(&outcome));
        report.advance(outcome);
    }
}

fn content_of(sent: &Sent) -> &str {
    match sent {
        Sent::Channel(_, c) | Sent::Webhook(_, _, c) | Sent::File(_, c) => c,
    }
}

fn all_sinks() -> ErrorHandler {
    let mut handler = ErrorHandler::new();
    handler
        .channel(Id::new(11))
        .webhook(Id::new(22), "tok".to_owned())
        .file(PathBuf::from("/tmp/errs.log"));
    handler
}

#[test]
fn no_sinks_prints_description_only() {
    let handler = ErrorHandler::new();
    let (sent, printed) = drive(handler.report("boom"), |_| Outcome::Delivered);
    assert!(sent.is_empty());
    assert_eq!(printed, "\n\nboom");
    let (sent, printed) = drive(handler.report_sync("boom"), |_| Outcome::Delivered);
    assert!(sent.is_empty());
    assert_eq!(printed, "\n\nboom");
}

#[test]
fn empty_description() {
    let handler = ErrorHandler::new();
    let (_, printed) = drive(handler.report(""), |_| Outcome::Delivered);
    assert_eq!(printed, "\n\n");
}

#[test]
fn file_only_success() {
    let mut handler = ErrorHandler::new();
    handler.file(PathBuf::from("/tmp/errs.log"));
    let (sent, printed) = drive(handler.report("disk full"), |_| Outcome::Delivered);
    assert_eq!(sent, vec![Sent::File(PathBuf::from("/tmp/errs.log"), "\n\ndisk full".to_owned())]);
    assert_eq!(printed, "\n\ndisk full");
}

#[test]
fn file_only_failure_is_printed() {
    let mut handler = ErrorHandler::new();
    handler.file(PathBuf::from("/nope/errs.log"));
    let (sent, printed) =
        drive(handler.report("disk full"), |_| Outcome::Failed("permission denied".to_owned()));
    assert_eq!(sent, vec![Sent::File(PathBuf::from("/nope/errs.log"), "\n\ndisk full".to_owned())]);
    assert_eq!(printed, "\n\ndisk full\n\nFailed to append to file: permission denied");
}

#[test]
fn set_file_twice_keeps_last() {
    let mut handler = ErrorHandler::new();
    handler.channel(Id::new(5)).webhook(Id::new(6), "secret".to_owned());
    handler.file(PathBuf::from("/tmp/a.log")).file(PathBuf::from("/tmp/b.log"));
    assert_eq!(handler.file_path(), Some(&PathBuf::from("/tmp/b.log")));
    assert_eq!(handler.channel_id().map(|id| id.get()), Some(5));
    let (id, token) = handler.webhook_target().unwrap();
    assert_eq!((id.get(), token), (6, "secret"));
}

#[test]
fn new_handler_has_no_sinks() {
    let handler = ErrorHandler::new();
    assert!(handler.channel_id().is_none());
    assert!(handler.webhook_target().is_none());
    assert!(handler.file_path().is_none());
}

#[test]
fn channel_failure_still_runs_webhook() {
    let mut handler = ErrorHandler::new();
    handler.channel(Id::new(1)).webhook(Id::new(2), "t".to_owned());
    let (sent, printed) = drive(handler.report("oops"), |s| match s {
        Sent::Channel(..) => Outcome::Failed("Missing Access".to_owned()),
        _ => Outcome::Delivered,
    });
    let extended = "\n\noops\n\nFailed to create message: Missing Access";
    assert_eq!(
        sent,
        vec![
            Sent::Channel(1, "\n\noops".to_owned()),
            Sent::Webhook(2, "t".to_owned(), extended.to_owned()),
        ]
    );
    assert_eq!(printed, extended);
}

#[test]
fn rejected_content_falls_back() {
    let mut handler = ErrorHandler::new();
    handler.channel(Id::new(1));
    let mut report = handler.report("too long");
    assert_eq!(report.step(), Step::Channel(Attempt::Primary));
    report.advance(Outcome::ContentRejected);
    assert_eq!(report.step(), Step::Channel(Attempt::Fallback));
    assert_eq!(report.message(), "\n\ntoo long");
    match report.action() {
        Action::CreateMessage { channel_id, content } => {
            assert_eq!(channel_id.get(), 1);
            assert_eq!(content, DEFAULT_ERROR_MESSAGE);
        }
        _ => panic!("expected a second message attempt"),
    }
}

#[test]
fn webhook_rejected_content_falls_back() {
    let mut handler = ErrorHandler::new();
    handler.webhook(Id::new(9), "tk".to_owned());
    let mut report = handler.report("x");
    report.advance(Outcome::ContentRejected);
    match report.action() {
        Action::ExecuteWebhook { webhook_id, token, content } => {
            assert_eq!((webhook_id.get(), token, content), (9, "tk", DEFAULT_ERROR_MESSAGE));
        }
        _ => panic!("expected a second webhook attempt"),
    }
}

#[test]
fn fallback_failure_is_appended() {
    let mut handler = ErrorHandler::new();
    handler.channel(Id::new(1));
    let (sent, printed) = drive(handler.report("e"), |s| {
        if content_of(s) == DEFAULT_ERROR_MESSAGE {
            Outcome::Failed("rate limited".to_owned())
        } else {
            Outcome::ContentRejected
        }
    });
    assert_eq!(sent.len(), 2);
    assert_eq!(printed, "\n\ne\n\nFailed to create message: rate limited");
}

#[test]
fn rejected_fallback_is_not_accepted() {
    let mut handler = ErrorHandler::new();
    handler.webhook(Id::new(3), "t".to_owned());
    let mut report = handler.report("e");
    assert!(report.accepts(&Outcome::ContentRejected));
    report.advance(Outcome::ContentRejected);
    assert!(!report.accepts(&Outcome::ContentRejected));
    assert!(report.accepts(&Outcome::Delivered));
}

#[test]
fn finished_report_accepts_nothing() {
    let handler = ErrorHandler::new();
    let report = handler.report("e");
    assert!(report.is_finished());
    assert!(!report.accepts(&Outcome::Delivered));
    assert!(!report.accepts(&Outcome::Failed("x".to_owned())));
}

#[test]
fn file_cannot_reject_content() {
    let mut handler = ErrorHandler::new();
    handler.file(PathBuf::from("/tmp/e.log"));
    let report = handler.report("e");
    assert_eq!(report.step(), Step::File);
    assert!(!report.accepts(&Outcome::ContentRejected));
}

#[test]
fn webhook_failure_is_appended() {
    let mut handler = ErrorHandler::new();
    handler.webhook(Id::new(4), "t".to_owned()).file(PathBuf::from("/tmp/e.log"));
    let (sent, printed) = drive(handler.report("e"), |s| match s {
        Sent::Webhook(..) => Outcome::Failed("Unknown Webhook".to_owned()),
        _ => Outcome::Delivered,
    });
    let extended = "\n\ne\n\nFailed to execute webhook: Unknown Webhook";
    assert_eq!(sent[1], Sent::File(PathBuf::from("/tmp/e.log"), extended.to_owned()));
    assert_eq!(printed, extended);
}

#[test]
fn channel_failure_reaches_file_and_print() {
    let handler = all_sinks();
    let (sent, printed) = drive(handler.report("bad"), |s| match s {
        Sent::Channel(..) => Outcome::Failed("403".to_owned()),
        Sent::File(..) => Outcome::Failed("read-only".to_owned()),
        _ => Outcome::Delivered,
    });
    let after_channel = "\n\nbad\n\nFailed to create message: 403";
    assert_eq!(
        sent,
        vec![
            Sent::Channel(11, "\n\nbad".to_owned()),
            Sent::Webhook(22, "tok".to_owned(), after_channel.to_owned()),
            Sent::File(PathBuf::from("/tmp/errs.log"), after_channel.to_owned()),
        ]
    );
    assert_eq!(printed, format!("{after_channel}\n\nFailed to append to file: read-only"));
    for delivery in &sent[..2] {
        assert!(!content_of(delivery).contains("append to file"));
    }
}

#[test]
fn all_sinks_fail_in_order() {
    let handler = all_sinks();
    let (sent, printed) = drive(handler.report("e"), |_| Outcome::Failed("x".to_owned()));
    assert_eq!(sent.len(), 3);
    assert_eq!(
        printed,
        "\n\ne\n\nFailed to create message: x\n\nFailed to execute webhook: x\n\nFailed to append to file: x"
    );
}

#[test]
fn sync_report_skips_network_sinks() {
    let handler = all_sinks();
    let report = handler.report_sync("sync");
    assert_eq!(report.step(), Step::File);
    let (sent, printed) = drive(report, |_| Outcome::Delivered);
    assert_eq!(sent, vec![Sent::File(PathBuf::from("/tmp/errs.log"), "\n\nsync".to_owned())]);
    assert_eq!(printed, "\n\nsync");
}

#[test]
fn scenario_file_disk_full() {
    let mut handler = ErrorHandler::new();
    handler.file(PathBuf::from("/tmp/errs.log"));
    let (sent, printed) = drive(handler.report("disk full"), |_| Outcome::Delivered);
    assert_eq!(content_of(&sent[0]), "\n\ndisk full");
    assert_eq!(printed, "\n\ndisk full");
}

#[test]
fn scenario_long_description_uses_fallback() {
    const MAX: usize = 2000;
    let mut handler = ErrorHandler::new();
    handler.channel(Id::new(1)).webhook(Id::new(2), "t".to_owned());
    let description = "a".repeat(5000);
    let (sent, printed) = drive(handler.report(&description), |s| {
        if content_of(s).chars().count() > MAX {
            Outcome::ContentRejected
        } else {
            Outcome::Delivered
        }
    });
    let long = format!("\n\n{description}");
    assert_eq!(
        sent,
        vec![
            Sent::Channel(1, long.clone()),
            Sent::Channel(1, DEFAULT_ERROR_MESSAGE.to_owned()),
            Sent::Webhook(2, "t".to_owned(), long.clone()),
            Sent::Webhook(2, "t".to_owned(), DEFAULT_ERROR_MESSAGE.to_owned()),
        ]
    );
    assert_eq!(printed, long);
    assert!(!printed.contains("Failed to"));
}
