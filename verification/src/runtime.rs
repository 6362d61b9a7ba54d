//! What the jobs around the core hand back to it: the outcome of one poll
//! or of one request to the desktop, turned into the update that publishes
//! it. A failure is published like any other outcome; it never ends a job.

use vstd::prelude::*;
use vstd::string::*;
use crate::hub::{Hub, HubView};
use crate::messages::{
    ErrorMessage, ErrorMessageView, OpenTarget, SessionStats, StatusTask, StatusTaskKind,
    StatusTaskView, Torrent, TorrentInfo, UpdateAction, UpdateActionView,
};

verus! {

/// The pause between two polls of a torrent's files, in seconds.
pub const FILES_POLL_SECONDS: u64 = 6;

/// How long a search race waits for the providers, in seconds.
pub const SEARCH_TIMEOUT_SECONDS: u64 = 5;

/// Publishes the outcome of one poll of the session totals.
pub fn publish_stats(outcome: Result<SessionStats, ErrorMessage>, hub: &mut Hub)
    ensures
        final(hub)@ == old(hub)@.with_update(
            match outcome {
                Ok(stats) => UpdateActionView::SessionStats(stats),
                Err(error) => UpdateActionView::Error(error@),
            },
        ),
{
    match outcome {
        Ok(stats) => hub.send_update_action(UpdateAction::SessionStats(stats)),
        Err(error) => hub.send_update_action(UpdateAction::Error(error)),
    }
}

/// Publishes the outcome of one poll of the torrent list.
pub fn publish_torrents(outcome: Result<Vec<Torrent>, ErrorMessage>, hub: &mut Hub)
    ensures
        final(hub)@ == old(hub)@.with_update(
            match outcome {
                Ok(torrents) => UpdateActionView::UpdateTorrents(torrents),
                Err(error) => UpdateActionView::Error(error@),
            },
        ),
{
    match outcome {
        Ok(torrents) => hub.send_update_action(UpdateAction::UpdateTorrents(torrents)),
        Err(error) => hub.send_update_action(UpdateAction::Error(error)),
    }
}

/// Publishes the outcome of one poll of the free disk space.
pub fn publish_free_space(outcome: Result<u64, ErrorMessage>, hub: &mut Hub)
    ensures
        final(hub)@ == old(hub)@.with_update(
            match outcome {
                Ok(bytes) => UpdateActionView::FreeSpace(bytes),
                Err(error) => UpdateActionView::Error(error@),
            },
        ),
{
    match outcome {
        Ok(bytes) => hub.send_update_action(UpdateAction::FreeSpace(bytes)),
        Err(error) => hub.send_update_action(UpdateAction::Error(error)),
    }
}

/// The headline of the message for a poll of a torrent's files that the
/// daemon answered without any torrent.
pub open spec fn no_torrent_title() -> Seq<char> {
    "Failed to fetch the files"@
}

/// The body of that message.
pub open spec fn no_torrent_description() -> Seq<char> {
    "The daemon answered without the torrent that was asked for"@
}

/// The source of that message: none but the answer itself.
pub open spec fn no_torrent_source() -> Seq<char> {
    "empty answer"@
}

/// What one poll of a torrent's files publishes: the last torrent of the
/// answer, if the daemon sent any; else an error, be it the daemon's
/// failure or an answer without a torrent.
pub open spec fn files_published(
    outcome: Result<Vec<TorrentInfo>, ErrorMessage>,
) -> UpdateActionView {
    match outcome {
        Ok(torrents) => if torrents@.len() > 0 {
            UpdateActionView::UpdateCurrentTorrent(torrents@.last())
        } else {
            UpdateActionView::Error(
                ErrorMessageView {
                    title: no_torrent_title(),
                    description: no_torrent_description(),
                    source: no_torrent_source(),
                },
            )
        },
        Err(error) => UpdateActionView::Error(error@),
    }
}

/// Publishes the outcome of one poll of a torrent's files. Every poll
/// publishes exactly one update.
pub fn publish_torrent_files(outcome: Result<Vec<TorrentInfo>, ErrorMessage>, hub: &mut Hub)
    ensures
        final(hub)@ == old(hub)@.with_update(files_published(outcome)),
{
    match outcome {
        Ok(torrents) => {
            let mut torrents = torrents;
            match torrents.pop() {
                Some(torrent) => hub.send_update_action(
                    UpdateAction::UpdateCurrentTorrent(torrent),
                ),
                None => hub.send_update_action(
                    UpdateAction::Error(
                        ErrorMessage {
                            title: String::from_str("Failed to fetch the files"),
                            description: String::from_str(
                                "The daemon answered without the torrent that was asked for",
                            ),
                            source: String::from_str("empty answer"),
                        },
                    ),
                ),
            }
        },
        Err(error) => hub.send_update_action(UpdateAction::Error(error)),
    }
}

/// The headline of the message for a path that the desktop could not open.
pub open spec fn open_failure_title(target: OpenTarget) -> Seq<char> {
    match target {
        OpenTarget::TorrentDirectory => "Failed to open a torrent directory"@,
        _ => "Failed to open a file"@,
    }
}

/// The body of the message for a path that the desktop could not open.
pub open spec fn open_failure_description(target: OpenTarget, path: Seq<char>) -> Seq<char> {
    match target {
        OpenTarget::TorrentDirectory => "Encountered an error while trying to open \""@ + path
            + "\""@,
        _ => "An error occured while trying to open \""@ + path + "\""@,
    }
}

/// What is published when the desktop was asked to open a path: nothing
/// for a link; else the success in the status line, or the failure as an
/// error with the desktop's own report.
pub open spec fn open_reported(
    target: OpenTarget,
    path: Seq<char>,
    failure: Option<Seq<char>>,
    hub: HubView,
) -> HubView {
    if target is Link {
        hub
    } else {
        match failure {
            None => hub.with_update(
                UpdateActionView::StatusTaskSetSuccess(
                    StatusTaskView { kind: StatusTaskKind::Open, what: path },
                ),
            ),
            Some(report) => hub.with_update(
                UpdateActionView::Error(
                    ErrorMessageView {
                        title: open_failure_title(target),
                        description: open_failure_description(target, path),
                        source: report,
                    },
                ),
            ),
        }
    }
}

/// Publishes how the desktop fared with a path it was asked to open.
pub fn report_open(target: OpenTarget, path: String, outcome: Result<(), String>, hub: &mut Hub)
    ensures
        final(hub)@ == open_reported(
            target,
            path@,
            match outcome {
                Ok(_) => None,
                Err(report) => Some(report@),
            },
            old(hub)@,
        ),
{
    if matches!(target, OpenTarget::Link) {
        return;
    }
    match outcome {
        Ok(_) => {
            hub.send_update_action(UpdateAction::StatusTaskSetSuccess(StatusTask::new_open(path)));
        },
        Err(report) => {
            let (title, mut description) = match target {
                OpenTarget::TorrentDirectory => (
                    String::from_str("Failed to open a torrent directory"),
                    String::from_str("Encountered an error while trying to open \""),
                ),
                _ => (
                    String::from_str("Failed to open a file"),
                    String::from_str("An error occured while trying to open \""),
                ),
            };
            description.append(path.as_str());
            description.append("\"");
            hub.send_update_action(
                UpdateAction::Error(ErrorMessage { title, description, source: report }),
            );
        },
    }
}

} // verus!
