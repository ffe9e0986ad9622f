//! Downloads started by the page: every one is accepted, placed in the
//! user's Downloads folder unless it already has an absolute destination,
//! and announced when it finishes, whether it succeeded or failed.

use vstd::prelude::*;

verus! {

/// Where a requested download goes.
pub enum DestinationPlan {
    /// The destination is absolute and names a file: it is kept as it is.
    Keep,
    /// The destination is replaced by the Downloads folder (or, where the
    /// system has none, the temporary folder) joined with the destination's
    /// own file name.
    DownloadsWithOwnName,
    /// The destination names no file: it is replaced by the Downloads folder
    /// (or the temporary folder) joined with the name given here.
    DownloadsWithName(String),
}

/// The model of a [`DestinationPlan`].
pub enum Destination {
    Keep,
    DownloadsWithOwnName,
    DownloadsWithName(Seq<char>),
}

impl View for DestinationPlan {
    type V = Destination;

    open spec fn view(&self) -> Destination {
        match self {
            DestinationPlan::Keep => Destination::Keep,
            DestinationPlan::DownloadsWithOwnName => Destination::DownloadsWithOwnName,
            DestinationPlan::DownloadsWithName(n) => Destination::DownloadsWithName(n@),
        }
    }
}

/// Where a download goes, from what its proposed destination is: an absolute
/// path with a file name stays; otherwise the file goes into the Downloads
/// folder, under its own name or, lacking one, under `download`.
pub open spec fn destination_for(is_absolute: bool, has_file_name: bool) -> Destination {
    if is_absolute && has_file_name {
        Destination::Keep
    } else if has_file_name {
        Destination::DownloadsWithOwnName
    } else {
        Destination::DownloadsWithName("download"@)
    }
}

/// Decides where a requested download goes, from whether its proposed
/// destination is absolute and whether it has a file name.
pub fn ensure_destination(is_absolute: bool, has_file_name: bool) -> (r: DestinationPlan)
    ensures
        r@ == destination_for(is_absolute, has_file_name),
{
    if is_absolute && has_file_name {
        DestinationPlan::Keep
    } else if has_file_name {
        DestinationPlan::DownloadsWithOwnName
    } else {
        DestinationPlan::DownloadsWithName(String::from_str("download"))
    }
}

/// A desktop notification.
pub struct Notice {
    pub title: String,
    pub body: String,
}

/// The model of a [`Notice`].
pub struct NoticeView {
    pub title: Seq<char>,
    pub body: Seq<char>,
}

impl View for Notice {
    type V = NoticeView;

    open spec fn view(&self) -> NoticeView {
        NoticeView { title: self.title@, body: self.body@ }
    }
}

/// The notice shown when a download finishes.
pub open spec fn finished_notice(success: bool, file_name: Option<Seq<char>>) -> NoticeView {
    if success {
        NoticeView {
            title: "Download complete"@,
            body: match file_name {
                Some(n) => n + " — saved to your Downloads folder."@,
                None => "Saved to your Downloads folder."@,
            },
        }
    } else {
        NoticeView {
            title: "Download failed"@,
            body: "The file could not be downloaded. Please try again."@,
        }
    }
}

/// The notice for a finished download: a completion notice naming the saved
/// file (where its path has a file name), or a failure notice.
pub fn download_notice(success: bool, file_name: Option<&str>) -> (r: Notice)
    ensures
        r@ == finished_notice(
            success,
            match file_name {
                Some(n) => Some(n@),
                None => None,
            },
        ),
{
    if success {
        let body = match file_name {
            Some(n) => {
                let mut b = String::from_str(n);
                b.append(" — saved to your Downloads folder.");
                b
            },
            None => String::from_str("Saved to your Downloads folder."),
        };
        Notice { title: String::from_str("Download complete"), body }
    } else {
        Notice {
            title: String::from_str("Download failed"),
            body: String::from_str("The file could not be downloaded. Please try again."),
        }
    }
}

/// An event of a download started by the page.
pub enum DownloadEvent {
    /// The page asks for a download; its proposed destination is absolute or
    /// not, and has a file name or not.
    Requested { destination_is_absolute: bool, destination_has_file_name: bool },
    /// A download ended; `file_name` is the final component of the saved
    /// path, where the path is known and has one.
    Finished { success: bool, file_name: Option<String> },
    /// Any other event.
    Other,
}

/// The model of a [`DownloadEvent`].
pub enum DownloadEventView {
    Requested { destination_is_absolute: bool, destination_has_file_name: bool },
    Finished { success: bool, file_name: Option<Seq<char>> },
    Other,
}

impl View for DownloadEvent {
    type V = DownloadEventView;

    open spec fn view(&self) -> DownloadEventView {
        match self {
            DownloadEvent::Requested { destination_is_absolute, destination_has_file_name } =>
                DownloadEventView::Requested {
                destination_is_absolute: *destination_is_absolute,
                destination_has_file_name: *destination_has_file_name,
            },
            DownloadEvent::Finished { success, file_name } => DownloadEventView::Finished {
                success: *success,
                file_name: match file_name {
                    Some(n) => Some(n@),
                    None => None,
                },
            },
            DownloadEvent::Other => DownloadEventView::Other,
        }
    }
}

/// What is done about a download event.
pub struct DownloadResponse {
    /// Whether the download is let through.
    pub accept: bool,
    /// Where a requested download goes.
    pub destination: Option<DestinationPlan>,
    /// The notification to show.
    pub notice: Option<Notice>,
}

/// The model of a [`DownloadResponse`].
pub struct DownloadResponseView {
    pub accept: bool,
    pub destination: Option<Destination>,
    pub notice: Option<NoticeView>,
}

impl View for DownloadResponse {
    type V = DownloadResponseView;

    open spec fn view(&self) -> DownloadResponseView {
        DownloadResponseView {
            accept: self.accept,
            destination: match self.destination {
                Some(d) => Some(d@),
                None => None,
            },
            notice: match self.notice {
                Some(n) => Some(n@),
                None => None,
            },
        }
    }
}

/// The response to a download event.
pub open spec fn download_response(event: DownloadEventView) -> DownloadResponseView {
    match event {
        DownloadEventView::Requested { destination_is_absolute, destination_has_file_name } =>
            DownloadResponseView {
            accept: true,
            destination: Some(destination_for(destination_is_absolute, destination_has_file_name)),
            notice: None,
        },
        DownloadEventView::Finished { success, file_name } => DownloadResponseView {
            accept: true,
            destination: None,
            notice: Some(finished_notice(success, file_name)),
        },
        DownloadEventView::Other => DownloadResponseView {
            accept: true,
            destination: None,
            notice: None,
        },
    }
}

/// Accepts every download: places a requested one (see
/// [`ensure_destination`]) and announces a finished one, success and failure
/// alike, so that there is always visible feedback.
pub fn handle_download(event: &DownloadEvent) -> (r: DownloadResponse)
    ensures
        r@ == download_response(event@),
{
    match event {
        DownloadEvent::Requested { destination_is_absolute, destination_has_file_name } => {
            DownloadResponse {
                accept: true,
                destination: Some(
                    ensure_destination(*destination_is_absolute, *destination_has_file_name),
                ),
                notice: None,
            }
        },
        DownloadEvent::Finished { success, file_name } => {
            let name: Option<&str> = match file_name {
                Some(n) => Some(n.as_str()),
                None => None,
            };
            DownloadResponse {
                accept: true,
                destination: None,
                notice: Some(download_notice(*success, name)),
            }
        },
        DownloadEvent::Other => DownloadResponse { accept: true, destination: None, notice: None },
    }
}

/// Every download event is answered by letting the download through.
pub proof fn every_download_is_accepted(event: DownloadEventView)
    ensures
        download_response(event).accept,
{
}

/// Every finished download is announced, whether it succeeded or failed, and
/// the two notices differ.
pub proof fn every_finished_download_is_announced(success: bool, file_name: Option<Seq<char>>)
    ensures
        download_response(DownloadEventView::Finished { success, file_name }).notice is Some,
        finished_notice(true, file_name).title != finished_notice(false, file_name).title,
{
    reveal_strlit("Download complete");
    reveal_strlit("Download failed");
    assert("Download complete"@[9] != "Download failed"@[9]);
}

/// A requested download whose destination is absolute and names a file keeps
/// it; any other goes into the Downloads folder, under its own file name
/// where it has one.
pub proof fn destination_kept_only_when_absolute_and_named(is_absolute: bool, has_file_name: bool)
    ensures
        (destination_for(is_absolute, has_file_name) == Destination::Keep) <==> (is_absolute
            && has_file_name),
        (destination_for(is_absolute, has_file_name) == Destination::DownloadsWithOwnName) <==> (
        !is_absolute && has_file_name),
        !has_file_name ==> destination_for(is_absolute, has_file_name)
            == Destination::DownloadsWithName("download"@),
{
}

/// Placing a download is settled once it is: a destination that is absolute
/// and names a file (as one placed into the Downloads folder under a name is)
/// is kept as it is by any later placement.
pub proof fn placed_destination_is_kept()
    ensures
        destination_for(true, true) == Destination::Keep,
{
}

/// The notice of a finished download follows its own success flag alone: a
/// successful download is announced as complete (naming the file where its
/// path has a file name), a failed one as failed, whatever its file name.
pub proof fn finished_notice_follows_success(success: bool, file_name: Option<Seq<char>>)
    ensures
        download_response(DownloadEventView::Finished { success, file_name }).notice is Some,
        ({
            let n = download_response(DownloadEventView::Finished { success, file_name }).notice->0;
            &&& success ==> n.title == "Download complete"@
            &&& success && file_name is Some ==> n.body == file_name->0
                + " — saved to your Downloads folder."@
            &&& success && file_name is None ==> n.body == "Saved to your Downloads folder."@
            &&& !success ==> n.title == "Download failed"@
            &&& !success ==> n.body == "The file could not be downloaded. Please try again."@
        }),
{
}

} // verus!
