//! The download queue's data model: tasks, their statuses, the events a
//! worker emits, and the rule that statuses only ever move forward.

use vstd::prelude::*;

verus! {

/// A progress percentage in hundredths of a percent: `4520` is 45.2%.
/// Percentages run from zero to one hundred percent.
#[derive(Debug, Clone, Copy, PartialEq, Eq, Structural)]
pub struct Percent {
    pub hundredths: u32,
}

impl Percent {
    pub open spec fn valid(self) -> bool {
        self.hundredths <= 10000
    }

    pub fn zero() -> (r: Self)
        ensures
            r.hundredths == 0,
    {
        Percent { hundredths: 0 }
    }
}

/// Status of one download task. `Done` and `Error` are terminal.
#[derive(Debug, PartialEq)]
pub enum DownloadStatus {
    Pending,
    Downloading(Percent),
    Done,
    Error(String),
}

/// Spec-level image of a status; progress is the percentage in hundredths.
pub enum StatusView {
    Pending,
    Downloading(int),
    Done,
    Error(Seq<char>),
}

impl View for DownloadStatus {
    type V = StatusView;

    open spec fn view(&self) -> StatusView {
        match self {
            DownloadStatus::Pending => StatusView::Pending,
            DownloadStatus::Downloading(p) => StatusView::Downloading(p.hundredths as int),
            DownloadStatus::Done => StatusView::Done,
            DownloadStatus::Error(m) => StatusView::Error(m@),
        }
    }
}

impl DeepView for DownloadStatus {
    type V = StatusView;

    open spec fn deep_view(&self) -> StatusView {
        self.view()
    }
}

/// One entry of the download queue. A task from the catalog carries the
/// catalog file's base name as its target; an ad-hoc task has no target and
/// gets a name-derived file name at execution time.
#[derive(Debug, PartialEq)]
pub struct DownloadTask {
    pub name: String,
    pub category: String,
    pub icon: String,
    pub url: String,
    pub status: DownloadStatus,
    pub target_filename: Option<String>,
}

/// Spec-level image of a task.
pub struct TaskView {
    pub name: Seq<char>,
    pub category: Seq<char>,
    pub icon: Seq<char>,
    pub url: Seq<char>,
    pub status: StatusView,
    pub target_filename: Option<Seq<char>>,
}

impl View for DownloadTask {
    type V = TaskView;

    open spec fn view(&self) -> TaskView {
        TaskView {
            name: self.name@,
            category: self.category@,
            icon: self.icon@,
            url: self.url@,
            status: self.status@,
            target_filename: match self.target_filename {
                Some(t) => Some(t@),
                None => None,
            },
        }
    }
}

impl DeepView for DownloadTask {
    type V = TaskView;

    open spec fn deep_view(&self) -> TaskView {
        self.view()
    }
}

/// A message from the worker that owns a task to the controller: progress,
/// or exactly one terminal outcome. The `Success` fields are the task's
/// name, category, resolved file path, icon, and source URL.
#[derive(Debug, PartialEq)]
pub enum DownloadEvent {
    Progress(Percent),
    Success(String, String, String, String, String),
    Error(String),
}

/// Terminal statuses admit no further transition.
pub open spec fn is_terminal(s: StatusView) -> bool {
    s is Done || s is Error
}

/// The allowed status transitions: a pending task starts downloading at
/// zero progress; a downloading task moves between percentages or reaches
/// one of the two terminal statuses; terminal statuses never move.
pub open spec fn status_step(pre: StatusView, post: StatusView) -> bool {
    match pre {
        StatusView::Pending => post == StatusView::Downloading(0),
        StatusView::Downloading(_) => post is Downloading || post is Done || post is Error,
        StatusView::Done => false,
        StatusView::Error(_) => false,
    }
}

/// A task's status only ever moves forward along
/// pending → downloading(0) → downloading(p) → done-or-error, and the two
/// terminal statuses never transition again.
pub proof fn lemma_status_transitions(pre: StatusView, post: StatusView)
    requires
        status_step(pre, post),
    ensures
        !is_terminal(pre),
        pre is Pending ==> post == StatusView::Downloading(0),
        pre is Downloading ==> post is Downloading || is_terminal(post),
{
}

/// `Done` and `Error` are forever: no status whatsoever can be stepped to
/// from a terminal one.
pub proof fn lemma_terminal_is_forever(pre: StatusView)
    requires
        is_terminal(pre),
    ensures
        forall|post: StatusView| !status_step(pre, post),
{
}

} // verus!
