//! The foreground controller: it owns the download queue, scans the catalog
//! for missing assets, admits ad-hoc tasks, starts the single background
//! worker, and applies the worker's events. At most one task is ever
//! downloading; the queue is processed strictly sequentially.

use vstd::prelude::*;
use vstd::string::StringExecFns;

use crate::assets::path_exists;
use crate::queue::DownloadEvent;
use crate::queue::DownloadStatus;
use crate::queue::DownloadTask;
use crate::queue::Percent;
use crate::queue::StatusView;
use crate::queue::TaskView;
use crate::queue::status_step;
use crate::sound::Sound;
use crate::sound::SoundView;
use crate::text::base_name;
use crate::text::base_name_spec;
use crate::text::trim_spec;
use crate::text::trim_str;

verus! {

/// A record is eligible for scanning when its target file is absent from
/// disk and its source URL is non-empty after trimming.
pub open spec fn eligible(s: SoundView, present: bool) -> bool {
    &&& !present
    &&& s.url matches Some(u) && trim_spec(u).len() > 0
}

/// The pending task an eligible record gives rise to: name, category, icon
/// and URL copied, the target file name taken from the base name of the
/// record's target path.
pub open spec fn task_for(s: SoundView) -> TaskView {
    TaskView {
        name: s.name,
        category: s.category,
        icon: s.icon,
        url: match s.url {
            Some(u) => u,
            None => Seq::empty(),
        },
        status: StatusView::Pending,
        target_filename: Some(base_name_spec(s.file_path)),
    }
}

/// The tasks the scanner produces, in catalog order: one pending task per
/// eligible record, nothing for the others.
pub open spec fn scan_spec(sounds: Seq<SoundView>, present: Seq<bool>) -> Seq<TaskView>
    decreases sounds.len(),
{
    if sounds.len() == 0 {
        Seq::empty()
    } else {
        let rest = scan_spec(sounds.drop_last(), present.drop_last());
        if eligible(sounds.last(), present.last()) {
            rest.push(task_for(sounds.last()))
        } else {
            rest
        }
    }
}

/// How many records are eligible.
pub open spec fn count_eligible(sounds: Seq<SoundView>, present: Seq<bool>) -> int
    decreases sounds.len(),
{
    if sounds.len() == 0 {
        0
    } else {
        count_eligible(sounds.drop_last(), present.drop_last()) + if eligible(
            sounds.last(),
            present.last(),
        ) {
            1int
        } else {
            0int
        }
    }
}

/// The scanner produces exactly one task per eligible record.
pub proof fn lemma_scan_len(sounds: Seq<SoundView>, present: Seq<bool>)
    ensures
        scan_spec(sounds, present).len() == count_eligible(sounds, present),
    decreases sounds.len(),
{
    if sounds.len() > 0 {
        lemma_scan_len(sounds.drop_last(), present.drop_last());
    }
}

/// Every eligible record is represented in the scan by its own task, with
/// name, category, icon, URL and the base name of its path preserved.
pub proof fn lemma_scan_task_per_eligible(sounds: Seq<SoundView>, present: Seq<bool>, i: int)
    requires
        present.len() == sounds.len(),
        0 <= i < sounds.len(),
        eligible(sounds[i], present[i]),
    ensures
        scan_spec(sounds, present).contains(task_for(sounds[i])),
    decreases sounds.len(),
{
    let s = scan_spec(sounds, present);
    if i == sounds.len() - 1 {
        assert(s[s.len() - 1] == task_for(sounds[i]));
    } else {
        lemma_scan_task_per_eligible(sounds.drop_last(), present.drop_last(), i);
        let rest = scan_spec(sounds.drop_last(), present.drop_last());
        let k = choose|k: int| 0 <= k < rest.len() && rest[k] == task_for(sounds.drop_last()[i]);
        assert(sounds.drop_last()[i] == sounds[i]);
        assert(s[k] == task_for(sounds[i]));
    }
}

/// Every task the scanner produces stems from an eligible record — in
/// particular from one whose target file is absent: records with a present
/// file produce nothing, whatever their URL says.
pub proof fn lemma_task_only_for_missing(sounds: Seq<SoundView>, present: Seq<bool>, k: int)
    requires
        present.len() == sounds.len(),
        0 <= k < scan_spec(sounds, present).len(),
    ensures
        exists|i: int|
            0 <= i < sounds.len() && !present[i] && eligible(sounds[i], present[i]) && scan_spec(
                sounds,
                present,
            )[k] == task_for(sounds[i]),
    decreases sounds.len(),
{
    let s = scan_spec(sounds, present);
    let rest = scan_spec(sounds.drop_last(), present.drop_last());
    if k < rest.len() {
        lemma_task_only_for_missing(sounds.drop_last(), present.drop_last(), k);
        let i = choose|i: int|
            0 <= i < sounds.drop_last().len() && !present.drop_last()[i] && eligible(
                sounds.drop_last()[i],
                present.drop_last()[i],
            ) && rest[k] == task_for(sounds.drop_last()[i]);
        assert(sounds.drop_last()[i] == sounds[i]);
        assert(s[k] == rest[k]);
        assert(!present[i] && eligible(sounds[i], present[i]) && s[k] == task_for(sounds[i]));
    } else {
        assert(eligible(sounds.last(), present.last()));
        let i = sounds.len() - 1;
        assert(s[k] == task_for(sounds[i]));
        assert(!present[i] && eligible(sounds[i], present[i]));
    }
}

/// Every task the scanner produces starts out pending.
pub proof fn lemma_scan_all_pending(sounds: Seq<SoundView>, present: Seq<bool>)
    ensures
        forall|k: int|
            0 <= k < scan_spec(sounds, present).len() ==> scan_spec(sounds, present)[k].status
                is Pending,
    decreases sounds.len(),
{
    if sounds.len() > 0 {
        lemma_scan_all_pending(sounds.drop_last(), present.drop_last());
    }
}

/// Builds the scanner's tasks from the records and, for each record, whether
/// its target file is present on disk.
pub fn missing_download_tasks(sounds: &Vec<Sound>, file_present: &Vec<bool>) -> (r: Vec<
    DownloadTask,
>)
    requires
        file_present@.len() == sounds@.len(),
    ensures
        r.deep_view() == scan_spec(sounds.deep_view(), file_present@),
{
    let ghost sv = sounds.deep_view();
    let ghost pv = file_present@;
    let mut r: Vec<DownloadTask> = Vec::new();
    let mut i: usize = 0;
    while i < sounds.len()
        invariant
            0 <= i <= sounds@.len(),
            file_present@.len() == sounds@.len(),
            sv == sounds.deep_view(),
            pv == file_present@,
            sv.len() == sounds@.len(),
            r.deep_view() == scan_spec(sv.subrange(0, i as int), pv.subrange(0, i as int)),
        decreases sounds@.len() - i,
    {
        proof {
            assert(sv.subrange(0, i + 1).drop_last() =~= sv.subrange(0, i as int));
            assert(pv.subrange(0, i + 1).drop_last() =~= pv.subrange(0, i as int));
            assert(sv.subrange(0, i + 1).last() == sv[i as int]);
            assert(pv.subrange(0, i + 1).last() == pv[i as int]);
        }
        let snd = &sounds[i];
        if !file_present[i] {
            if let Some(u) = &snd.url {
                let trimmed = trim_str(u.as_str());
                if !trimmed.as_str().is_empty() {
                    let task = DownloadTask {
                        name: snd.name.clone(),
                        category: snd.category.clone(),
                        icon: snd.icon.clone(),
                        url: u.clone(),
                        status: DownloadStatus::Pending,
                        target_filename: Some(base_name(snd.file_path.as_str())),
                    };
                    proof {
                        assert(task.deep_view() == task_for(sv[i as int]));
                    }
                    r.push(task);
                    proof {
                        assert(r.deep_view() =~= scan_spec(
                            sv.subrange(0, i + 1),
                            pv.subrange(0, i + 1),
                        ));
                    }
                } else {
                    proof {
                        assert(!eligible(sv[i as int], pv[i as int]));
                    }
                }
            } else {
                proof {
                    assert(!eligible(sv[i as int], pv[i as int]));
                }
            }
        } else {
            proof {
                assert(!eligible(sv[i as int], pv[i as int]));
            }
        }
        i = i + 1;
    }
    proof {
        assert(sv.subrange(0, sv.len() as int) =~= sv);
        assert(pv.subrange(0, pv.len() as int) =~= pv);
    }
    r
}

/// The foreground application state around the download subsystem.
pub struct App {
    pub sounds: Vec<Sound>,
    pub download_queue: Vec<DownloadTask>,
    pub yt_dlp_available: bool,
    pub active_download_index: Option<usize>,
    pub add_sound_name: String,
    pub add_sound_category: String,
    pub add_sound_icon: String,
    pub add_sound_url: String,
    pub add_sound_status: String,
}

/// The job handed to the single background worker: a copy of the task's
/// fields and the tool-capability flag captured at spawn time.
pub struct DownloadJob {
    pub name: String,
    pub category: String,
    pub icon: String,
    pub url: String,
    pub target_filename: Option<String>,
    pub tool_available: bool,
}

/// The fields of the catalog record persisted after a successful download.
pub struct NewRecord {
    pub name: String,
    pub category: String,
    pub file_path: String,
    pub icon: String,
    pub url: String,
}

impl App {
    /// Well-formedness: the active index, when set, points at a downloading
    /// task inside the queue, and every downloading task is the active one.
    pub open spec fn wf(self) -> bool {
        &&& (self.active_download_index matches Some(i) ==> i < self.download_queue@.len()
            && self.download_queue@[i as int].status@ is Downloading)
        &&& (forall|j: int|
            0 <= j < self.download_queue@.len() && self.download_queue@[j].status@ is Downloading
                ==> self.active_download_index == Some(j as usize))
    }

    /// At most one task is downloading at any time: any two downloading
    /// positions coincide.
    pub proof fn lemma_at_most_one_downloading(self, i: int, j: int)
        requires
            self.wf(),
            0 <= i < self.download_queue@.len(),
            0 <= j < self.download_queue@.len(),
            self.download_queue@[i].status@ is Downloading,
            self.download_queue@[j].status@ is Downloading,
        ensures
            i == j,
    {
        vstd::std_specs::vec::axiom_spec_len(&self.download_queue);
    }

    /// A fresh application state: the given records, an empty queue, no
    /// active worker, and empty admission fields.
    pub fn new(sounds: Vec<Sound>, yt_dlp_available: bool) -> (r: App)
        ensures
            r.wf(),
            r.sounds == sounds,
            r.yt_dlp_available == yt_dlp_available,
            r.download_queue@.len() == 0,
            r.active_download_index is None,
            r.add_sound_name@ == Seq::<char>::empty(),
            r.add_sound_category@ == Seq::<char>::empty(),
            r.add_sound_icon@ == Seq::<char>::empty(),
            r.add_sound_url@ == Seq::<char>::empty(),
            r.add_sound_status@ == Seq::<char>::empty(),
    {
        App {
            sounds,
            download_queue: Vec::new(),
            yt_dlp_available,
            active_download_index: None,
            add_sound_name: String::new(),
            add_sound_category: String::new(),
            add_sound_icon: String::new(),
            add_sound_url: String::new(),
            add_sound_status: String::new(),
        }
    }

    /// The missing-asset scanner: when the extraction tool is available,
    /// appends one pending task per record whose target file is absent and
    /// whose URL is non-empty after trimming; with no tool available it
    /// queues nothing. Which files are present depends on the disk, so the
    /// contract states that the queue grew by a scan under some presence
    /// assignment; `missing_download_tasks` pins the scan down exactly.
    pub fn check_and_download_missing_files(&mut self)
        requires
            old(self).wf(),
        ensures
            final(self).wf(),
            final(self).sounds == old(self).sounds,
            final(self).yt_dlp_available == old(self).yt_dlp_available,
            final(self).active_download_index == old(self).active_download_index,
            final(self).add_sound_name == old(self).add_sound_name,
            final(self).add_sound_category == old(self).add_sound_category,
            final(self).add_sound_icon == old(self).add_sound_icon,
            final(self).add_sound_url == old(self).add_sound_url,
            final(self).add_sound_status == old(self).add_sound_status,
            !old(self).yt_dlp_available ==> final(self).download_queue == old(self).download_queue,
            old(self).yt_dlp_available ==> exists|pr: Seq<bool>|
                #![auto]
                pr.len() == old(self).sounds@.len() && final(self).download_queue.deep_view()
                    == old(self).download_queue.deep_view() + scan_spec(
                    old(self).sounds.deep_view(),
                    pr,
                ),
    {
        if !self.yt_dlp_available {
            return;
        }
        let mut present: Vec<bool> = Vec::new();
        let mut i: usize = 0;
        while i < self.sounds.len()
            invariant
                *self == *old(self),
                0 <= i <= self.sounds@.len(),
                present@.len() == i as int,
            decreases self.sounds@.len() - i,
        {
            let p = path_exists(&self.sounds[i].file_path);
            present.push(p);
            i = i + 1;
        }
        let mut tasks = missing_download_tasks(&self.sounds, &present);
        let ghost scanned = tasks.deep_view();
        let ghost old_deep = self.download_queue.deep_view();
        proof {
            lemma_scan_all_pending(self.sounds.deep_view(), present@);
        }
        self.download_queue.append(&mut tasks);
        proof {
            vstd::std_specs::vec::axiom_spec_len(&self.download_queue);
            assert(self.download_queue.deep_view() =~= old_deep + scanned);
            let pr = present@;
            assert(pr.len() == old(self).sounds@.len() && self.download_queue.deep_view() == old(self).download_queue.deep_view() + scan_spec(old(self).sounds.deep_view(), pr));
            let old_len = old(self).download_queue@.len() as int;
            assert forall|j: int|
                0 <= j < self.download_queue@.len() && self.download_queue@[j].status@
                    is Downloading implies self.active_download_index == Some(j as usize) by {
                assert(self.download_queue.deep_view()[j] == self.download_queue@[j].deep_view());
                if j < old_len {
                    assert(self.download_queue@[j] == old(self).download_queue@[j]);
                } else {
                    assert(self.download_queue.deep_view()[j] == scanned[j - old_len]);
                    assert(scanned[j - old_len].status is Pending);
                }
            }
            if self.active_download_index is Some {
                let i = self.active_download_index.unwrap() as int;
                assert(self.download_queue@[i] == old(self).download_queue@[i]);
            }
        }
    }

    /// Ad-hoc task admission: name, category and URL must be non-empty after
    /// trimming (the icon may be empty). On failure the queue is untouched
    /// and a validation error is reported; on success a pending task with no
    /// predetermined target file name is appended, the trimmed URL is kept,
    /// and the name and URL inputs are cleared.
    pub fn start_download(&mut self)
        requires
            old(self).wf(),
        ensures
            final(self).wf(),
            final(self).sounds == old(self).sounds,
            final(self).yt_dlp_available == old(self).yt_dlp_available,
            final(self).active_download_index == old(self).active_download_index,
            final(self).add_sound_icon == old(self).add_sound_icon,
            ({
                let reject = trim_spec(old(self).add_sound_name@).len() == 0 || trim_spec(
                    old(self).add_sound_category@,
                ).len() == 0 || trim_spec(old(self).add_sound_url@).len() == 0;
                if reject {
                    final(self).download_queue == old(self).download_queue && final(self).add_sound_status@ == "Error: All fields (except icon) are required."@
                        && final(self).add_sound_name == old(self).add_sound_name && final(self).add_sound_category == old(self).add_sound_category && final(self).add_sound_url == old(self).add_sound_url
                } else {
                    final(self).download_queue.deep_view() == old(self).download_queue.deep_view().push(
                        (TaskView {
                            name: old(self).add_sound_name@,
                            category: old(self).add_sound_category@,
                            icon: old(self).add_sound_icon@,
                            url: trim_spec(old(self).add_sound_url@),
                            status: StatusView::Pending,
                            target_filename: None,
                        }),
                    ) && final(self).add_sound_status@ == "Added to download queue."@ && final(self).add_sound_name@ == Seq::<char>::empty() && final(self).add_sound_url@
                        == Seq::<char>::empty() && final(self).add_sound_category == old(self).add_sound_category
                }
            }),
    {
        let trimmed_name = trim_str(self.add_sound_name.as_str());
        let trimmed_category = trim_str(self.add_sound_category.as_str());
        let trimmed_url = trim_str(self.add_sound_url.as_str());
        if trimmed_name.as_str().is_empty() || trimmed_category.as_str().is_empty()
            || trimmed_url.as_str().is_empty() {
            self.add_sound_status = String::from_str(
                "Error: All fields (except icon) are required.",
            );
            return;
        }
        let task = DownloadTask {
            name: self.add_sound_name.clone(),
            category: self.add_sound_category.clone(),
            icon: self.add_sound_icon.clone(),
            url: trimmed_url,
            status: DownloadStatus::Pending,
            target_filename: None,
        };
        let ghost old_deep = self.download_queue.deep_view();
        let ghost tv = task.deep_view();
        self.download_queue.push(task);
        self.add_sound_status = String::from_str("Added to download queue.");
        self.add_sound_name = String::new();
        self.add_sound_url = String::new();
        proof {
            assert(self.download_queue.deep_view() =~= old_deep.push(tv));
        }
    }

    /// The position of the first pending task, if any: the task the
    /// controller starts next once no task is active.
    pub fn next_pending_index(&self) -> (r: Option<usize>)
        ensures
            r matches Some(i) ==> i < self.download_queue@.len()
                && self.download_queue@[i as int].status@ is Pending && (forall|j: int|
                0 <= j < i ==> !(self.download_queue@[j].status@ is Pending)),
            r is None ==> forall|j: int|
                0 <= j < self.download_queue@.len() ==> !(self.download_queue@[j].status@
                    is Pending),
    {
        let mut k: usize = 0;
        while k < self.download_queue.len()
            invariant
                0 <= k <= self.download_queue@.len(),
                forall|j: int| 0 <= j < k ==> !(self.download_queue@[j].status@ is Pending),
            decreases self.download_queue@.len() - k,
        {
            let pending = match &self.download_queue[k].status {
                DownloadStatus::Pending => true,
                _ => false,
            };
            if pending {
                return Some(k);
            }
            k = k + 1;
        }
        None
    }

    /// Starts the worker for one pending task: the task moves to a
    /// zero-progress download — the only transition out of `Pending` — and
    /// becomes the single active task; the returned job carries copies of
    /// its fields and the capability flag captured now.
    pub fn begin_download(&mut self, index: usize) -> (job: DownloadJob)
        requires
            old(self).wf(),
            old(self).active_download_index is None,
            index < old(self).download_queue@.len(),
            old(self).download_queue@[index as int].status@ is Pending,
        ensures
            final(self).wf(),
            final(self).sounds == old(self).sounds,
            final(self).yt_dlp_available == old(self).yt_dlp_available,
            final(self).active_download_index == Some(index),
            final(self).download_queue@.len() == old(self).download_queue@.len(),
            forall|j: int|
                0 <= j < old(self).download_queue@.len() && j != index as int ==> final(self).download_queue@[j] == old(self).download_queue@[j],
            final(self).download_queue@[index as int].status@ == StatusView::Downloading(0),
            status_step(
                old(self).download_queue@[index as int].status@,
                final(self).download_queue@[index as int].status@,
            ),
            final(self).download_queue@[index as int].name == old(self).download_queue@[index as int].name,
            final(self).download_queue@[index as int].category == old(self).download_queue@[index as int].category,
            final(self).download_queue@[index as int].icon == old(self).download_queue@[index as int].icon,
            final(self).download_queue@[index as int].url == old(self).download_queue@[index as int].url,
            final(self).download_queue@[index as int].target_filename == old(self).download_queue@[index as int].target_filename,
            job.name@ == old(self).download_queue@[index as int].name@,
            job.category@ == old(self).download_queue@[index as int].category@,
            job.icon@ == old(self).download_queue@[index as int].icon@,
            job.url@ == old(self).download_queue@[index as int].url@,
            job.target_filename.deep_view() == old(self).download_queue@[index as int].target_filename.deep_view(),
            job.tool_available == old(self).yt_dlp_available,
    {
        self.download_queue[index].status = DownloadStatus::Downloading(Percent::zero());
        self.active_download_index = Some(index);
        let task = &self.download_queue[index];
        let target_filename = match &task.target_filename {
            Some(t) => Some(t.clone()),
            None => None,
        };
        DownloadJob {
            name: task.name.clone(),
            category: task.category.clone(),
            icon: task.icon.clone(),
            url: task.url.clone(),
            target_filename,
            tool_available: self.yt_dlp_available,
        }
    }

    /// Applies one worker event to the active task: progress updates its
    /// percentage; an error makes it terminal with the message; a success
    /// makes it `Done` and yields the catalog record to persist. Terminal
    /// events release the active slot so the next pending task can start.
    pub fn apply_download_event(&mut self, event: DownloadEvent) -> (r: Option<NewRecord>)
        requires
            old(self).wf(),
            old(self).active_download_index is Some,
            event matches DownloadEvent::Progress(p) ==> p.valid(),
        ensures
            final(self).wf(),
            final(self).sounds == old(self).sounds,
            final(self).yt_dlp_available == old(self).yt_dlp_available,
            final(self).download_queue@.len() == old(self).download_queue@.len(),
            ({
                let i = old(self).active_download_index.unwrap() as int;
                &&& forall|j: int|
                    0 <= j < old(self).download_queue@.len() && j != i ==> final(self).download_queue@[j] == old(self).download_queue@[j]
                &&& final(self).download_queue@[i].name == old(self).download_queue@[i].name
                &&& final(self).download_queue@[i].category == old(self).download_queue@[i].category
                &&& final(self).download_queue@[i].icon == old(self).download_queue@[i].icon
                &&& final(self).download_queue@[i].url == old(self).download_queue@[i].url
                &&& final(self).download_queue@[i].target_filename == old(self).download_queue@[i].target_filename
                &&& status_step(
                    old(self).download_queue@[i].status@,
                    final(self).download_queue@[i].status@,
                )
                &&& (event matches DownloadEvent::Progress(p) ==> final(self).download_queue@[i].status@ == StatusView::Downloading(p.hundredths as int)
                    && final(self).active_download_index == old(self).active_download_index && r
                    is None)
                &&& (event matches DownloadEvent::Error(m) ==> final(self).download_queue@[i].status@ == StatusView::Error(m@) && final(self).active_download_index is None && r is None)
                &&& (event matches DownloadEvent::Success(n, c, f, ic, u) ==> final(self).download_queue@[i].status@ is Done && final(self).active_download_index is None
                    && (r matches Some(rec) && rec.name == n && rec.category == c && rec.file_path
                    == f && rec.icon == ic && rec.url == u))
            }),
    {
        let i = self.active_download_index.unwrap();
        proof {
            vstd::std_specs::vec::axiom_spec_len(&self.download_queue);
        }
        match event {
            DownloadEvent::Progress(p) => {
                self.download_queue[i].status = DownloadStatus::Downloading(p);
                None
            },
            DownloadEvent::Success(n, c, f, ic, u) => {
                self.download_queue[i].status = DownloadStatus::Done;
                self.active_download_index = None;
                Some(
                    NewRecord {
                        name: n,
                        category: c,
                        file_path: f,
                        icon: ic,
                        url: u,
                    },
                )
            },
            DownloadEvent::Error(m) => {
                self.download_queue[i].status = DownloadStatus::Error(m);
                self.active_download_index = None;
                None
            },
        }
    }
}

} // verus!
