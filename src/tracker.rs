use vstd::prelude::*;

use crate::progress::{progress_of, TrackerType, TransferProgress};
use crate::size_display::{
    amount_string, current_text, decimal_size_text, format_size_decimal, scale_of, total_text,
    unit_str,
};
use crate::transfer_state::TransferState;
use vstd::string::StringExecFns;

verus! {

/// The identity of one transfer: unique per transfer for the life of the
/// process (a 128-bit UUID value).
#[derive(Debug, Clone, Copy, PartialEq, Eq, Structural, Hash)]
pub struct TransferId(pub u128);

/// What the display says of a transfer: a message and its arguments, which
/// the display layer renders in the user's language.
#[derive(Debug, Clone)]
pub enum Description {
    /// The transfer is starting.
    Starting,
    /// Progress of a running transfer, with both amounts in the unit of the
    /// total (`total` ends with that unit).
    Progress { tracker: TrackerType, progress: u8, size: String, total: String },
    /// The transfer is finishing; `size` is its total size.
    Finishing { size: String },
    /// The transfer failed with the given error text.
    Failed { error: String },
    /// The transfer is paused, with amounts as in `Progress`.
    Paused { progress: u8, size: String, total: String },
    /// The transfer is being cancelled.
    Cancelling,
    /// The transfer failed for a reason outside its progress reports.
    UploadError,
    /// A text set directly by the caller.
    Text(String),
}

/// A `Description` with its texts as character sequences.
pub enum DescriptionView {
    Starting,
    Progress { tracker: TrackerType, progress: u8, size: Seq<char>, total: Seq<char> },
    Finishing { size: Seq<char> },
    Failed { error: Seq<char> },
    Paused { progress: u8, size: Seq<char>, total: Seq<char> },
    Cancelling,
    UploadError,
    Text(Seq<char>),
}

impl View for Description {
    type V = DescriptionView;

    open spec fn view(&self) -> DescriptionView {
        match self {
            Description::Starting => DescriptionView::Starting,
            Description::Progress { tracker, progress, size, total } => DescriptionView::Progress {
                tracker: *tracker,
                progress: *progress,
                size: size@,
                total: total@,
            },
            Description::Finishing { size } => DescriptionView::Finishing { size: size@ },
            Description::Failed { error } => DescriptionView::Failed { error: error@ },
            Description::Paused { progress, size, total } => DescriptionView::Paused {
                progress: *progress,
                size: size@,
                total: total@,
            },
            Description::Cancelling => DescriptionView::Cancelling,
            Description::UploadError => DescriptionView::UploadError,
            Description::Text(t) => DescriptionView::Text(t@),
        }
    }
}

impl PartialEq for Description {
    fn eq(&self, other: &Description) -> (r: bool) {
        match (self, other) {
            (Description::Starting, Description::Starting) => true,
            (
                Description::Progress { tracker: t1, progress: p1, size: s1, total: n1 },
                Description::Progress { tracker: t2, progress: p2, size: s2, total: n2 },
            ) => *t1 == *t2 && *p1 == *p2 && *s1 == *s2 && *n1 == *n2,
            (Description::Finishing { size: s1 }, Description::Finishing { size: s2 }) => *s1 == *s2,
            (Description::Failed { error: e1 }, Description::Failed { error: e2 }) => *e1 == *e2,
            (
                Description::Paused { progress: p1, size: s1, total: n1 },
                Description::Paused { progress: p2, size: s2, total: n2 },
            ) => *p1 == *p2 && *s1 == *s2 && *n1 == *n2,
            (Description::Cancelling, Description::Cancelling) => true,
            (Description::UploadError, Description::UploadError) => true,
            (Description::Text(t1), Description::Text(t2)) => *t1 == *t2,
            _ => false,
        }
    }
}

impl vstd::std_specs::cmp::PartialEqSpecImpl for Description {
    open spec fn obeys_eq_spec() -> bool {
        true
    }

    open spec fn eq_spec(&self, other: &Description) -> bool {
        self@ == other@
    }
}

/// A report from the party that runs a transfer. `name` is the file's name;
/// a total that is `None` is not known yet.
#[derive(Debug, Clone)]
pub enum FileProgression {
    CurrentProgress { name: String, current: usize, total: Option<usize> },
    ProgressComplete { name: String, total: Option<usize> },
    ProgressFailed { name: String, last_size: Option<usize>, error: String },
}

/// The percentage of `current` out of `total`, rounded down and clamped to
/// 100; 0 where the total is not known. A known total of 0 counts as done
/// once anything was transferred.
pub open spec fn percent_of(current: nat, total: Option<usize>) -> u8 {
    match total {
        None => 0,
        Some(t) => if current >= t {
            if current == 0 {
                0
            } else {
                100
            }
        } else {
            (current * 100 / (t as nat)) as u8
        },
    }
}

/// The total byte count after a report that gives `reported`, where the entry
/// held `held`.
pub open spec fn new_total(held: usize, reported: Option<usize>) -> usize {
    match reported {
        Some(t) => t,
        None => held,
    }
}

/// `b` is entry `a` after report `ev`, on the entries of direction `tracker`.
pub open spec fn progressed(
    a: FileProgress,
    b: FileProgress,
    ev: FileProgression,
    tracker: TrackerType,
) -> bool {
    &&& same_transfer(a, b)
    &&& match ev {
        FileProgression::CurrentProgress { current, total, .. } => {
            let t = new_total(a.total_size, total);
            let p = percent_of(current as nat, total);
            &&& b.size == current
            &&& b.total_size == t
            &&& b.progress == TransferProgress::Progress(p)
            &&& b.description@ == DescriptionView::Progress {
                tracker,
                progress: p,
                size: current_text(current as nat, t as nat),
                total: total_text(t as nat),
            }
        },
        FileProgression::ProgressComplete { total, .. } => {
            let t = new_total(a.total_size, total);
            &&& b.size == a.size
            &&& b.total_size == t
            &&& b.progress == TransferProgress::Finishing
            &&& b.description@ == DescriptionView::Finishing { size: decimal_size_text(t as nat) }
        },
        FileProgression::ProgressFailed { last_size, error, .. } => {
            &&& b.size == a.size
            &&& b.total_size == new_total(a.total_size, last_size)
            &&& b.progress == TransferProgress::Error(progress_of(a.progress))
            &&& b.description@ == DescriptionView::Failed { error: error@ }
        },
    }
}

/// `b` is entry `a` with its description replaced by `text`.
pub open spec fn redescribed(a: FileProgress, b: FileProgress, text: Seq<char>) -> bool {
    &&& same_transfer(a, b)
    &&& b.size == a.size
    &&& b.total_size == a.total_size
    &&& b.progress == a.progress
    &&& b.description@ == DescriptionView::Text(text)
}

/// `b` is entry `a` shown as paused at its last percentage. Only the display
/// changes: the control cell is the same.
pub open spec fn paused(a: FileProgress, b: FileProgress) -> bool {
    let p = progress_of(a.progress);
    &&& same_transfer(a, b)
    &&& b.size == a.size
    &&& b.total_size == a.total_size
    &&& b.progress == TransferProgress::Paused(p)
    &&& b.description@ == DescriptionView::Paused {
        progress: p,
        size: current_text(a.size as nat, a.total_size as nat),
        total: total_text(a.total_size as nat),
    }
}

/// `b` is entry `a` shown as being cancelled at its last percentage.
pub open spec fn cancelling(a: FileProgress, b: FileProgress) -> bool {
    &&& same_transfer(a, b)
    &&& b.size == a.size
    &&& b.total_size == a.total_size
    &&& b.progress == TransferProgress::Cancelling(progress_of(a.progress))
    &&& b.description@ == DescriptionView::Cancelling
}

/// `b` is entry `a` shown as failed at its last percentage.
pub open spec fn errored(a: FileProgress, b: FileProgress) -> bool {
    &&& same_transfer(a, b)
    &&& b.size == a.size
    &&& b.total_size == a.total_size
    &&& b.progress == TransferProgress::Error(progress_of(a.progress))
    &&& b.description@ == DescriptionView::UploadError
}

fn percent(current: usize, total: Option<usize>) -> (r: u8)
    ensures
        r == percent_of(current as nat, total),
        r <= 100,
{
    match total {
        None => 0,
        Some(t) => {
            if current >= t {
                if current == 0 {
                    0
                } else {
                    100
                }
            } else {
                let c = current as u128;
                let d = t as u128;
                assert((c as int) * 100 / (d as int) < 100) by (nonlinear_arith)
                    requires c < d;
                (c * 100 / d) as u8
            }
        },
    }
}

/// One tracked transfer.
#[derive(Debug, Clone)]
pub struct FileProgress {
    pub id: TransferId,
    pub file: String,
    pub progress: TransferProgress,
    pub size: usize,
    pub total_size: usize,
    pub description: Description,
    /// The control cell used to pause or cancel this transfer.
    pub state: TransferState,
}

/// Entries compare by identity, name, phase and description; the byte counts
/// and the control cell take no part.
impl PartialEq for FileProgress {
    fn eq(&self, other: &FileProgress) -> (r: bool) {
        self.id == other.id && self.file == other.file && self.progress == other.progress
            && self.description == other.description
    }
}

impl vstd::std_specs::cmp::PartialEqSpecImpl for FileProgress {
    open spec fn obeys_eq_spec() -> bool {
        true
    }

    open spec fn eq_spec(&self, other: &FileProgress) -> bool {
        &&& self.id == other.id
        &&& self.file@ == other.file@
        &&& self.progress == other.progress
        &&& self.description@ == other.description@
    }
}

/// The entries of all uploads and of all downloads, each in order of start.
#[derive(Debug, Clone, Default)]
pub struct TransferTracker {
    pub file_progress_upload: Vec<FileProgress>,
    pub file_progress_download: Vec<FileProgress>,
}

/// `i` is the position of the first entry of `s` with identity `id`.
pub open spec fn is_first(s: Seq<FileProgress>, id: TransferId, i: int) -> bool {
    &&& 0 <= i < s.len()
    &&& s[i].id == id
    &&& forall|j: int| 0 <= j < i ==> s[j].id != id
}

/// No entry of `s` has identity `id`.
pub open spec fn absent(s: Seq<FileProgress>, id: TransferId) -> bool {
    forall|j: int| 0 <= j < s.len() ==> s[j].id != id
}

/// `new` is `old` with the first entry of identity `id` changed as `step`
/// says, and `old` itself where no entry has that identity.
pub open spec fn changed_first(
    old: Seq<FileProgress>,
    new: Seq<FileProgress>,
    id: TransferId,
    step: spec_fn(FileProgress, FileProgress) -> bool,
) -> bool {
    if absent(old, id) {
        new == old
    } else {
        exists|i: int|
            is_first(old, id, i) && new.len() == old.len() && step(old[i], new[i]) && (forall|
                j: int,
            |
                0 <= j < old.len() && j != i ==> new[j] == old[j])
    }
}

/// `new` keeps the identity, name and control cell of `old`.
pub open spec fn same_transfer(old: FileProgress, new: FileProgress) -> bool {
    &&& new.id == old.id
    &&& new.file == old.file
    &&& new.state == old.state
}

/// The entries of `s` whose identity is not `id`, in their order.
pub open spec fn without_id(s: Seq<FileProgress>, id: TransferId) -> Seq<FileProgress>
    decreases s.len(),
{
    if s.len() == 0 {
        s
    } else if s[0].id == id {
        without_id(s.drop_first(), id)
    } else {
        seq![s[0]] + without_id(s.drop_first(), id)
    }
}

/// Every percentage held by an entry is at most 100.
pub open spec fn entries_wf(s: Seq<FileProgress>) -> bool {
    forall|j: int| 0 <= j < s.len() ==> progress_of(#[trigger] s[j].progress) <= 100
}

proof fn lemma_wf_after_change(old: Seq<FileProgress>, new: Seq<FileProgress>, i: int)
    requires
        entries_wf(old),
        0 <= i < old.len(),
        new.len() == old.len(),
        forall|j: int| 0 <= j < old.len() && j != i ==> new[j] == old[j],
        progress_of(new[i].progress) <= 100,
    ensures
        entries_wf(new),
{
    assert forall|j: int| 0 <= j < new.len() implies progress_of(#[trigger] new[j].progress) <= 100 by {
        if j != i {
            assert(new[j] == old[j]);
        }
    }
}

proof fn lemma_without_id_wf(s: Seq<FileProgress>, id: TransferId)
    requires
        entries_wf(s),
    ensures
        entries_wf(without_id(s, id)),
    decreases s.len(),
{
    if s.len() > 0 {
        let rest = s.drop_first();
        assert(entries_wf(rest)) by {
            assert forall|j: int| 0 <= j < rest.len() implies progress_of(
                #[trigger] rest[j].progress,
            ) <= 100 by {
                assert(rest[j] == s[j + 1]);
            }
        }
        lemma_without_id_wf(rest, id);
        let w = without_id(rest, id);
        if s[0].id != id {
            assert forall|j: int| 0 <= j < w.len() + 1 implies progress_of(
                #[trigger] (seq![s[0]] + w)[j].progress,
            ) <= 100 by {
                if j > 0 {
                    assert((seq![s[0]] + w)[j] == w[j - 1]);
                }
            }
        }
    }
}

/// The progress phases that count toward the aggregate progress.
pub open spec fn is_active(p: TransferProgress) -> bool {
    p is Progress || p is Paused
}

/// The number of entries of `s` in an active phase.
pub open spec fn active_count(s: Seq<FileProgress>) -> nat
    decreases s.len(),
{
    if s.len() == 0 {
        0
    } else {
        active_count(s.drop_last()) + if is_active(s.last().progress) {
            1nat
        } else {
            0nat
        }
    }
}

/// The sum of the percentages of the entries of `s` in an active phase.
pub open spec fn active_sum(s: Seq<FileProgress>) -> nat
    decreases s.len(),
{
    if s.len() == 0 {
        0
    } else {
        active_sum(s.drop_last()) + if is_active(s.last().progress) {
            progress_of(s.last().progress) as nat
        } else {
            0nat
        }
    }
}

/// The mean `sum / count` rounded to the nearest integer (halves up), or -1
/// where `count` is 0.
pub open spec fn rounded_mean(sum: nat, count: nat) -> int {
    if count == 0 {
        -1
    } else {
        (2 * sum + count) as int / (2 * count) as int
    }
}

fn tally(v: &Vec<FileProgress>) -> (r: (u128, u128))
    requires
        entries_wf(v@),
    ensures
        r.0 == active_sum(v@),
        r.1 == active_count(v@),
        r.0 <= 100 * r.1,
        r.1 <= v.len(),
{
    let mut sum: u128 = 0;
    let mut count: u128 = 0;
    let mut i: usize = 0;
    while i < v.len()
        invariant
            i <= v.len(),
            entries_wf(v@),
            sum == active_sum(v@.subrange(0, i as int)),
            count == active_count(v@.subrange(0, i as int)),
            sum <= 100 * count,
            count <= i,
        decreases v.len() - i,
    {
        assert(v@.subrange(0, i + 1).drop_last() =~= v@.subrange(0, i as int));
        match v[i].progress {
            TransferProgress::Progress(p) => {
                sum = sum + p as u128;
                count = count + 1;
            },
            TransferProgress::Paused(p) => {
                sum = sum + p as u128;
                count = count + 1;
            },
            _ => {},
        }
        i = i + 1;
    }
    assert(v@.subrange(0, v.len() as int) =~= v@);
    (sum, count)
}

fn find(v: &Vec<FileProgress>, id: TransferId) -> (r: Option<usize>)
    ensures
        match r {
            Some(i) => is_first(v@, id, i as int),
            None => absent(v@, id),
        },
{
    let mut i: usize = 0;
    while i < v.len()
        invariant
            i <= v@.len(),
            forall|j: int| 0 <= j < i ==> v@[j].id != id,
        decreases v.len() - i,
    {
        if v[i].id == id {
            return Some(i);
        }
        i = i + 1;
    }
    None
}

impl TransferTracker {
    /// The entries of one direction.
    pub open spec fn entries(&self, tracker: TrackerType) -> Seq<FileProgress> {
        match tracker {
            TrackerType::FileUpload => self.file_progress_upload@,
            TrackerType::FileDownload => self.file_progress_download@,
        }
    }

    /// Every percentage held by an entry of either direction is at most 100.
    pub open spec fn wf(&self) -> bool {
        entries_wf(self.file_progress_upload@) && entries_wf(self.file_progress_download@)
    }

    /// `new` differs from `self` at most in the entries of direction `tracker`.
    pub open spec fn others_kept(&self, new: TransferTracker, tracker: TrackerType) -> bool {
        match tracker {
            TrackerType::FileUpload => new.file_progress_download == self.file_progress_download,
            TrackerType::FileDownload => new.file_progress_upload == self.file_progress_upload,
        }
    }

    fn get_tracker_from(&mut self, tracker: TrackerType) -> (r: &mut Vec<FileProgress>)
        ensures
            match tracker {
                TrackerType::FileUpload => {
                    &&& *r == old(self).file_progress_upload
                    &&& final(self).file_progress_upload == *final(r)
                },
                TrackerType::FileDownload => {
                    &&& *r == old(self).file_progress_download
                    &&& final(self).file_progress_download == *final(r)
                },
            },
            old(self).others_kept(*final(self), tracker),
    {
        match tracker {
            TrackerType::FileUpload => &mut self.file_progress_upload,
            TrackerType::FileDownload => &mut self.file_progress_download,
        }
    }

    /// The amounts of `size` and of `total` in the unit that `total` picks on
    /// the decimal ladder (B, kB, MB, ... YB, dividing by 1000 while the
    /// total is 1000 or more). The first is the bare amount, the second ends
    /// with a space and the unit.
    pub fn get_size_display(size: usize, total: usize) -> (r: (String, String))
        ensures
            r.0@ == current_text(size as nat, total as nat),
            r.1@ == total_text(total as nat),
    {
        let k = scale_of(total as u64);
        let mut total_text = amount_string(total as u64, k);
        total_text.append(" ");
        total_text.append(unit_str(k));
        (amount_string(size as u64, k), total_text)
    }

    /// The entries of one direction, in order of start.
    pub fn get_tracker(&self, tracker: TrackerType) -> (r: &Vec<FileProgress>)
        ensures
            r@ == self.entries(tracker),
    {
        match tracker {
            TrackerType::FileUpload => &self.file_progress_upload,
            TrackerType::FileDownload => &self.file_progress_download,
        }
    }

    /// Appends a new entry, in phase `Starting` with both counts 0, to the
    /// entries of direction `tracker`. An entry with the same identity that is
    /// already there is kept.
    pub fn start_file_transfer(
        &mut self,
        id: TransferId,
        file: String,
        state: TransferState,
        tracker: TrackerType,
    )
        ensures
            final(self).entries(tracker) == old(self).entries(tracker).push(
                FileProgress {
                    id,
                    file,
                    progress: TransferProgress::Starting,
                    size: 0,
                    total_size: 0,
                    description: Description::Starting,
                    state,
                },
            ),
            old(self).others_kept(*final(self), tracker),
            old(self).wf() ==> final(self).wf(),
    {
        let v = self.get_tracker_from(tracker);
        v.push(
            FileProgress {
                id,
                file,
                progress: TransferProgress::Starting,
                size: 0,
                total_size: 0,
                description: Description::Starting,
                state,
            },
        );
    }
}

impl TransferTracker {
    /// Applies report `progression` to the first entry of identity `file_id`
    /// in direction `tracker`; does nothing where there is none.
    pub fn update_file_upload(
        &mut self,
        file_id: TransferId,
        progression: FileProgression,
        tracker: TrackerType,
    )
        ensures
            changed_first(
                old(self).entries(tracker),
                final(self).entries(tracker),
                file_id,
                |a: FileProgress, b: FileProgress| progressed(a, b, progression, tracker),
            ),
            absent(old(self).entries(tracker), file_id) ==> *final(self) == *old(self),
            old(self).others_kept(*final(self), tracker),
            old(self).wf() ==> final(self).wf(),
    {
        let ghost before = *self;
        let ghost ev = progression;
        let v = self.get_tracker_from(tracker);
        match find(v, file_id) {
            None => {},
            Some(i) => {
                let ghost a = v@[i as int];
                match progression {
                    FileProgression::CurrentProgress { name: _, current, total } => {
                        v[i].size = current;
                        if let Some(t) = total {
                            v[i].total_size = t;
                        }
                        let progress = percent(current, total);
                        let (current_desc, total_desc) = Self::get_size_display(
                            v[i].size,
                            v[i].total_size,
                        );
                        v[i].description = Description::Progress {
                            tracker,
                            progress,
                            size: current_desc,
                            total: total_desc,
                        };
                        v[i].progress = TransferProgress::Progress(progress);
                    },
                    FileProgression::ProgressComplete { name: _, total } => {
                        if let Some(t) = total {
                            v[i].total_size = t;
                        }
                        v[i].description = Description::Finishing {
                            size: format_size_decimal(v[i].total_size),
                        };
                        v[i].progress = TransferProgress::Finishing;
                    },
                    FileProgression::ProgressFailed { name: _, last_size, error } => {
                        v[i].description = Description::Failed { error };
                        if let Some(l) = last_size {
                            v[i].total_size = l;
                        }
                        let p = v[i].progress.get_progress();
                        v[i].progress = TransferProgress::Error(p);
                    },
                }
                assert(progressed(a, v@[i as int], ev, tracker));
                proof {
                    if before.wf() {
                        lemma_wf_after_change(before.entries(tracker), v@, i as int);
                    }
                }
            },
        }
    }

    /// Removes every entry of identity `file_id` from direction `tracker`,
    /// keeping the order of the others.
    pub fn remove_file_upload(&mut self, file_id: TransferId, tracker: TrackerType)
        ensures
            final(self).entries(tracker) == without_id(old(self).entries(tracker), file_id),
            old(self).others_kept(*final(self), tracker),
            old(self).wf() ==> final(self).wf(),
    {
        let ghost before = *self;
        let v = self.get_tracker_from(tracker);
        let ghost orig = v@;
        let mut rest: Vec<FileProgress> = Vec::new();
        std::mem::swap(v, &mut rest);
        let mut kept: Vec<FileProgress> = Vec::new();
        assert(kept@ + rest@ =~= rest@);
        while rest.len() > 0
            invariant
                without_id(orig, file_id) == kept@ + without_id(rest@, file_id),
            decreases rest.len(),
        {
            let ghost r0 = rest@;
            let f = rest.remove(0);
            assert(rest@ =~= r0.drop_first());
            if f.id != file_id {
                let ghost k0 = kept@;
                kept.push(f);
                assert(kept@ + without_id(rest@, file_id) =~= k0 + (seq![r0[0]] + without_id(
                    rest@,
                    file_id,
                )));
            }
        }
        assert(kept@ + without_id(rest@, file_id) =~= kept@);
        *v = kept;
        proof {
            if before.wf() {
                lemma_without_id_wf(before.entries(tracker), file_id);
            }
        }
    }

    /// The mean percentage, rounded to the nearest integer, of the entries of
    /// both directions that are in progress or paused; -1 where there are none.
    /// Every such entry counts the same, whatever its size.
    pub fn total_progress(&self) -> (r: i8)
        requires
            self.wf(),
        ensures
            r == rounded_mean(
                active_sum(self.file_progress_upload@) + active_sum(self.file_progress_download@),
                active_count(self.file_progress_upload@) + active_count(
                    self.file_progress_download@,
                ),
            ),
            -1 <= r <= 100,
    {
        let (up_sum, up_count) = tally(&self.file_progress_upload);
        let (down_sum, down_count) = tally(&self.file_progress_download);
        let count = up_count + down_count;
        let sum = up_sum + down_sum;
        if count > 0 {
            assert((2 * sum + count) / (2 * count) <= 100) by (nonlinear_arith)
                requires sum <= 100 * count, count > 0;
            ((2 * sum + count) / (2 * count)) as i8
        } else {
            -1
        }
    }

    /// Replaces the description of the first entry of identity `file_id` in
    /// direction `tracker` by `description`; does nothing where there is none.
    pub fn update_file_description(&mut self, file_id: TransferId, description: String, tracker: TrackerType)
        ensures
            changed_first(
                old(self).entries(tracker),
                final(self).entries(tracker),
                file_id,
                |a: FileProgress, b: FileProgress| redescribed(a, b, description@),
            ),
            absent(old(self).entries(tracker), file_id) ==> *final(self) == *old(self),
            old(self).others_kept(*final(self), tracker),
            old(self).wf() ==> final(self).wf(),
    {
        let ghost before = *self;
        let v = self.get_tracker_from(tracker);
        match find(v, file_id) {
            None => {},
            Some(i) => {
                let ghost a = v@[i as int];
                v[i].description = Description::Text(description);
                assert(redescribed(a, v@[i as int], description@));
                proof {
                    if before.wf() {
                        lemma_wf_after_change(before.entries(tracker), v@, i as int);
                    }
                }
            },
        }
    }

    /// Shows the first entry of identity `file_id` in direction `tracker` as
    /// paused at its last percentage; does nothing where there is none. The
    /// entry's control cell is left as it is: pausing the transfer itself is
    /// a separate request on that cell.
    pub fn pause_file_upload(&mut self, file_id: TransferId, tracker: TrackerType)
        ensures
            changed_first(
                old(self).entries(tracker),
                final(self).entries(tracker),
                file_id,
                |a: FileProgress, b: FileProgress| paused(a, b),
            ),
            absent(old(self).entries(tracker), file_id) ==> *final(self) == *old(self),
            old(self).others_kept(*final(self), tracker),
            old(self).wf() ==> final(self).wf(),
    {
        let ghost before = *self;
        let v = self.get_tracker_from(tracker);
        match find(v, file_id) {
            None => {},
            Some(i) => {
                let ghost a = v@[i as int];
                let (current_desc, total_desc) = Self::get_size_display(
                    v[i].size,
                    v[i].total_size,
                );
                let p = v[i].progress.get_progress();
                v[i].description = Description::Paused {
                    progress: p,
                    size: current_desc,
                    total: total_desc,
                };
                v[i].progress = TransferProgress::Paused(p);
                assert(paused(a, v@[i as int]));
                proof {
                    if before.wf() {
                        lemma_wf_after_change(before.entries(tracker), v@, i as int);
                    }
                }
            },
        }
    }

    /// Shows the first entry of identity `file_id` in direction `tracker` as
    /// being cancelled at its last percentage; does nothing where there is
    /// none. The entry's control cell is left as it is.
    pub fn cancel_file_upload(&mut self, file_id: TransferId, tracker: TrackerType)
        ensures
            changed_first(
                old(self).entries(tracker),
                final(self).entries(tracker),
                file_id,
                |a: FileProgress, b: FileProgress| cancelling(a, b),
            ),
            absent(old(self).entries(tracker), file_id) ==> *final(self) == *old(self),
            old(self).others_kept(*final(self), tracker),
            old(self).wf() ==> final(self).wf(),
    {
        let ghost before = *self;
        let v = self.get_tracker_from(tracker);
        match find(v, file_id) {
            None => {},
            Some(i) => {
                let ghost a = v@[i as int];
                v[i].description = Description::Cancelling;
                let p = v[i].progress.get_progress();
                v[i].progress = TransferProgress::Cancelling(p);
                assert(cancelling(a, v@[i as int]));
                proof {
                    if before.wf() {
                        lemma_wf_after_change(before.entries(tracker), v@, i as int);
                    }
                }
            },
        }
    }

    /// Shows the first entry of identity `file_id` in direction `tracker` as
    /// failed at its last percentage; does nothing where there is none.
    pub fn error_file_upload(&mut self, file_id: TransferId, tracker: TrackerType)
        ensures
            changed_first(
                old(self).entries(tracker),
                final(self).entries(tracker),
                file_id,
                |a: FileProgress, b: FileProgress| errored(a, b),
            ),
            absent(old(self).entries(tracker), file_id) ==> *final(self) == *old(self),
            old(self).others_kept(*final(self), tracker),
            old(self).wf() ==> final(self).wf(),
    {
        let ghost before = *self;
        let v = self.get_tracker_from(tracker);
        match find(v, file_id) {
            None => {},
            Some(i) => {
                let ghost a = v@[i as int];
                let p = v[i].progress.get_progress();
                v[i].progress = TransferProgress::Error(p);
                v[i].description = Description::UploadError;
                assert(errored(a, v@[i as int]));
                proof {
                    if before.wf() {
                        lemma_wf_after_change(before.entries(tracker), v@, i as int);
                    }
                }
            },
        }
    }
}

} // verus!
