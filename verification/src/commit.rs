//! The batch commit: from a snapshot of the staging list to one summary.
//!
//! A commit has three steps. The drafts of the snapshot are converted, each
//! on its own, into a plan: per draft a record to write, or the reason why
//! there is none. The caller writes the records, in order, and reports how
//! each write went. The plan and the reports together give the summary and
//! the one notice that goes to the user.

use vstd::prelude::*;
use crate::food_item::{convert, ConversionError, FoodItem, FoodItemView};
use crate::item::{Item, ItemView};

verus! {

/// Why a write to the store failed, in the store's own words.
#[derive(Debug, PartialEq, Eq)]
pub struct PersistenceError {
    message: String,
}

impl View for PersistenceError {
    type V = Seq<char>;

    closed spec fn view(&self) -> Seq<char> {
        self.message@
    }
}

impl Clone for PersistenceError {
    fn clone(&self) -> (copy: Self)
        ensures
            copy@ == self@,
    {
        PersistenceError { message: self.message.clone() }
    }
}

impl PersistenceError {
    /// An error with the given message.
    pub fn new(message: &str) -> (error: PersistenceError)
        ensures
            error@ == message@,
    {
        PersistenceError { message: message.to_owned() }
    }

    /// The message.
    pub fn message(&self) -> (message: &str)
        ensures
            message@ == self@,
    {
        self.message.as_str()
    }
}

/// Why one draft of a batch did not reach the store.
#[derive(Debug, PartialEq, Eq)]
pub enum CommitError {
    /// The draft could not be converted, so no write was tried.
    Conversion(ConversionError),
    /// The write was tried and failed.
    Persistence(PersistenceError),
}

/// The mathematical value of a [`CommitError`].
pub enum CommitErrorView {
    Conversion(ConversionError),
    Persistence(Seq<char>),
}

impl View for CommitError {
    type V = CommitErrorView;

    open spec fn view(&self) -> CommitErrorView {
        match *self {
            CommitError::Conversion(reason) => CommitErrorView::Conversion(reason),
            CommitError::Persistence(error) => CommitErrorView::Persistence(error@),
        }
    }
}

/// The summary of a batch.
#[derive(Debug, PartialEq, Eq)]
pub enum Aggregate {
    /// Every draft was converted and written.
    AllSucceeded,
    /// At least one draft was not written. The list holds, in the order of
    /// the snapshot, the position of each such draft and what went wrong; the
    /// drafts that were written are not in it.
    SomeFailed(Vec<(usize, CommitError)>),
}

/// The mathematical value of an [`Aggregate`].
pub enum AggregateView {
    AllSucceeded,
    SomeFailed(Seq<(nat, CommitErrorView)>),
}

/// The failures of a list, as positions and error values.
pub open spec fn failure_views(failures: Seq<(usize, CommitError)>) -> Seq<(nat, CommitErrorView)> {
    failures.map_values(|failure: (usize, CommitError)| (failure.0 as nat, failure.1@))
}

impl View for Aggregate {
    type V = AggregateView;

    open spec fn view(&self) -> AggregateView {
        match *self {
            Aggregate::AllSucceeded => AggregateView::AllSucceeded,
            Aggregate::SomeFailed(failures) => AggregateView::SomeFailed(failure_views(failures@)),
        }
    }
}

/// The notice that ends a batch.
#[derive(Debug, Clone, Copy, PartialEq, Eq, Structural)]
pub enum Notification {
    /// Everything was written.
    Success,
    /// Something was not written.
    Failure,
}

impl Notification {
    /// The sentence shown to the user.
    pub fn message(&self) -> (text: &'static str)
        ensures
            text@ == match *self {
                Notification::Success => "All set!"@,
                Notification::Failure => "Error occured when setting records"@,
            },
    {
        match self {
            Notification::Success => "All set!",
            Notification::Failure => "Error occured when setting records",
        }
    }
}

/// What converting a draft for a table gives: the validated record with the
/// table's name in it, or the reason why the draft does not pass.
pub open spec fn convert_for(draft: ItemView, table_name: Seq<char>) -> Result<
    FoodItemView,
    ConversionError,
> {
    match convert(draft) {
        Ok(record) => Ok(FoodItemView { table_name, ..record }),
        Err(reason) => Err(reason),
    }
}

/// The plan of a batch: each draft of the snapshot, converted for the table.
pub open spec fn planned(drafts: Seq<ItemView>, table_name: Seq<char>) -> Seq<
    Result<FoodItemView, ConversionError>,
> {
    drafts.map_values(|draft: ItemView| convert_for(draft, table_name))
}

/// The records that the first `n` entries of a plan ask to write, in order.
pub open spec fn writes_upto(entries: Seq<Result<FoodItemView, ConversionError>>, n: int) -> Seq<
    FoodItemView,
>
    decreases n,
{
    if n <= 0 {
        Seq::empty()
    } else {
        match entries[n - 1] {
            Ok(record) => writes_upto(entries, n - 1).push(record),
            Err(_) => writes_upto(entries, n - 1),
        }
    }
}

/// The records that a plan asks to write, in order.
pub open spec fn writes_of(entries: Seq<Result<FoodItemView, ConversionError>>) -> Seq<
    FoodItemView,
> {
    writes_upto(entries, entries.len() as int)
}

/// How the draft at position `i` fared: nothing where it was written, else
/// what went wrong. `reports` holds one report per record that the plan asks
/// to write, in order: nothing for a write that went well, else the store's
/// message.
pub open spec fn outcome_at(
    entries: Seq<Result<FoodItemView, ConversionError>>,
    reports: Seq<Option<Seq<char>>>,
    i: int,
) -> Option<CommitErrorView> {
    match entries[i] {
        Err(reason) => Some(CommitErrorView::Conversion(reason)),
        Ok(_) => match reports[writes_upto(entries, i).len() as int] {
            Some(message) => Some(CommitErrorView::Persistence(message)),
            None => None,
        },
    }
}

/// The failures among the first `n` drafts, in order, each with its position.
pub open spec fn failures_upto(
    entries: Seq<Result<FoodItemView, ConversionError>>,
    reports: Seq<Option<Seq<char>>>,
    n: int,
) -> Seq<(nat, CommitErrorView)>
    decreases n,
{
    if n <= 0 {
        Seq::empty()
    } else {
        match outcome_at(entries, reports, n - 1) {
            Some(error) => failures_upto(entries, reports, n - 1).push(((n - 1) as nat, error)),
            None => failures_upto(entries, reports, n - 1),
        }
    }
}

/// The summary of a batch, from its plan and the reports of its writes.
pub open spec fn aggregate_of(
    entries: Seq<Result<FoodItemView, ConversionError>>,
    reports: Seq<Option<Seq<char>>>,
) -> AggregateView {
    let failures = failures_upto(entries, reports, entries.len() as int);
    if failures.len() == 0 {
        AggregateView::AllSucceeded
    } else {
        AggregateView::SomeFailed(failures)
    }
}

/// The notice that a summary calls for.
pub open spec fn notification_of(aggregate: AggregateView) -> Notification {
    match aggregate {
        AggregateView::AllSucceeded => Notification::Success,
        AggregateView::SomeFailed(_) => Notification::Failure,
    }
}

/// One report as a value: nothing for a write that went well, else the
/// store's message.
pub open spec fn report_view(report: Result<(), PersistenceError>) -> Option<Seq<char>> {
    match report {
        Ok(_) => None,
        Err(error) => Some(error@),
    }
}

/// The reports of a batch as values.
pub open spec fn report_views(reports: Seq<Result<(), PersistenceError>>) -> Seq<
    Option<Seq<char>>,
> {
    reports.map_values(|report: Result<(), PersistenceError>| report_view(report))
}

/// One entry of a plan as a value.
pub open spec fn entry_view(entry: Result<FoodItem, ConversionError>) -> Result<
    FoodItemView,
    ConversionError,
> {
    match entry {
        Ok(record) => Ok(record@),
        Err(reason) => Err(reason),
    }
}

/// The records of a sequence as values.
pub open spec fn record_views(records: Seq<FoodItem>) -> Seq<FoodItemView> {
    records.map_values(|record: FoodItem| record@)
}

/// The plan of one batch: per draft of the snapshot, in order, the record to
/// write or the reason why there is none. A batch has at least one draft.
#[derive(Debug)]
pub struct CommitBatch {
    entries: Vec<Result<FoodItem, ConversionError>>,
}

impl View for CommitBatch {
    type V = Seq<Result<FoodItemView, ConversionError>>;

    closed spec fn view(&self) -> Seq<Result<FoodItemView, ConversionError>> {
        self.entries@.map_values(|entry: Result<FoodItem, ConversionError>| entry_view(entry))
    }
}

/// Plans the batch of a snapshot: converts its drafts for a table, each on
/// its own. A draft that does not pass keeps its place in the plan, with the
/// reason. An empty snapshot has no batch: nothing is to be written for it,
/// and nothing to be notified.
pub fn handle_commit(drafts: &Vec<Item>, table_name: &str) -> (batch: Option<CommitBatch>)
    ensures
        batch is None <==> drafts@.len() == 0,
        batch is Some ==> batch->0@ == planned(
            drafts@.map_values(|draft: Item| draft@),
            table_name@,
        ),
{
    if drafts.len() == 0 {
        return None;
    }
    let ghost views = drafts@.map_values(|draft: Item| draft@);
    let mut entries: Vec<Result<FoodItem, ConversionError>> = Vec::new();
    let mut index: usize = 0;
    while index < drafts.len()
        invariant
            index <= drafts.len(),
            views == drafts@.map_values(|draft: Item| draft@),
            entries@.len() == index,
            forall|k: int|
                0 <= k < index ==> entry_view(#[trigger] entries@[k]) == convert_for(
                    views[k],
                    table_name@,
                ),
        decreases drafts.len() - index,
    {
        let entry = match FoodItem::from_item(&drafts[index]) {
            Ok(mut record) => {
                record.set_table_name(table_name);
                Ok(record)
            },
            Err(reason) => Err(reason),
        };
        entries.push(entry);
        index = index + 1;
    }
    let batch = CommitBatch { entries };
    proof {
        assert(batch@ =~= planned(views, table_name@));
    }
    Some(batch)
}

impl CommitBatch {
    #[verifier::type_invariant]
    spec fn holds_a_draft(self) -> bool {
        self.entries@.len() >= 1
    }

    /// The number of drafts in the batch, which is at least one.
    pub fn len(&self) -> (count: usize)
        ensures
            count == self@.len(),
            count >= 1,
    {
        proof {
            use_type_invariant(self);
        }
        self.entries.len()
    }

    /// The records to write, in the order of the snapshot. A draft that did
    /// not pass has none.
    pub fn writes(&self) -> (records: Vec<FoodItem>)
        ensures
            record_views(records@) == writes_of(self@),
    {
        let mut records: Vec<FoodItem> = Vec::new();
        let mut index: usize = 0;
        while index < self.entries.len()
            invariant
                index <= self.entries.len(),
                record_views(records@) == writes_upto(self@, index as int),
            decreases self.entries.len() - index,
        {
            let ghost before = records@;
            match &self.entries[index] {
                Ok(record) => {
                    records.push(record.clone());
                    proof {
                        assert(record_views(records@) =~= record_views(before).push(record@));
                    }
                },
                Err(_) => {},
            }
            index = index + 1;
        }
        records
    }

    /// Ends the batch: takes one report per record of [`CommitBatch::writes`],
    /// in the same order, and gives the summary. Where the number of reports
    /// is not the number of those records, there is no summary.
    pub fn conclude(&self, reports: &Vec<Result<(), PersistenceError>>) -> (summary: Option<
        Aggregate,
    >)
        ensures
            summary is Some <==> reports@.len() == writes_of(self@).len(),
            summary is Some ==> summary->0@ == aggregate_of(self@, report_views(reports@)),
    {
        let ghost entries = self@;
        let ghost values = report_views(reports@);
        let total = self.write_count();
        if reports.len() != total {
            return None;
        }
        let mut failures: Vec<(usize, CommitError)> = Vec::new();
        let mut written: usize = 0;
        let mut index: usize = 0;
        while index < self.entries.len()
            invariant
                index <= self.entries.len(),
                entries == self@,
                values == report_views(reports@),
                reports@.len() == writes_of(entries).len(),
                written <= index,
                written == writes_upto(entries, index as int).len(),
                failure_views(failures@) == failures_upto(entries, values, index as int),
            decreases self.entries.len() - index,
        {
            let ghost before = failures@;
            proof {
                lemma_writes_grow(entries, index as int + 1, entries.len() as int);
            }
            match &self.entries[index] {
                Err(reason) => {
                    failures.push((index, CommitError::Conversion(*reason)));
                    proof {
                        assert(failure_views(failures@) =~= failure_views(before).push(
                            (index as nat, CommitErrorView::Conversion(*reason)),
                        ));
                    }
                },
                Ok(_) => {
                    match &reports[written] {
                        Err(error) => {
                            let copy = error.clone();
                            failures.push((index, CommitError::Persistence(copy)));
                            proof {
                                assert(failure_views(failures@) =~= failure_views(before).push(
                                    (index as nat, CommitErrorView::Persistence(error@)),
                                ));
                            }
                        },
                        Ok(_) => {},
                    }
                    written = written + 1;
                },
            }
            index = index + 1;
        }
        if failures.len() == 0 {
            Some(Aggregate::AllSucceeded)
        } else {
            Some(Aggregate::SomeFailed(failures))
        }
    }

    /// The number of records to write.
    pub fn write_count(&self) -> (count: usize)
        ensures
            count == writes_of(self@).len(),
    {
        let mut count: usize = 0;
        let mut index: usize = 0;
        while index < self.entries.len()
            invariant
                index <= self.entries.len(),
                count <= index,
                count == writes_upto(self@, index as int).len(),
            decreases self.entries.len() - index,
        {
            match &self.entries[index] {
                Ok(_) => {
                    count = count + 1;
                },
                Err(_) => {},
            }
            index = index + 1;
        }
        count
    }
}

impl Aggregate {
    /// The one notice that the batch ends with: success where everything was
    /// written, failure otherwise, however many drafts failed.
    pub fn notification(&self) -> (notice: Notification)
        ensures
            notice == notification_of(self@),
    {
        match self {
            Aggregate::AllSucceeded => Notification::Success,
            Aggregate::SomeFailed(_) => Notification::Failure,
        }
    }
}

/// A longer part of a plan asks for no fewer writes than a shorter one.
pub proof fn lemma_writes_grow(
    entries: Seq<Result<FoodItemView, ConversionError>>,
    shorter: int,
    longer: int,
)
    requires
        shorter <= longer,
    ensures
        writes_upto(entries, shorter).len() <= writes_upto(entries, longer).len(),
    decreases longer - shorter,
{
    if shorter < longer {
        lemma_writes_grow(entries, shorter, longer - 1);
    }
}

/// Whether `failures` lists the drafts among the first `n` that were not
/// written, and nothing else: each listed position is one of them and stands
/// with what went wrong there, the positions rise along the list, and none
/// of those drafts is left out.
pub open spec fn lists_failures(
    entries: Seq<Result<FoodItemView, ConversionError>>,
    reports: Seq<Option<Seq<char>>>,
    n: int,
    failures: Seq<(nat, CommitErrorView)>,
) -> bool {
    &&& forall|k: int|
        0 <= k < failures.len() ==> (#[trigger] failures[k]).0 < n && outcome_at(
            entries,
            reports,
            failures[k].0 as int,
        ) == Some(failures[k].1)
    &&& forall|k: int, l: int|
        0 <= k < l < failures.len() ==> (#[trigger] failures[k]).0 < (#[trigger] failures[l]).0
    &&& forall|i: int|
        0 <= i < n && (#[trigger] outcome_at(entries, reports, i)) is Some ==> exists|k: int|
            0 <= k < failures.len() && (#[trigger] failures[k]).0 == i
}

/// The failure list of a batch holds exactly the drafts that were not
/// written: each with its position and its error, in the order of the
/// snapshot, once each, and no draft that was written.
pub proof fn lemma_failures_are_exact(
    entries: Seq<Result<FoodItemView, ConversionError>>,
    reports: Seq<Option<Seq<char>>>,
    n: int,
)
    requires
        0 <= n <= entries.len(),
    ensures
        lists_failures(entries, reports, n, failures_upto(entries, reports, n)),
    decreases n,
{
    if n > 0 {
        lemma_failures_are_exact(entries, reports, n - 1);
        let before = failures_upto(entries, reports, n - 1);
        let failures = failures_upto(entries, reports, n);
        match outcome_at(entries, reports, n - 1) {
            Some(error) => {
                assert(failures == before.push(((n - 1) as nat, error)));
                assert forall|i: int|
                    0 <= i < n && (#[trigger] outcome_at(entries, reports, i)) is Some implies (
                exists|k: int| 0 <= k < failures.len() && (#[trigger] failures[k]).0 == i) by {
                    if i < n - 1 {
                        let k = choose|k: int|
                            0 <= k < before.len() && (#[trigger] before[k]).0 == i;
                        assert(failures[k].0 == i);
                    } else {
                        assert(failures[failures.len() - 1].0 == i);
                    }
                }
            },
            None => {},
        }
    }
}

/// A batch in which every draft was converted and every write went well
/// ends in `AllSucceeded`, and its one notice is the success notice.
pub proof fn lemma_all_written_is_success(
    entries: Seq<Result<FoodItemView, ConversionError>>,
    reports: Seq<Option<Seq<char>>>,
)
    requires
        forall|i: int| 0 <= i < entries.len() ==> (#[trigger] entries[i]) is Ok,
        forall|j: int| 0 <= j < reports.len() ==> (#[trigger] reports[j]) is None,
        reports.len() == entries.len(),
    ensures
        aggregate_of(entries, reports) == AggregateView::AllSucceeded,
        notification_of(aggregate_of(entries, reports)) == Notification::Success,
{
    lemma_no_failure_upto(entries, reports, entries.len() as int);
}

/// Where none of the first `n` drafts failed, the failure list of those
/// drafts is empty.
proof fn lemma_no_failure_upto(
    entries: Seq<Result<FoodItemView, ConversionError>>,
    reports: Seq<Option<Seq<char>>>,
    n: int,
)
    requires
        0 <= n <= entries.len(),
        forall|i: int| 0 <= i < entries.len() ==> (#[trigger] entries[i]) is Ok,
        forall|j: int| 0 <= j < reports.len() ==> (#[trigger] reports[j]) is None,
        reports.len() == entries.len(),
    ensures
        failures_upto(entries, reports, n).len() == 0,
    decreases n,
{
    if n > 0 {
        lemma_no_failure_upto(entries, reports, n - 1);
        lemma_writes_grow(entries, n - 1, n);
        lemma_writes_at_most(entries, n - 1);
        assert(entries[n - 1] is Ok);
        assert(reports[writes_upto(entries, n - 1).len() as int] is None);
    }
}

/// The first `n` entries of a plan ask for at most `n` writes.
pub proof fn lemma_writes_at_most(entries: Seq<Result<FoodItemView, ConversionError>>, n: int)
    requires
        0 <= n,
    ensures
        writes_upto(entries, n).len() <= n,
    decreases n,
{
    if n > 0 {
        lemma_writes_at_most(entries, n - 1);
    }
}

/// A batch ends in the failure notice exactly when at least one of its
/// drafts was not written, and then its summary is `SomeFailed` with the
/// exact list of those drafts, however many they are.
pub proof fn lemma_any_failure_is_failure(
    entries: Seq<Result<FoodItemView, ConversionError>>,
    reports: Seq<Option<Seq<char>>>,
)
    ensures
        notification_of(aggregate_of(entries, reports)) == Notification::Failure <==> exists|i: int|
            0 <= i < entries.len() && (#[trigger] outcome_at(entries, reports, i)) is Some,
        notification_of(aggregate_of(entries, reports)) == Notification::Failure ==> aggregate_of(
            entries,
            reports,
        ) == AggregateView::SomeFailed(failures_upto(entries, reports, entries.len() as int))
            && lists_failures(
            entries,
            reports,
            entries.len() as int,
            failures_upto(entries, reports, entries.len() as int),
        ),
{
    let n = entries.len() as int;
    let failures = failures_upto(entries, reports, n);
    lemma_failures_are_exact(entries, reports, n);
    if failures.len() > 0 {
        let i = failures[0].0 as int;
        assert(outcome_at(entries, reports, i) is Some);
    }
}

} // verus!
