//! Comparing and summarising stored evaluation snapshots.

use crate::dynamic::{truth, truth_text};
use crate::evaluation_client::{ResponseSentiment, ResponseSnapshot};
use crate::simple_search::{
    capped, count_word, lemma_ranked_keeps_hits, rank, ranked, tally_hits, tally_of, tally_view,
    Hit,
};
use crate::text::{decimal, decimal_text, str_eq};
use vstd::prelude::*;

verus! {

/// Which part of two snapshots differs.
#[derive(Debug, Clone, Copy, PartialEq, Eq, Structural)]
pub enum DifferenceType {
    ResponseContent,
    ToolCalls,
    Duration,
    Analysis,
    Metadata,
}

/// One difference between two snapshots.
#[derive(Debug)]
pub struct SnapshotDifference {
    pub field: String,
    pub previous_value: String,
    pub current_value: String,
    pub diff_type: DifferenceType,
}

/// The formats snapshots can be exported in.
#[derive(Debug, Clone, Copy, PartialEq, Eq, Structural)]
pub enum ExportFormat {
    Json,
    Csv,
    Summary,
}

/// Works on the snapshots kept under one directory.
pub struct SnapshotManager {
    snapshots_dir: String,
}

impl SnapshotManager {
    /// The directory this manager works on.
    pub closed spec fn dir(&self) -> Seq<char> {
        self.snapshots_dir@
    }

    /// A manager for the snapshots under `snapshots_dir`.
    pub fn new(snapshots_dir: &str) -> (manager: Self)
        ensures
            manager.dir() == snapshots_dir@,
    {
        SnapshotManager { snapshots_dir: snapshots_dir.to_owned() }
    }

    /// The directory this manager works on.
    pub fn snapshots_dir(&self) -> (dir: &str)
        ensures
            dir@ == self.dir(),
    {
        self.snapshots_dir.as_str()
    }
}

/// The number of seconds in a day.
pub const SECONDS_PER_DAY: u64 = 86400;

/// How many of `snapshots` were taken before `cutoff`.
pub open spec fn taken_before(snapshots: Seq<ResponseSnapshot>, cutoff: int) -> nat
    decreases snapshots.len(),
{
    if snapshots.len() == 0 {
        0
    } else {
        taken_before(snapshots.drop_last(), cutoff) + if snapshots.last().metadata.timestamp
            < cutoff {
            1nat
        } else {
            0nat
        }
    }
}

/// Counts the snapshots that are older than `days_to_keep` days at the time
/// `now_secs`, in seconds since the epoch: those that a cleanup would remove.
pub fn cleanup_old_snapshots(
    snapshots: &Vec<ResponseSnapshot>,
    now_secs: u64,
    days_to_keep: u64,
) -> (removed: usize)
    requires
        days_to_keep * SECONDS_PER_DAY <= now_secs,
    ensures
        removed == taken_before(snapshots@, now_secs - days_to_keep * SECONDS_PER_DAY),
{
    let cutoff: u64 = now_secs - days_to_keep * SECONDS_PER_DAY;
    let mut removed: usize = 0;
    let mut i: usize = 0;
    assert(snapshots@.take(0) =~= Seq::<ResponseSnapshot>::empty());
    while i < snapshots.len()
        invariant
            i <= snapshots.len(),
            removed <= i,
            removed == taken_before(snapshots@.take(i as int), cutoff as int),
        decreases snapshots.len() - i,
    {
        assert(snapshots@.take(i + 1).drop_last() =~= snapshots@.take(i as int));
        if snapshots[i].metadata.timestamp < cutoff {
            removed = removed + 1;
        }
        i = i + 1;
    }
    assert(snapshots@.take(snapshots.len() as int) =~= snapshots@);
    removed
}

/// The mathematical value of a [`SnapshotDifference`].
pub ghost struct DifferenceView {
    pub field: Seq<char>,
    pub previous_value: Seq<char>,
    pub current_value: Seq<char>,
    pub diff_type: DifferenceType,
}

impl View for SnapshotDifference {
    type V = DifferenceView;

    open spec fn view(&self) -> DifferenceView {
        DifferenceView {
            field: self.field@,
            previous_value: self.previous_value@,
            current_value: self.current_value@,
            diff_type: self.diff_type,
        }
    }
}

/// The views of a vector of differences, item by item.
pub open spec fn difference_views(items: Seq<SnapshotDifference>) -> Seq<DifferenceView> {
    Seq::new(items.len(), |i: int| items[i]@)
}

/// A difference where `differs` holds, nothing where it does not.
pub open spec fn difference_if(
    differs: bool,
    field: Seq<char>,
    previous_value: Seq<char>,
    current_value: Seq<char>,
    diff_type: DifferenceType,
) -> Seq<DifferenceView> {
    if differs {
        seq![DifferenceView { field, previous_value, current_value, diff_type }]
    } else {
        Seq::empty()
    }
}

/// How far two durations may lie apart, in milliseconds, without counting
/// as different.
pub const DURATION_TOLERANCE_MS: u64 = 1000;

/// How far two numbers lie apart.
pub open spec fn distance(a: u64, b: u64) -> int {
    if a >= b {
        a - b
    } else {
        b - a
    }
}

/// The differences between two snapshots, in this order: the response, the
/// number of tool calls, the duration where it differs by more than a
/// second, whether the response holds an error, and its number of words.
pub open spec fn differences_between(previous: ResponseSnapshot, current: ResponseSnapshot) -> Seq<
    DifferenceView,
> {
    let p = previous.evaluation_result;
    let c = current.evaluation_result;
    let pa = previous.response_analysis;
    let ca = current.response_analysis;
    difference_if(
        p.response@ != c.response@,
        "response_content"@,
        p.response@,
        c.response@,
        DifferenceType::ResponseContent,
    ) + difference_if(
        p.tool_calls_made != c.tool_calls_made,
        "tool_calls_count"@,
        decimal_text(p.tool_calls_made as nat),
        decimal_text(c.tool_calls_made as nat),
        DifferenceType::ToolCalls,
    ) + difference_if(
        distance(p.duration_ms, c.duration_ms) > DURATION_TOLERANCE_MS,
        "duration_ms"@,
        decimal_text(p.duration_ms as nat),
        decimal_text(c.duration_ms as nat),
        DifferenceType::Duration,
    ) + difference_if(
        pa.contains_error != ca.contains_error,
        "contains_error"@,
        truth_text(pa.contains_error),
        truth_text(ca.contains_error),
        DifferenceType::Analysis,
    ) + difference_if(
        pa.word_count != ca.word_count,
        "word_count"@,
        decimal_text(pa.word_count as nat),
        decimal_text(ca.word_count as nat),
        DifferenceType::Analysis,
    )
}

/// Appends a difference to a list where `differs` holds.
fn push_difference_if(
    list: &mut Vec<SnapshotDifference>,
    differs: bool,
    field: &str,
    previous_value: String,
    current_value: String,
    diff_type: DifferenceType,
)
    ensures
        difference_views(final(list)@) == difference_views(old(list)@) + difference_if(
            differs,
            field@,
            previous_value@,
            current_value@,
            diff_type,
        ),
{
    let ghost before = difference_views(list@);
    if differs {
        let difference = SnapshotDifference {
            field: field.to_owned(),
            previous_value,
            current_value,
            diff_type,
        };
        let ghost added = difference@;
        list.push(difference);
        assert(difference_views(list@) =~= before + seq![added]);
    } else {
        assert(difference_views(list@) =~= before + Seq::<DifferenceView>::empty());
    }
}

/// How the name of a sentiment is written.
pub open spec fn sentiment_text(sentiment: ResponseSentiment) -> Seq<char> {
    match sentiment {
        ResponseSentiment::Positive => "Positive"@,
        ResponseSentiment::Negative => "Negative"@,
        ResponseSentiment::Neutral => "Neutral"@,
        ResponseSentiment::Confused => "Confused"@,
        ResponseSentiment::Helpful => "Helpful"@,
    }
}

/// How the name of a sentiment is written.
pub fn sentiment_name(sentiment: ResponseSentiment) -> (name: &'static str)
    ensures
        name@ == sentiment_text(sentiment),
{
    match sentiment {
        ResponseSentiment::Positive => "Positive",
        ResponseSentiment::Negative => "Negative",
        ResponseSentiment::Neutral => "Neutral",
        ResponseSentiment::Confused => "Confused",
        ResponseSentiment::Helpful => "Helpful",
    }
}

/// The first line of a table of snapshots.
pub const CSV_HEADER: &'static str =
    "test_name,model_name,timestamp,prompt_hash,duration_ms,tool_calls_made,success,word_count,contains_error,sentiment\n";

/// The line of a snapshot in a table of comma-separated values.
pub open spec fn csv_line(snapshot: ResponseSnapshot) -> Seq<char> {
    snapshot.metadata.test_name@ + ","@ + snapshot.metadata.model_name@ + ","@ + decimal_text(
        snapshot.metadata.timestamp as nat,
    ) + ","@ + snapshot.metadata.prompt_hash@ + ","@ + decimal_text(
        snapshot.evaluation_result.duration_ms as nat,
    ) + ","@ + decimal_text(snapshot.evaluation_result.tool_calls_made as nat) + ","@
        + truth_text(snapshot.evaluation_result.success) + ","@ + decimal_text(
        snapshot.response_analysis.word_count as nat,
    ) + ","@ + truth_text(snapshot.response_analysis.contains_error) + ","@ + sentiment_text(
        snapshot.response_analysis.sentiment,
    ) + "\n"@
}

/// The lines of snapshots, one after the other.
pub open spec fn csv_lines(snapshots: Seq<ResponseSnapshot>) -> Seq<char>
    decreases snapshots.len(),
{
    if snapshots.len() == 0 {
        Seq::empty()
    } else {
        csv_lines(snapshots.drop_last()) + csv_line(snapshots.last())
    }
}

/// Whether a snapshot is the baseline of its test: of the snapshots of the
/// test taken at or after `cutoff` it is the oldest, and of those as old as
/// it the first.
pub open spec fn is_baseline(snapshots: Seq<ResponseSnapshot>, cutoff: int, at: int) -> bool {
    &&& 0 <= at < snapshots.len()
    &&& snapshots[at].metadata.timestamp >= cutoff
    &&& forall|j: int|
        0 <= j < snapshots.len() && (#[trigger] snapshots[j]).metadata.test_name@
            == snapshots[at].metadata.test_name@ && snapshots[j].metadata.timestamp >= cutoff
            ==> snapshots[j].metadata.timestamp > snapshots[at].metadata.timestamp || (
        snapshots[j].metadata.timestamp == snapshots[at].metadata.timestamp && j >= at)
}

/// Whether a snapshot is the most recent of its test: of the snapshots of
/// the test it is the youngest, and of those as young as it the last.
pub open spec fn is_most_recent(snapshots: Seq<ResponseSnapshot>, at: int) -> bool {
    &&& 0 <= at < snapshots.len()
    &&& forall|j: int|
        0 <= j < snapshots.len() && (#[trigger] snapshots[j]).metadata.test_name@
            == snapshots[at].metadata.test_name@ ==> snapshots[j].metadata.timestamp
            < snapshots[at].metadata.timestamp || (snapshots[j].metadata.timestamp
            == snapshots[at].metadata.timestamp && j <= at)
}

impl SnapshotManager {
    /// The differences between two snapshots.
    pub fn find_differences(&self, previous: &ResponseSnapshot, current: &ResponseSnapshot) -> (list:
        Vec<SnapshotDifference>)
        ensures
            difference_views(list@) == differences_between(*previous, *current),
    {
        let p = &previous.evaluation_result;
        let c = &current.evaluation_result;
        let pa = &previous.response_analysis;
        let ca = &current.response_analysis;
        let mut list: Vec<SnapshotDifference> = Vec::new();
        assert(difference_views(list@) =~= Seq::<DifferenceView>::empty());
        push_difference_if(
            &mut list,
            !str_eq(p.response.as_str(), c.response.as_str()),
            "response_content",
            p.response.clone(),
            c.response.clone(),
            DifferenceType::ResponseContent,
        );
        assert(Seq::<DifferenceView>::empty() + difference_views(list@) =~= difference_views(
            list@,
        ));
        push_difference_if(
            &mut list,
            p.tool_calls_made != c.tool_calls_made,
            "tool_calls_count",
            decimal(p.tool_calls_made as u64),
            decimal(c.tool_calls_made as u64),
            DifferenceType::ToolCalls,
        );
        let apart = if p.duration_ms >= c.duration_ms {
            p.duration_ms - c.duration_ms
        } else {
            c.duration_ms - p.duration_ms
        };
        push_difference_if(
            &mut list,
            apart > DURATION_TOLERANCE_MS,
            "duration_ms",
            decimal(p.duration_ms),
            decimal(c.duration_ms),
            DifferenceType::Duration,
        );
        push_difference_if(
            &mut list,
            pa.contains_error != ca.contains_error,
            "contains_error",
            truth(pa.contains_error).to_owned(),
            truth(ca.contains_error).to_owned(),
            DifferenceType::Analysis,
        );
        push_difference_if(
            &mut list,
            pa.word_count != ca.word_count,
            "word_count",
            decimal(pa.word_count as u64),
            decimal(ca.word_count as u64),
            DifferenceType::Analysis,
        );
        list
    }

    /// The table of snapshots as comma-separated values: a header, then a
    /// line for each snapshot.
    pub fn export_to_csv(&self, snapshots: &Vec<ResponseSnapshot>) -> (table: String)
        ensures
            table@ == CSV_HEADER@ + csv_lines(snapshots@),
    {
        let mut table = CSV_HEADER.to_owned();
        let mut i: usize = 0;
        assert(snapshots@.take(0) =~= Seq::<ResponseSnapshot>::empty());
        assert(table@ + Seq::<char>::empty() =~= table@);
        while i < snapshots.len()
            invariant
                i <= snapshots.len(),
                table@ == CSV_HEADER@ + csv_lines(snapshots@.take(i as int)),
            decreases snapshots.len() - i,
        {
            let snapshot = &snapshots[i];
            let mut line = snapshot.metadata.test_name.clone();
            line.append(",");
            line.append(snapshot.metadata.model_name.as_str());
            line.append(",");
            line.append(decimal(snapshot.metadata.timestamp).as_str());
            line.append(",");
            line.append(snapshot.metadata.prompt_hash.as_str());
            line.append(",");
            line.append(decimal(snapshot.evaluation_result.duration_ms).as_str());
            line.append(",");
            line.append(decimal(snapshot.evaluation_result.tool_calls_made as u64).as_str());
            line.append(",");
            line.append(truth(snapshot.evaluation_result.success));
            line.append(",");
            line.append(decimal(snapshot.response_analysis.word_count as u64).as_str());
            line.append(",");
            line.append(truth(snapshot.response_analysis.contains_error));
            line.append(",");
            line.append(sentiment_name(snapshot.response_analysis.sentiment));
            line.append("\n");
            proof {
                assert(snapshots@.take(i + 1).drop_last() =~= snapshots@.take(i as int));
                assert(snapshots@.take(i + 1).last() == snapshots@[i as int]);
                assert(CSV_HEADER@ + csv_lines(snapshots@.take(i as int)) + line@ =~= CSV_HEADER@
                    + (csv_lines(snapshots@.take(i as int)) + line@));
            }
            table.append(line.as_str());
            i = i + 1;
        }
        assert(snapshots@.take(snapshots.len() as int) =~= snapshots@);
        table
    }

    /// The baseline of the test of the snapshot at `of`: the oldest
    /// snapshot of that test taken at or after `cutoff`, if there is one.
    pub fn baseline_of(&self, snapshots: &Vec<ResponseSnapshot>, cutoff: u64, of: usize) -> (r:
        Option<usize>)
        requires
            of < snapshots.len(),
        ensures
            match r {
                Some(at) => is_baseline(snapshots@, cutoff as int, at as int)
                    && snapshots@[at as int].metadata.test_name@
                    == snapshots@[of as int].metadata.test_name@,
                None => forall|j: int|
                    0 <= j < snapshots.len() && (#[trigger] snapshots@[j]).metadata.test_name@
                        == snapshots@[of as int].metadata.test_name@
                        ==> snapshots@[j].metadata.timestamp < cutoff,
            },
    {
        let name = snapshots[of].metadata.test_name.as_str();
        let mut best: Option<usize> = None;
        let mut i: usize = 0;
        while i < snapshots.len()
            invariant
                i <= snapshots.len(),
                of < snapshots.len(),
                name@ == snapshots@[of as int].metadata.test_name@,
                match best {
                    Some(at) => at < i && snapshots@[at as int].metadata.test_name@ == name@
                        && snapshots@[at as int].metadata.timestamp >= cutoff && forall|j: int|
                        0 <= j < i && (#[trigger] snapshots@[j]).metadata.test_name@ == name@
                            && snapshots@[j].metadata.timestamp >= cutoff
                            ==> snapshots@[j].metadata.timestamp
                            > snapshots@[at as int].metadata.timestamp || (
                        snapshots@[j].metadata.timestamp
                            == snapshots@[at as int].metadata.timestamp && j >= at),
                    None => forall|j: int|
                        0 <= j < i && (#[trigger] snapshots@[j]).metadata.test_name@ == name@
                            ==> snapshots@[j].metadata.timestamp < cutoff,
                },
            decreases snapshots.len() - i,
        {
            let timestamp = snapshots[i].metadata.timestamp;
            if str_eq(snapshots[i].metadata.test_name.as_str(), name) && timestamp >= cutoff {
                let better = match best {
                    Some(at) => timestamp < snapshots[at].metadata.timestamp,
                    None => true,
                };
                if better {
                    best = Some(i);
                }
            }
            i = i + 1;
        }
        best
    }

    /// The most recent snapshot of the test of the snapshot at `of`.
    pub fn most_recent_of(&self, snapshots: &Vec<ResponseSnapshot>, of: usize) -> (at: usize)
        requires
            of < snapshots.len(),
        ensures
            is_most_recent(snapshots@, at as int),
            snapshots@[at as int].metadata.test_name@ == snapshots@[of as int].metadata.test_name@,
    {
        let name = snapshots[of].metadata.test_name.as_str();
        let mut best: usize = of;
        let mut i: usize = 0;
        while i < snapshots.len()
            invariant
                i <= snapshots.len(),
                of < snapshots.len(),
                best < snapshots.len(),
                best < i || best == of,
                name@ == snapshots@[of as int].metadata.test_name@,
                snapshots@[best as int].metadata.test_name@ == name@,
                forall|j: int|
                    0 <= j < i && (#[trigger] snapshots@[j]).metadata.test_name@ == name@
                        ==> snapshots@[j].metadata.timestamp
                        < snapshots@[best as int].metadata.timestamp || (
                    snapshots@[j].metadata.timestamp == snapshots@[best as int].metadata.timestamp
                        && j <= best),
            decreases snapshots.len() - i,
        {
            if str_eq(snapshots[i].metadata.test_name.as_str(), name)
                && snapshots[i].metadata.timestamp >= snapshots[best].metadata.timestamp && (i
                >= best || snapshots[i].metadata.timestamp > snapshots[best].metadata.timestamp) {
                best = i;
            }
            i = i + 1;
        }
        best
    }
}

/// The similarity of two snapshots between which nothing differs, in tenths.
pub const FULL_SIMILARITY: u64 = 10;

/// The similarity, in tenths, below which a test counts as regressed.
pub const REGRESSION_THRESHOLD: u64 = 7;

/// How many tenths a similarity loses for one difference: one for the
/// difference itself, three more where the response changed, two more
/// where the tool calls changed, one more where the analysis changed.
pub open spec fn penalty(kind: DifferenceType) -> nat {
    match kind {
        DifferenceType::ResponseContent => 4,
        DifferenceType::ToolCalls => 3,
        DifferenceType::Analysis => 2,
        _ => 1,
    }
}

/// How many tenths a similarity loses for all of `differences`.
pub open spec fn total_penalty(differences: Seq<DifferenceView>) -> nat
    decreases differences.len(),
{
    if differences.len() == 0 {
        0
    } else {
        total_penalty(differences.drop_last()) + penalty(differences.last().diff_type)
    }
}

/// The similarity in tenths of two snapshots with the given differences:
/// ten less the penalties, and nothing where they come to ten or more.
pub open spec fn similarity(differences: Seq<DifferenceView>) -> nat {
    if total_penalty(differences) >= FULL_SIMILARITY {
        0
    } else {
        (FULL_SIMILARITY - total_penalty(differences)) as nat
    }
}

/// Whether the test of the snapshots at `baseline` and `recent` has
/// regressed: the one is the baseline of the test and the other its most
/// recent snapshot, they were taken at different times, and they are less
/// similar than the threshold asks.
pub open spec fn regression_at(
    snapshots: Seq<ResponseSnapshot>,
    cutoff: int,
    baseline: int,
    recent: int,
) -> bool {
    &&& is_baseline(snapshots, cutoff, baseline)
    &&& is_most_recent(snapshots, recent)
    &&& snapshots[baseline].metadata.test_name@ == snapshots[recent].metadata.test_name@
    &&& snapshots[baseline].metadata.timestamp != snapshots[recent].metadata.timestamp
    &&& similarity(differences_between(snapshots[baseline], snapshots[recent]))
        < REGRESSION_THRESHOLD
}

/// How two snapshots compare.
#[derive(Debug)]
pub struct SnapshotComparison {
    pub previous: ResponseSnapshot,
    pub current: ResponseSnapshot,
    pub differences: Vec<SnapshotDifference>,
    /// The similarity of the two in tenths: ten where nothing differs.
    pub similarity_tenths: u64,
}

impl SnapshotManager {
    /// The similarity in tenths of two snapshots with the given differences.
    pub fn calculate_similarity_score(&self, differences: &Vec<SnapshotDifference>) -> (tenths: u64)
        ensures
            tenths == similarity(difference_views(differences@)),
    {
        let ghost all = difference_views(differences@);
        let mut lost: u64 = 0;
        let mut i: usize = 0;
        assert(all.take(0) =~= Seq::<DifferenceView>::empty());
        while i < differences.len()
            invariant
                i <= differences.len(),
                all == difference_views(differences@),
                lost <= FULL_SIMILARITY,
                lost == if total_penalty(all.take(i as int)) >= FULL_SIMILARITY {
                    FULL_SIMILARITY as nat
                } else {
                    total_penalty(all.take(i as int))
                },
            decreases differences.len() - i,
        {
            let more: u64 = match differences[i].diff_type {
                DifferenceType::ResponseContent => 4,
                DifferenceType::ToolCalls => 3,
                DifferenceType::Analysis => 2,
                _ => 1,
            };
            proof {
                assert(all.take(i + 1).drop_last() =~= all.take(i as int));
                assert(all.take(i + 1).last() == differences@[i as int]@);
            }
            lost = if lost + more >= FULL_SIMILARITY {
                FULL_SIMILARITY
            } else {
                lost + more
            };
            i = i + 1;
        }
        assert(all.take(differences.len() as int) =~= all);
        FULL_SIMILARITY - lost
    }

    /// The differences between two snapshots and how similar they are.
    pub fn compare_snapshots(&self, previous: ResponseSnapshot, current: ResponseSnapshot) -> (c:
        SnapshotComparison)
        ensures
            c.previous == previous,
            c.current == current,
            difference_views(c.differences@) == differences_between(previous, current),
            c.similarity_tenths == similarity(differences_between(previous, current)),
    {
        let differences = self.find_differences(&previous, &current);
        let similarity_tenths = self.calculate_similarity_score(&differences);
        SnapshotComparison { previous, current, differences, similarity_tenths }
    }

    /// The tests that have regressed, each as the places of its baseline and
    /// of its most recent snapshot, in the order of the latter.
    pub fn find_regressions(&self, snapshots: &Vec<ResponseSnapshot>, cutoff: u64) -> (found: Vec<
        (usize, usize),
    >)
        ensures
            forall|k: int|
                0 <= k < found@.len() ==> regression_at(
                    snapshots@,
                    cutoff as int,
                    (#[trigger] found@[k]).0 as int,
                    found@[k].1 as int,
                ),
            forall|b: int, c: int| #[trigger]
                regression_at(snapshots@, cutoff as int, b, c) ==> found@.contains(
                    (b as usize, c as usize),
                ),
            forall|k: int, l: int|
                0 <= k < l < found@.len() ==> (#[trigger] found@[k]).1 < (#[trigger] found@[l]).1,
    {
        let mut found: Vec<(usize, usize)> = Vec::new();
        let mut i: usize = 0;
        while i < snapshots.len()
            invariant
                i <= snapshots.len(),
                forall|k: int|
                    0 <= k < found@.len() ==> regression_at(
                        snapshots@,
                        cutoff as int,
                        (#[trigger] found@[k]).0 as int,
                        found@[k].1 as int,
                    ) && found@[k].1 < i,
                forall|b: int, c: int|
                    c < i && #[trigger] regression_at(snapshots@, cutoff as int, b, c)
                        ==> found@.contains((b as usize, c as usize)),
                forall|k: int, l: int|
                    0 <= k < l < found@.len() ==> (#[trigger] found@[k]).1 < (
                    #[trigger] found@[l]).1,
            decreases snapshots.len() - i,
        {
            let ghost before = found@;
            let mut pushed = false;
            if self.most_recent_of(snapshots, i) == i {
                if let Some(baseline) = self.baseline_of(snapshots, cutoff, i) {
                    if snapshots[baseline].metadata.timestamp != snapshots[i].metadata.timestamp {
                        let differences = self.find_differences(&snapshots[baseline], &snapshots[i]);
                        if self.calculate_similarity_score(&differences) < REGRESSION_THRESHOLD {
                            found.push((baseline, i));
                            pushed = true;
                        }
                    }
                }
            }
            proof {
                assert forall|b: int, c: int|
                    c < i + 1 && #[trigger] regression_at(
                        snapshots@,
                        cutoff as int,
                        b,
                        c,
                    ) implies found@.contains((b as usize, c as usize)) by {
                    if c < i {
                        let at = choose|at: int|
                            0 <= at < before.len() && before[at] == (b as usize, c as usize);
                        assert(found@[at] == (b as usize, c as usize));
                    } else {
                        assert(snapshots@[b].metadata.test_name@ == snapshots@[c].metadata.test_name@);
                        assert(pushed);
                        assert(found@[found@.len() - 1] == (b as usize, c as usize));
                    }
                }
            }
            i = i + 1;
        }
        found
    }
}

/// What can be counted of a set of snapshots.
#[derive(Debug)]
pub struct SnapshotCounts {
    pub total_snapshots: usize,
    /// How many snapshots each test has, the tests in the order in which
    /// they first occur.
    pub test_coverage: Vec<(String, usize)>,
    /// How many snapshots each model has, the models in the order in which
    /// they first occur.
    pub model_coverage: Vec<(String, usize)>,
    /// The sum of the durations, or the largest number where it is larger.
    pub total_duration_ms: u64,
    pub success_count: usize,
    /// How often each tool was called, the most called first, ten tools at
    /// most.
    pub most_common_tools: Vec<(String, usize)>,
}

/// The names of the tests of the snapshots, in order.
pub open spec fn test_names(snapshots: Seq<ResponseSnapshot>) -> Seq<Seq<char>> {
    Seq::new(snapshots.len(), |i: int| snapshots[i].metadata.test_name@)
}

/// The names of the models of the snapshots, in order.
pub open spec fn model_names(snapshots: Seq<ResponseSnapshot>) -> Seq<Seq<char>> {
    Seq::new(snapshots.len(), |i: int| snapshots[i].metadata.model_name@)
}

/// The names of the tools called in one snapshot, in order.
pub open spec fn called_tools(snapshot: ResponseSnapshot) -> Seq<Seq<char>> {
    Seq::new(
        snapshot.evaluation_result.tool_calls@.len(),
        |i: int| snapshot.evaluation_result.tool_calls@[i].tool_name@,
    )
}

/// The names of the tools called in the snapshots, in order.
pub open spec fn tool_names(snapshots: Seq<ResponseSnapshot>) -> Seq<Seq<char>>
    decreases snapshots.len(),
{
    if snapshots.len() == 0 {
        Seq::empty()
    } else {
        tool_names(snapshots.drop_last()) + called_tools(snapshots.last())
    }
}

/// The sum of the durations of the snapshots.
pub open spec fn total_duration(snapshots: Seq<ResponseSnapshot>) -> nat
    decreases snapshots.len(),
{
    if snapshots.len() == 0 {
        0
    } else {
        total_duration(snapshots.drop_last())
            + snapshots.last().evaluation_result.duration_ms as nat
    }
}

/// How many of the snapshots succeeded.
pub open spec fn successes(snapshots: Seq<ResponseSnapshot>) -> nat
    decreases snapshots.len(),
{
    if snapshots.len() == 0 {
        0
    } else {
        successes(snapshots.drop_last()) + if snapshots.last().evaluation_result.success {
            1nat
        } else {
            0nat
        }
    }
}

/// The most tools that a summary names.
pub const MAX_COMMON_TOOLS: usize = 10;

/// The entries of a tally with the highest counts, the highest first and
/// entries of equal count in their order, `limit` at most.
pub open spec fn top_of(tally: Seq<(Seq<char>, nat)>, limit: nat) -> Seq<(Seq<char>, nat)> {
    let order = ranked(tally_hits(tally));
    let count = if order.len() < limit {
        order.len()
    } else {
        limit
    };
    Seq::new(count, |i: int| tally[order[i].0 as int])
}

/// How often each of the words occurs.
pub fn tally_words(found: &Vec<String>) -> (tally: Vec<(String, usize)>)
    ensures
        tally_view(tally@) == tally_of(crate::text::views(found@)),
{
    let ghost all = crate::text::views(found@);
    let mut tally: Vec<(String, usize)> = Vec::new();
    let mut i: usize = 0;
    assert(all.take(0) =~= Seq::<Seq<char>>::empty());
    assert(tally_view(tally@) =~= Seq::<(Seq<char>, nat)>::empty());
    while i < found.len()
        invariant
            i <= found.len(),
            all == crate::text::views(found@),
            tally_view(tally@) == tally_of(all.take(i as int)),
            forall|k: int| 0 <= k < tally@.len() ==> (#[trigger] tally@[k]).1 <= i,
        decreases found.len() - i,
    {
        proof {
            assert(all.take(i + 1).drop_last() =~= all.take(i as int));
            assert(all.take(i + 1).last() == found[i as int]@);
        }
        count_word(&mut tally, found[i].as_str(), i);
        i = i + 1;
    }
    assert(all.take(found.len() as int) =~= all);
    tally
}

/// The entries of a tally with the highest counts.
pub fn top_entries(tally: &Vec<(String, usize)>, limit: usize) -> (top: Vec<(String, usize)>)
    ensures
        tally_view(top@) == top_of(tally_view(tally@), limit as nat),
{
    let mut as_hits: Vec<Hit> = Vec::new();
    let mut j: usize = 0;
    while j < tally.len()
        invariant
            j <= tally.len(),
            as_hits.len() == j,
            forall|k: int|
                0 <= k < j ==> (#[trigger] as_hits[k]) == (k as usize, capped(tally@[k].1 as nat)),
        decreases tally.len() - j,
    {
        as_hits.push((j, tally[j].1 as u64));
        j = j + 1;
    }
    assert(as_hits@ =~= tally_hits(tally_view(tally@)));
    let order = rank(&as_hits);
    proof {
        lemma_ranked_keeps_hits(as_hits@);
    }
    let count = if order.len() < limit {
        order.len()
    } else {
        limit
    };
    let mut top: Vec<(String, usize)> = Vec::new();
    let mut k: usize = 0;
    while k < count
        invariant
            k <= count <= order.len(),
            top.len() == k,
            order@ == ranked(as_hits@),
            as_hits@ == tally_hits(tally_view(tally@)),
            as_hits@.len() == tally@.len(),
            forall|h: Hit| #[trigger] ranked(as_hits@).contains(h) <==> as_hits@.contains(h),
            forall|n: int|
                0 <= n < k ==> (#[trigger] top[n]).0@ == tally_view(tally@)[order@[n].0 as int].0
                    && top[n].1 == tally_view(tally@)[order@[n].0 as int].1,
        decreases count - k,
    {
        proof {
            assert(ranked(as_hits@).contains(order@[k as int]));
            assert(as_hits@.contains(order@[k as int]));
            let at = choose|at: int| 0 <= at < as_hits@.len() && as_hits@[at] == order@[k as int];
            assert(tally_hits(tally_view(tally@))[at].0 == at as usize);
            assert(at < tally.len());
            assert(order@[k as int].0 == at);
        }
        let entry = &tally[order[k].0];
        top.push((entry.0.clone(), entry.1));
        k = k + 1;
    }
    assert(tally_view(top@) =~= top_of(tally_view(tally@), limit as nat));
    top
}

impl SnapshotManager {
    /// What can be counted of the snapshots.
    pub fn count_snapshots(&self, snapshots: &Vec<ResponseSnapshot>) -> (counts: SnapshotCounts)
        ensures
            counts.total_snapshots == snapshots@.len(),
            tally_view(counts.test_coverage@) == tally_of(test_names(snapshots@)),
            tally_view(counts.model_coverage@) == tally_of(model_names(snapshots@)),
            counts.total_duration_ms == capped(total_duration(snapshots@)),
            counts.success_count == successes(snapshots@),
            tally_view(counts.most_common_tools@) == top_of(
                tally_of(tool_names(snapshots@)),
                MAX_COMMON_TOOLS as nat,
            ),
    {
        let mut tests: Vec<String> = Vec::new();
        let mut models: Vec<String> = Vec::new();
        let mut tools: Vec<String> = Vec::new();
        let mut total_duration_ms: u64 = 0;
        let mut success_count: usize = 0;
        let mut i: usize = 0;
        proof {
            assert(snapshots@.take(0) =~= Seq::<ResponseSnapshot>::empty());
            assert(crate::text::views(tests@) =~= test_names(snapshots@.take(0)));
            assert(crate::text::views(models@) =~= model_names(snapshots@.take(0)));
            assert(crate::text::views(tools@) =~= tool_names(snapshots@.take(0)));
        }
        while i < snapshots.len()
            invariant
                i <= snapshots.len(),
                crate::text::views(tests@) == test_names(snapshots@.take(i as int)),
                crate::text::views(models@) == model_names(snapshots@.take(i as int)),
                crate::text::views(tools@) == tool_names(snapshots@.take(i as int)),
                total_duration_ms == capped(total_duration(snapshots@.take(i as int))),
                success_count == successes(snapshots@.take(i as int)),
                success_count <= i,
            decreases snapshots.len() - i,
        {
            let snapshot = &snapshots[i];
            proof {
                assert(snapshots@.take(i + 1).drop_last() =~= snapshots@.take(i as int));
                assert(snapshots@.take(i + 1).last() == snapshots@[i as int]);
            }
            let ghost tests_before = crate::text::views(tests@);
            let ghost models_before = crate::text::views(models@);
            tests.push(snapshot.metadata.test_name.clone());
            models.push(snapshot.metadata.model_name.clone());
            proof {
                let now = snapshots@.take(i + 1);
                let was = snapshots@.take(i as int);
                assert(crate::text::views(tests@) =~= tests_before.push(
                    snapshot.metadata.test_name@,
                ));
                assert(crate::text::views(models@) =~= models_before.push(
                    snapshot.metadata.model_name@,
                ));
                assert forall|k: int| 0 <= k < i implies test_names(now)[k] == test_names(was)[k]
                    && model_names(now)[k] == model_names(was)[k] by {
                    assert(now[k] == was[k]);
                }
                assert(test_names(now) =~= test_names(was).push(snapshot.metadata.test_name@));
                assert(model_names(now) =~= model_names(was).push(snapshot.metadata.model_name@));
            }
            let calls = &snapshot.evaluation_result.tool_calls;
            let ghost tools_before = crate::text::views(tools@);
            let mut j: usize = 0;
            while j < calls.len()
                invariant
                    j <= calls.len(),
                    crate::text::views(tools@) == tools_before + called_tools(*snapshot).take(
                        j as int,
                    ),
                    calls@ == snapshot.evaluation_result.tool_calls@,
                decreases calls.len() - j,
            {
                let ghost so_far = crate::text::views(tools@);
                tools.push(calls[j].tool_name.clone());
                proof {
                    let wanted = called_tools(*snapshot);
                    assert(crate::text::views(tools@) =~= so_far.push(calls@[j as int].tool_name@));
                    assert(wanted.take(j + 1) =~= wanted.take(j as int).push(
                        calls@[j as int].tool_name@,
                    ));
                    assert(so_far.push(calls@[j as int].tool_name@) =~= tools_before + wanted.take(
                        j + 1,
                    ));
                }
                j = j + 1;
            }
            proof {
                let wanted = called_tools(*snapshot);
                assert(wanted.take(calls.len() as int) =~= wanted);
            }
            let duration = snapshot.evaluation_result.duration_ms;
            total_duration_ms = if total_duration_ms > u64::MAX - duration {
                u64::MAX
            } else {
                total_duration_ms + duration
            };
            if snapshot.evaluation_result.success {
                success_count = success_count + 1;
            }
            i = i + 1;
        }
        assert(snapshots@.take(snapshots.len() as int) =~= snapshots@);
        let tool_tally = tally_words(&tools);
        SnapshotCounts {
            total_snapshots: snapshots.len(),
            test_coverage: tally_words(&tests),
            model_coverage: tally_words(&models),
            total_duration_ms,
            success_count,
            most_common_tools: top_entries(&tool_tally, MAX_COMMON_TOOLS),
        }
    }
}

} // verus!
