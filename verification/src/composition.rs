//! Selecting the Portfolio-hierarchy relationships of the composition
//! snapshot from the rows that join each relationship to its endpoints.
//!
//! The read yields one row per pair of endpoints of different types,
//! ordered by relationship id, with the endpoints ordered by type.  A
//! well-formed relationship has exactly two endpoints and so exactly one
//! row; one with fewer yields none and one with three or more yields
//! several.  Every relationship with several rows is dropped rather than
//! one pair being picked, since picking a pair would attribute a
//! relationship the ledger does not hold.

use vstd::prelude::*;
use crate::versions::{aggregate_version_from_persisted, CompositionSnapshotReadError};

verus! {

/// One row of the relationship read: the relationship's id and kind, its
/// two endpoints ordered by type, and its version and classification.
#[derive(Debug)]
pub struct PortfolioRelationshipRow {
    pub id: String,
    pub kind: String,
    pub a_type: String,
    pub a_id: String,
    pub b_type: String,
    pub b_id: String,
    pub version: i64,
    pub classification: String,
}

/// One Portfolio-hierarchy relationship of the composition snapshot.
#[derive(Debug)]
pub struct PortfolioRelationshipRecord {
    pub id: String,
    pub kind: String,
    pub a_type: String,
    pub a_id: String,
    pub b_type: String,
    pub b_id: String,
    pub version: u64,
    pub classification: String,
}

pub struct PortfolioRelationshipView {
    pub id: Seq<char>,
    pub kind: Seq<char>,
    pub a_type: Seq<char>,
    pub a_id: Seq<char>,
    pub b_type: Seq<char>,
    pub b_id: Seq<char>,
    pub version: u64,
    pub classification: Seq<char>,
}

impl View for PortfolioRelationshipRecord {
    type V = PortfolioRelationshipView;

    open spec fn view(&self) -> PortfolioRelationshipView {
        PortfolioRelationshipView {
            id: self.id@,
            kind: self.kind@,
            a_type: self.a_type@,
            a_id: self.a_id@,
            b_type: self.b_type@,
            b_id: self.b_id@,
            version: self.version,
            classification: self.classification@,
        }
    }
}

pub open spec fn relationship_views(records: Seq<PortfolioRelationshipRecord>) -> Seq<
    PortfolioRelationshipView,
> {
    records.map_values(|r: PortfolioRelationshipRecord| r@)
}

/// The relationship a row records, at version `version`.
pub open spec fn row_relationship(row: PortfolioRelationshipRow) -> PortfolioRelationshipView {
    PortfolioRelationshipView {
        id: row.id@,
        kind: row.kind@,
        a_type: row.a_type@,
        a_id: row.a_id@,
        b_type: row.b_type@,
        b_id: row.b_id@,
        version: row.version as u64,
        classification: row.classification@,
    }
}

/// Reading the rows in order: a row whose id is that of the relationship
/// read just before it marks that relationship as having several rows; any
/// other row reads as a relationship, which needs a positive version.
pub open spec fn scanned_relationships(rows: Seq<PortfolioRelationshipRow>) -> Result<
    (Seq<PortfolioRelationshipView>, Seq<Seq<char>>),
    CompositionSnapshotReadError,
>
    decreases rows.len(),
{
    if rows.len() == 0 {
        Ok((Seq::empty(), Seq::empty()))
    } else {
        match scanned_relationships(rows.drop_last()) {
            Ok((records, several)) => {
                let row = rows.last();
                if records.len() > 0 && records.last().id == row.id@ {
                    Ok((records, several.push(row.id@)))
                } else if row.version < 1 {
                    Err(CompositionSnapshotReadError::ReadFailed)
                } else {
                    Ok((records.push(row_relationship(row)), several))
                }
            },
            Err(error) => Err(error),
        }
    }
}

/// The relationships the rows give: in row order, those read from a row of
/// their own, without every relationship that has several rows; a
/// non-positive version on a row that is read fails the read.
pub open spec fn portfolio_relationships_model(rows: Seq<PortfolioRelationshipRow>) -> Result<
    Seq<PortfolioRelationshipView>,
    CompositionSnapshotReadError,
> {
    match scanned_relationships(rows) {
        Ok((records, several)) => Ok(
            records.filter(|r: PortfolioRelationshipView| !several.contains(r.id)),
        ),
        Err(error) => Err(error),
    }
}

/// Once a prefix of the rows fails the read, so do all the rows, with the
/// same error.
proof fn lemma_scan_stays_failed(rows: Seq<PortfolioRelationshipRow>, prefix: int)
    requires
        0 <= prefix <= rows.len(),
        scanned_relationships(rows.take(prefix)) is Err,
    ensures
        scanned_relationships(rows) == scanned_relationships(rows.take(prefix)),
    decreases rows.len() - prefix,
{
    if prefix < rows.len() {
        assert(rows.take(prefix + 1).drop_last() =~= rows.take(prefix));
        lemma_scan_stays_failed(rows, prefix + 1);
    } else {
        assert(rows.take(prefix) =~= rows);
    }
}

fn id_listed(ids: &Vec<String>, id: &String) -> (listed: bool)
    ensures
        listed == ids@.map_values(|s: String| s@).contains(id@),
{
    let n = ids.len();
    let mut i: usize = 0;
    while i < n
        invariant
            n == ids@.len(),
            i <= n,
            forall|k: int| 0 <= k < i ==> ids@[k]@ != id@,
        decreases n - i,
    {
        if ids[i] == *id {
            proof {
                assert(ids@.map_values(|s: String| s@)[i as int] == id@);
            }
            return true;
        }
        i = i + 1;
    }
    proof {
        let views = ids@.map_values(|s: String| s@);
        assert forall|k: int| 0 <= k < views.len() implies #[trigger] views[k] != id@ by {
            assert(views[k] == ids@[k]@);
        }
    }
    false
}

/// Selects the Portfolio-hierarchy relationships from the rows of the
/// relationship read, as `portfolio_relationships_model` describes.
pub fn select_portfolio_relationships(rows: Vec<PortfolioRelationshipRow>) -> (result: Result<
    Vec<PortfolioRelationshipRecord>,
    CompositionSnapshotReadError,
>)
    ensures
        match portfolio_relationships_model(rows@) {
            Ok(selected) => result matches Ok(records) && relationship_views(records@) == selected,
            Err(error) => result == Err::<Vec<PortfolioRelationshipRecord>, CompositionSnapshotReadError>(
                error,
            ),
        },
{
    let ghost all = rows@;
    let mut records: Vec<PortfolioRelationshipRecord> = Vec::new();
    let mut several: Vec<String> = Vec::new();
    let n = rows.len();
    let mut i: usize = 0;
    proof {
        assert(all.take(0) =~= Seq::<PortfolioRelationshipRow>::empty());
        assert(relationship_views(records@) =~= Seq::<PortfolioRelationshipView>::empty());
        assert(several@.map_values(|s: String| s@) =~= Seq::<Seq<char>>::empty());
    }
    while i < n
        invariant
            all == rows@,
            n == all.len(),
            i <= n,
            scanned_relationships(all.take(i as int)) == Ok::<
                (Seq<PortfolioRelationshipView>, Seq<Seq<char>>),
                CompositionSnapshotReadError,
            >((relationship_views(records@), several@.map_values(|s: String| s@))),
        decreases n - i,
    {
        let row = &rows[i];
        proof {
            assert(all.take(i + 1).drop_last() =~= all.take(i as int));
            assert(all.take(i + 1).last() == all[i as int]);
        }
        let ghost before_records = relationship_views(records@);
        let ghost before_several = several@.map_values(|s: String| s@);
        let same = records.len() > 0 && records[records.len() - 1].id == row.id;
        if same {
            several.push(row.id.clone());
            proof {
                assert(several@.map_values(|s: String| s@) =~= before_several.push(row.id@));
            }
        } else {
            let version = match aggregate_version_from_persisted(row.version) {
                Some(version) => version,
                None => {
                    proof {
                        assert(scanned_relationships(all.take(i + 1)) == Err::<
                            (Seq<PortfolioRelationshipView>, Seq<Seq<char>>),
                            CompositionSnapshotReadError,
                        >(CompositionSnapshotReadError::ReadFailed));
                        lemma_scan_stays_failed(all, i + 1);
                    }
                    return Err(CompositionSnapshotReadError::ReadFailed);
                },
            };
            records.push(
                PortfolioRelationshipRecord {
                    id: row.id.clone(),
                    kind: row.kind.clone(),
                    a_type: row.a_type.clone(),
                    a_id: row.a_id.clone(),
                    b_type: row.b_type.clone(),
                    b_id: row.b_id.clone(),
                    version,
                    classification: row.classification.clone(),
                },
            );
            proof {
                assert(relationship_views(records@) =~= before_records.push(
                    row_relationship(all[i as int]),
                ));
            }
        }
        i = i + 1;
    }
    proof {
        assert(all.take(n as int) =~= all);
    }
    let ghost scanned = relationship_views(records@);
    let ghost marked = several@.map_values(|s: String| s@);
    let mut kept: Vec<PortfolioRelationshipRecord> = Vec::new();
    let m = records.len();
    let mut j: usize = 0;
    proof {
        reveal(Seq::filter);
        assert(scanned.take(0) =~= Seq::<PortfolioRelationshipView>::empty());
        assert(relationship_views(kept@) =~= Seq::<PortfolioRelationshipView>::empty());
    }
    while j < m
        invariant
            m == records@.len(),
            j <= m,
            scanned == relationship_views(records@),
            marked == several@.map_values(|s: String| s@),
            relationship_views(kept@) == scanned.take(j as int).filter(
                |r: PortfolioRelationshipView| !marked.contains(r.id),
            ),
        decreases m - j,
    {
        let record = &records[j];
        let ghost before = relationship_views(kept@);
        proof {
            reveal(Seq::filter);
            assert(scanned.take(j + 1).drop_last() =~= scanned.take(j as int));
            assert(scanned.take(j + 1).last() == scanned[j as int]);
        }
        if !id_listed(&several, &record.id) {
            kept.push(
                PortfolioRelationshipRecord {
                    id: record.id.clone(),
                    kind: record.kind.clone(),
                    a_type: record.a_type.clone(),
                    a_id: record.a_id.clone(),
                    b_type: record.b_type.clone(),
                    b_id: record.b_id.clone(),
                    version: record.version,
                    classification: record.classification.clone(),
                },
            );
            proof {
                assert(relationship_views(kept@) =~= before.push(scanned[j as int]));
            }
        }
        j = j + 1;
    }
    proof {
        assert(scanned.take(m as int) =~= scanned);
    }
    Ok(kept)
}

proof fn lemma_scan_ends_with_last_id(rows: Seq<PortfolioRelationshipRow>)
    requires
        rows.len() > 0,
        scanned_relationships(rows) is Ok,
    ensures
        scanned_relationships(rows)->Ok_0.0.len() > 0,
        scanned_relationships(rows)->Ok_0.0.last().id == rows.last().id@,
{
}

proof fn lemma_scan_keeps_marks(rows: Seq<PortfolioRelationshipRow>, prefix: int, id: Seq<char>)
    requires
        0 <= prefix <= rows.len(),
        scanned_relationships(rows) is Ok,
        scanned_relationships(rows.take(prefix)) is Ok,
        scanned_relationships(rows.take(prefix))->Ok_0.1.contains(id),
    ensures
        scanned_relationships(rows)->Ok_0.1.contains(id),
    decreases rows.len() - prefix,
{
    if prefix < rows.len() {
        let next = rows.take(prefix + 1);
        assert(next.drop_last() =~= rows.take(prefix));
        let marks = scanned_relationships(rows.take(prefix))->Ok_0.1;
        if scanned_relationships(next) is Err {
            lemma_scan_stays_failed(rows, prefix + 1);
        }
        let after = scanned_relationships(next)->Ok_0.1;
        let k = choose|k: int| 0 <= k < marks.len() && marks[k] == id;
        assert(after[k] == id);
        lemma_scan_keeps_marks(rows, prefix + 1, id);
    } else {
        assert(rows.take(prefix) =~= rows);
    }
}

/// A relationship with several rows is dropped rather than one pair being
/// picked: where two rows in a row share an id and the read succeeds, no
/// selected relationship has that id.
pub proof fn lemma_relationship_with_several_rows_is_dropped(
    rows: Seq<PortfolioRelationshipRow>,
    i: int,
)
    requires
        0 <= i,
        i + 1 < rows.len(),
        rows[i].id@ == rows[i + 1].id@,
        portfolio_relationships_model(rows) is Ok,
    ensures
        forall|k: int|
            0 <= k < portfolio_relationships_model(rows)->Ok_0.len() ==> #[trigger] portfolio_relationships_model(
                rows,
            )->Ok_0[k].id != rows[i].id@,
{
    let first = rows.take(i + 1);
    let second = rows.take(i + 2);
    if scanned_relationships(first) is Err {
        lemma_scan_stays_failed(rows, i + 1);
    }
    if scanned_relationships(second) is Err {
        lemma_scan_stays_failed(rows, i + 2);
    }
    assert(second.drop_last() =~= first);
    assert(first.last() == rows[i]);
    assert(second.last() == rows[i + 1]);
    lemma_scan_ends_with_last_id(first);
    let marks = scanned_relationships(second)->Ok_0.1;
    assert(marks.last() == rows[i].id@);
    assert(marks.contains(rows[i].id@));
    lemma_scan_keeps_marks(rows, i + 2, rows[i].id@);
    let (records, several) = scanned_relationships(rows)->Ok_0;
    let pred = |r: PortfolioRelationshipView| !several.contains(r.id);
    assert forall|k: int| 0 <= k < records.filter(pred).len() implies #[trigger] records.filter(
        pred,
    )[k].id != rows[i].id@ by {
        records.lemma_filter_pred(pred, k);
    }
}

/// Whether `record` is read unchanged from `row`.
spec fn read_from(record: PortfolioRelationshipView, row: PortfolioRelationshipRow) -> bool {
    &&& record.id == row.id@
    &&& record.kind == row.kind@
    &&& record.a_type == row.a_type@
    &&& record.a_id == row.a_id@
    &&& record.b_type == row.b_type@
    &&& record.b_id == row.b_id@
    &&& record.version == row.version
    &&& record.classification == row.classification@
}

proof fn lemma_scanned_records_read_from_rows(rows: Seq<PortfolioRelationshipRow>)
    requires
        scanned_relationships(rows) is Ok,
    ensures
        forall|k: int|
            0 <= k < scanned_relationships(rows)->Ok_0.0.len() ==> exists|j: int|
                0 <= j < rows.len() && read_from(
                    #[trigger] scanned_relationships(rows)->Ok_0.0[k],
                    rows[j],
                ),
    decreases rows.len(),
{
    if rows.len() > 0 {
        let front = rows.drop_last();
        lemma_scanned_records_read_from_rows(front);
        let before = scanned_relationships(front)->Ok_0.0;
        let after = scanned_relationships(rows)->Ok_0.0;
        assert forall|k: int| 0 <= k < after.len() implies exists|j: int|
            0 <= j < rows.len() && read_from(#[trigger] after[k], rows[j]) by {
            if k < before.len() {
                let j = choose|j: int| 0 <= j < front.len() && read_from(before[k], front[j]);
                assert(front[j] == rows[j]);
                assert(after[k] == before[k]);
                assert(read_from(after[k], rows[j]));
            } else {
                assert(after[k] == row_relationship(rows.last()));
                assert(read_from(after[k], rows[rows.len() - 1]));
            }
        }
    }
}

/// Every selected relationship is read unchanged from a row of the read:
/// its id, kind, both endpoints (type and id), version and classification
/// are those of one row.
pub proof fn lemma_selected_relationships_keep_their_rows(rows: Seq<PortfolioRelationshipRow>)
    requires
        portfolio_relationships_model(rows) is Ok,
    ensures
        forall|k: int|
            #![trigger portfolio_relationships_model(rows)->Ok_0[k]]
            0 <= k < portfolio_relationships_model(rows)->Ok_0.len() ==> exists|j: int|
                #![trigger rows[j]]
                0 <= j < rows.len() && portfolio_relationships_model(rows)->Ok_0[k].id == rows[j].id@
                    && portfolio_relationships_model(rows)->Ok_0[k].kind == rows[j].kind@
                    && portfolio_relationships_model(rows)->Ok_0[k].a_type == rows[j].a_type@
                    && portfolio_relationships_model(rows)->Ok_0[k].a_id == rows[j].a_id@
                    && portfolio_relationships_model(rows)->Ok_0[k].b_type == rows[j].b_type@
                    && portfolio_relationships_model(rows)->Ok_0[k].b_id == rows[j].b_id@
                    && portfolio_relationships_model(rows)->Ok_0[k].version == rows[j].version
                    && portfolio_relationships_model(rows)->Ok_0[k].classification
                    == rows[j].classification@,
{
    lemma_scanned_records_read_from_rows(rows);
    let (records, several) = scanned_relationships(rows)->Ok_0;
    let pred = |r: PortfolioRelationshipView| !several.contains(r.id);
    let selected = records.filter(pred);
    assert forall|k: int| 0 <= k < selected.len() implies exists|j: int|
        0 <= j < rows.len() && read_from(#[trigger] selected[k], rows[j]) by {
        assert(selected.contains(selected[k]));
        records.lemma_filter_contains_rev(pred, selected[k]);
        let m = choose|m: int| 0 <= m < records.len() && records[m] == selected[k];
        assert(records[m] == selected[k]);
    }
    assert forall|k: int| #![trigger selected[k]] 0 <= k < selected.len() implies exists|j: int|
        #![trigger rows[j]]
        0 <= j < rows.len() && read_from(selected[k], rows[j]) by {
        let j = choose|j: int| 0 <= j < rows.len() && read_from(#[trigger] selected[k], rows[j]);
        assert(read_from(selected[k], rows[j]));
    }
}

/// A relationship stored with a single row is read from that row alone:
/// where exactly one row, at a positive version, is read, the read succeeds
/// and the one relationship selected has the row's id, endpoints, kind,
/// version and classification.
pub proof fn lemma_single_row_relationship_keeps_its_endpoints(row: PortfolioRelationshipRow)
    requires
        row.version >= 1,
    ensures
        portfolio_relationships_model(seq![row]) is Ok,
        portfolio_relationships_model(seq![row])->Ok_0.len() == 1,
        portfolio_relationships_model(seq![row])->Ok_0[0].id == row.id@,
        portfolio_relationships_model(seq![row])->Ok_0[0].a_type == row.a_type@,
        portfolio_relationships_model(seq![row])->Ok_0[0].a_id == row.a_id@,
        portfolio_relationships_model(seq![row])->Ok_0[0].b_type == row.b_type@,
        portfolio_relationships_model(seq![row])->Ok_0[0].b_id == row.b_id@,
        portfolio_relationships_model(seq![row])->Ok_0[0].kind == row.kind@,
        portfolio_relationships_model(seq![row])->Ok_0[0].version == row.version,
        portfolio_relationships_model(seq![row])->Ok_0[0].classification == row.classification@,
{
    let rows = seq![row];
    assert(rows.drop_last() =~= Seq::<PortfolioRelationshipRow>::empty());
    reveal_with_fuel(scanned_relationships, 2);
    let (records, several) = scanned_relationships(rows)->Ok_0;
    assert(records == seq![row_relationship(row)]);
    assert(several =~= Seq::<Seq<char>>::empty());
    let pred = |r: PortfolioRelationshipView| !several.contains(r.id);
    let selected = records.filter(pred);
    assert(pred(records[0]));
    records.lemma_filter_contains(pred, 0);
    records.filter_lemma(pred);
    assert(selected.len() == 1);
    assert(selected.contains(records[0]));
    assert(selected[0] == records[0]);
    assert(rows[0] == row);
}

} // verus!
