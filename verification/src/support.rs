//! Decoding what a change preview was prepared with, ready for the domain
//! to rebuild the preview from: the support of a completion (its human
//! judgment and the snapshots of the completion evidence it rested on) and
//! the evidence classifications a cancellation or reopening carries.

use vstd::prelude::*;
use crate::evidence::{EvidenceReferenceMetadata, EvidenceRole, EvidenceVerification};
use crate::load_error::ActionPersistenceLoadError;
use crate::model::{binding_views, EvidenceBinding, EvidenceBindingView};
use crate::prepared_rows::PreparedTransitionRows;
use crate::text::{opt_string, str_eq};
use crate::versions::{aggregate_version_from_persisted, persisted_version};

verus! {

/// One `support_judgments` row.
#[derive(Debug)]
pub struct SupportJudgmentRow {
    pub ordinal: i64,
    pub rationale: String,
    pub classification: String,
}

/// One snapshot row of the completion evidence a support rested on.
#[derive(Debug)]
pub struct SupportEvidenceRow {
    pub ordinal: i64,
    pub evidence_id: String,
    pub classification: String,
    pub role: String,
    pub verification: String,
    pub last_verified_at: Option<i64>,
    pub integrity_digest: Option<String>,
    pub evidence_version: i64,
}

/// The documented-rationale judgment a support carries: its rationale and
/// classification.
#[derive(Debug)]
pub struct SupportJudgment {
    pub rationale: String,
    pub classification: String,
}

/// The support of a completion as its rows record it: the evidence
/// snapshots in order and at most one judgment.
#[derive(Debug)]
pub struct CompletionSupport {
    pub evidence: Vec<EvidenceReferenceMetadata>,
    pub judgment: Option<SupportJudgment>,
}

/// Whether the judgment rows are at most one, numbered from 0, and agree
/// with the judgment the completion's command row records: both absent,
/// or the same rationale and classification.
pub open spec fn judgment_rows_ok(
    command: PreparedTransitionRows,
    judgments: Seq<SupportJudgmentRow>,
) -> bool {
    &&& judgments.len() <= 1
    &&& forall|i: int| 0 <= i < judgments.len() ==> #[trigger] judgments[i].ordinal == i
    &&& if judgments.len() == 0 {
        command.judgment_rationale is None && command.judgment_classification is None
    } else {
        &&& opt_string(command.judgment_rationale) == Some(judgments[0].rationale@)
        &&& opt_string(command.judgment_classification) == Some(judgments[0].classification@)
    }
}

/// Whether the evidence row at place `i` decodes: it is numbered `i`, its
/// role is completion evidence, its version is positive and its
/// verification reads.
pub open spec fn evidence_row_ok(row: SupportEvidenceRow, i: int) -> bool {
    &&& row.ordinal == i
    &&& row.role@ == "action_completion"@
    &&& persisted_version(row.evidence_version) is Some
    &&& EvidenceVerification::decodable(
        row.verification@,
        row.last_verified_at,
        opt_string(row.integrity_digest),
    )
}

/// Whether `metadata` is the evidence snapshot `row` records.
pub open spec fn evidence_row_decodes_to(
    row: SupportEvidenceRow,
    metadata: EvidenceReferenceMetadata,
) -> bool {
    &&& metadata.id@ == row.evidence_id@
    &&& Some(metadata.source_version) == persisted_version(row.evidence_version)
    &&& metadata.classification@ == row.classification@
    &&& metadata.verification.decodes_from(
        row.verification@,
        row.last_verified_at,
        opt_string(row.integrity_digest),
    )
    &&& metadata.role == EvidenceRole::ActionCompletion
}

/// Whether the support rows of a completion decode.
pub open spec fn support_rows_ok(
    command: PreparedTransitionRows,
    judgments: Seq<SupportJudgmentRow>,
    evidence: Seq<SupportEvidenceRow>,
) -> bool {
    &&& judgment_rows_ok(command, judgments)
    &&& forall|i: int| 0 <= i < evidence.len() ==> evidence_row_ok(#[trigger] evidence[i], i)
}

/// Decodes the support of a completion from its judgment and evidence
/// snapshot rows, cross-checked against the judgment its command row
/// records; rows that do not decode are an invalid snapshot.  Whether the
/// support meets the evidence requirement is the domain's to evaluate when
/// it rebuilds the preview.
pub fn decode_completion_support(
    command: &PreparedTransitionRows,
    judgments: &Vec<SupportJudgmentRow>,
    evidence: &Vec<SupportEvidenceRow>,
) -> (result: Result<CompletionSupport, ActionPersistenceLoadError>)
    ensures
        result is Ok <==> support_rows_ok(*command, judgments@, evidence@),
        result matches Ok(support) ==> {
            &&& support.evidence@.len() == evidence@.len()
            &&& forall|i: int|
                0 <= i < evidence@.len() ==> evidence_row_decodes_to(
                    #[trigger] evidence@[i],
                    support.evidence@[i],
                )
            &&& match support.judgment {
                Some(judgment) => judgments@.len() == 1 && judgment.rationale@
                    == judgments@[0].rationale@ && judgment.classification@
                    == judgments@[0].classification@,
                None => judgments@.len() == 0,
            }
        },
        result matches Err(error) ==> error == ActionPersistenceLoadError::InvalidActionSnapshot,
{
    let judgment = if judgments.len() == 0 {
        if command.judgment_rationale.is_some() || command.judgment_classification.is_some() {
            return Err(ActionPersistenceLoadError::InvalidActionSnapshot);
        }
        None
    } else {
        if judgments.len() > 1 {
            return Err(ActionPersistenceLoadError::InvalidActionSnapshot);
        }
        let row = &judgments[0];
        let agrees = match (&command.judgment_rationale, &command.judgment_classification) {
            (Some(rationale), Some(classification)) => str_eq(
                rationale.as_str(),
                row.rationale.as_str(),
            ) && str_eq(classification.as_str(), row.classification.as_str()),
            _ => false,
        };
        if !(row.ordinal == 0 && agrees) {
            return Err(ActionPersistenceLoadError::InvalidActionSnapshot);
        }
        Some(SupportJudgment { rationale: row.rationale.clone(), classification: row.classification.clone() })
    };
    let mut decoded: Vec<EvidenceReferenceMetadata> = Vec::new();
    let n = evidence.len();
    let mut i: usize = 0;
    while i < n
        invariant
            n == evidence@.len(),
            i <= n,
            decoded@.len() == i,
            forall|k: int| 0 <= k < i ==> evidence_row_ok(#[trigger] evidence@[k], k),
            forall|k: int|
                0 <= k < i ==> evidence_row_decodes_to(#[trigger] evidence@[k], decoded@[k]),
        decreases n - i,
    {
        let row = &evidence[i];
        if !((row.ordinal as i128) == (i as i128) && str_eq(row.role.as_str(), "action_completion")) {
            return Err(ActionPersistenceLoadError::InvalidActionSnapshot);
        }
        let source_version = match aggregate_version_from_persisted(row.evidence_version) {
            Some(version) => version,
            None => {
                return Err(ActionPersistenceLoadError::InvalidActionSnapshot);
            },
        };
        let digest = match &row.integrity_digest {
            Some(d) => Some(d.clone()),
            None => None,
        };
        let verification = match EvidenceVerification::from_persisted_parts(
            row.verification.as_str(),
            row.last_verified_at,
            digest,
        ) {
            Ok(verification) => verification,
            Err(()) => {
                return Err(ActionPersistenceLoadError::InvalidActionSnapshot);
            },
        };
        decoded.push(
            EvidenceReferenceMetadata {
                id: row.evidence_id.clone(),
                source_version,
                classification: row.classification.clone(),
                verification,
                role: EvidenceRole::ActionCompletion,
            },
        );
        i = i + 1;
    }
    Ok(CompletionSupport { evidence: decoded, judgment })
}

/// One `prepared_evidence_classifications` row of a cancellation or
/// reopening preview.
#[derive(Debug)]
pub struct EvidenceClassificationRow {
    pub ordinal: i64,
    pub evidence_id: String,
    pub classification: String,
}

/// The evidence classifications the rows record, in order.
pub open spec fn classification_bindings(rows: Seq<EvidenceClassificationRow>) -> Seq<
    EvidenceBindingView,
> {
    rows.map_values(
        |row: EvidenceClassificationRow|
            EvidenceBindingView { evidence_id: row.evidence_id@, classification: row.classification@ },
    )
}

/// Decodes the evidence classifications of a cancellation or reopening
/// preview: rows numbered from 0 in order give their bindings; any other
/// numbering is an invalid snapshot.
pub fn decode_evidence_classifications(rows: &Vec<EvidenceClassificationRow>) -> (result: Result<
    Vec<EvidenceBinding>,
    ActionPersistenceLoadError,
>)
    ensures
        result is Ok <==> forall|i: int| 0 <= i < rows@.len() ==> #[trigger] rows@[i].ordinal == i,
        result matches Ok(bindings) ==> binding_views(bindings@) == classification_bindings(rows@),
        result matches Err(error) ==> error == ActionPersistenceLoadError::InvalidActionSnapshot,
{
    let mut bindings: Vec<EvidenceBinding> = Vec::new();
    let n = rows.len();
    let mut i: usize = 0;
    while i < n
        invariant
            n == rows@.len(),
            i <= n,
            forall|k: int| 0 <= k < i ==> #[trigger] rows@[k].ordinal == k,
            binding_views(bindings@) == classification_bindings(rows@.take(i as int)),
        decreases n - i,
    {
        let row = &rows[i];
        if (row.ordinal as i128) != (i as i128) {
            return Err(ActionPersistenceLoadError::InvalidActionSnapshot);
        }
        let ghost before = bindings@;
        let binding = EvidenceBinding {
            evidence_id: row.evidence_id.clone(),
            classification: row.classification.clone(),
        };
        let ghost pushed = binding@;
        bindings.push(binding);
        proof {
            assert(rows@.take(i + 1) =~= rows@.take(i as int).push(rows@[i as int]));
            assert(binding_views(bindings@) =~= binding_views(before).push(pushed));
            assert(classification_bindings(rows@.take(i + 1)) =~= classification_bindings(
                rows@.take(i as int),
            ).push(pushed));
        }
        i = i + 1;
    }
    proof {
        assert(rows@.take(n as int) =~= rows@);
    }
    Ok(bindings)
}

/// The evidence classifications recorded for a preview are its rows, one
/// each and in order: each names the row's Evidence Reference with the
/// row's classification.
pub proof fn lemma_classification_bindings_keep_their_rows(rows: Seq<EvidenceClassificationRow>)
    ensures
        classification_bindings(rows).len() == rows.len(),
        forall|i: int|
            0 <= i < rows.len() ==> {
                &&& (#[trigger] classification_bindings(rows)[i]).evidence_id == rows[i].evidence_id@
                &&& classification_bindings(rows)[i].classification == rows[i].classification@
            },
{
}

} // verus!
