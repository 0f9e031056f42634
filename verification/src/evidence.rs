//! The completion evidence an Action has linked, as the domain service is
//! handed it: decoded from its persisted rows and looked up by id.

use vstd::prelude::*;
use crate::errors::{persistence_error, ActionOperationContext, DomainError, DomainErrorKind};
use crate::text::{opt_string, str_eq};
use crate::versions::{aggregate_version_from_persisted, persisted_version};

verus! {

/// How far an Evidence Reference's content has been checked.
#[derive(Debug)]
pub enum EvidenceVerification {
    Verified { verified_at: i64, integrity_digest: String },
    ObservedUnpinned { observed_at: i64, integrity_digest: String },
    DegradedLastVerified { last_verified_at: i64, integrity_digest: String },
    Unverified,
    IntegrityMismatch,
}

/// The role an Evidence Reference plays for the Action it is linked to.
#[derive(Clone, Copy, Debug, PartialEq, Eq, Structural)]
pub enum EvidenceRole {
    ActionCompletion,
}

/// One linked Evidence Reference as the domain sees it; its role is always
/// Action completion, since the link itself is that role (the reference's
/// own stored role is not read).
#[derive(Debug)]
pub struct EvidenceReferenceMetadata {
    pub id: String,
    pub source_version: u64,
    pub classification: String,
    pub verification: EvidenceVerification,
    pub role: EvidenceRole,
}

/// One persisted row of an Action's linked completion evidence.
#[derive(Debug)]
pub struct PersistedEvidenceRow {
    pub id: String,
    pub classification: String,
    pub verification: String,
    pub integrity_digest: Option<String>,
    pub last_verified_at: Option<i64>,
    pub version: i64,
}

/// The Action's linked evidence, resolved ahead of the domain call.
#[derive(Debug)]
pub struct PersistedActionEvidenceAuthority {
    pub evidence: Vec<EvidenceReferenceMetadata>,
}

/// Why evidence could not be resolved.
#[derive(Clone, Copy, Debug, PartialEq, Eq, Structural)]
pub enum ActionEvidenceAuthorityError {
    NotFound,
}

impl Clone for EvidenceVerification {
    fn clone(&self) -> (result: Self)
        ensures
            result == *self,
    {
        match self {
            EvidenceVerification::Verified { verified_at, integrity_digest } => {
                EvidenceVerification::Verified {
                    verified_at: *verified_at,
                    integrity_digest: integrity_digest.clone(),
                }
            },
            EvidenceVerification::ObservedUnpinned { observed_at, integrity_digest } => {
                EvidenceVerification::ObservedUnpinned {
                    observed_at: *observed_at,
                    integrity_digest: integrity_digest.clone(),
                }
            },
            EvidenceVerification::DegradedLastVerified { last_verified_at, integrity_digest } => {
                EvidenceVerification::DegradedLastVerified {
                    last_verified_at: *last_verified_at,
                    integrity_digest: integrity_digest.clone(),
                }
            },
            EvidenceVerification::Unverified => EvidenceVerification::Unverified,
            EvidenceVerification::IntegrityMismatch => EvidenceVerification::IntegrityMismatch,
        }
    }
}

impl Clone for EvidenceReferenceMetadata {
    fn clone(&self) -> (result: Self)
        ensures
            result == *self,
    {
        EvidenceReferenceMetadata {
            id: self.id.clone(),
            source_version: self.source_version,
            classification: self.classification.clone(),
            verification: self.verification.clone(),
            role: self.role,
        }
    }
}

impl EvidenceVerification {
    /// The status text this verification is persisted as.
    pub open spec fn persisted_status(self) -> Seq<char> {
        match self {
            EvidenceVerification::Verified { .. } => "verified"@,
            EvidenceVerification::ObservedUnpinned { .. } => "observed_unpinned"@,
            EvidenceVerification::DegradedLastVerified { .. } => "degraded_last_verified"@,
            EvidenceVerification::Unverified => "unverified"@,
            EvidenceVerification::IntegrityMismatch => "integrity_mismatch"@,
        }
    }

    /// The instant persisted beside the status: when the content was last
    /// checked, for the three checked states.
    pub open spec fn persisted_at(self) -> Option<i64> {
        match self {
            EvidenceVerification::Verified { verified_at, .. } => Some(verified_at),
            EvidenceVerification::ObservedUnpinned { observed_at, .. } => Some(observed_at),
            EvidenceVerification::DegradedLastVerified { last_verified_at, .. } => Some(
                last_verified_at,
            ),
            _ => None,
        }
    }

    /// The integrity digest persisted beside the status, for the three
    /// checked states.
    pub open spec fn persisted_digest(self) -> Option<Seq<char>> {
        match self {
            EvidenceVerification::Verified { integrity_digest, .. } => Some(integrity_digest@),
            EvidenceVerification::ObservedUnpinned { integrity_digest, .. } => Some(
                integrity_digest@,
            ),
            EvidenceVerification::DegradedLastVerified { integrity_digest, .. } => Some(
                integrity_digest@,
            ),
            _ => None,
        }
    }

    /// Whether the persisted parts read as a verification: a checked status
    /// needs both its instant and its digest, an unchecked one neither.
    pub open spec fn decodable(status: Seq<char>, at: Option<i64>, digest: Option<Seq<char>>) -> bool {
        ||| ((status == "verified"@ || status == "observed_unpinned"@ || status
            == "degraded_last_verified"@) && at is Some && digest is Some)
        ||| ((status == "unverified"@ || status == "integrity_mismatch"@) && at is None
            && digest is None)
    }

    /// Whether `self` is what the persisted parts read as.
    pub open spec fn decodes_from(self, status: Seq<char>, at: Option<i64>, digest: Option<Seq<char>>) -> bool {
        &&& status == self.persisted_status()
        &&& at == self.persisted_at()
        &&& digest == self.persisted_digest()
    }

    /// Reads a persisted verification from its status, instant and digest.
    pub fn from_persisted_parts(status: &str, at: Option<i64>, digest: Option<String>) -> (result:
        Result<EvidenceVerification, ()>)
        ensures
            result is Ok <==> Self::decodable(status@, at, opt_string(digest)),
            result matches Ok(v) ==> v.decodes_from(status@, at, opt_string(digest)),
    {
        proof {
            lemma_verification_statuses_distinct();
        }
        match (at, digest) {
            (Some(at), Some(digest)) => {
                if str_eq(status, "verified") {
                    Ok(EvidenceVerification::Verified { verified_at: at, integrity_digest: digest })
                } else if str_eq(status, "observed_unpinned") {
                    Ok(
                        EvidenceVerification::ObservedUnpinned {
                            observed_at: at,
                            integrity_digest: digest,
                        },
                    )
                } else if str_eq(status, "degraded_last_verified") {
                    Ok(
                        EvidenceVerification::DegradedLastVerified {
                            last_verified_at: at,
                            integrity_digest: digest,
                        },
                    )
                } else {
                    Err(())
                }
            },
            (None, None) => {
                if str_eq(status, "unverified") {
                    Ok(EvidenceVerification::Unverified)
                } else if str_eq(status, "integrity_mismatch") {
                    Ok(EvidenceVerification::IntegrityMismatch)
                } else {
                    Err(())
                }
            },
            _ => Err(()),
        }
    }
}

/// The status texts of the five verifications are pairwise different.
proof fn lemma_verification_statuses_distinct()
    ensures
        "observed_unpinned"@ != "verified"@,
        "degraded_last_verified"@ != "verified"@,
        "degraded_last_verified"@ != "observed_unpinned"@,
        "unverified"@ != "verified"@,
        "unverified"@ != "observed_unpinned"@,
        "unverified"@ != "degraded_last_verified"@,
        "integrity_mismatch"@ != "verified"@,
        "integrity_mismatch"@ != "observed_unpinned"@,
        "integrity_mismatch"@ != "degraded_last_verified"@,
        "integrity_mismatch"@ != "unverified"@,
{
    reveal_strlit("verified");
    reveal_strlit("observed_unpinned");
    reveal_strlit("degraded_last_verified");
    reveal_strlit("unverified");
    reveal_strlit("integrity_mismatch");
    assert("verified"@.len() == 8);
    assert("observed_unpinned"@.len() == 17);
    assert("degraded_last_verified"@.len() == 22);
    assert("unverified"@.len() == 10);
    assert("integrity_mismatch"@.len() == 18);
}

/// Every verification reads back from what it is persisted as, and the
/// persisted parts determine what they read as.
pub proof fn lemma_verification_round_trip(
    v: EvidenceVerification,
    w: EvidenceVerification,
    status: Seq<char>,
    at: Option<i64>,
    digest: Option<Seq<char>>,
)
    ensures
        EvidenceVerification::decodable(v.persisted_status(), v.persisted_at(), v.persisted_digest()),
        v.decodes_from(status, at, digest) && w.decodes_from(status, at, digest) ==> v.persisted_status()
            == w.persisted_status() && v.persisted_at() == w.persisted_at() && v.persisted_digest()
            == w.persisted_digest(),
{
    lemma_verification_statuses_distinct();
}

/// Whether `metadata` is what `row` decodes to.
pub open spec fn row_decodes_to(row: PersistedEvidenceRow, metadata: EvidenceReferenceMetadata) -> bool {
    &&& metadata.id@ == row.id@
    &&& Some(metadata.source_version) == persisted_version(row.version)
    &&& metadata.classification@ == row.classification@
    &&& metadata.verification.decodes_from(
        row.verification@,
        row.last_verified_at,
        opt_string(row.integrity_digest),
    )
    &&& metadata.role == EvidenceRole::ActionCompletion
}

/// Whether `row` decodes: a positive version and a readable verification.
pub open spec fn row_decodable(row: PersistedEvidenceRow) -> bool {
    &&& persisted_version(row.version) is Some
    &&& EvidenceVerification::decodable(
        row.verification@,
        row.last_verified_at,
        opt_string(row.integrity_digest),
    )
}

/// Decodes one linked evidence row; a row that does not decode is a
/// persistence failure.
pub fn decode_evidence_row(row: &PersistedEvidenceRow, context: &ActionOperationContext) -> (result:
    Result<EvidenceReferenceMetadata, DomainError>)
    ensures
        result is Ok <==> row_decodable(*row),
        result matches Ok(metadata) ==> row_decodes_to(*row, metadata),
        result matches Err(error) ==> error.is_plain(
            DomainErrorKind::Persistence,
            context.correlation_id@,
        ),
{
    let source_version = match aggregate_version_from_persisted(row.version) {
        Some(v) => v,
        None => {
            return Err(persistence_error(context));
        },
    };
    let digest = match &row.integrity_digest {
        Some(d) => Some(d.clone()),
        None => None,
    };
    let verification = match EvidenceVerification::from_persisted_parts(
        row.verification.as_str(),
        row.last_verified_at,
        digest,
    ) {
        Ok(v) => v,
        Err(()) => {
            return Err(persistence_error(context));
        },
    };
    Ok(
        EvidenceReferenceMetadata {
            id: row.id.clone(),
            source_version,
            classification: row.classification.clone(),
            verification,
            role: EvidenceRole::ActionCompletion,
        },
    )
}

/// Builds the evidence authority from exactly the target Action's linked
/// evidence rows, in row order; one row that does not decode fails the
/// whole build as a persistence failure.
pub fn persisted_action_evidence_authority(
    rows: &Vec<PersistedEvidenceRow>,
    context: &ActionOperationContext,
) -> (result: Result<PersistedActionEvidenceAuthority, DomainError>)
    ensures
        result is Ok <==> forall|i: int| 0 <= i < rows@.len() ==> row_decodable(#[trigger] rows@[i]),
        result matches Ok(authority) ==> authority.evidence@.len() == rows@.len() && forall|i: int|
            0 <= i < rows@.len() ==> row_decodes_to(#[trigger] rows@[i], authority.evidence@[i]),
        result matches Err(error) ==> error.is_plain(
            DomainErrorKind::Persistence,
            context.correlation_id@,
        ),
{
    let mut evidence: Vec<EvidenceReferenceMetadata> = Vec::new();
    let n = rows.len();
    let mut i: usize = 0;
    while i < n
        invariant
            n == rows@.len(),
            i <= n,
            evidence@.len() == i,
            forall|k: int| 0 <= k < i ==> row_decodable(#[trigger] rows@[k]),
            forall|k: int| 0 <= k < i ==> row_decodes_to(#[trigger] rows@[k], evidence@[k]),
        decreases n - i,
    {
        match decode_evidence_row(&rows[i], context) {
            Ok(metadata) => {
                evidence.push(metadata);
            },
            Err(error) => {
                return Err(error);
            },
        }
        i = i + 1;
    }
    Ok(PersistedActionEvidenceAuthority { evidence })
}

impl PersistedActionEvidenceAuthority {
    /// Whether the authority holds evidence with id `id`.
    pub open spec fn holds(self, id: Seq<char>) -> bool {
        exists|i: int| 0 <= i < self.evidence@.len() && self.evidence@[i].id@ == id
    }

    /// Resolves one evidence id: the first held evidence with that id, or
    /// not found.
    pub fn resolve(&self, id: &String) -> (result: Result<
        EvidenceReferenceMetadata,
        ActionEvidenceAuthorityError,
    >)
        ensures
            result is Err <==> !self.holds(id@),
            result matches Ok(metadata) ==> exists|i: int|
                0 <= i < self.evidence@.len() && metadata == self.evidence@[i] && metadata.id@ == id@
                    && forall|j: int| 0 <= j < i ==> self.evidence@[j].id@ != id@,
            result matches Err(error) ==> error == ActionEvidenceAuthorityError::NotFound,
    {
        let n = self.evidence.len();
        let mut i: usize = 0;
        while i < n
            invariant
                n == self.evidence@.len(),
                i <= n,
                forall|j: int| 0 <= j < i ==> self.evidence@[j].id@ != id@,
            decreases n - i,
        {
            if self.evidence[i].id == *id {
                return Ok(self.evidence[i].clone());
            }
            i = i + 1;
        }
        Err(ActionEvidenceAuthorityError::NotFound)
    }
}

/// A decoded evidence row keeps its row: the evidence's id and
/// classification are the row's, its version is the row's (which is
/// positive), its verification is stored as the row's status, instant and
/// digest, and its role is Action completion.
pub proof fn lemma_decoded_evidence_keeps_its_row(row: PersistedEvidenceRow, metadata: EvidenceReferenceMetadata)
    requires
        row_decodes_to(row, metadata),
    ensures
        metadata.id@ == row.id@,
        metadata.classification@ == row.classification@,
        metadata.source_version == row.version,
        row.version >= 1,
        metadata.verification.persisted_status() == row.verification@,
        metadata.verification.persisted_at() == row.last_verified_at,
        metadata.verification.persisted_digest() == opt_string(row.integrity_digest),
        metadata.role == EvidenceRole::ActionCompletion,
{
}

/// The text each verification is stored as: verified, observed_unpinned,
/// degraded_last_verified (each with its instant and digest), unverified
/// and integrity_mismatch (with neither).
pub proof fn lemma_verification_texts(v: EvidenceVerification)
    ensures
        v is Verified ==> v.persisted_status() == "verified"@ && v.persisted_at() == Some(
            v->verified_at,
        ) && v.persisted_digest() == Some(v->Verified_integrity_digest@),
        v is ObservedUnpinned ==> v.persisted_status() == "observed_unpinned"@ && v.persisted_at()
            == Some(v->observed_at) && v.persisted_digest() == Some(
            v->ObservedUnpinned_integrity_digest@,
        ),
        v is DegradedLastVerified ==> v.persisted_status() == "degraded_last_verified"@
            && v.persisted_at() == Some(v->last_verified_at) && v.persisted_digest() == Some(
            v->DegradedLastVerified_integrity_digest@,
        ),
        v is Unverified ==> v.persisted_status() == "unverified"@ && v.persisted_at() is None
            && v.persisted_digest() is None,
        v is IntegrityMismatch ==> v.persisted_status() == "integrity_mismatch"@ && v.persisted_at()
            is None && v.persisted_digest() is None,
{
}

} // verus!
