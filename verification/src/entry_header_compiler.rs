//! Entry-header schema, graduation-criteria, and LOC-estimate compiler.
//!
//! - **Entry-header schema**: mandatory metadata fields, each `Provided` or
//!   an explicit `Tbd`. A missing or empty mandatory field blocks
//!   progression.
//! - **Graduation-criteria template**: a per-quality-bar checklist of
//!   quality artifacts, each linked to a CI artifact and a pass/fail status.
//! - **LOC/effort estimator**: maps an implementation-size estimate to an
//!   effort band and an EV penalty used by opportunity scoring.
//!
//! The compiler validates a draft header, a graduation template and a size
//! estimate and emits a deterministic report saying whether the primitive
//! can progress (complete header) and graduate (criteria passed). In
//! graduation mode, unresolved `Tbd` fields and unpassed criteria escalate
//! from advisory to blocking.

use vstd::prelude::*;
use vstd::string::*;

use crate::milestone_policy::{
    artifact_at, default_artifacts, default_quality_bar_requirements, QualityArtifact, QualityBar,
};

pub mod compiler;

pub use compiler::{
    EntryHeaderCompiler, EntryHeaderCompilerConfig, EntryHeaderJsonStatsArtifact,
    EntryHeaderReport, EntryHeaderSummary, SchemaFinding, SchemaFindingCode, SchemaFindingView,
    SchemaSeverity,
};

verus! {

/// Schema version for entry-header reports.
pub const ENTRY_HEADER_SCHEMA_VERSION: &'static str = "entry-header-v1";

// ── Header schema ────────────────────────────────────────────────────────

/// A mandatory entry-header metadata field.
#[derive(Debug, Clone, Copy, PartialEq, Eq, PartialOrd, Ord, Hash, Structural)]
pub enum HeaderFieldId {
    /// Lifecycle status.
    Status,
    /// Priority tier.
    Tier,
    /// Production adoption wedge.
    AdoptionWedge,
    /// Budgeted-mode declaration.
    BudgetedMode,
    /// Primary papers / references.
    Papers,
    /// Reproduction pack pointer.
    Repro,
    /// Honest reality-check note.
    RealityCheck,
    /// Archetype label.
    Archetype,
    /// Integration targets.
    IntegrationTargets,
}

/// The field at position `k` of the canonical order.
pub open spec fn field_at(k: int) -> HeaderFieldId {
    if k == 0 {
        HeaderFieldId::Status
    } else if k == 1 {
        HeaderFieldId::Tier
    } else if k == 2 {
        HeaderFieldId::AdoptionWedge
    } else if k == 3 {
        HeaderFieldId::BudgetedMode
    } else if k == 4 {
        HeaderFieldId::Papers
    } else if k == 5 {
        HeaderFieldId::Repro
    } else if k == 6 {
        HeaderFieldId::RealityCheck
    } else if k == 7 {
        HeaderFieldId::Archetype
    } else {
        HeaderFieldId::IntegrationTargets
    }
}

impl HeaderFieldId {
    /// Every mandatory header field, in canonical order.
    pub const ALL: [HeaderFieldId; 9] = [
        HeaderFieldId::Status,
        HeaderFieldId::Tier,
        HeaderFieldId::AdoptionWedge,
        HeaderFieldId::BudgetedMode,
        HeaderFieldId::Papers,
        HeaderFieldId::Repro,
        HeaderFieldId::RealityCheck,
        HeaderFieldId::Archetype,
        HeaderFieldId::IntegrationTargets,
    ];

    /// Every mandatory header field, in canonical order.
    pub fn all() -> (v: Vec<HeaderFieldId>)
        ensures
            v@.len() == 9,
            forall|k: int| 0 <= k < 9 ==> #[trigger] v@[k] == field_at(k),
    {
        vec![
            HeaderFieldId::Status,
            HeaderFieldId::Tier,
            HeaderFieldId::AdoptionWedge,
            HeaderFieldId::BudgetedMode,
            HeaderFieldId::Papers,
            HeaderFieldId::Repro,
            HeaderFieldId::RealityCheck,
            HeaderFieldId::Archetype,
            HeaderFieldId::IntegrationTargets,
        ]
    }

    /// Stable lowercase tag.
    pub open spec fn tag(self) -> Seq<char> {
        match self {
            HeaderFieldId::Status => "status"@,
            HeaderFieldId::Tier => "tier"@,
            HeaderFieldId::AdoptionWedge => "adoption_wedge"@,
            HeaderFieldId::BudgetedMode => "budgeted_mode"@,
            HeaderFieldId::Papers => "papers"@,
            HeaderFieldId::Repro => "repro"@,
            HeaderFieldId::RealityCheck => "reality_check"@,
            HeaderFieldId::Archetype => "archetype"@,
            HeaderFieldId::IntegrationTargets => "integration_targets"@,
        }
    }

    /// Stable lowercase tag.
    pub fn as_str(self) -> (s: &'static str)
        ensures
            s@ == self.tag(),
    {
        match self {
            HeaderFieldId::Status => "status",
            HeaderFieldId::Tier => "tier",
            HeaderFieldId::AdoptionWedge => "adoption_wedge",
            HeaderFieldId::BudgetedMode => "budgeted_mode",
            HeaderFieldId::Papers => "papers",
            HeaderFieldId::Repro => "repro",
            HeaderFieldId::RealityCheck => "reality_check",
            HeaderFieldId::Archetype => "archetype",
            HeaderFieldId::IntegrationTargets => "integration_targets",
        }
    }

    /// Position in the canonical order.
    pub open spec fn index(self) -> int {
        match self {
            HeaderFieldId::Status => 0,
            HeaderFieldId::Tier => 1,
            HeaderFieldId::AdoptionWedge => 2,
            HeaderFieldId::BudgetedMode => 3,
            HeaderFieldId::Papers => 4,
            HeaderFieldId::Repro => 5,
            HeaderFieldId::RealityCheck => 6,
            HeaderFieldId::Archetype => 7,
            HeaderFieldId::IntegrationTargets => 8,
        }
    }

    /// Canonical order index (for deterministic sorting).
    pub fn order_index(self) -> (i: usize)
        ensures
            i == self.index(),
            field_at(i as int) == self,
    {
        match self {
            HeaderFieldId::Status => 0,
            HeaderFieldId::Tier => 1,
            HeaderFieldId::AdoptionWedge => 2,
            HeaderFieldId::BudgetedMode => 3,
            HeaderFieldId::Papers => 4,
            HeaderFieldId::Repro => 5,
            HeaderFieldId::RealityCheck => 6,
            HeaderFieldId::Archetype => 7,
            HeaderFieldId::IntegrationTargets => 8,
        }
    }
}

/// A header field value: either provided, or an explicit deferral (`Tbd`).
#[derive(Debug, Clone, PartialEq, Eq)]
pub enum HeaderFieldValue {
    /// A concrete value.
    Provided(String),
    /// An explicit deferral with a reason.
    Tbd(String),
}

impl HeaderFieldValue {
    /// A provided value.
    pub fn provided(value: &str) -> (v: HeaderFieldValue)
        ensures
            v matches HeaderFieldValue::Provided(s) && s@ == value@,
    {
        HeaderFieldValue::Provided(String::from_str(value))
    }

    /// An explicit deferral with a reason.
    pub fn tbd(reason: &str) -> (v: HeaderFieldValue)
        ensures
            v matches HeaderFieldValue::Tbd(s) && s@ == reason@,
    {
        HeaderFieldValue::Tbd(String::from_str(reason))
    }

    /// Whether this value is an explicit `Tbd`.
    pub fn is_tbd(&self) -> (b: bool)
        ensures
            b == (*self is Tbd),
    {
        matches!(self, HeaderFieldValue::Tbd(_))
    }
}

/// One header field entry.
#[derive(Debug, Clone, PartialEq, Eq)]
pub struct HeaderField {
    /// Field id.
    pub id: HeaderFieldId,
    /// Field value.
    pub value: HeaderFieldValue,
}

/// The value of the first entry for `id`, if any.
pub open spec fn lookup(fields: Seq<HeaderField>, id: HeaderFieldId) -> Option<HeaderFieldValue>
    decreases fields.len(),
{
    if fields.len() == 0 {
        None
    } else {
        let prev = lookup(fields.drop_last(), id);
        if prev is Some {
            prev
        } else if fields.last().id == id {
            Some(fields.last().value)
        } else {
            None
        }
    }
}

/// The first `n` entries with every entry for `id` removed.
pub open spec fn without_id(fields: Seq<HeaderField>, id: HeaderFieldId, n: int) -> Seq<HeaderField>
    decreases n,
{
    if n <= 0 {
        Seq::empty()
    } else {
        without_id(fields, id, n - 1) + if fields[n - 1].id != id {
            seq![fields[n - 1]]
        } else {
            Seq::empty()
        }
    }
}

/// A draft entry header.
#[derive(Debug, Clone, PartialEq, Eq)]
pub struct EntryHeaderDraft {
    /// Stable entry id.
    pub entry_id: String,
    /// Field entries (deduplicated by id; last set wins).
    pub fields: Vec<HeaderField>,
}

impl Default for EntryHeaderDraft {
    /// An empty draft with an empty id.
    fn default() -> (d: Self)
        ensures
            d.entry_id@.len() == 0,
            d.fields@.len() == 0,
    {
        EntryHeaderDraft { entry_id: String::new(), fields: Vec::new() }
    }
}

impl EntryHeaderDraft {
    /// Start a draft.
    pub fn new(entry_id: &str) -> (d: EntryHeaderDraft)
        ensures
            d.entry_id@ == entry_id@,
            d.fields@.len() == 0,
    {
        EntryHeaderDraft { entry_id: String::from_str(entry_id), fields: Vec::new() }
    }

    /// Set a field, replacing any prior value for the same id.
    pub fn set(self, id: HeaderFieldId, value: HeaderFieldValue) -> (d: EntryHeaderDraft)
        ensures
            d.entry_id == self.entry_id,
            d.fields@ == without_id(self.fields@, id, self.fields@.len() as int).push(
                HeaderField { id, value },
            ),
    {
        let EntryHeaderDraft { entry_id, fields } = self;
        let mut kept: Vec<HeaderField> = Vec::new();
        let mut old_fields = fields;
        let ghost orig = old_fields@;
        let mut i: usize = 0;
        let n = old_fields.len();
        let mut rest: Vec<HeaderField> = Vec::new();
        // Move the entries out back to front, then keep them front to back.
        while old_fields.len() > 0
            invariant
                orig.len() == n,
                old_fields@.len() + rest@.len() == n,
                old_fields@ == orig.take(old_fields@.len() as int),
                forall|k: int| 0 <= k < rest@.len() ==> #[trigger] rest@[k] == orig[n - 1 - k],
            decreases old_fields@.len(),
        {
            let f = old_fields.pop().unwrap();
            proof {
                assert(orig.take(old_fields@.len() as int + 1)[old_fields@.len() as int] == f);
                assert(old_fields@ =~= orig.take(old_fields@.len() as int));
            }
            rest.push(f);
        }
        proof {
            assert(kept@ =~= without_id(orig, id, 0));
        }
        while i < n
            invariant
                i <= n,
                orig.len() == n,
                rest@.len() == n - i,
                forall|k: int| 0 <= k < rest@.len() ==> #[trigger] rest@[k] == orig[n - 1 - k],
                kept@ == without_id(orig, id, i as int),
            decreases n - i,
        {
            let f = rest.pop().unwrap();
            proof {
                assert(f == orig[i as int]);
            }
            if f.id != id {
                kept.push(f);
            }
            proof {
                assert(kept@ =~= without_id(orig, id, i as int + 1));
            }
            i = i + 1;
        }
        kept.push(HeaderField { id, value });
        EntryHeaderDraft { entry_id, fields: kept }
    }

    /// Convenience: set a provided field.
    pub fn provide(self, id: HeaderFieldId, value: &str) -> (d: EntryHeaderDraft)
        ensures
            d.entry_id == self.entry_id,
            d.fields@.len() >= 1,
            d.fields@.drop_last() == without_id(self.fields@, id, self.fields@.len() as int),
            d.fields@.last().id == id,
            d.fields@.last().value matches HeaderFieldValue::Provided(s) && s@ == value@,
    {
        let d = self.set(id, HeaderFieldValue::provided(value));
        proof {
            assert(d.fields@.drop_last() =~= without_id(self.fields@, id, self.fields@.len() as int));
        }
        d
    }

    /// Look up a field value (the first entry for `id`).
    pub fn get(&self, id: HeaderFieldId) -> (v: Option<&HeaderFieldValue>)
        ensures
            match v {
                None => lookup(self.fields@, id) is None,
                Some(x) => lookup(self.fields@, id) == Some(*x),
            },
    {
        let mut i: usize = 0;
        while i < self.fields.len()
            invariant
                i <= self.fields@.len(),
                lookup(self.fields@.take(i as int), id) is None,
            decreases self.fields@.len() - i,
        {
            proof {
                assert(self.fields@.take(i as int + 1).drop_last() =~= self.fields@.take(i as int));
            }
            if self.fields[i].id == id {
                proof {
                    lemma_lookup_prefix(self.fields@, id, i as int + 1);
                }
                return Some(&self.fields[i].value);
            }
            i = i + 1;
        }
        proof {
            assert(self.fields@.take(i as int) =~= self.fields@);
        }
        None
    }
}

/// A value found in a prefix is the value found in the whole.
pub proof fn lemma_lookup_prefix(fields: Seq<HeaderField>, id: HeaderFieldId, n: int)
    requires
        0 <= n <= fields.len(),
        lookup(fields.take(n), id) is Some,
    ensures
        lookup(fields, id) == lookup(fields.take(n), id),
    decreases fields.len(),
{
    if n < fields.len() {
        assert(fields.drop_last().take(n) =~= fields.take(n));
        lemma_lookup_prefix(fields.drop_last(), id, n);
    } else {
        assert(fields.take(n) =~= fields);
    }
}

proof fn lemma_lookup_push(s: Seq<HeaderField>, x: HeaderField, id: HeaderFieldId)
    ensures
        lookup(s.push(x), id) == (if lookup(s, id) is Some {
            lookup(s, id)
        } else if x.id == id {
            Some(x.value)
        } else {
            None
        }),
{
    assert(s.push(x).drop_last() =~= s);
}

proof fn lemma_without_lookup(fields: Seq<HeaderField>, id: HeaderFieldId, other: HeaderFieldId, n: int)
    requires
        0 <= n <= fields.len(),
    ensures
        lookup(without_id(fields, id, n), id) is None,
        other != id ==> lookup(without_id(fields, id, n), other) == lookup(fields.take(n), other),
    decreases n,
{
    if n > 0 {
        lemma_without_lookup(fields, id, other, n - 1);
        let w = without_id(fields, id, n - 1);
        let x = fields[n - 1];
        assert(fields.take(n) =~= fields.take(n - 1).push(x));
        lemma_lookup_push(fields.take(n - 1), x, other);
        if x.id != id {
            assert(without_id(fields, id, n) =~= w.push(x));
            lemma_lookup_push(w, x, id);
            lemma_lookup_push(w, x, other);
        } else {
            assert(without_id(fields, id, n) =~= w);
        }
    } else {
        assert(without_id(fields, id, 0) =~= Seq::<HeaderField>::empty());
    }
}

/// Setting a field replaces its prior value: afterwards the draft reads back
/// the value just set, holds exactly one entry for that id, and reads every
/// other field as before.
pub proof fn law_draft_set_then_get(
    fields: Seq<HeaderField>,
    id: HeaderFieldId,
    value: HeaderFieldValue,
    other: HeaderFieldId,
)
    ensures
        ({
            let after = without_id(fields, id, fields.len() as int).push(HeaderField { id, value });
            &&& lookup(after, id) == Some(value)
            &&& (other != id ==> lookup(after, other) == lookup(fields, other))
            &&& forall|i: int| 0 <= i < after.len() - 1 ==> (#[trigger] after[i]).id != id
        }),
{
    let w = without_id(fields, id, fields.len() as int);
    let x = HeaderField { id, value };
    lemma_without_lookup(fields, id, other, fields.len() as int);
    assert(fields.take(fields.len() as int) =~= fields);
    lemma_lookup_push(w, x, id);
    lemma_lookup_push(w, x, other);
    lemma_without_excludes(fields, id, fields.len() as int);
    assert forall|i: int| 0 <= i < w.push(x).len() - 1 implies (#[trigger] w.push(x)[i]).id != id by {
        assert(w.push(x)[i] == w[i]);
    }
}

proof fn lemma_without_excludes(fields: Seq<HeaderField>, id: HeaderFieldId, n: int)
    requires
        0 <= n <= fields.len(),
    ensures
        forall|i: int| 0 <= i < without_id(fields, id, n).len() ==> (#[trigger] without_id(
            fields,
            id,
            n,
        )[i]).id != id,
    decreases n,
{
    if n > 0 {
        lemma_without_excludes(fields, id, n - 1);
        let w = without_id(fields, id, n - 1);
        if fields[n - 1].id != id {
            assert(without_id(fields, id, n) =~= w.push(fields[n - 1]));
        } else {
            assert(without_id(fields, id, n) =~= w);
        }
    }
}

// ── Graduation criteria ──────────────────────────────────────────────────

/// Pass/fail status of a graduation criterion.
#[derive(Debug, Clone, Copy, PartialEq, Eq, PartialOrd, Ord, Hash, Structural)]
pub enum CriterionStatus {
    /// Not yet started.
    Pending,
    /// CI artifact linked but not evaluated.
    Linked,
    /// Passed.
    Passed,
    /// Failed.
    Failed,
}

impl CriterionStatus {
    /// Stable lowercase tag.
    pub open spec fn tag(self) -> Seq<char> {
        match self {
            CriterionStatus::Pending => "pending"@,
            CriterionStatus::Linked => "linked"@,
            CriterionStatus::Passed => "passed"@,
            CriterionStatus::Failed => "failed"@,
        }
    }

    /// Stable lowercase tag.
    pub fn as_str(self) -> (s: &'static str)
        ensures
            s@ == self.tag(),
    {
        match self {
            CriterionStatus::Pending => "pending",
            CriterionStatus::Linked => "linked",
            CriterionStatus::Passed => "passed",
            CriterionStatus::Failed => "failed",
        }
    }
}

/// A single graduation criterion (one quality-artifact bar).
#[derive(Debug, Clone, PartialEq, Eq)]
pub struct GraduationCriterion {
    /// The quality artifact this criterion gates.
    pub artifact: QualityArtifact,
    /// Link to the CI artifact backing the criterion.
    pub ci_artifact_link: Option<String>,
    /// Criterion status.
    pub status: CriterionStatus,
}

impl GraduationCriterion {
    /// A pending criterion for an artifact.
    pub fn pending(artifact: QualityArtifact) -> (c: GraduationCriterion)
        ensures
            c.artifact == artifact,
            c.ci_artifact_link is None,
            c.status == CriterionStatus::Pending,
    {
        GraduationCriterion { artifact, ci_artifact_link: None, status: CriterionStatus::Pending }
    }

    /// Link a CI artifact and set the status.
    pub fn with_ci(self, link: &str, status: CriterionStatus) -> (c: GraduationCriterion)
        ensures
            c.artifact == self.artifact,
            c.ci_artifact_link matches Some(l) && l@ == link@,
            c.status == status,
    {
        GraduationCriterion {
            artifact: self.artifact,
            ci_artifact_link: Some(String::from_str(link)),
            status,
        }
    }
}

/// A graduation-criteria template for a target quality bar.
#[derive(Debug, Clone, PartialEq, Eq)]
pub struct GraduationCriteriaTemplate {
    /// Target quality bar.
    pub target_bar: QualityBar,
    /// Criteria (one per required quality artifact).
    pub criteria: Vec<GraduationCriterion>,
}

/// The first criterion for `artifact`, if any.
pub open spec fn criterion_lookup(
    criteria: Seq<GraduationCriterion>,
    artifact: QualityArtifact,
) -> Option<GraduationCriterion>
    decreases criteria.len(),
{
    if criteria.len() == 0 {
        None
    } else {
        let prev = criterion_lookup(criteria.drop_last(), artifact);
        if prev is Some {
            prev
        } else if criteria.last().artifact == artifact {
            Some(criteria.last())
        } else {
            None
        }
    }
}

proof fn lemma_criterion_prefix(criteria: Seq<GraduationCriterion>, a: QualityArtifact, n: int)
    requires
        0 <= n <= criteria.len(),
        criterion_lookup(criteria.take(n), a) is Some,
    ensures
        criterion_lookup(criteria, a) == criterion_lookup(criteria.take(n), a),
    decreases criteria.len(),
{
    if n < criteria.len() {
        assert(criteria.drop_last().take(n) =~= criteria.take(n));
        lemma_criterion_prefix(criteria.drop_last(), a, n);
    } else {
        assert(criteria.take(n) =~= criteria);
    }
}

impl GraduationCriteriaTemplate {
    /// Look up a criterion by artifact (the first one).
    pub fn criterion(&self, artifact: QualityArtifact) -> (c: Option<&GraduationCriterion>)
        ensures
            match c {
                None => criterion_lookup(self.criteria@, artifact) is None,
                Some(x) => criterion_lookup(self.criteria@, artifact) == Some(*x),
            },
    {
        let mut i: usize = 0;
        while i < self.criteria.len()
            invariant
                i <= self.criteria@.len(),
                criterion_lookup(self.criteria@.take(i as int), artifact) is None,
            decreases self.criteria@.len() - i,
        {
            proof {
                assert(self.criteria@.take(i as int + 1).drop_last() =~= self.criteria@.take(
                    i as int,
                ));
            }
            if self.criteria[i].artifact == artifact {
                proof {
                    lemma_criterion_prefix(self.criteria@, artifact, i as int + 1);
                }
                return Some(&self.criteria[i]);
            }
            i = i + 1;
        }
        proof {
            assert(self.criteria@.take(i as int) =~= self.criteria@);
        }
        None
    }
}

/// The artifacts of `input` among the first `k` artifacts of declaration
/// order, in that order (sorted, duplicates removed).
pub open spec fn sorted_artifacts_upto(input: Seq<QualityArtifact>, k: int) -> Seq<QualityArtifact>
    decreases k,
{
    if k <= 0 {
        Seq::empty()
    } else {
        sorted_artifacts_upto(input, k - 1) + if input.contains(artifact_at(k - 1)) {
            seq![artifact_at(k - 1)]
        } else {
            Seq::empty()
        }
    }
}

/// The quality artifacts a bar requires: the distinct artifacts of its
/// default requirement, in declaration order.
pub open spec fn required_artifacts_spec(bar: QualityBar) -> Seq<QualityArtifact> {
    sorted_artifacts_upto(default_artifacts(bar), 5)
}

/// The quality artifacts a bar requires (from the milestone-policy
/// defaults), sorted and deduplicated.
pub fn required_artifacts_for(bar: QualityBar) -> (v: Vec<QualityArtifact>)
    ensures
        v@ == required_artifacts_spec(bar),
{
    let reqs = default_quality_bar_requirements();
    let mut idx: usize = 0;
    while idx < 4 && reqs[idx].level != bar
        invariant
            idx <= 4,
            reqs@.len() == 4,
            forall|k: int| 0 <= k < 4 ==> (#[trigger] reqs@[k]).level == crate::milestone_policy::bar_of_rank(k),
            forall|k: int| 0 <= k < idx ==> (#[trigger] reqs@[k]).level != bar,
        decreases 4 - idx,
    {
        idx = idx + 1;
    }
    proof {
        if idx == 4 {
            let k = bar.rank_spec() as int;
            assert(reqs@[k].level == bar);
        }
        assert(crate::milestone_policy::is_default_requirement(reqs@[idx as int]));
    }
    let input = &reqs[idx].required_artifacts;
    let all = QualityArtifact::all();
    let mut out: Vec<QualityArtifact> = Vec::new();
    let mut k: usize = 0;
    while k < 5
        invariant
            k <= 5,
            all@.len() == 5,
            forall|m: int| 0 <= m < 5 ==> #[trigger] all@[m] == artifact_at(m),
            input@ == default_artifacts(bar),
            out@ == sorted_artifacts_upto(input@, k as int),
        decreases 5 - k,
    {
        let a = all[k];
        let mut present = false;
        let mut j: usize = 0;
        while j < input.len()
            invariant
                j <= input@.len(),
                present <==> exists|m: int| 0 <= m < j && input@[m] == a,
            decreases input@.len() - j,
        {
            if input[j] == a {
                present = true;
            }
            j = j + 1;
        }
        if present {
            out.push(a);
        }
        proof {
            assert(out@ =~= sorted_artifacts_upto(input@, k as int + 1));
        }
        k = k + 1;
    }
    out
}

/// The pending criteria for the first `n` artifacts of `arts`.
pub open spec fn pending_criteria(arts: Seq<QualityArtifact>) -> Seq<GraduationCriterion> {
    arts.map_values(|a: QualityArtifact| GraduationCriterion {
        artifact: a,
        ci_artifact_link: None,
        status: CriterionStatus::Pending,
    })
}

/// Generate a pending graduation-criteria template for a target bar, with
/// one criterion per artifact the bar requires.
pub fn generate_graduation_template(target_bar: QualityBar) -> (t: GraduationCriteriaTemplate)
    ensures
        t.target_bar == target_bar,
        t.criteria@ == pending_criteria(required_artifacts_spec(target_bar)),
{
    let required = required_artifacts_for(target_bar);
    let mut criteria: Vec<GraduationCriterion> = Vec::new();
    let mut i: usize = 0;
    while i < required.len()
        invariant
            i <= required@.len(),
            criteria@ == pending_criteria(required@.take(i as int)),
        decreases required@.len() - i,
    {
        criteria.push(GraduationCriterion::pending(required[i]));
        proof {
            assert(pending_criteria(required@.take(i as int + 1)) =~= pending_criteria(
                required@.take(i as int),
            ).push(
                GraduationCriterion {
                    artifact: required@[i as int],
                    ci_artifact_link: None,
                    status: CriterionStatus::Pending,
                },
            ));
        }
        i = i + 1;
    }
    proof {
        assert(required@.take(i as int) =~= required@);
    }
    GraduationCriteriaTemplate { target_bar, criteria }
}

proof fn lemma_criterion_lookup_pending(arts: Seq<QualityArtifact>, a: QualityArtifact)
    requires
        arts.contains(a),
    ensures
        criterion_lookup(pending_criteria(arts), a) is Some,
    decreases arts.len(),
{
    let p = pending_criteria(arts);
    assert(p.drop_last() =~= pending_criteria(arts.drop_last()));
    if arts.last() != a {
        let i = choose|i: int| 0 <= i < arts.len() && arts[i] == a;
        assert(arts.drop_last()[i] == a);
        lemma_criterion_lookup_pending(arts.drop_last(), a);
    }
}

/// A generated template covers its bar: every artifact the bar requires has
/// a criterion in the template.
pub proof fn law_generated_template_covers_bar(bar: QualityBar, a: QualityArtifact)
    requires
        required_artifacts_spec(bar).contains(a),
    ensures
        criterion_lookup(pending_criteria(required_artifacts_spec(bar)), a) is Some,
{
    lemma_criterion_lookup_pending(required_artifacts_spec(bar), a);
}

// ── Size / effort ────────────────────────────────────────────────────────

/// Effort band of an implementation.
#[derive(Debug, Clone, Copy, PartialEq, Eq, PartialOrd, Ord, Hash, Structural)]
pub enum EffortSize {
    /// Under a hundred lines.
    Small,
    /// A few hundred lines.
    Medium,
    /// Up to two thousand lines.
    Large,
    /// Two thousand lines or more.
    XLarge,
}

impl EffortSize {
    /// Stable lowercase tag.
    pub open spec fn tag(self) -> Seq<char> {
        match self {
            EffortSize::Small => "small"@,
            EffortSize::Medium => "medium"@,
            EffortSize::Large => "large"@,
            EffortSize::XLarge => "xlarge"@,
        }
    }

    /// Stable lowercase tag.
    pub fn as_str(self) -> (s: &'static str)
        ensures
            s@ == self.tag(),
    {
        match self {
            EffortSize::Small => "small",
            EffortSize::Medium => "medium",
            EffortSize::Large => "large",
            EffortSize::XLarge => "xlarge",
        }
    }

    /// Position in the band order.
    pub open spec fn rank(self) -> int {
        match self {
            EffortSize::Small => 0,
            EffortSize::Medium => 1,
            EffortSize::Large => 2,
            EffortSize::XLarge => 3,
        }
    }
}

/// An implementation-size estimate.
#[derive(Debug, Clone, PartialEq, Eq)]
pub struct SizeEstimate {
    /// Estimated lines of code.
    pub loc: u32,
    /// Declared effort band.
    pub declared_effort: EffortSize,
}

impl SizeEstimate {
    /// Build a size estimate.
    pub fn new(loc: u32, declared_effort: EffortSize) -> (s: SizeEstimate)
        ensures
            s.loc == loc,
            s.declared_effort == declared_effort,
    {
        SizeEstimate { loc, declared_effort }
    }
}

/// The effort band of a LOC count.
pub open spec fn effort_band(loc: u32) -> EffortSize {
    if loc <= 99 {
        EffortSize::Small
    } else if loc <= 499 {
        EffortSize::Medium
    } else if loc <= 1999 {
        EffortSize::Large
    } else {
        EffortSize::XLarge
    }
}

/// Map a LOC count to an effort band.
pub fn estimate_effort_band(loc: u32) -> (e: EffortSize)
    ensures
        e == effort_band(loc),
{
    if loc <= 99 {
        EffortSize::Small
    } else if loc <= 499 {
        EffortSize::Medium
    } else if loc <= 1999 {
        EffortSize::Large
    } else {
        EffortSize::XLarge
    }
}

/// More code never lands in a smaller effort band.
pub proof fn law_effort_band_monotone(a: u32, b: u32)
    requires
        a <= b,
    ensures
        effort_band(a).rank() <= effort_band(b).rank(),
{
}

/// The EV penalty of an effort band, in tenths of an EV point
/// (0, 0.5, 1.5 and 3.0 points).
pub open spec fn penalty_tenths(effort: EffortSize) -> u32 {
    match effort {
        EffortSize::Small => 0,
        EffortSize::Medium => 5,
        EffortSize::Large => 15,
        EffortSize::XLarge => 30,
    }
}

/// The EV penalty applied for an effort band, in tenths of an EV point.
pub fn ev_effort_penalty_tenths(effort: EffortSize) -> (p: u32)
    ensures
        p == penalty_tenths(effort),
{
    match effort {
        EffortSize::Small => 0,
        EffortSize::Medium => 5,
        EffortSize::Large => 15,
        EffortSize::XLarge => 30,
    }
}

/// A larger effort band never carries a smaller penalty.
pub proof fn law_penalty_monotone(a: EffortSize, b: EffortSize)
    requires
        a.rank() <= b.rank(),
    ensures
        penalty_tenths(a) <= penalty_tenths(b),
{
}

} // verus!
