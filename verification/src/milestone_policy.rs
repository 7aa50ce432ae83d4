//! Quality-bar policy per milestone: the tiers, math families, quality
//! artifacts and bars, the default requirement bundles, and the
//! weakest-link quality-bar evaluation of a milestone's cards.
//!
//! Quality bars climb `Bronze -> Silver -> Gold -> Platinum`; each level
//! requires a bundle of graduation artifacts plus, at the higher bars, a
//! reproducibility proof and a fallback-validation proof, and a minimum
//! priority tier. A card earns the highest bar whose requirement it meets; a
//! milestone earns the weakest bar of its cards.

use vstd::prelude::*;
use vstd::string::*;

use crate::text::{cat3, decimal, is_blank, string_views, usize_to_string};

verus! {

/// Schema version for milestone-policy reports.
pub const MILESTONE_POLICY_SCHEMA_VERSION: &'static str = "milestone-policy-v1";

/// Priority tier for a recommendation card (`S` is highest).
#[derive(Debug, Clone, Copy, PartialEq, Eq, PartialOrd, Ord, Hash, Structural)]
pub enum PriorityTier {
    /// Flagship, top-ROI uplift.
    S,
    /// High-value uplift.
    A,
    /// Moderate-value uplift.
    B,
    /// Speculative / low-value uplift.
    C,
}

impl PriorityTier {
    /// Stable lowercase tag.
    pub open spec fn tag(self) -> Seq<char> {
        match self {
            PriorityTier::S => "s"@,
            PriorityTier::A => "a"@,
            PriorityTier::B => "b"@,
            PriorityTier::C => "c"@,
        }
    }

    /// Stable lowercase tag.
    pub fn as_str(self) -> (s: &'static str)
        ensures
            s@ == self.tag(),
    {
        match self {
            PriorityTier::S => "s",
            PriorityTier::A => "a",
            PriorityTier::B => "b",
            PriorityTier::C => "c",
        }
    }

    /// Ordering rank (`S = 3` highest, `C = 0` lowest).
    pub open spec fn rank_spec(self) -> u8 {
        match self {
            PriorityTier::S => 3,
            PriorityTier::A => 2,
            PriorityTier::B => 1,
            PriorityTier::C => 0,
        }
    }

    /// Ordering rank (`S = 3` highest, `C = 0` lowest).
    pub fn rank(self) -> (r: u8)
        ensures
            r == self.rank_spec(),
    {
        match self {
            PriorityTier::S => 3,
            PriorityTier::A => 2,
            PriorityTier::B => 1,
            PriorityTier::C => 0,
        }
    }

    /// All tiers from highest to lowest.
    pub fn all() -> (a: [PriorityTier; 4])
        ensures
            a@ == seq![PriorityTier::S, PriorityTier::A, PriorityTier::B, PriorityTier::C],
    {
        let a = [PriorityTier::S, PriorityTier::A, PriorityTier::B, PriorityTier::C];
        assert(a@ =~= seq![PriorityTier::S, PriorityTier::A, PriorityTier::B, PriorityTier::C]);
        a
    }
}

/// The math family a primitive draws from, used for branch-diversity checks.
#[derive(Debug, Clone, Copy, PartialEq, Eq, PartialOrd, Ord, Hash, Structural)]
pub enum MathFamily {
    /// Symbolic methods.
    Symbolic,
    /// Probabilistic / Bayesian methods.
    Probabilistic,
    /// Search and combinatorial optimization.
    SearchOptimization,
    /// Formal analysis.
    FormalAnalysis,
    /// Control theory and dynamical systems.
    ControlDynamics,
    /// Numerical linear algebra and matrix methods.
    NumericalLinearAlgebra,
    /// Coding / information theory.
    CodingTheory,
    /// Anything not covered by a dedicated family.
    Other,
}

impl MathFamily {
    /// Stable lowercase tag.
    pub open spec fn tag(self) -> Seq<char> {
        match self {
            MathFamily::Symbolic => "symbolic"@,
            MathFamily::Probabilistic => "probabilistic"@,
            MathFamily::SearchOptimization => "search_optimization"@,
            MathFamily::FormalAnalysis => "formal_analysis"@,
            MathFamily::ControlDynamics => "control_dynamics"@,
            MathFamily::NumericalLinearAlgebra => "numerical_linear_algebra"@,
            MathFamily::CodingTheory => "coding_theory"@,
            MathFamily::Other => "other"@,
        }
    }

    /// Stable lowercase tag.
    pub fn as_str(self) -> (s: &'static str)
        ensures
            s@ == self.tag(),
    {
        match self {
            MathFamily::Symbolic => "symbolic",
            MathFamily::Probabilistic => "probabilistic",
            MathFamily::SearchOptimization => "search_optimization",
            MathFamily::FormalAnalysis => "formal_analysis",
            MathFamily::ControlDynamics => "control_dynamics",
            MathFamily::NumericalLinearAlgebra => "numerical_linear_algebra",
            MathFamily::CodingTheory => "coding_theory",
            MathFamily::Other => "other",
        }
    }
}

/// A graduation-criteria artifact that backs a quality-bar promotion.
#[derive(Debug, Clone, Copy, PartialEq, Eq, PartialOrd, Ord, Hash, Structural)]
pub enum QualityArtifact {
    /// Performance evidence.
    Performance,
    /// Correctness evidence.
    Correctness,
    /// Ergonomics evidence.
    Ergonomics,
    /// Ecosystem evidence (crate adoption decision record).
    Ecosystem,
    /// Documentation evidence.
    Docs,
}

/// The artifact at position `k` of the declaration order.
pub open spec fn artifact_at(k: int) -> QualityArtifact {
    if k == 0 {
        QualityArtifact::Performance
    } else if k == 1 {
        QualityArtifact::Correctness
    } else if k == 2 {
        QualityArtifact::Ergonomics
    } else if k == 3 {
        QualityArtifact::Ecosystem
    } else {
        QualityArtifact::Docs
    }
}

impl QualityArtifact {
    /// Position in declaration order (the derived ordering).
    pub open spec fn rank(self) -> int {
        match self {
            QualityArtifact::Performance => 0,
            QualityArtifact::Correctness => 1,
            QualityArtifact::Ergonomics => 2,
            QualityArtifact::Ecosystem => 3,
            QualityArtifact::Docs => 4,
        }
    }

    /// Every artifact, in declaration order.
    pub fn all() -> (v: Vec<QualityArtifact>)
        ensures
            v@.len() == 5,
            forall|k: int| 0 <= k < 5 ==> #[trigger] v@[k] == artifact_at(k),
    {
        vec![
            QualityArtifact::Performance,
            QualityArtifact::Correctness,
            QualityArtifact::Ergonomics,
            QualityArtifact::Ecosystem,
            QualityArtifact::Docs,
        ]
    }

    /// Stable lowercase tag.
    pub open spec fn tag(self) -> Seq<char> {
        match self {
            QualityArtifact::Performance => "performance"@,
            QualityArtifact::Correctness => "correctness"@,
            QualityArtifact::Ergonomics => "ergonomics"@,
            QualityArtifact::Ecosystem => "ecosystem"@,
            QualityArtifact::Docs => "docs"@,
        }
    }

    /// Stable lowercase tag.
    pub fn as_str(self) -> (s: &'static str)
        ensures
            s@ == self.tag(),
    {
        match self {
            QualityArtifact::Performance => "performance",
            QualityArtifact::Correctness => "correctness",
            QualityArtifact::Ergonomics => "ergonomics",
            QualityArtifact::Ecosystem => "ecosystem",
            QualityArtifact::Docs => "docs",
        }
    }
}

/// Quality-bar level (`Bronze` lowest, `Platinum` highest).
#[derive(Debug, Clone, Copy, PartialEq, Eq, PartialOrd, Ord, Hash, Structural)]
pub enum QualityBar {
    /// Entry level.
    Bronze,
    /// Production-candidate level.
    Silver,
    /// Hardened level.
    Gold,
    /// Flagship, fully certified level.
    Platinum,
}

impl QualityBar {
    /// Stable lowercase tag.
    pub open spec fn tag(self) -> Seq<char> {
        match self {
            QualityBar::Bronze => "bronze"@,
            QualityBar::Silver => "silver"@,
            QualityBar::Gold => "gold"@,
            QualityBar::Platinum => "platinum"@,
        }
    }

    /// Stable lowercase tag.
    pub fn as_str(self) -> (s: &'static str)
        ensures
            s@ == self.tag(),
    {
        match self {
            QualityBar::Bronze => "bronze",
            QualityBar::Silver => "silver",
            QualityBar::Gold => "gold",
            QualityBar::Platinum => "platinum",
        }
    }

    /// Ordering rank (`Bronze = 0`, `Platinum = 3`).
    pub open spec fn rank_spec(self) -> u8 {
        match self {
            QualityBar::Bronze => 0,
            QualityBar::Silver => 1,
            QualityBar::Gold => 2,
            QualityBar::Platinum => 3,
        }
    }

    /// Ordering rank (`Bronze = 0`, `Platinum = 3`).
    pub fn rank(self) -> (r: u8)
        ensures
            r == self.rank_spec(),
    {
        match self {
            QualityBar::Bronze => 0,
            QualityBar::Silver => 1,
            QualityBar::Gold => 2,
            QualityBar::Platinum => 3,
        }
    }

    /// All bars from highest to lowest.
    pub fn all_descending() -> (a: [QualityBar; 4])
        ensures
            a@ == seq![QualityBar::Platinum, QualityBar::Gold, QualityBar::Silver, QualityBar::Bronze],
    {
        let a = [QualityBar::Platinum, QualityBar::Gold, QualityBar::Silver, QualityBar::Bronze];
        assert(a@ =~= seq![
            QualityBar::Platinum,
            QualityBar::Gold,
            QualityBar::Silver,
            QualityBar::Bronze,
        ]);
        a
    }
}

/// The bar of rank `r` (`0..=3`).
pub open spec fn bar_of_rank(r: int) -> QualityBar {
    if r <= 0 {
        QualityBar::Bronze
    } else if r == 1 {
        QualityBar::Silver
    } else if r == 2 {
        QualityBar::Gold
    } else {
        QualityBar::Platinum
    }
}

/// Required artifacts and proofs for one quality-bar level.
#[derive(Debug, Clone, PartialEq)]
pub struct QualityBarRequirement {
    /// The level these requirements gate.
    pub level: QualityBar,
    /// Graduation artifacts every card must present to reach this level.
    pub required_artifacts: Vec<QualityArtifact>,
    /// Whether a reproducibility proof is required.
    pub require_reproducibility: bool,
    /// Whether a fallback-validation proof is required.
    pub require_fallback_validation: bool,
    /// Minimum priority tier a card must hold to reach this level.
    pub min_tier: PriorityTier,
}

/// The default artifact bundle of a level.
pub open spec fn default_artifacts(level: QualityBar) -> Seq<QualityArtifact> {
    match level {
        QualityBar::Bronze => seq![QualityArtifact::Correctness],
        QualityBar::Silver => seq![QualityArtifact::Correctness, QualityArtifact::Docs],
        QualityBar::Gold => seq![
            QualityArtifact::Performance,
            QualityArtifact::Correctness,
            QualityArtifact::Docs,
            QualityArtifact::Ecosystem,
        ],
        QualityBar::Platinum => seq![
            QualityArtifact::Performance,
            QualityArtifact::Correctness,
            QualityArtifact::Docs,
            QualityArtifact::Ecosystem,
            QualityArtifact::Ergonomics,
        ],
    }
}

/// The default minimum tier of a level.
pub open spec fn default_min_tier(level: QualityBar) -> PriorityTier {
    match level {
        QualityBar::Bronze => PriorityTier::C,
        QualityBar::Silver => PriorityTier::B,
        QualityBar::Gold => PriorityTier::A,
        QualityBar::Platinum => PriorityTier::S,
    }
}

/// Whether `r` is the default requirement of its level.
pub open spec fn is_default_requirement(r: QualityBarRequirement) -> bool {
    &&& r.required_artifacts@ == default_artifacts(r.level)
    &&& r.require_reproducibility == (r.level != QualityBar::Bronze)
    &&& r.require_fallback_validation == (r.level == QualityBar::Gold || r.level
        == QualityBar::Platinum)
    &&& r.min_tier == default_min_tier(r.level)
}

/// Default quality-bar requirements: artifact bundles grow with the level.
pub fn default_quality_bar_requirements() -> (v: Vec<QualityBarRequirement>)
    ensures
        v@.len() == 4,
        forall|k: int| 0 <= k < 4 ==> (#[trigger] v@[k]).level == bar_of_rank(k),
        forall|k: int| 0 <= k < 4 ==> is_default_requirement(#[trigger] v@[k]),
{
    let bronze = QualityBarRequirement {
        level: QualityBar::Bronze,
        required_artifacts: vec![QualityArtifact::Correctness],
        require_reproducibility: false,
        require_fallback_validation: false,
        min_tier: PriorityTier::C,
    };
    let silver = QualityBarRequirement {
        level: QualityBar::Silver,
        required_artifacts: vec![QualityArtifact::Correctness, QualityArtifact::Docs],
        require_reproducibility: true,
        require_fallback_validation: false,
        min_tier: PriorityTier::B,
    };
    let gold = QualityBarRequirement {
        level: QualityBar::Gold,
        required_artifacts: vec![
            QualityArtifact::Performance,
            QualityArtifact::Correctness,
            QualityArtifact::Docs,
            QualityArtifact::Ecosystem,
        ],
        require_reproducibility: true,
        require_fallback_validation: true,
        min_tier: PriorityTier::A,
    };
    let platinum = QualityBarRequirement {
        level: QualityBar::Platinum,
        required_artifacts: vec![
            QualityArtifact::Performance,
            QualityArtifact::Correctness,
            QualityArtifact::Docs,
            QualityArtifact::Ecosystem,
            QualityArtifact::Ergonomics,
        ],
        require_reproducibility: true,
        require_fallback_validation: true,
        min_tier: PriorityTier::S,
    };
    proof {
        assert(bronze.required_artifacts@ =~= default_artifacts(QualityBar::Bronze));
        assert(silver.required_artifacts@ =~= default_artifacts(QualityBar::Silver));
        assert(gold.required_artifacts@ =~= default_artifacts(QualityBar::Gold));
        assert(platinum.required_artifacts@ =~= default_artifacts(QualityBar::Platinum));
    }
    let v = vec![bronze, silver, gold, platinum];
    v
}

/// Machine-readable code for a policy violation.
#[derive(Debug, Clone, Copy, PartialEq, Eq, Structural)]
pub enum ViolationCode {
    /// A card is missing its baseline comparator.
    MissingBaselineComparator,
    /// A card is missing its adoption wedge.
    MissingAdoptionWedge,
    /// A card's EV is below the floor of the tier it claims.
    EvTierMismatch,
    /// The milestone spans too few distinct math families.
    InsufficientBranchDiversity,
    /// One math family dominates the milestone.
    HeuristicMonoculture,
    /// The milestone's achieved quality bar is below its target.
    QualityBarShortfall,
    /// The milestone has no cards.
    EmptyMilestone,
}

impl ViolationCode {
    /// Stable lowercase tag.
    pub open spec fn tag(self) -> Seq<char> {
        match self {
            ViolationCode::MissingBaselineComparator => "missing_baseline_comparator"@,
            ViolationCode::MissingAdoptionWedge => "missing_adoption_wedge"@,
            ViolationCode::EvTierMismatch => "ev_tier_mismatch"@,
            ViolationCode::InsufficientBranchDiversity => "insufficient_branch_diversity"@,
            ViolationCode::HeuristicMonoculture => "heuristic_monoculture"@,
            ViolationCode::QualityBarShortfall => "quality_bar_shortfall"@,
            ViolationCode::EmptyMilestone => "empty_milestone"@,
        }
    }

    /// Stable lowercase tag.
    pub fn as_str(self) -> (s: &'static str)
        ensures
            s@ == self.tag(),
    {
        match self {
            ViolationCode::MissingBaselineComparator => "missing_baseline_comparator",
            ViolationCode::MissingAdoptionWedge => "missing_adoption_wedge",
            ViolationCode::EvTierMismatch => "ev_tier_mismatch",
            ViolationCode::InsufficientBranchDiversity => "insufficient_branch_diversity",
            ViolationCode::HeuristicMonoculture => "heuristic_monoculture",
            ViolationCode::QualityBarShortfall => "quality_bar_shortfall",
            ViolationCode::EmptyMilestone => "empty_milestone",
        }
    }
}

/// Whether a finding blocks the release gate or is advisory.
#[derive(Debug, Clone, Copy, PartialEq, Eq, Structural)]
pub enum PolicySeverity {
    /// Fails the release gate.
    Block,
    /// Advisory only.
    Warn,
}

impl PolicySeverity {
    /// Stable lowercase tag.
    pub open spec fn tag(self) -> Seq<char> {
        match self {
            PolicySeverity::Block => "block"@,
            PolicySeverity::Warn => "warn"@,
        }
    }

    /// Stable lowercase tag.
    pub fn as_str(self) -> (s: &'static str)
        ensures
            s@ == self.tag(),
    {
        match self {
            PolicySeverity::Block => "block",
            PolicySeverity::Warn => "warn",
        }
    }
}

// ── Quality-bar evaluation ───────────────────────────────────────────────

/// What the quality-bar evaluation reads of a recommendation card: its id,
/// claimed tier, attached artifacts and proofs.
#[derive(Debug, Clone, PartialEq, Eq)]
pub struct CardEvidence {
    /// Stable card identifier.
    pub card_id: String,
    /// Claimed priority tier.
    pub tier: PriorityTier,
    /// Graduation artifacts attached to the card.
    pub present_artifacts: Vec<QualityArtifact>,
    /// Whether a reproducibility proof is attached.
    pub reproducible: bool,
    /// Whether a fallback-validation proof is attached.
    pub fallback_validated: bool,
}

/// The first requirement for `level`, if any.
pub open spec fn requirement_for(reqs: Seq<QualityBarRequirement>, level: QualityBar) -> Option<
    QualityBarRequirement,
>
    decreases reqs.len(),
{
    if reqs.len() == 0 {
        None
    } else if reqs[0].level == level {
        Some(reqs[0])
    } else {
        requirement_for(reqs.drop_first(), level)
    }
}

/// Whether a card satisfies one requirement.
pub open spec fn meets_requirement(card: CardEvidence, req: QualityBarRequirement) -> bool {
    &&& card.tier.rank_spec() >= req.min_tier.rank_spec()
    &&& (req.require_reproducibility ==> card.reproducible)
    &&& (req.require_fallback_validation ==> card.fallback_validated)
    &&& forall|i: int|
        0 <= i < req.required_artifacts@.len() ==> card.present_artifacts@.contains(
            #[trigger] req.required_artifacts@[i],
        )
}

/// Whether a card meets a level under the given requirements (a level
/// without a requirement is never met).
pub open spec fn card_meets(
    reqs: Seq<QualityBarRequirement>,
    card: CardEvidence,
    level: QualityBar,
) -> bool {
    match requirement_for(reqs, level) {
        None => false,
        Some(req) => meets_requirement(card, req),
    }
}

/// The highest bar a card earns: the first of Platinum, Gold, Silver,
/// Bronze it meets.
pub open spec fn card_bar(reqs: Seq<QualityBarRequirement>, card: CardEvidence) -> Option<
    QualityBar,
> {
    if card_meets(reqs, card, QualityBar::Platinum) {
        Some(QualityBar::Platinum)
    } else if card_meets(reqs, card, QualityBar::Gold) {
        Some(QualityBar::Gold)
    } else if card_meets(reqs, card, QualityBar::Silver) {
        Some(QualityBar::Silver)
    } else if card_meets(reqs, card, QualityBar::Bronze) {
        Some(QualityBar::Bronze)
    } else {
        None
    }
}

fn find_requirement<'a>(reqs: &'a Vec<QualityBarRequirement>, level: QualityBar) -> (r: Option<
    &'a QualityBarRequirement,
>)
    ensures
        match r {
            None => requirement_for(reqs@, level) is None,
            Some(req) => requirement_for(reqs@, level) == Some(*req),
        },
{
    let mut i: usize = 0;
    proof {
        assert(reqs@.skip(0) =~= reqs@);
    }
    while i < reqs.len()
        invariant
            i <= reqs@.len(),
            requirement_for(reqs@, level) == requirement_for(reqs@.skip(i as int), level),
        decreases reqs@.len() - i,
    {
        proof {
            assert(reqs@.skip(i as int)[0] == reqs@[i as int]);
            assert(reqs@.skip(i as int).drop_first() =~= reqs@.skip(i as int + 1));
        }
        if reqs[i].level == level {
            return Some(&reqs[i]);
        }
        i = i + 1;
    }
    proof {
        assert(reqs@.skip(i as int).len() == 0);
    }
    None
}

fn has_artifact(card: &CardEvidence, artifact: QualityArtifact) -> (b: bool)
    ensures
        b == card.present_artifacts@.contains(artifact),
{
    let mut i: usize = 0;
    while i < card.present_artifacts.len()
        invariant
            i <= card.present_artifacts@.len(),
            forall|j: int| 0 <= j < i ==> card.present_artifacts@[j] != artifact,
        decreases card.present_artifacts@.len() - i,
    {
        if card.present_artifacts[i] == artifact {
            return true;
        }
        i = i + 1;
    }
    false
}

/// Whether a card meets a quality-bar level.
pub fn card_meets_level(
    reqs: &Vec<QualityBarRequirement>,
    card: &CardEvidence,
    level: QualityBar,
) -> (b: bool)
    ensures
        b == card_meets(reqs@, *card, level),
{
    let found = find_requirement(reqs, level);
    if found.is_none() {
        return false;
    }
    let req = found.unwrap();
    assert(requirement_for(reqs@, level) == Some(*req));
    if card.tier.rank() < req.min_tier.rank() {
        return false;
    }
    if req.require_reproducibility && !card.reproducible {
        return false;
    }
    if req.require_fallback_validation && !card.fallback_validated {
        return false;
    }
    let mut i: usize = 0;
    while i < req.required_artifacts.len()
        invariant
            i <= req.required_artifacts@.len(),
            requirement_for(reqs@, level) == Some(*req),
            card.tier.rank_spec() >= req.min_tier.rank_spec(),
            req.require_reproducibility ==> card.reproducible,
            req.require_fallback_validation ==> card.fallback_validated,
            forall|j: int|
                0 <= j < i ==> card.present_artifacts@.contains(#[trigger] req.required_artifacts@[j]),
        decreases req.required_artifacts@.len() - i,
    {
        if !has_artifact(card, req.required_artifacts[i]) {
            proof {
                assert(!card.present_artifacts@.contains(req.required_artifacts@[i as int]));
                assert(!meets_requirement(*card, *req));
            }
            return false;
        }
        i = i + 1;
    }
    true
}

/// Highest quality bar a single card earns, if any.
pub fn card_achieved_bar(reqs: &Vec<QualityBarRequirement>, card: &CardEvidence) -> (b: Option<
    QualityBar,
>)
    ensures
        b == card_bar(reqs@, *card),
{
    let levels = QualityBar::all_descending();
    let mut i: usize = 0;
    while i < 4
        invariant
            i <= 4,
            levels@ == seq![
                QualityBar::Platinum,
                QualityBar::Gold,
                QualityBar::Silver,
                QualityBar::Bronze,
            ],
            forall|j: int| 0 <= j < i ==> !card_meets(reqs@, *card, #[trigger] levels@[j]),
        decreases 4 - i,
    {
        if card_meets_level(reqs, card, levels[i]) {
            return Some(levels[i]);
        }
        i = i + 1;
    }
    None
}

/// The weaker of two optional bars (`None` is below every bar).
pub open spec fn weaker(a: Option<QualityBar>, b: Option<QualityBar>) -> Option<QualityBar> {
    match (a, b) {
        (Some(x), Some(y)) => if y.rank_spec() < x.rank_spec() {
            Some(y)
        } else {
            Some(x)
        },
        _ => None,
    }
}

/// The weakest bar among the first `n` cards, starting from Platinum.
pub open spec fn weakest_upto(
    reqs: Seq<QualityBarRequirement>,
    cards: Seq<CardEvidence>,
    n: int,
) -> Option<QualityBar>
    decreases n,
{
    if n <= 0 {
        Some(QualityBar::Platinum)
    } else {
        weaker(weakest_upto(reqs, cards, n - 1), card_bar(reqs, cards[n - 1]))
    }
}

/// The bar a milestone achieves: `None` without cards, else the weakest bar
/// of its cards.
pub open spec fn milestone_bar(reqs: Seq<QualityBarRequirement>, cards: Seq<CardEvidence>) -> Option<
    QualityBar,
> {
    if cards.len() == 0 {
        None
    } else {
        weakest_upto(reqs, cards, cards.len() as int)
    }
}

/// Whether a card holds the milestone below `target`.
pub open spec fn is_bottleneck(
    reqs: Seq<QualityBarRequirement>,
    card: CardEvidence,
    target: QualityBar,
) -> bool {
    match card_bar(reqs, card) {
        None => true,
        Some(bar) => bar.rank_spec() < target.rank_spec(),
    }
}

/// Ids of the bottleneck cards among the first `n`, in card order.
pub open spec fn bottlenecks_upto(
    reqs: Seq<QualityBarRequirement>,
    cards: Seq<CardEvidence>,
    target: QualityBar,
    n: int,
) -> Seq<Seq<char>>
    decreases n,
{
    if n <= 0 {
        Seq::empty()
    } else {
        bottlenecks_upto(reqs, cards, target, n - 1) + if is_bottleneck(reqs, cards[n - 1], target) {
            seq![cards[n - 1].card_id@]
        } else {
            Seq::empty()
        }
    }
}

/// The achieved bar of a milestone and its bottleneck card ids: a milestone
/// is as strong as its weakest card.
pub fn achieved_bar(
    reqs: &Vec<QualityBarRequirement>,
    cards: &Vec<CardEvidence>,
    target: QualityBar,
) -> (out: (Option<QualityBar>, Vec<String>))
    ensures
        out.0 == milestone_bar(reqs@, cards@),
        string_views(out.1@) == (if cards@.len() == 0 {
            Seq::empty()
        } else {
            bottlenecks_upto(reqs@, cards@, target, cards@.len() as int)
        }),
{
    if cards.len() == 0 {
        proof {
            assert(string_views(Seq::<String>::empty()) =~= Seq::<Seq<char>>::empty());
        }
        return (None, Vec::new());
    }
    let mut weakest: Option<QualityBar> = Some(QualityBar::Platinum);
    let mut bottlenecks: Vec<String> = Vec::new();
    let mut i: usize = 0;
    proof {
        assert(string_views(bottlenecks@) =~= bottlenecks_upto(reqs@, cards@, target, 0));
    }
    while i < cards.len()
        invariant
            i <= cards@.len(),
            weakest == weakest_upto(reqs@, cards@, i as int),
            string_views(bottlenecks@) == bottlenecks_upto(reqs@, cards@, target, i as int),
        decreases cards@.len() - i,
    {
        let card_bar = card_achieved_bar(reqs, &cards[i]);
        weakest = match (weakest, card_bar) {
            (Some(current), Some(bar)) => Some(if bar.rank() < current.rank() {
                bar
            } else {
                current
            }),
            _ => None,
        };
        let bottleneck = match card_bar {
            None => true,
            Some(bar) => bar.rank() < target.rank(),
        };
        if bottleneck {
            bottlenecks.push(cards[i].card_id.clone());
        }
        proof {
            assert(string_views(bottlenecks@) =~= bottlenecks_upto(
                reqs@,
                cards@,
                target,
                i as int + 1,
            ));
        }
        i = i + 1;
    }
    (weakest, bottlenecks)
}

/// `items` joined with `", "`.
pub open spec fn join_comma(items: Seq<Seq<char>>) -> Seq<char>
    decreases items.len(),
{
    if items.len() == 0 {
        Seq::empty()
    } else if items.len() == 1 {
        items[0]
    } else {
        join_comma(items.drop_last()) + ", "@ + items.last()
    }
}

/// Join strings with `", "`.
pub fn join_strings(items: &Vec<String>) -> (s: String)
    ensures
        s@ == join_comma(string_views(items@)),
{
    let mut out = String::new();
    let mut i: usize = 0;
    while i < items.len()
        invariant
            i <= items@.len(),
            out@ == join_comma(string_views(items@).take(i as int)),
        decreases items@.len() - i,
    {
        proof {
            let t = string_views(items@).take(i as int + 1);
            assert(t.drop_last() =~= string_views(items@).take(i as int));
        }
        if i > 0 {
            out.append(", ");
        }
        out.append(items[i].as_str());
        proof {
            let t = string_views(items@).take(i as int + 1);
            if i == 0 {
                assert(out@ =~= t[0]);
            }
        }
        i = i + 1;
    }
    proof {
        assert(string_views(items@).take(items@.len() as int) =~= string_views(items@));
    }
    out
}

/// Tags of the artifacts of a requirement, in order.
pub open spec fn artifact_tags(arts: Seq<QualityArtifact>) -> Seq<Seq<char>> {
    arts.map_values(|a: QualityArtifact| a.tag())
}

/// The remediation clause for a milestone that falls short of `target`.
pub open spec fn quality_bar_remediation_spec(
    reqs: Seq<QualityBarRequirement>,
    target: QualityBar,
    bottlenecks: Seq<Seq<char>>,
) -> Seq<char> {
    let cards = if bottlenecks.len() == 0 {
        "all cards"@
    } else {
        join_comma(bottlenecks)
    };
    match requirement_for(reqs, target) {
        None => "define requirements for quality bar '"@ + target.tag() + "'"@,
        Some(req) => {
            let needs = "artifacts ["@ + join_comma(artifact_tags(req.required_artifacts@)) + "]"@
                + (if req.require_reproducibility {
                ", a reproducibility proof"@
            } else {
                Seq::empty()
            }) + (if req.require_fallback_validation {
                ", a fallback-validation proof"@
            } else {
                Seq::empty()
            });
            "to reach '"@ + target.tag() + "', cards ["@ + cards + "] need "@ + needs
                + " and tier >= '"@ + req.min_tier.tag() + "'"@
        },
    }
}

/// The remediation clause for a milestone that falls short of `target`.
pub fn quality_bar_remediation(
    reqs: &Vec<QualityBarRequirement>,
    target: QualityBar,
    bottlenecks: &Vec<String>,
) -> (s: String)
    ensures
        s@ == quality_bar_remediation_spec(reqs@, target, string_views(bottlenecks@)),
{
    let cards = if bottlenecks.len() == 0 {
        String::from_str("all cards")
    } else {
        join_strings(bottlenecks)
    };
    match find_requirement(reqs, target) {
        None => cat3("define requirements for quality bar '", target.as_str(), "'"),
        Some(req) => {
            let mut tags: Vec<String> = Vec::new();
            let mut i: usize = 0;
            while i < req.required_artifacts.len()
                invariant
                    i <= req.required_artifacts@.len(),
                    string_views(tags@) == artifact_tags(req.required_artifacts@.take(i as int)),
                decreases req.required_artifacts@.len() - i,
            {
                let ghost before = tags@;
                tags.push(String::from_str(req.required_artifacts[i].as_str()));
                proof {
                    let a = req.required_artifacts@;
                    assert(a.take(i as int + 1) =~= a.take(i as int).push(a[i as int]));
                    assert(artifact_tags(a.take(i as int + 1)) =~= artifact_tags(a.take(i as int)).push(
                        a[i as int].tag(),
                    ));
                    assert(string_views(tags@) =~= string_views(before).push(a[i as int].tag()));
                }
                i = i + 1;
            }
            proof {
                assert(req.required_artifacts@.take(i as int) =~= req.required_artifacts@);
            }
            let joined = join_strings(&tags);
            let mut needs = cat3("artifacts [", joined.as_str(), "]");
            if req.require_reproducibility {
                needs.append(", a reproducibility proof");
            }
            if req.require_fallback_validation {
                needs.append(", a fallback-validation proof");
            }
            let mut out = cat3("to reach '", target.as_str(), "', cards [");
            out.append(cards.as_str());
            out.append("] need ");
            out.append(needs.as_str());
            out.append(" and tier >= '");
            out.append(req.min_tier.as_str());
            out.append("'");
            proof {
                let ghost n1 = "artifacts ["@ + join_comma(artifact_tags(req.required_artifacts@))
                    + "]"@;
                assert(needs@ =~= n1 + (if req.require_reproducibility {
                    ", a reproducibility proof"@
                } else {
                    Seq::empty()
                }) + (if req.require_fallback_validation {
                    ", a fallback-validation proof"@
                } else {
                    Seq::empty()
                }));
            }
            out
        },
    }
}

// ── Policy violations ────────────────────────────────────────────────────

/// A policy violation on a milestone or one of its cards.
#[derive(Debug, Clone, PartialEq, Eq)]
pub struct PolicyViolation {
    /// Machine-readable code.
    pub code: ViolationCode,
    /// Severity.
    pub severity: PolicySeverity,
    /// The milestone the violation belongs to.
    pub milestone_id: String,
    /// The card at fault, when one is.
    pub card_id: Option<String>,
    /// Human-readable detail.
    pub detail: String,
    /// Actionable remediation clause.
    pub remediation: String,
}

/// The mathematical content of a violation.
pub struct PolicyViolationView {
    pub code: ViolationCode,
    pub severity: PolicySeverity,
    pub milestone_id: Seq<char>,
    pub card_id: Option<Seq<char>>,
    pub detail: Seq<char>,
    pub remediation: Seq<char>,
}

impl View for PolicyViolation {
    type V = PolicyViolationView;

    open spec fn view(&self) -> PolicyViolationView {
        PolicyViolationView {
            code: self.code,
            severity: self.severity,
            milestone_id: self.milestone_id@,
            card_id: match self.card_id {
                Some(c) => Some(c@),
                None => None,
            },
            detail: self.detail@,
            remediation: self.remediation@,
        }
    }
}

/// A blocking violation with the given content.
pub open spec fn blocking_view(
    code: ViolationCode,
    milestone_id: Seq<char>,
    card_id: Option<Seq<char>>,
    detail: Seq<char>,
    remediation: Seq<char>,
) -> PolicyViolationView {
    PolicyViolationView { code, severity: PolicySeverity::Block, milestone_id, card_id, detail, remediation }
}

/// The views of a list of violations.
pub open spec fn violation_views(v: Seq<PolicyViolation>) -> Seq<PolicyViolationView> {
    v.map_values(|x: PolicyViolation| x@)
}

/// The completeness violations of one card: a blank baseline comparator,
/// then a blank adoption wedge.
pub open spec fn card_field_spec(
    milestone_id: Seq<char>,
    card_id: Seq<char>,
    baseline_comparator: Seq<char>,
    adoption_wedge: Seq<char>,
) -> Seq<PolicyViolationView> {
    (if is_blank(baseline_comparator) {
        seq![
            blocking_view(
                ViolationCode::MissingBaselineComparator,
                milestone_id,
                Some(card_id),
                "card '"@ + card_id + "' declares no baseline comparator"@,
                "card '"@ + card_id + "': declare the baseline_comparator this uplift is measured against"@,
            ),
        ]
    } else {
        Seq::empty()
    }) + (if is_blank(adoption_wedge) {
        seq![
            blocking_view(
                ViolationCode::MissingAdoptionWedge,
                milestone_id,
                Some(card_id),
                "card '"@ + card_id + "' declares no adoption wedge"@,
                "card '"@ + card_id + "': declare the adoption_wedge (how this lands in production)"@,
            ),
        ]
    } else {
        Seq::empty()
    })
}

fn blocking_violation(
    code: ViolationCode,
    milestone_id: &str,
    card_id: Option<String>,
    detail: String,
    remediation: String,
) -> (v: PolicyViolation)
    ensures
        v@ == blocking_view(
            code,
            milestone_id@,
            match card_id {
                Some(c) => Some(c@),
                None => None,
            },
            detail@,
            remediation@,
        ),
{
    PolicyViolation {
        code,
        severity: PolicySeverity::Block,
        milestone_id: String::from_str(milestone_id),
        card_id,
        detail,
        remediation,
    }
}

/// The completeness violations of one card: a blank baseline comparator,
/// then a blank adoption wedge, each blocking.
pub fn card_field_violations(
    milestone_id: &str,
    card_id: &str,
    baseline_comparator: &str,
    adoption_wedge: &str,
) -> (v: Vec<PolicyViolation>)
    ensures
        violation_views(v@) == card_field_spec(milestone_id@, card_id@, baseline_comparator@, adoption_wedge@),
{
    let mut v: Vec<PolicyViolation> = Vec::new();
    if crate::text::str_is_blank(baseline_comparator) {
        v.push(
            blocking_violation(
                ViolationCode::MissingBaselineComparator,
                milestone_id,
                Some(String::from_str(card_id)),
                cat3("card '", card_id, "' declares no baseline comparator"),
                cat3(
                    "card '",
                    card_id,
                    "': declare the baseline_comparator this uplift is measured against",
                ),
            ),
        );
    }
    let ghost first = v@;
    if crate::text::str_is_blank(adoption_wedge) {
        v.push(
            blocking_violation(
                ViolationCode::MissingAdoptionWedge,
                milestone_id,
                Some(String::from_str(card_id)),
                cat3("card '", card_id, "' declares no adoption wedge"),
                cat3("card '", card_id, "': declare the adoption_wedge (how this lands in production)"),
            ),
        );
    }
    proof {
        assert(violation_views(v@) =~= card_field_spec(
            milestone_id@,
            card_id@,
            baseline_comparator@,
            adoption_wedge@,
        ));
    }
    v
}

/// The violation of a milestone with no cards.
pub fn empty_milestone_violation(milestone_id: &str, min_distinct_math_families: usize) -> (v: PolicyViolation)
    ensures
        v@ == blocking_view(
            ViolationCode::EmptyMilestone,
            milestone_id@,
            None,
            "milestone declares no recommendation cards"@,
            "add at least "@ + decimal(min_distinct_math_families as nat)
                + " cards spanning distinct math families"@,
        ),
{
    let n = usize_to_string(min_distinct_math_families);
    blocking_violation(
        ViolationCode::EmptyMilestone,
        milestone_id,
        None,
        String::from_str("milestone declares no recommendation cards"),
        cat3("add at least ", n.as_str(), " cards spanning distinct math families"),
    )
}

/// The tags of a list of families.
pub open spec fn family_tags(families: Seq<MathFamily>) -> Seq<Seq<char>> {
    families.map_values(|f: MathFamily| f.tag())
}

/// The branch-diversity violation of a milestone whose cards span the
/// distinct `families`: present exactly when they are fewer than required.
pub open spec fn diversity_spec(
    milestone_id: Seq<char>,
    families: Seq<MathFamily>,
    min_distinct: nat,
) -> Option<PolicyViolationView> {
    if families.len() < min_distinct {
        Some(
            blocking_view(
                ViolationCode::InsufficientBranchDiversity,
                milestone_id,
                None,
                "milestone spans "@ + decimal(families.len()) + " math families ["@ + join_comma(
                    family_tags(families),
                ) + "], need >= "@ + decimal(min_distinct),
                "add cards from "@ + decimal((min_distinct - families.len()) as nat)
                    + " more math families to break heuristic monoculture"@,
            ),
        )
    } else {
        None
    }
}

/// The branch-diversity violation of a milestone whose cards span the
/// distinct `families`, if they are fewer than required.
pub fn diversity_count_violation(
    milestone_id: &str,
    families: &Vec<MathFamily>,
    min_distinct_math_families: usize,
) -> (v: Option<PolicyViolation>)
    ensures
        match v {
            None => diversity_spec(milestone_id@, families@, min_distinct_math_families as nat) is None,
            Some(x) => diversity_spec(milestone_id@, families@, min_distinct_math_families as nat)
                == Some(x@),
        },
{
    let count = families.len();
    if count >= min_distinct_math_families {
        return None;
    }
    let mut tags: Vec<String> = Vec::new();
    let mut i: usize = 0;
    while i < families.len()
        invariant
            i <= families@.len(),
            string_views(tags@) == family_tags(families@).take(i as int),
        decreases families@.len() - i,
    {
        let ghost before = tags@;
        tags.push(String::from_str(families[i].as_str()));
        proof {
            assert(string_views(tags@) =~= string_views(before).push(families@[i as int].tag()));
            assert(family_tags(families@).take(i as int + 1) =~= family_tags(families@).take(
                i as int,
            ).push(families@[i as int].tag()));
        }
        i = i + 1;
    }
    proof {
        assert(family_tags(families@).take(families@.len() as int) =~= family_tags(families@));
    }
    let listed = join_strings(&tags);
    let mut detail = String::from_str("milestone spans ");
    detail.append(usize_to_string(count).as_str());
    detail.append(" math families [");
    detail.append(listed.as_str());
    detail.append("], need >= ");
    detail.append(usize_to_string(min_distinct_math_families).as_str());
    let more = usize_to_string(min_distinct_math_families - count);
    let remediation = cat3(
        "add cards from ",
        more.as_str(),
        " more math families to break heuristic monoculture",
    );
    Some(
        blocking_violation(
            ViolationCode::InsufficientBranchDiversity,
            milestone_id,
            None,
            detail,
            remediation,
        ),
    )
}

/// The tag of an achieved bar, `unrated` when the milestone earns none.
pub open spec fn achieved_tag(achieved: Option<QualityBar>) -> Seq<char> {
    match achieved {
        Some(bar) => bar.tag(),
        None => "unrated"@,
    }
}

/// Whether an achieved bar reaches the target.
pub open spec fn meets_target(achieved: Option<QualityBar>, target: QualityBar) -> bool {
    match achieved {
        Some(bar) => bar.rank_spec() >= target.rank_spec(),
        None => false,
    }
}

/// The quality-bar shortfall of a non-empty milestone: present exactly when
/// its achieved bar does not reach the target.
pub open spec fn shortfall_spec(
    reqs: Seq<QualityBarRequirement>,
    milestone_id: Seq<char>,
    target: QualityBar,
    achieved: Option<QualityBar>,
    bottlenecks: Seq<Seq<char>>,
) -> Option<PolicyViolationView> {
    if meets_target(achieved, target) {
        None
    } else {
        Some(
            blocking_view(
                ViolationCode::QualityBarShortfall,
                milestone_id,
                if bottlenecks.len() > 0 {
                    Some(bottlenecks[0])
                } else {
                    None
                },
                "target quality bar '"@ + target.tag() + "' but achieved '"@ + achieved_tag(achieved)
                    + "'; bottleneck cards ["@ + join_comma(bottlenecks) + "]"@,
                quality_bar_remediation_spec(reqs, target, bottlenecks),
            ),
        )
    }
}

/// The quality-bar shortfall of a non-empty milestone, if its achieved bar
/// does not reach the target.
pub fn quality_bar_shortfall(
    reqs: &Vec<QualityBarRequirement>,
    milestone_id: &str,
    target: QualityBar,
    achieved: Option<QualityBar>,
    bottlenecks: &Vec<String>,
) -> (v: Option<PolicyViolation>)
    ensures
        match v {
            None => shortfall_spec(reqs@, milestone_id@, target, achieved, string_views(bottlenecks@))
                is None,
            Some(x) => shortfall_spec(reqs@, milestone_id@, target, achieved, string_views(bottlenecks@))
                == Some(x@),
        },
{
    let meets = match achieved {
        Some(bar) => bar.rank() >= target.rank(),
        None => false,
    };
    if meets {
        return None;
    }
    let achieved_str = match achieved {
        Some(bar) => bar.as_str(),
        None => "unrated",
    };
    let card_id = if bottlenecks.len() > 0 {
        Some(bottlenecks[0].clone())
    } else {
        None
    };
    let mut detail = String::from_str("target quality bar '");
    detail.append(target.as_str());
    detail.append("' but achieved '");
    detail.append(achieved_str);
    detail.append("'; bottleneck cards [");
    detail.append(join_strings(bottlenecks).as_str());
    detail.append("]");
    let remediation = quality_bar_remediation(reqs, target, bottlenecks);
    proof {
        if bottlenecks@.len() > 0 {
            assert(string_views(bottlenecks@)[0] == bottlenecks@[0]@);
        }
    }
    Some(
        blocking_violation(
            ViolationCode::QualityBarShortfall,
            milestone_id,
            card_id,
            detail,
            remediation,
        ),
    )
}

/// Aggregate gate counts over milestone verdicts.
#[derive(Debug, Clone, PartialEq, Eq)]
pub struct MilestonePolicySummary {
    /// Milestones evaluated.
    pub total_milestones: usize,
    /// Milestones with no blocking violation.
    pub passing_milestones: usize,
    /// Milestones with a blocking violation.
    pub blocked_milestones: usize,
    /// Blocking violations over all milestones.
    pub blocking_violation_count: usize,
    /// Advisory violations over all milestones.
    pub advisory_violation_count: usize,
}

/// Violations of severity `sev` among the first `n`.
pub open spec fn severity_count(s: Seq<PolicySeverity>, sev: PolicySeverity, n: int) -> nat
    decreases n,
{
    if n <= 0 {
        0
    } else {
        severity_count(s, sev, n - 1) + if s[n - 1] == sev {
            1nat
        } else {
            0nat
        }
    }
}

/// Whether a milestone passes: none of its violations blocks.
pub open spec fn passes_spec(s: Seq<PolicySeverity>) -> bool {
    forall|i: int| 0 <= i < s.len() ==> s[i] != PolicySeverity::Block
}

/// Sum over the first `n` milestones of their violations of severity `sev`.
pub open spec fn total_severity(ms: Seq<Vec<PolicySeverity>>, sev: PolicySeverity, n: int) -> nat
    decreases n,
{
    if n <= 0 {
        0
    } else {
        total_severity(ms, sev, n - 1) + severity_count(ms[n - 1]@, sev, ms[n - 1]@.len() as int)
    }
}

/// Passing milestones among the first `n`.
pub open spec fn passing_count(ms: Seq<Vec<PolicySeverity>>, n: int) -> nat
    decreases n,
{
    if n <= 0 {
        0
    } else {
        passing_count(ms, n - 1) + if passes_spec(ms[n - 1]@) {
            1nat
        } else {
            0nat
        }
    }
}

/// Whether a milestone with violations of these severities passes.
pub fn milestone_passes(severities: &Vec<PolicySeverity>) -> (b: bool)
    ensures
        b == passes_spec(severities@),
{
    let mut i: usize = 0;
    while i < severities.len()
        invariant
            i <= severities@.len(),
            forall|k: int| 0 <= k < i ==> severities@[k] != PolicySeverity::Block,
        decreases severities@.len() - i,
    {
        if severities[i] == PolicySeverity::Block {
            return false;
        }
        i = i + 1;
    }
    true
}

/// The summary of milestone verdicts, each given by the severities of its
/// violations (the violations of all milestones together number at most
/// `usize::MAX`).
pub fn summarize_milestones(milestones: &Vec<Vec<PolicySeverity>>) -> (s: MilestonePolicySummary)
    requires
        total_severity(milestones@, PolicySeverity::Block, milestones@.len() as int)
            + total_severity(milestones@, PolicySeverity::Warn, milestones@.len() as int)
            <= usize::MAX,
    ensures
        s.total_milestones == milestones@.len(),
        s.passing_milestones == passing_count(milestones@, milestones@.len() as int),
        s.blocked_milestones == milestones@.len() - passing_count(milestones@, milestones@.len() as int),
        s.blocking_violation_count == total_severity(
            milestones@,
            PolicySeverity::Block,
            milestones@.len() as int,
        ),
        s.advisory_violation_count == total_severity(
            milestones@,
            PolicySeverity::Warn,
            milestones@.len() as int,
        ),
{
    let ghost ms = milestones@;
    let ghost n = ms.len() as int;
    let mut passing: usize = 0;
    let mut blocking: usize = 0;
    let mut advisory: usize = 0;
    let mut i: usize = 0;
    while i < milestones.len()
        invariant
            i <= ms.len(),
            ms == milestones@,
            n == ms.len(),
            total_severity(ms, PolicySeverity::Block, n) + total_severity(ms, PolicySeverity::Warn, n)
                <= usize::MAX,
            passing == passing_count(ms, i as int),
            passing <= i,
            blocking == total_severity(ms, PolicySeverity::Block, i as int),
            advisory == total_severity(ms, PolicySeverity::Warn, i as int),
        decreases ms.len() - i,
    {
        let sev = &milestones[i];
        if milestone_passes(sev) {
            passing = passing + 1;
        }
        proof {
            lemma_totals_monotone(ms, i as int + 1, n);
        }
        let mut j: usize = 0;
        while j < sev.len()
            invariant
                i < ms.len(),
                *sev == ms[i as int],
                j <= sev@.len(),
                total_severity(ms, PolicySeverity::Block, i as int + 1) + total_severity(
                    ms,
                    PolicySeverity::Warn,
                    i as int + 1,
                ) <= usize::MAX,
                blocking == total_severity(ms, PolicySeverity::Block, i as int) + severity_count(
                    sev@,
                    PolicySeverity::Block,
                    j as int,
                ),
                advisory == total_severity(ms, PolicySeverity::Warn, i as int) + severity_count(
                    sev@,
                    PolicySeverity::Warn,
                    j as int,
                ),
            decreases sev@.len() - j,
        {
            proof {
                lemma_count_monotone(sev@, PolicySeverity::Block, j as int + 1, sev@.len() as int);
                lemma_count_monotone(sev@, PolicySeverity::Warn, j as int + 1, sev@.len() as int);
            }
            match sev[j] {
                PolicySeverity::Block => {
                    blocking = blocking + 1;
                },
                PolicySeverity::Warn => {
                    advisory = advisory + 1;
                },
            }
            j = j + 1;
        }
        i = i + 1;
    }
    MilestonePolicySummary {
        total_milestones: milestones.len(),
        passing_milestones: passing,
        blocked_milestones: milestones.len() - passing,
        blocking_violation_count: blocking,
        advisory_violation_count: advisory,
    }
}

proof fn lemma_count_monotone(s: Seq<PolicySeverity>, sev: PolicySeverity, m: int, n: int)
    requires
        0 <= m <= n,
    ensures
        severity_count(s, sev, m) <= severity_count(s, sev, n),
    decreases n - m,
{
    if m < n {
        lemma_count_monotone(s, sev, m, n - 1);
    }
}

proof fn lemma_totals_monotone(ms: Seq<Vec<PolicySeverity>>, m: int, n: int)
    requires
        0 <= m <= n,
    ensures
        total_severity(ms, PolicySeverity::Block, m) <= total_severity(ms, PolicySeverity::Block, n),
        total_severity(ms, PolicySeverity::Warn, m) <= total_severity(ms, PolicySeverity::Warn, n),
    decreases n - m,
{
    if m < n {
        lemma_totals_monotone(ms, m, n - 1);
    }
}

// ── Laws ─────────────────────────────────────────────────────────────────

/// A milestone that reaches exactly its target bar has no shortfall, for
/// every bar. More generally, on the ladder Bronze < Silver < Gold <
/// Platinum, a milestone has no shortfall exactly when it earned a bar at or
/// above its target; otherwise (a lower bar, or no bar at all) the shortfall
/// is a blocking quality-bar violation.
pub proof fn law_shortfall_only_below_target(
    reqs: Seq<QualityBarRequirement>,
    milestone_id: Seq<char>,
    target: QualityBar,
    achieved: Option<QualityBar>,
    bottlenecks: Seq<Seq<char>>,
)
    ensures
        shortfall_spec(reqs, milestone_id, target, Some(target), bottlenecks) is None,
        shortfall_spec(reqs, milestone_id, target, achieved, bottlenecks) is None <==> (
        achieved matches Some(a) && (a == target || a == QualityBar::Platinum || target
            == QualityBar::Bronze || (a == QualityBar::Gold && target == QualityBar::Silver))),
        shortfall_spec(reqs, milestone_id, target, achieved, bottlenecks) is Some ==> (
        shortfall_spec(reqs, milestone_id, target, achieved, bottlenecks) matches Some(v) && v.code
            == ViolationCode::QualityBarShortfall && v.severity == PolicySeverity::Block),
{
}

/// Every milestone is counted once, as passing or as blocked: no more
/// milestones pass than there are.
pub proof fn law_milestone_summary_adds_up(milestones: Seq<Vec<PolicySeverity>>, n: int)
    requires
        0 <= n <= milestones.len(),
    ensures
        passing_count(milestones, n) <= n,
    decreases n,
{
    if n > 0 {
        law_milestone_summary_adds_up(milestones, n - 1);
    }
}

/// A card earns the highest level it meets: whenever a card meets a level,
/// its achieved bar is at least that level.
pub proof fn law_card_bar_is_highest_met(
    reqs: Seq<QualityBarRequirement>,
    card: CardEvidence,
    level: QualityBar,
)
    requires
        card_meets(reqs, card, level),
    ensures
        card_bar(reqs, card) matches Some(bar) && bar.rank_spec() >= level.rank_spec(),
        card_bar(reqs, card) matches Some(bar) && card_meets(reqs, card, bar),
{
}

/// A milestone is as strong as its weakest card: its achieved bar never
/// exceeds the bar of any of its cards, and a card that earns no bar leaves
/// the milestone unrated.
pub proof fn law_milestone_bar_is_weakest_link(
    reqs: Seq<QualityBarRequirement>,
    cards: Seq<CardEvidence>,
    i: int,
)
    requires
        0 <= i < cards.len(),
    ensures
        card_bar(reqs, cards[i]) is None ==> milestone_bar(reqs, cards) is None,
        milestone_bar(reqs, cards) matches Some(m) ==> (card_bar(reqs, cards[i]) matches Some(c)
            && m.rank_spec() <= c.rank_spec()),
{
    lemma_weakest_below(reqs, cards, cards.len() as int, i);
}

proof fn lemma_weakest_below(
    reqs: Seq<QualityBarRequirement>,
    cards: Seq<CardEvidence>,
    n: int,
    i: int,
)
    requires
        0 <= i < n <= cards.len(),
    ensures
        card_bar(reqs, cards[i]) is None ==> weakest_upto(reqs, cards, n) is None,
        weakest_upto(reqs, cards, n) matches Some(m) ==> (card_bar(reqs, cards[i]) matches Some(c)
            && m.rank_spec() <= c.rank_spec()),
    decreases n,
{
    if i < n - 1 {
        lemma_weakest_below(reqs, cards, n - 1, i);
    }
}

} // verus!
