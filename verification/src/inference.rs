//! Diagnosis of an event title against the catalog, the temperament mapping,
//! and the choice of a remediation narrative.

use vstd::prelude::*;
use vstd::string::*;
use crate::fus::{
    catalog, catalog_entry, lemma_catalog_ids_distinct, FusLevel, Invariant, InvariantModel,
    CATALOG_LEN,
};
use crate::text::{contains, lowercase_of, occurs_in, same_text, to_lowercase};

verus! {

/// The graph store of the knowledge base. Opaque here: the engine carries the
/// handle and never looks inside.
#[verifier::external_type_specification]
#[verifier::external_body]
pub struct ExStore(oxigraph::store::Store);

/// How a request can fail.
#[derive(Clone, Copy, Debug, PartialEq, Eq, Structural)]
pub enum EngineError {
    /// The store handle is missing.
    StoreNotInitialized,
    /// The input payload is no event or mode, or its digest is too long for
    /// the machine.
    MalformedInput,
    /// The digest does not decode.
    CorruptDigest,
}

impl EngineError {
    /// A short message for the caller.
    pub fn message(&self) -> (r: &'static str)
        ensures
            r@ == match *self {
                EngineError::StoreNotInitialized => "KB not initialized"@,
                EngineError::MalformedInput => "malformed input"@,
                EngineError::CorruptDigest => "corrupt digest"@,
            },
    {
        match self {
            EngineError::StoreNotInitialized => "KB not initialized",
            EngineError::MalformedInput => "malformed input",
            EngineError::CorruptDigest => "corrupt digest",
        }
    }
}

/// The four temperaments.
#[derive(Clone, Copy, Debug, PartialEq, Eq, Structural)]
pub enum Temperament {
    Choleric,
    Sanguine,
    Phlegmatic,
    Melancholic,
}

impl Temperament {
    /// The temperament's name in lower case.
    pub open spec fn spec_name(self) -> Seq<char> {
        match self {
            Temperament::Choleric => "choleric"@,
            Temperament::Sanguine => "sanguine"@,
            Temperament::Phlegmatic => "phlegmatic"@,
            Temperament::Melancholic => "melancholic"@,
        }
    }

    /// The temperament's name in lower case.
    pub fn name(&self) -> (r: &'static str)
        ensures
            r@ == self.spec_name(),
    {
        match self {
            Temperament::Choleric => "choleric",
            Temperament::Sanguine => "sanguine",
            Temperament::Phlegmatic => "phlegmatic",
            Temperament::Melancholic => "melancholic",
        }
    }
}

/// The temperament of a residue modulo twelve.
pub open spec fn temperament_of_residue(r: int) -> Temperament {
    if r == 5 || r == 6 {
        Temperament::Choleric
    } else if r == 3 || r == 4 {
        Temperament::Sanguine
    } else if r == 7 || r == 8 {
        Temperament::Phlegmatic
    } else {
        Temperament::Melancholic
    }
}

/// The temperament of a birth year: that of its residue modulo twelve, the
/// residue taken in 0..=11 for negative years too.
pub open spec fn temperament_of(year: int) -> Temperament {
    temperament_of_residue(year % 12)
}

/// Derives the temperament from a birth year. Every integer is accepted.
pub fn determine_temperament(year: i64) -> (t: Temperament)
    ensures
        t == temperament_of(year as int),
{
    let residue: u64 = if year >= 0 {
        (year as u64) % 12
    } else {
        let below: u64 = (-(year + 1)) as u64;
        11 - below % 12
    };
    if residue == 5 || residue == 6 {
        Temperament::Choleric
    } else if residue == 3 || residue == 4 {
        Temperament::Sanguine
    } else if residue == 7 || residue == 8 {
        Temperament::Phlegmatic
    } else {
        Temperament::Melancholic
    }
}

/// The temperament repeats every twelve years.
pub proof fn lemma_temperament_periodic(year: int)
    ensures
        temperament_of(year) == temperament_of(year + 12),
        temperament_of(year) == temperament_of(year - 12),
{
}

/// The residues 0..=11 fall into the four buckets as the table says, each
/// into exactly one, and every year has such a residue.
pub proof fn lemma_temperament_buckets(year: int)
    ensures
        0 <= year % 12 < 12,
        temperament_of(year) == Temperament::Choleric <==> (year % 12 == 5 || year % 12 == 6),
        temperament_of(year) == Temperament::Sanguine <==> (year % 12 == 3 || year % 12 == 4),
        temperament_of(year) == Temperament::Phlegmatic <==> (year % 12 == 7 || year % 12 == 8),
        temperament_of(year) == Temperament::Melancholic <==> (year % 12 == 0 || year % 12 == 1
            || year % 12 == 2 || year % 12 == 9 || year % 12 == 10 || year % 12 == 11),
{
}

/// The outcome of diagnosing one event.
#[derive(Clone, Debug)]
pub struct Diagnosis {
    pub affected_level: FusLevel,
    pub violated_invariant: Invariant,
    /// Severity in hundredths, from 0 to 100.
    pub severity: u8,
}

/// A diagnosis as plain mathematical values.
pub struct DiagnosisModel {
    pub affected_level: FusLevel,
    pub violated_invariant: InvariantModel,
    pub severity: u8,
}

impl View for Diagnosis {
    type V = DiagnosisModel;

    open spec fn view(&self) -> DiagnosisModel {
        DiagnosisModel {
            affected_level: self.affected_level,
            violated_invariant: self.violated_invariant@,
            severity: self.severity,
        }
    }
}

impl Diagnosis {
    /// The severity is at most one, in hundredths, and the invariant is an
    /// entry of the catalog.
    pub open spec fn well_formed(&self) -> bool {
        &&& self.severity <= 100
        &&& exists|k: int| 0 <= k < CATALOG_LEN && self.violated_invariant@ == #[trigger] catalog(k)
    }
}

/// Severity, in hundredths, with which a title in lower case violates the
/// invariant with the given id.
pub open spec fn severity_of(lower: Seq<char>, id: Seq<char>) -> u8 {
    if id == "fus:ObserverPosition"@ {
        if occurs_in("ban"@, lower) && (occurs_in("ai"@, lower) || occurs_in("algorithm"@, lower)) {
            92
        } else {
            0
        }
    } else if id == "fus:AgencyResponsibility"@ {
        if occurs_in("manipulate"@, lower) || occurs_in("control"@, lower) {
            85
        } else {
            0
        }
    } else {
        0
    }
}

/// The severities of the catalog entries, in catalog order, for a title in
/// lower case.
pub open spec fn catalog_scores(lower: Seq<char>) -> Seq<u8> {
    Seq::new(CATALOG_LEN as nat, |i: int| severity_of(lower, catalog(i).id))
}

/// The score at a position; 0 for the position -1, which stands for "none so
/// far".
pub open spec fn score_at(scores: Seq<u8>, k: int) -> int {
    if 0 <= k < scores.len() {
        scores[k] as int
    } else {
        0
    }
}

/// Position that a scan of the first `n` scores keeps: a score replaces the
/// one kept only when it is strictly greater; -1 while none is above zero.
pub open spec fn kept_position(scores: Seq<u8>, n: int) -> int
    decreases n,
{
    if n <= 0 {
        -1
    } else {
        let kept = kept_position(scores, n - 1);
        if scores[n - 1] as int > score_at(scores, kept) {
            n - 1
        } else {
            kept
        }
    }
}

/// Position of the catalog entry that stands in when nothing scores.
pub const FALLBACK_ENTRY: usize = 5;

/// The diagnosis that a row of scores, one per catalog entry, gives: the
/// entry whose score the scan keeps, with its level and that score; where no
/// score is above zero, the fallback entry at the existential level with
/// severity zero.
pub open spec fn diagnosis_from_scores(scores: Seq<u8>) -> DiagnosisModel {
    let k = kept_position(scores, CATALOG_LEN as int);
    if k >= 0 {
        DiagnosisModel {
            affected_level: catalog(k).level,
            violated_invariant: catalog(k),
            severity: scores[k],
        }
    } else {
        DiagnosisModel {
            affected_level: FusLevel::Existential,
            violated_invariant: catalog(FALLBACK_ENTRY as int),
            severity: 0,
        }
    }
}

/// The diagnosis of a title in lower case.
pub open spec fn diagnosis_of(lower: Seq<char>) -> DiagnosisModel {
    diagnosis_from_scores(catalog_scores(lower))
}

/// Scores a title in lower case against one invariant by its trigger terms.
pub fn score_lowered(lower: &str, invariant_id: &str) -> (r: u8)
    ensures
        r == severity_of(lower@, invariant_id@),
        r <= 100,
{
    if same_text(invariant_id, "fus:ObserverPosition") {
        if contains(lower, "ban") && (contains(lower, "ai") || contains(lower, "algorithm")) {
            92
        } else {
            0
        }
    } else if same_text(invariant_id, "fus:AgencyResponsibility") {
        if contains(lower, "manipulate") || contains(lower, "control") {
            85
        } else {
            0
        }
    } else {
        0
    }
}

/// Scores a title against one invariant, whatever the case of its letters.
/// The store is part of the interface and is not consulted: the score
/// depends on the title's text alone.
pub fn estimate_severity(store: &oxigraph::store::Store, title: &str, invariant_id: &str) -> (r: u8)
    ensures
        r == severity_of(lowercase_of(title@), invariant_id@),
        r <= 100,
{
    let lower = to_lowercase(title);
    score_lowered(lower.as_str(), invariant_id)
}

/// Scans a row of scores for the greatest: the position of its first
/// occurrence, or `None` where no score is above zero.
pub fn select_best(scores: &Vec<u8>) -> (r: Option<usize>)
    ensures
        match r {
            Some(k) => k < scores@.len() && kept_position(scores@, scores@.len() as int) == k,
            None => kept_position(scores@, scores@.len() as int) == -1,
        },
{
    let mut max_severity: u8 = 0;
    let mut best: Option<usize> = None;
    let mut i: usize = 0;
    while i < scores.len()
        invariant
            i <= scores@.len(),
            match best {
                Some(k) => k < i && kept_position(scores@, i as int) == k,
                None => kept_position(scores@, i as int) == -1,
            },
            max_severity as int == score_at(scores@, kept_position(scores@, i as int)),
        decreases scores@.len() - i,
    {
        if scores[i] > max_severity {
            max_severity = scores[i];
            best = Some(i);
        }
        i = i + 1;
    }
    best
}

/// Makes the diagnosis from a row of scores, one per catalog entry.
pub fn diagnosis_from(scores: &Vec<u8>) -> (r: Diagnosis)
    requires
        scores@.len() == CATALOG_LEN,
    ensures
        r@ == diagnosis_from_scores(scores@),
{
    match select_best(scores) {
        Some(k) => {
            let entry = catalog_entry(k);
            Diagnosis { affected_level: entry.level, violated_invariant: entry, severity: scores[k] }
        },
        None => Diagnosis {
            affected_level: FusLevel::Existential,
            violated_invariant: catalog_entry(FALLBACK_ENTRY),
            severity: 0,
        },
    }
}

/// Diagnoses a title in lower case: scores it against every catalog entry
/// in catalog order and keeps the first entry of greatest severity, or the
/// fallback where no entry scores above zero.
pub fn diagnose_lowered(lower: &str) -> (r: Diagnosis)
    ensures
        r@ == diagnosis_of(lower@),
        r.well_formed(),
{
    let mut scores: Vec<u8> = Vec::new();
    let mut i: usize = 0;
    while i < CATALOG_LEN
        invariant
            i <= CATALOG_LEN,
            scores@.len() == i,
            forall|j: int| 0 <= j < i ==> #[trigger] scores@[j] == severity_of(lower@, catalog(j).id),
        decreases CATALOG_LEN - i,
    {
        let entry = catalog_entry(i);
        scores.push(score_lowered(lower, entry.id.as_str()));
        i = i + 1;
    }
    assert(scores@ =~= catalog_scores(lower@));
    let diagnosis = diagnosis_from(&scores);
    proof {
        lemma_diagnosis_well_formed(scores@);
    }
    diagnosis
}

/// Diagnoses an event by its title, whatever the case of its letters: the
/// catalog entry with the greatest severity, the first of them in catalog
/// order, or the fallback where no entry scores above zero. The store is part
/// of the interface and is not consulted. With a store in hand this never
/// fails.
pub fn diagnose_event(store: &oxigraph::store::Store, title: &str) -> (r: Result<Diagnosis, EngineError>)
    ensures
        r is Ok,
        r->Ok_0@ == diagnosis_of(lowercase_of(title@)),
        r->Ok_0.well_formed(),
{
    let lower = to_lowercase(title);
    Ok(diagnose_lowered(lower.as_str()))
}

/// The scan keeps the first of the greatest scores: no score among the first
/// `n` is above the one kept, every score before it is strictly below, and
/// none is kept exactly when none is above zero.
pub proof fn lemma_kept_position_is_first_maximum(scores: Seq<u8>, n: int)
    requires
        0 <= n <= scores.len(),
    ensures
        -1 <= kept_position(scores, n) < n,
        forall|i: int|
            0 <= i < n ==> (#[trigger] scores[i]) as int <= score_at(scores, kept_position(scores, n)),
        kept_position(scores, n) >= 0 ==> scores[kept_position(scores, n)] > 0,
        forall|i: int|
            0 <= i < kept_position(scores, n) ==> (#[trigger] scores[i]) < scores[kept_position(
                scores,
                n,
            )],
        kept_position(scores, n) == -1 ==> forall|i: int| 0 <= i < n ==> #[trigger] scores[i] == 0,
    decreases n,
{
    if n > 0 {
        lemma_kept_position_is_first_maximum(scores, n - 1);
    }
}

/// The diagnosis made from a row of scores names a catalog entry, and its
/// severity is the greatest of the scores.
pub proof fn lemma_diagnosis_well_formed(scores: Seq<u8>)
    requires
        scores.len() == CATALOG_LEN,
        forall|i: int| 0 <= i < scores.len() ==> #[trigger] scores[i] <= 100,
    ensures
        diagnosis_from_scores(scores).severity <= 100,
        exists|k: int|
            0 <= k < CATALOG_LEN && diagnosis_from_scores(scores).violated_invariant
                == #[trigger] catalog(k),
        forall|i: int|
            0 <= i < scores.len() ==> #[trigger] scores[i] <= diagnosis_from_scores(scores).severity,
{
    lemma_kept_position_is_first_maximum(scores, CATALOG_LEN as int);
    let k = kept_position(scores, CATALOG_LEN as int);
    if k >= 0 {
        assert(diagnosis_from_scores(scores).violated_invariant == catalog(k));
    } else {
        assert(diagnosis_from_scores(scores).violated_invariant == catalog(FALLBACK_ENTRY as int));
    }
}

/// Every severity lies between 0 and 1, in hundredths, and so does that of
/// every diagnosis of a title.
pub proof fn lemma_severity_in_range(lower: Seq<char>, id: Seq<char>)
    ensures
        0 <= severity_of(lower, id) <= 100,
        0 <= diagnosis_of(lower).severity <= 100,
{
    lemma_diagnosis_well_formed(catalog_scores(lower));
}

/// A title that names a prohibition and an automated decision is diagnosed
/// as a violation of the observer's position, at the ontological level, with
/// a severity of 92 hundredths.
pub proof fn lemma_prohibited_automation_selects_observer(lower: Seq<char>)
    requires
        occurs_in("ban"@, lower),
        occurs_in("ai"@, lower) || occurs_in("algorithm"@, lower),
    ensures
        diagnosis_of(lower).violated_invariant == catalog(1),
        diagnosis_of(lower).violated_invariant.id == "fus:ObserverPosition"@,
        diagnosis_of(lower).affected_level == FusLevel::Ontological,
        diagnosis_of(lower).severity == 92,
{
    lemma_catalog_ids_distinct();
    reveal_with_fuel(kept_position, 7);
    let scores = catalog_scores(lower);
    assert(catalog(0).id != catalog(1).id && catalog(0).id != catalog(4).id);
    assert(scores[0] == 0);
    assert(scores[1] == 92);
    assert(scores[2] <= 92 && scores[3] <= 92 && scores[4] <= 92 && scores[5] <= 92);
    assert(kept_position(scores, 2) == 1);
    assert(kept_position(scores, 6) == 1);
}

/// A title that holds none of the trigger terms gets the fallback diagnosis:
/// the last catalog entry, at the existential level, with severity zero.
pub proof fn lemma_no_trigger_gives_fallback(lower: Seq<char>)
    requires
        !occurs_in("ban"@, lower) || !(occurs_in("ai"@, lower) || occurs_in("algorithm"@, lower)),
        !occurs_in("manipulate"@, lower),
        !occurs_in("control"@, lower),
    ensures
        diagnosis_of(lower).violated_invariant == catalog(FALLBACK_ENTRY as int),
        diagnosis_of(lower).violated_invariant.id == "fus:FreedomInDeterminism"@,
        diagnosis_of(lower).affected_level == FusLevel::Existential,
        diagnosis_of(lower).severity == 0,
{
    reveal_with_fuel(kept_position, 7);
    let scores = catalog_scores(lower);
    assert(scores[0] == 0 && scores[1] == 0 && scores[2] == 0 && scores[3] == 0 && scores[4] == 0
        && scores[5] == 0);
    assert(kept_position(scores, 6) == -1);
}

/// One row of the narrative table: the invariant it is for, the temperament
/// it is for (`None`: every temperament), and the narrative.
pub struct NarrativeRule {
    pub invariant_id: &'static str,
    pub temperament: Option<Temperament>,
    pub text: &'static str,
}

/// One row of the narrative table, as plain mathematical values.
pub struct NarrativeRuleModel {
    pub invariant_id: Seq<char>,
    pub temperament: Option<Temperament>,
    pub text: Seq<char>,
}

/// Number of rows in the narrative table.
pub const NARRATIVE_RULES: usize = 2;

/// The narrative table, row by row. Earlier rows win over later ones.
pub open spec fn narrative_rule(i: int) -> NarrativeRuleModel {
    if i == 0 {
        NarrativeRuleModel {
            invariant_id: "fus:ObserverPosition"@,
            temperament: Some(Temperament::Choleric),
            text: "Восстановить право на независимую оценку: открыть исходный код, обеспечить прозрачность."@,
        }
    } else {
        NarrativeRuleModel {
            invariant_id: "fus:ObserverPosition"@,
            temperament: None,
            text: "Обеспечить прозрачность алгоритма и право на объяснение решения."@,
        }
    }
}

/// A row applies to an invariant and a temperament.
pub open spec fn rule_applies(rule: NarrativeRuleModel, id: Seq<char>, t: Temperament) -> bool {
    rule.invariant_id == id && (rule.temperament is None || rule.temperament == Some(t))
}

/// Position of the first of the first `n` rows that applies, or -1.
pub open spec fn first_rule(id: Seq<char>, t: Temperament, n: int) -> int
    decreases n,
{
    if n <= 0 {
        -1
    } else if first_rule(id, t, n - 1) >= 0 {
        first_rule(id, t, n - 1)
    } else if rule_applies(narrative_rule(n - 1), id, t) {
        n - 1
    } else {
        -1
    }
}

/// The generic remediation sentence of a level. It depends on the level
/// alone: neither the invariant nor the temperament changes it.
pub open spec fn generic_narrative(level: FusLevel) -> Seq<char> {
    "Требуется этическая реконструкция в рамках ФУС-рамок на уровне "@ + level.spec_uri() + "."@
}

/// The narrative for a diagnosis and a temperament: that of the first row
/// that applies, the generic sentence of the level where none does.
pub open spec fn narrative_of(level: FusLevel, id: Seq<char>, t: Temperament) -> Seq<char> {
    let k = first_rule(id, t, NARRATIVE_RULES as int);
    if k >= 0 {
        narrative_rule(k).text
    } else {
        generic_narrative(level)
    }
}

/// The row of the narrative table at position `i`.
pub fn narrative_rule_at(i: usize) -> (r: NarrativeRule)
    requires
        i < NARRATIVE_RULES,
    ensures
        r.invariant_id@ == narrative_rule(i as int).invariant_id,
        r.temperament == narrative_rule(i as int).temperament,
        r.text@ == narrative_rule(i as int).text,
{
    if i == 0 {
        NarrativeRule {
            invariant_id: "fus:ObserverPosition",
            temperament: Some(Temperament::Choleric),
            text: "Восстановить право на независимую оценку: открыть исходный код, обеспечить прозрачность.",
        }
    } else {
        NarrativeRule {
            invariant_id: "fus:ObserverPosition",
            temperament: None,
            text: "Обеспечить прозрачность алгоритма и право на объяснение решения.",
        }
    }
}

/// Once a row applies among the first `n`, more rows do not change the choice.
pub proof fn lemma_first_rule_stays(id: Seq<char>, t: Temperament, n: int, m: int)
    requires
        0 <= n <= m,
        first_rule(id, t, n) >= 0,
    ensures
        first_rule(id, t, m) == first_rule(id, t, n),
    decreases m - n,
{
    if n < m {
        lemma_first_rule_stays(id, t, n, m - 1);
    }
}

/// Chooses the remediation narrative for a diagnosis and a temperament.
pub fn reconstruct(diagnosis: &Diagnosis, temperament: Temperament) -> (r: String)
    ensures
        r@ == narrative_of(diagnosis.affected_level, diagnosis.violated_invariant.id@, temperament),
{
    let mut i: usize = 0;
    while i < NARRATIVE_RULES
        invariant
            i <= NARRATIVE_RULES,
            first_rule(diagnosis.violated_invariant.id@, temperament, i as int) < 0,
        decreases NARRATIVE_RULES - i,
    {
        let rule = narrative_rule_at(i);
        let for_all = match rule.temperament {
            Some(t) => t == temperament,
            None => true,
        };
        if for_all && same_text(rule.invariant_id, diagnosis.violated_invariant.id.as_str()) {
            proof {
                lemma_first_rule_stays(
                    diagnosis.violated_invariant.id@,
                    temperament,
                    i as int + 1,
                    NARRATIVE_RULES as int,
                );
            }
            return rule.text.to_owned();
        }
        i = i + 1;
    }
    let mut out = "Требуется этическая реконструкция в рамках ФУС-рамок на уровне ".to_owned();
    out.append(diagnosis.affected_level.uri());
    out.append(".");
    out
}

/// Every invariant but the observer's position has no row of its own: its
/// narrative is the generic sentence of the level, the same for every
/// temperament, and that sentence is not empty.
pub proof fn lemma_fallback_narrative_ignores_temperament(
    level: FusLevel,
    id: Seq<char>,
    a: Temperament,
    b: Temperament,
)
    requires
        id != "fus:ObserverPosition"@,
    ensures
        narrative_of(level, id, a) == generic_narrative(level),
        narrative_of(level, id, a) == narrative_of(level, id, b),
        generic_narrative(level).len() > 0,
{
    reveal_with_fuel(first_rule, 3);
    reveal_strlit(".");
    assert(generic_narrative(level).len() >= "."@.len());
}

} // verus!
