//! The scene builder: diagnosis, temperament, perturbation type and narrative
//! for one event, with the summary that goes with them.

use vstd::prelude::*;
use vstd::string::*;
use crate::fus::{
    catalog, invariant_label, label_of, lemma_catalog_entry_found, FusLevel, Invariant,
    CATALOG_LEN,
};
use crate::inference::{
    determine_temperament, diagnose_event, diagnosis_of, narrative_of, reconstruct, EngineError,
    Temperament, temperament_of,
};
use crate::text::{contains, lowercase_of, occurs_in, same_text, to_lowercase, trim, trimmed_of};

verus! {

/// An event to analyse.
#[derive(Clone, Debug)]
pub struct NewsEvent {
    pub id: String,
    pub title: String,
    pub content: Option<String>,
    pub source: Option<String>,
}

/// The mode of analysis.
#[derive(Clone, Copy, Debug, PartialEq, Eq, Structural)]
pub enum AnalysisMode {
    Constructive,
    Analytical,
    Critical,
}

/// The mode that a selector word denotes; every unknown word is critical.
pub open spec fn mode_of_word(word: Seq<char>) -> AnalysisMode {
    if word == "constructive"@ {
        AnalysisMode::Constructive
    } else if word == "analytical"@ {
        AnalysisMode::Analytical
    } else {
        AnalysisMode::Critical
    }
}

/// The mode that a selector text denotes: white space around it and the case
/// of its letters do not count.
pub open spec fn mode_of_text(s: Seq<char>) -> AnalysisMode {
    mode_of_word(lowercase_of(trimmed_of(s)))
}

impl AnalysisMode {
    /// The mode's label, as scene summaries print it.
    pub open spec fn spec_label(self) -> Seq<char> {
        match self {
            AnalysisMode::Constructive => "Конструктивный режим"@,
            AnalysisMode::Analytical => "Аналитический режим"@,
            AnalysisMode::Critical => "Критический режим"@,
        }
    }

    /// The mode's selector word, as digests carry it.
    pub open spec fn spec_word(self) -> Seq<char> {
        match self {
            AnalysisMode::Constructive => "constructive"@,
            AnalysisMode::Analytical => "analytical"@,
            AnalysisMode::Critical => "critical"@,
        }
    }

    /// Reads a selector word that is already trimmed and in lower case; an
    /// unknown one is critical.
    pub fn from_word(word: &str) -> (r: Self)
        ensures
            r == mode_of_word(word@),
    {
        if same_text(word, "constructive") {
            AnalysisMode::Constructive
        } else if same_text(word, "analytical") {
            AnalysisMode::Analytical
        } else {
            AnalysisMode::Critical
        }
    }

    /// Reads a mode selector, whatever its case and the white space around
    /// it; an unknown one is critical.
    pub fn from_str(s: &str) -> (r: Self)
        ensures
            r == mode_of_text(s@),
    {
        let word = to_lowercase(trim(s));
        AnalysisMode::from_word(word.as_str())
    }

    /// The mode's label, as scene summaries print it.
    pub fn label(&self) -> (r: &'static str)
        ensures
            r@ == self.spec_label(),
    {
        match self {
            AnalysisMode::Constructive => "Конструктивный режим",
            AnalysisMode::Analytical => "Аналитический режим",
            AnalysisMode::Critical => "Критический режим",
        }
    }

    /// The mode's selector word, as digests carry it.
    pub fn word(&self) -> (r: &'static str)
        ensures
            r@ == self.spec_word(),
    {
        match self {
            AnalysisMode::Constructive => "constructive",
            AnalysisMode::Analytical => "analytical",
            AnalysisMode::Critical => "critical",
        }
    }
}

/// The category of disturbance that an event stands for.
#[derive(Clone, Copy, Debug, PartialEq, Eq, Structural)]
pub enum PerturbationType {
    RegulatoryPrecautionism,
    AlgorithmicManipulation,
    GenericDisturbance,
}

impl PerturbationType {
    /// The perturbation type's id.
    pub open spec fn spec_id(self) -> Seq<char> {
        match self {
            PerturbationType::RegulatoryPrecautionism => "pert:RegulatoryPrecautionism"@,
            PerturbationType::AlgorithmicManipulation => "pert:AlgorithmicManipulation"@,
            PerturbationType::GenericDisturbance => "pert:GenericDisturbance"@,
        }
    }

    /// The perturbation type's id.
    pub fn id(&self) -> (r: &'static str)
        ensures
            r@ == self.spec_id(),
    {
        match self {
            PerturbationType::RegulatoryPrecautionism => "pert:RegulatoryPrecautionism",
            PerturbationType::AlgorithmicManipulation => "pert:AlgorithmicManipulation",
            PerturbationType::GenericDisturbance => "pert:GenericDisturbance",
        }
    }
}

/// The perturbation type of a title in lower case.
pub open spec fn perturbation_of(lower: Seq<char>) -> PerturbationType {
    if occurs_in("ban"@, lower) && occurs_in("ai"@, lower) {
        PerturbationType::RegulatoryPrecautionism
    } else if occurs_in("manipulat"@, lower) {
        PerturbationType::AlgorithmicManipulation
    } else {
        PerturbationType::GenericDisturbance
    }
}

/// Classifies the disturbance by the trigger terms of a title in lower case.
pub fn classify_lowered(lower: &str) -> (r: PerturbationType)
    ensures
        r == perturbation_of(lower@),
{
    if contains(lower, "ban") && contains(lower, "ai") {
        PerturbationType::RegulatoryPrecautionism
    } else if contains(lower, "manipulat") {
        PerturbationType::AlgorithmicManipulation
    } else {
        PerturbationType::GenericDisturbance
    }
}

/// Classifies the disturbance by the title's trigger terms, whatever the
/// case of its letters.
pub fn match_furcation_type(title: &str) -> (r: PerturbationType)
    ensures
        r == perturbation_of(lowercase_of(title@)),
{
    let lower = to_lowercase(title);
    classify_lowered(lower.as_str())
}

/// The summary of a scene: four lines, for the mode's label, the invariant's
/// label with the level's name, the perturbation's id and the temperament.
pub open spec fn summary_text(
    mode_label: Seq<char>,
    invariant_label: Seq<char>,
    level_name: Seq<char>,
    perturbation_id: Seq<char>,
    temperament: Seq<char>,
) -> Seq<char> {
    "[NoemaFeed • "@ + mode_label + "]\nНарушение: "@ + invariant_label + " ("@ + level_name
        + ")\nТип возмущения: "@ + perturbation_id + "\nДля темперамента: "@ + temperament
}

/// Frames the summary from the five texts that it prints.
pub fn frame_summary(
    level_name: &str,
    invariant_label: &str,
    perturbation_id: &str,
    mode_label: &str,
    temperament: &str,
) -> (r: String)
    ensures
        r@ == summary_text(
            mode_label@,
            invariant_label@,
            level_name@,
            perturbation_id@,
            temperament@,
        ),
{
    let mut out = "[NoemaFeed • ".to_owned();
    out.append(mode_label);
    out.append("]\nНарушение: ");
    out.append(invariant_label);
    out.append(" (");
    out.append(level_name);
    out.append(")\nТип возмущения: ");
    out.append(perturbation_id);
    out.append("\nДля темперамента: ");
    out.append(temperament);
    out
}

/// The summary for a level name, an invariant id, a perturbation id, a mode
/// word and a temperament: the invariant is printed by its label, the generic
/// label where the catalog does not hold the id, and the mode by the label of
/// the mode that the word denotes, an unknown word as critical.
pub open spec fn summary_of(
    level: Seq<char>,
    invariant_id: Seq<char>,
    pert: Seq<char>,
    mode: Seq<char>,
    temper: Seq<char>,
) -> Seq<char> {
    summary_text(mode_of_word(mode).spec_label(), label_of(invariant_id), level, pert, temper)
}

/// Renders the summary for a level name, an invariant id, a perturbation id,
/// a mode word and a temperament, looking both labels up.
pub fn generate_summary(
    level: &str,
    invariant_id: &str,
    pert: &str,
    mode: &str,
    temper: &str,
) -> (r: String)
    ensures
        r@ == summary_of(level@, invariant_id@, pert@, mode@, temper@),
{
    let label = invariant_label(invariant_id);
    let mode_label = AnalysisMode::from_word(mode).label();
    frame_summary(level, label.as_str(), pert, mode_label, temper)
}

/// The word of a mode reads back as that mode.
pub proof fn lemma_mode_word_reads_back(mode: AnalysisMode)
    ensures
        mode_of_word(mode.spec_word()) == mode,
{
    reveal_strlit("constructive");
    reveal_strlit("analytical");
    reveal_strlit("critical");
    assert("constructive"@.len() == 12);
    assert("analytical"@.len() == 10);
    assert("critical"@.len() == 8);
}

/// The whole result of analysing one event.
#[derive(Clone, Debug)]
pub struct OntoScene {
    pub event_id: String,
    pub mode: AnalysisMode,
    pub affected_level: FusLevel,
    pub violated_invariant: Invariant,
    /// Severity in hundredths, from 0 to 100.
    pub severity: u8,
    pub perturbation_type: PerturbationType,
    pub temperament_hint: Temperament,
    pub reconstruction: String,
    pub summary: String,
}

impl OntoScene {
    /// The scene hangs together: the severity is at most one, in hundredths,
    /// the invariant is an entry of the catalog, and the narrative and the
    /// summary are the ones that go with the other fields.
    pub open spec fn well_formed(&self) -> bool {
        &&& self.severity <= 100
        &&& exists|k: int| 0 <= k < CATALOG_LEN && self.violated_invariant@ == #[trigger] catalog(k)
        &&& self.reconstruction@ == narrative_of(
            self.affected_level,
            self.violated_invariant.id@,
            self.temperament_hint,
        )
        &&& self.summary@ == summary_text(
            self.mode.spec_label(),
            self.violated_invariant.label@,
            self.affected_level.spec_name(),
            self.perturbation_type.spec_id(),
            self.temperament_hint.spec_name(),
        )
    }

    /// The scene is the one that an event with this id and this title in
    /// lower case gives in this mode for this birth year: every field is
    /// fixed by these four.
    pub open spec fn is_scene_of(
        &self,
        event_id: Seq<char>,
        lower: Seq<char>,
        mode: AnalysisMode,
        birth_year: int,
    ) -> bool {
        &&& self.well_formed()
        &&& self.event_id@ == event_id
        &&& self.mode == mode
        &&& self.affected_level == diagnosis_of(lower).affected_level
        &&& self.violated_invariant@ == diagnosis_of(lower).violated_invariant
        &&& self.severity == diagnosis_of(lower).severity
        &&& self.perturbation_type == perturbation_of(lower)
        &&& self.temperament_hint == temperament_of(birth_year)
    }
}

/// Builds the scene of an event: one diagnosis, one temperament, one
/// perturbation type, one narrative, and the summary. With a store in hand
/// this never fails.
pub fn build_onto_scene(
    store: &oxigraph::store::Store,
    event: &NewsEvent,
    mode: AnalysisMode,
    birth_year: i64,
) -> (r: Result<OntoScene, EngineError>)
    ensures
        r is Ok,
        r->Ok_0.is_scene_of(event.id@, lowercase_of(event.title@), mode, birth_year as int),
{
    let diagnosis = match diagnose_event(store, event.title.as_str()) {
        Ok(d) => d,
        Err(e) => {
            return Err(e);
        },
    };
    let temperament = determine_temperament(birth_year);
    let perturbation = match_furcation_type(event.title.as_str());
    let reconstruction = reconstruct(&diagnosis, temperament);
    let summary = generate_summary(
        diagnosis.affected_level.name(),
        diagnosis.violated_invariant.id.as_str(),
        perturbation.id(),
        mode.word(),
        temperament.name(),
    );
    proof {
        let k = choose|k: int|
            0 <= k < CATALOG_LEN && diagnosis.violated_invariant@ == #[trigger] catalog(k);
        lemma_catalog_entry_found(k);
        lemma_mode_word_reads_back(mode);
    }
    Ok(
        OntoScene {
            event_id: event.id.clone(),
            mode,
            affected_level: diagnosis.affected_level,
            violated_invariant: diagnosis.violated_invariant,
            severity: diagnosis.severity,
            perturbation_type: perturbation,
            temperament_hint: temperament,
            reconstruction,
            summary,
        },
    )
}

/// Two scenes built from the same event id, title, mode and birth year have
/// the same summary, character for character, and agree in every other field.
pub proof fn lemma_scene_is_determined(
    a: OntoScene,
    b: OntoScene,
    event_id: Seq<char>,
    lower: Seq<char>,
    mode: AnalysisMode,
    birth_year: int,
)
    requires
        a.is_scene_of(event_id, lower, mode, birth_year),
        b.is_scene_of(event_id, lower, mode, birth_year),
    ensures
        a.summary@ == b.summary@,
        a.reconstruction@ == b.reconstruction@,
        a.event_id@ == b.event_id@,
        a.mode == b.mode,
        a.affected_level == b.affected_level,
        a.violated_invariant@ == b.violated_invariant@,
        a.severity == b.severity,
        a.perturbation_type == b.perturbation_type,
        a.temperament_hint == b.temperament_hint,
{
}

} // verus!
