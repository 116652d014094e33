//! The request as the embedding layer sees it: an event that arrives with a
//! title, and the result that goes back with its encoded digest.

use vstd::prelude::*;
use vstd::string::*;
use vstd::utf8::*;
use crate::digest::{base64_of, digest_fits, digest_text_of, encode, ShareDigestModel};
use crate::engine::{
    build_onto_scene, mode_of_text, perturbation_of, summary_text, AnalysisMode, NewsEvent,
    OntoScene,
};
use crate::inference::{diagnosis_of, temperament_of, EngineError};
use crate::text::lowercase_of;

verus! {

/// An event as the embedding layer hands it over.
#[derive(Clone, Debug)]
pub struct EventInput {
    pub title: String,
    pub content: Option<String>,
    pub source_url: Option<String>,
    pub published_at: Option<String>,
}

/// What the embedding layer gets back.
#[derive(Clone, Debug)]
pub struct AnalysisResult {
    pub fus_level: String,
    pub affected_invariant: String,
    pub perturbation_type: String,
    pub mode: String,
    pub temperament_hint: String,
    pub summary: String,
    pub digest: String,
}

impl AnalysisResult {
    /// The result carries the level's name, the ids, the mode's word, the
    /// temperament and the summary of this scene.
    pub open spec fn is_result_of(&self, scene: &OntoScene) -> bool {
        &&& self.fus_level@ == scene.affected_level.spec_name()
        &&& self.affected_invariant@ == scene.violated_invariant.id@
        &&& self.perturbation_type@ == scene.perturbation_type.spec_id()
        &&& self.mode@ == scene.mode.spec_word()
        &&& self.temperament_hint@ == scene.temperament_hint.spec_name()
        &&& self.summary@ == scene.summary@
    }
}

/// The digest of the scene of an event that arrives with a title, a mode
/// selector and a birth year.
pub open spec fn digest_of_request(
    title: Seq<char>,
    mode: Seq<char>,
    birth_year: int,
) -> ShareDigestModel {
    let diagnosis = diagnosis_of(lowercase_of(title));
    ShareDigestModel {
        event_id: event_id_of(title),
        affected_invariant: diagnosis.violated_invariant.id,
        fus_level: diagnosis.affected_level.spec_name(),
        mode: mode_of_text(mode).spec_word(),
        temperament_hint: temperament_of(birth_year).spec_name(),
    }
}

impl AnalysisResult {
    /// The result is the one that a title, a mode selector and a birth year
    /// give: every text of it is fixed by these three.
    pub open spec fn is_analysis_of(
        &self,
        title: Seq<char>,
        mode: Seq<char>,
        birth_year: int,
    ) -> bool {
        let diagnosis = diagnosis_of(lowercase_of(title));
        let digest = digest_of_request(title, mode, birth_year);
        &&& self.fus_level@ == digest.fus_level
        &&& self.affected_invariant@ == digest.affected_invariant
        &&& self.perturbation_type@ == perturbation_of(lowercase_of(title)).spec_id()
        &&& self.mode@ == digest.mode
        &&& self.temperament_hint@ == digest.temperament_hint
        &&& self.summary@ == summary_text(
            mode_of_text(mode).spec_label(),
            diagnosis.violated_invariant.label,
            digest.fus_level,
            perturbation_of(lowercase_of(title)).spec_id(),
            digest.temperament_hint,
        )
        &&& self.digest@ == base64_of(encode_utf8(digest_text_of(digest)))
    }
}

/// Number of leading bytes of the title that an event id keeps.
pub const EVENT_ID_TITLE_BYTES: usize = 20;

/// The part of a title that goes into the event id: its first twenty bytes
/// where they end on a character boundary of the title (which a shorter title
/// does not have there), the whole title otherwise.
pub open spec fn title_head(title: Seq<char>) -> Seq<char> {
    let bytes = encode_utf8(title);
    if is_char_boundary(bytes, EVENT_ID_TITLE_BYTES as int) {
        decode_utf8(bytes.subrange(0, EVENT_ID_TITLE_BYTES as int))
    } else {
        title
    }
}

/// The id given to an event that arrives with a title only.
pub open spec fn event_id_of(title: Seq<char>) -> Seq<char> {
    "event_"@ + title_head(title)
}

/// Makes the id of an event from its title.
pub fn make_event_id(title: &str) -> (r: String)
    ensures
        r@ == event_id_of(title@),
{
    broadcast use encode_utf8_decode_utf8;

    let mut out = "event_".to_owned();
    if title.is_char_boundary(EVENT_ID_TITLE_BYTES) {
        let (head, _) = title.split_at(EVENT_ID_TITLE_BYTES);
        assert(head@ == decode_utf8(encode_utf8(head@)));
        out.append(head);
    } else {
        out.append(title);
    }
    out
}

/// Builds the scene of an event that arrives with a title only: gives it an
/// id, reads the mode and builds the scene. Fails exactly when there is no
/// store.
pub fn build_event_scene(
    store: Option<&oxigraph::store::Store>,
    input: &EventInput,
    mode: &str,
    birth_year: i64,
) -> (r: Result<OntoScene, EngineError>)
    ensures
        store is None ==> r is Err && r->Err_0 == EngineError::StoreNotInitialized,
        store is Some ==> r is Ok && r->Ok_0.is_scene_of(
            event_id_of(input.title@),
            lowercase_of(input.title@),
            mode_of_text(mode@),
            birth_year as int,
        ),
{
    let store = match store {
        Some(s) => s,
        None => {
            return Err(EngineError::StoreNotInitialized);
        },
    };
    let event = NewsEvent {
        id: make_event_id(input.title.as_str()),
        title: input.title.clone(),
        content: input.content.clone(),
        source: input.source_url.clone(),
    };
    build_onto_scene(store, &event, AnalysisMode::from_str(mode), birth_year)
}

/// Assembles the result for the embedding layer from a scene and its encoded
/// digest.
pub fn assemble_result(scene: &OntoScene, digest: String) -> (r: AnalysisResult)
    ensures
        r.is_result_of(scene),
        r.digest@ == digest@,
{
    AnalysisResult {
        fus_level: scene.affected_level.name().to_owned(),
        affected_invariant: scene.violated_invariant.id.clone(),
        perturbation_type: scene.perturbation_type.id().to_owned(),
        mode: scene.mode.word().to_owned(),
        temperament_hint: scene.temperament_hint.name().to_owned(),
        summary: scene.summary.clone(),
        digest,
    }
}

/// Analyses one event: builds its scene, encodes the digest and assembles
/// the result. Without a store the request fails as not initialised. With
/// one it succeeds, unless the digest is too long for the machine, which is
/// reported as malformed input. The digest is handed out as it was encoded
/// and is not read back here: `encode_round_trip` is there for a caller who
/// wants a text that is shown to decode.
pub fn analyze_event(
    store: Option<&oxigraph::store::Store>,
    input: &EventInput,
    mode: &str,
    birth_year: i64,
) -> (r: Result<AnalysisResult, EngineError>)
    ensures
        store is None ==> r is Err && r->Err_0 == EngineError::StoreNotInitialized,
        store is Some ==> match r {
            Ok(result) => digest_fits(digest_of_request(input.title@, mode@, birth_year as int))
                && result.is_analysis_of(input.title@, mode@, birth_year as int),
            Err(e) => e == EngineError::MalformedInput && !digest_fits(
                digest_of_request(input.title@, mode@, birth_year as int),
            ),
        },
{
    let scene = match build_event_scene(store, input, mode, birth_year) {
        Ok(scene) => scene,
        Err(e) => {
            return Err(e);
        },
    };
    let digest = match encode(&scene) {
        Ok(text) => text,
        Err(e) => {
            return Err(e);
        },
    };
    Ok(assemble_result(&scene, digest))
}

} // verus!
