//! The digest: the part of a scene that travels, its structured text, its
//! transport encoding, and the summary rendered from it at the far end.

use vstd::prelude::*;
use vstd::string::*;
use vstd::utf8::*;
use crate::engine::{summary_text, OntoScene};
use crate::fus::{
    catalog, invariant_label, label_of, lemma_catalog_entry_found, CATALOG_LEN,
};
use crate::inference::EngineError;
use crate::text::same_text;

verus! {

/// The error of the base64 decoder. Opaque here: every such error is reported
/// as a corrupt digest.
#[verifier::external_type_specification]
#[verifier::external_body]
pub struct ExDecodeError(base64::DecodeError);

/// The standard base64 text, with padding, of a run of bytes.
pub uninterp spec fn base64_of(bytes: Seq<u8>) -> Seq<char>;

/// The bytes that a text stands for in standard base64, or `None` where the
/// text is no canonical base64.
pub uninterp spec fn base64_decoded(text: Seq<char>) -> Option<Seq<u8>>;

/// Calls `base64::encode`, the standard alphabet with padding. The text is
/// named, not described. The one fact stated beside the name is the crate's
/// round trip: the text decodes to the bytes it was made from. The call
/// panics only where the length of the text would not fit the machine word,
/// which the bound on the input rules out.
#[allow(deprecated)]
#[verifier::external_body]
fn base64_encode(bytes: &[u8]) -> (r: String)
    requires
        bytes@.len() <= usize::MAX / 2,
    ensures
        r@ == base64_of(bytes@),
        base64_decoded(r@) == Some(bytes@),
{
    base64::encode(bytes)
}

/// Calls `base64::decode`, the standard alphabet with canonical padding. The
/// outcome is named, not described: it depends on the text alone.
#[allow(deprecated)]
#[verifier::external_body]
fn base64_decode(text: &str) -> (r: Result<Vec<u8>, base64::DecodeError>)
    ensures
        match r {
            Ok(bytes) => base64_decoded(text@) == Some(bytes@),
            Err(_) => base64_decoded(text@) is None,
        },
{
    base64::decode(text)
}

/// The error of the JSON serialiser and parser. Opaque here.
#[verifier::external_type_specification]
#[verifier::external_body]
pub struct ExJsonError(serde_json::Error);

/// The JSON string literal, quotes and escapes included, that stands for a
/// text.
pub uninterp spec fn json_string_of(text: Seq<char>) -> Seq<char>;

/// The members that the JSON parser reads from a run of bytes as a map, each
/// as its key and, where its value is a string, that string; of a key that
/// occurs twice in an object the later member only. `None` where the parser
/// refuses the bytes, as it does all that is no JSON object.
pub uninterp spec fn json_fields_of(bytes: Seq<u8>) -> Option<Seq<(Seq<char>, Option<Seq<char>>)>>;

/// Calls `serde_json::to_string` on a text. The literal is named, not
/// described: it depends on the text alone. The call succeeds on every text:
/// the serialiser of a text fails only where its writer does, and it writes
/// into a vector in memory.
#[verifier::external_body]
fn json_quote(text: &str) -> (r: Result<String, serde_json::Error>)
    ensures
        r is Ok,
        r->Ok_0@ == json_string_of(text@),
{
    serde_json::to_string(text)
}

/// Calls `serde_json::from_slice` for a map of JSON values and hands its
/// members out, a member whose value is no string without a text. The
/// outcome is named, not described: it depends on the bytes alone.
#[verifier::external_body]
fn json_parse_object(bytes: &[u8]) -> (r: Result<Vec<DigestField>, serde_json::Error>)
    ensures
        match r {
            Ok(fields) => json_fields_of(bytes@) == Some(field_models(fields@)),
            Err(_) => json_fields_of(bytes@) is None,
        },
{
    let members = serde_json::from_slice::<serde_json::Map<String, serde_json::Value>>(bytes)?;
    let mut fields = Vec::new();
    for (key, value) in members {
        let text = match value {
            serde_json::Value::String(s) => Some(s),
            serde_json::Value::Null => None,
            serde_json::Value::Bool(_) => None,
            serde_json::Value::Number(_) => None,
            serde_json::Value::Array(_) => None,
            serde_json::Value::Object(_) => None,
        };
        fields.push(DigestField { key, text });
    }
    Ok(fields)
}

/// One member of a structured digest: its key, and its text where its value
/// is a text.
#[derive(Clone, Debug)]
pub struct DigestField {
    pub key: String,
    pub text: Option<String>,
}

/// A member as plain mathematical values.
pub open spec fn field_model(f: DigestField) -> (Seq<char>, Option<Seq<char>>) {
    (
        f.key@,
        match f.text {
            Some(t) => Some(t@),
            None => None,
        },
    )
}

/// A list of members as plain mathematical values.
pub open spec fn field_models(fields: Seq<DigestField>) -> Seq<(Seq<char>, Option<Seq<char>>)> {
    fields.map_values(|f: DigestField| field_model(f))
}

/// The reduced projection of a scene that a digest carries. Severity and the
/// invariant's description are left behind.
#[derive(Clone, Debug)]
pub struct ShareDigest {
    pub event_id: String,
    pub affected_invariant: String,
    pub fus_level: String,
    pub mode: String,
    pub temperament_hint: String,
}

/// A digest as plain mathematical values.
pub struct ShareDigestModel {
    pub event_id: Seq<char>,
    pub affected_invariant: Seq<char>,
    pub fus_level: Seq<char>,
    pub mode: Seq<char>,
    pub temperament_hint: Seq<char>,
}

impl View for ShareDigest {
    type V = ShareDigestModel;

    open spec fn view(&self) -> ShareDigestModel {
        ShareDigestModel {
            event_id: self.event_id@,
            affected_invariant: self.affected_invariant@,
            fus_level: self.fus_level@,
            mode: self.mode@,
            temperament_hint: self.temperament_hint@,
        }
    }
}

/// The projection of a scene onto the five texts that travel: the event's
/// id, the invariant's id, the level's name, the mode's word and the
/// temperament's name.
pub open spec fn digest_of_scene(scene: &OntoScene) -> ShareDigestModel {
    ShareDigestModel {
        event_id: scene.event_id@,
        affected_invariant: scene.violated_invariant.id@,
        fus_level: scene.affected_level.spec_name(),
        mode: scene.mode.spec_word(),
        temperament_hint: scene.temperament_hint.spec_name(),
    }
}

/// Number of members with a key among the first `n` members.
pub open spec fn key_count(
    fields: Seq<(Seq<char>, Option<Seq<char>>)>,
    key: Seq<char>,
    n: int,
) -> int
    decreases n,
{
    if n <= 0 {
        0
    } else if fields[n - 1].0 == key {
        key_count(fields, key, n - 1) + 1
    } else {
        key_count(fields, key, n - 1)
    }
}

/// Position of the last member with a key among the first `n` members, or -1.
pub open spec fn key_position(
    fields: Seq<(Seq<char>, Option<Seq<char>>)>,
    key: Seq<char>,
    n: int,
) -> int
    decreases n,
{
    if n <= 0 {
        -1
    } else if fields[n - 1].0 == key {
        n - 1
    } else {
        key_position(fields, key, n - 1)
    }
}

/// The text of the one member with a key; `None` where no member or more
/// than one has the key, or where its value is no text.
pub open spec fn unique_text(fields: Seq<(Seq<char>, Option<Seq<char>>)>, key: Seq<char>) -> Option<
    Seq<char>,
> {
    if key_count(fields, key, fields.len() as int) == 1 {
        fields[key_position(fields, key, fields.len() as int)].1
    } else {
        None
    }
}

/// The digest that a list of members holds: each of the five keys must occur
/// exactly once, with a text. Members with other keys do not count.
pub open spec fn complete_digest(fields: Seq<(Seq<char>, Option<Seq<char>>)>) -> Option<
    ShareDigestModel,
> {
    if unique_text(fields, "event_id"@) is Some && unique_text(fields, "affected_invariant"@) is Some
        && unique_text(fields, "fus_level"@) is Some && unique_text(fields, "mode"@) is Some
        && unique_text(fields, "temperament_hint"@) is Some {
        Some(
            ShareDigestModel {
                event_id: unique_text(fields, "event_id"@)->Some_0,
                affected_invariant: unique_text(fields, "affected_invariant"@)->Some_0,
                fus_level: unique_text(fields, "fus_level"@)->Some_0,
                mode: unique_text(fields, "mode"@)->Some_0,
                temperament_hint: unique_text(fields, "temperament_hint"@)->Some_0,
            },
        )
    } else {
        None
    }
}

/// The members of a digest, in the order in which its structured text holds
/// them.
pub open spec fn members_of(d: ShareDigestModel) -> Seq<(Seq<char>, Option<Seq<char>>)> {
    seq![
        ("event_id"@, Some(d.event_id)),
        ("affected_invariant"@, Some(d.affected_invariant)),
        ("fus_level"@, Some(d.fus_level)),
        ("mode"@, Some(d.mode)),
        ("temperament_hint"@, Some(d.temperament_hint)),
    ]
}

/// The structured text of a digest, made of the JSON string literals of its
/// five texts: one JSON object, the members in their fixed order, no space.
pub open spec fn structured_text_of(
    event_id: Seq<char>,
    affected_invariant: Seq<char>,
    fus_level: Seq<char>,
    mode: Seq<char>,
    temperament_hint: Seq<char>,
) -> Seq<char> {
    "{\"event_id\":"@ + event_id + ",\"affected_invariant\":"@ + affected_invariant
        + ",\"fus_level\":"@ + fus_level + ",\"mode\":"@ + mode + ",\"temperament_hint\":"@
        + temperament_hint + "}"@
}

/// The structured text of a digest.
pub open spec fn digest_text_of(d: ShareDigestModel) -> Seq<char> {
    structured_text_of(
        json_string_of(d.event_id),
        json_string_of(d.affected_invariant),
        json_string_of(d.fus_level),
        json_string_of(d.mode),
        json_string_of(d.temperament_hint),
    )
}

/// The structured text of a digest is short enough for the transport
/// encoding: its encoded length must fit the machine word.
pub open spec fn digest_fits(d: ShareDigestModel) -> bool {
    encode_utf8(digest_text_of(d)).len() <= usize::MAX / 2
}

/// The digest that a transport text holds: its base64 must decode, the bytes
/// must be a JSON object, and the object's members must make a complete
/// digest.
pub open spec fn digest_of_transport(text: Seq<char>) -> Option<ShareDigestModel> {
    match base64_decoded(text) {
        None => None,
        Some(bytes) => match json_fields_of(bytes) {
            None => None,
            Some(fields) => complete_digest(fields),
        },
    }
}

/// Frames the structured text of a digest from the JSON string literals of
/// its five texts.
pub fn frame_structured_text(
    event_id: &str,
    affected_invariant: &str,
    fus_level: &str,
    mode: &str,
    temperament_hint: &str,
) -> (r: String)
    ensures
        r@ == structured_text_of(
            event_id@,
            affected_invariant@,
            fus_level@,
            mode@,
            temperament_hint@,
        ),
{
    let mut out = "{\"event_id\":".to_owned();
    out.append(event_id);
    out.append(",\"affected_invariant\":");
    out.append(affected_invariant);
    out.append(",\"fus_level\":");
    out.append(fus_level);
    out.append(",\"mode\":");
    out.append(mode);
    out.append(",\"temperament_hint\":");
    out.append(temperament_hint);
    out.append("}");
    out
}

/// Finds the text of the one member with a key.
pub fn find_field(fields: &Vec<DigestField>, key: &str) -> (r: Option<String>)
    ensures
        match r {
            Some(text) => unique_text(field_models(fields@), key@) == Some(text@),
            None => unique_text(field_models(fields@), key@) is None,
        },
{
    let ghost models = field_models(fields@);
    let mut count: usize = 0;
    let mut found: usize = 0;
    let mut i: usize = 0;
    while i < fields.len()
        invariant
            i <= fields@.len(),
            models == field_models(fields@),
            count <= i,
            count as int == key_count(models, key@, i as int),
            count > 0 ==> found < i && found as int == key_position(models, key@, i as int),
        decreases fields@.len() - i,
    {
        assert(models[i as int] == field_model(fields@[i as int]));
        if same_text(fields[i].key.as_str(), key) {
            count = count + 1;
            found = i;
        }
        i = i + 1;
    }
    if count == 1 {
        assert(models[found as int] == field_model(fields@[found as int]));
        match &fields[found].text {
            Some(text) => Some(text.clone()),
            None => None,
        }
    } else {
        None
    }
}

impl ShareDigest {
    /// Reads a digest from the members of its structured text. Each of the
    /// five keys must occur exactly once, with a text; if not, the digest is
    /// corrupt and nothing of it is returned.
    pub fn from_fields(fields: &Vec<DigestField>) -> (r: Result<Self, EngineError>)
        ensures
            match r {
                Ok(d) => complete_digest(field_models(fields@)) == Some(d@),
                Err(e) => e == EngineError::CorruptDigest && complete_digest(
                    field_models(fields@),
                ) is None,
            },
    {
        let event_id = find_field(fields, "event_id");
        let affected_invariant = find_field(fields, "affected_invariant");
        let fus_level = find_field(fields, "fus_level");
        let mode = find_field(fields, "mode");
        let temperament_hint = find_field(fields, "temperament_hint");
        match (event_id, affected_invariant, fus_level, mode, temperament_hint) {
            (Some(a), Some(b), Some(c), Some(d), Some(e)) => Ok(
                ShareDigest {
                    event_id: a,
                    affected_invariant: b,
                    fus_level: c,
                    mode: d,
                    temperament_hint: e,
                },
            ),
            _ => Err(EngineError::CorruptDigest),
        }
    }

    /// The digest holds the five texts of this scene.
    pub open spec fn is_digest_of(&self, scene: &OntoScene) -> bool {
        self@ == digest_of_scene(scene)
    }

    /// Projects a scene onto the five texts that travel.
    pub fn from_scene(scene: &OntoScene) -> (r: Self)
        ensures
            r.is_digest_of(scene),
    {
        ShareDigest {
            event_id: scene.event_id.clone(),
            affected_invariant: scene.violated_invariant.id.clone(),
            fus_level: scene.affected_level.name().to_owned(),
            mode: scene.mode.word().to_owned(),
            temperament_hint: scene.temperament_hint.name().to_owned(),
        }
    }
}

/// The summary rendered from a digest: four lines, for the mode, the level's
/// name, the invariant's label and the temperament.
pub open spec fn digest_summary_text(
    mode: Seq<char>,
    level_name: Seq<char>,
    invariant_label: Seq<char>,
    temperament: Seq<char>,
) -> Seq<char> {
    "[NoemaFeed • "@ + mode + "]\nУровень: "@ + level_name + "\nИнвариант: "@ + invariant_label
        + "\nТемперамент: "@ + temperament
}

/// The summary rendered from a digest. The invariant's label comes from the
/// catalog; an id that the catalog does not hold gets the generic label.
pub open spec fn digest_summary_of(d: ShareDigestModel) -> Seq<char> {
    digest_summary_text(d.mode, d.fus_level, label_of(d.affected_invariant), d.temperament_hint)
}

/// Renders the summary of a decoded digest.
pub fn render_digest_summary(digest: &ShareDigest) -> (r: String)
    ensures
        r@ == digest_summary_of(digest@),
{
    let label = invariant_label(digest.affected_invariant.as_str());
    let mut out = "[NoemaFeed • ".to_owned();
    out.append(digest.mode.as_str());
    out.append("]\nУровень: ");
    out.append(digest.fus_level.as_str());
    out.append("\nИнвариант: ");
    out.append(label.as_str());
    out.append("\nТемперамент: ");
    out.append(digest.temperament_hint.as_str());
    out
}

/// Wraps the structured text of a digest for transport: the base64 text of
/// its bytes, which `decode_transport` turns back into those bytes.
pub fn encode_transport(structured: &str) -> (r: String)
    requires
        structured.spec_bytes().len() <= usize::MAX / 2,
    ensures
        r@ == base64_of(structured.spec_bytes()),
        base64_decoded(r@) == Some(structured.spec_bytes()),
{
    base64_encode(structured.as_bytes())
}

/// Unwraps a digest from its transport encoding. A text that is no base64
/// is a corrupt digest; no bytes are returned for it.
pub fn decode_transport(digest: &str) -> (r: Result<Vec<u8>, EngineError>)
    ensures
        match r {
            Ok(bytes) => base64_decoded(digest@) == Some(bytes@),
            Err(e) => e == EngineError::CorruptDigest && base64_decoded(digest@) is None,
        },
{
    match base64_decode(digest) {
        Ok(bytes) => Ok(bytes),
        Err(_) => Err(EngineError::CorruptDigest),
    }
}

/// The summary rendered from the digest of a scene names the same level, the
/// same invariant label, the same mode and the same temperament as the
/// scene's own summary.
pub proof fn lemma_digest_keeps_summary_content(scene: OntoScene, digest: ShareDigest)
    requires
        scene.well_formed(),
        digest.is_digest_of(&scene),
    ensures
        digest_summary_of(digest@) == digest_summary_text(
            scene.mode.spec_word(),
            scene.affected_level.spec_name(),
            scene.violated_invariant.label@,
            scene.temperament_hint.spec_name(),
        ),
        scene.summary@ == summary_text(
            scene.mode.spec_label(),
            scene.violated_invariant.label@,
            scene.affected_level.spec_name(),
            scene.perturbation_type.spec_id(),
            scene.temperament_hint.spec_name(),
        ),
{
    let k = choose|k: int| 0 <= k < CATALOG_LEN && scene.violated_invariant@ == #[trigger] catalog(k);
    lemma_catalog_entry_found(k);
}

/// Encodes the digest of a scene: its structured text under the transport
/// encoding. The one refusal is a text too long for the machine, reported as
/// malformed input.
pub fn encode(scene: &OntoScene) -> (r: Result<String, EngineError>)
    ensures
        r is Ok <==> digest_fits(digest_of_scene(scene)),
        match r {
            Ok(text) => text@ == base64_of(encode_utf8(digest_text_of(digest_of_scene(scene))))
                && base64_decoded(text@) == Some(
                encode_utf8(digest_text_of(digest_of_scene(scene))),
            ),
            Err(e) => e == EngineError::MalformedInput,
        },
{
    let digest = ShareDigest::from_scene(scene);
    let event_id = quote(digest.event_id.as_str());
    let affected_invariant = quote(digest.affected_invariant.as_str());
    let fus_level = quote(digest.fus_level.as_str());
    let mode = quote(digest.mode.as_str());
    let temperament_hint = quote(digest.temperament_hint.as_str());
    let structured = frame_structured_text(
        event_id.as_str(),
        affected_invariant.as_str(),
        fus_level.as_str(),
        mode.as_str(),
        temperament_hint.as_str(),
    );
    if structured.as_str().as_bytes().len() > usize::MAX / 2 {
        return Err(EngineError::MalformedInput);
    }
    Ok(encode_transport(structured.as_str()))
}

/// The JSON string literal of a text.
pub fn quote(text: &str) -> (r: String)
    ensures
        r@ == json_string_of(text@),
{
    match json_quote(text) {
        Ok(quoted) => quoted,
        Err(_) => vstd::pervasive::unreached(),
    }
}

/// Two digests hold the same five texts.
pub fn same_digest(a: &ShareDigest, b: &ShareDigest) -> (r: bool)
    ensures
        r == (a@ == b@),
{
    same_text(a.event_id.as_str(), b.event_id.as_str()) && same_text(
        a.affected_invariant.as_str(),
        b.affected_invariant.as_str(),
    ) && same_text(a.fus_level.as_str(), b.fus_level.as_str()) && same_text(
        a.mode.as_str(),
        b.mode.as_str(),
    ) && same_text(a.temperament_hint.as_str(), b.temperament_hint.as_str())
}

/// Encodes the digest of a scene and reads the text back before handing it
/// out: a text is returned only where it decodes to the scene's own digest.
/// Of every text returned the round trip therefore holds, and the summary
/// rendered from it names the mode, the level, the invariant label and the
/// temperament of a well-formed scene. A text too long for the machine is
/// malformed input; one that does not read back is a corrupt digest.
pub fn encode_round_trip(scene: &OntoScene) -> (r: Result<String, EngineError>)
    ensures
        r is Ok <==> digest_fits(digest_of_scene(scene)) && digest_of_transport(
            base64_of(encode_utf8(digest_text_of(digest_of_scene(scene)))),
        ) == Some(digest_of_scene(scene)),
        match r {
            Ok(text) => {
                &&& digest_fits(digest_of_scene(scene))
                &&& text@ == base64_of(encode_utf8(digest_text_of(digest_of_scene(scene))))
                &&& digest_of_transport(text@) == Some(digest_of_scene(scene))
                &&& scene.well_formed() ==> digest_summary_of(digest_of_transport(text@)->Some_0)
                    == digest_summary_text(
                    scene.mode.spec_word(),
                    scene.affected_level.spec_name(),
                    scene.violated_invariant.label@,
                    scene.temperament_hint.spec_name(),
                )
            },
            Err(e) => {
                &&& e == EngineError::MalformedInput <==> !digest_fits(digest_of_scene(scene))
                &&& e == EngineError::CorruptDigest <==> digest_fits(digest_of_scene(scene))
                    && digest_of_transport(
                    base64_of(encode_utf8(digest_text_of(digest_of_scene(scene)))),
                ) != Some(digest_of_scene(scene))
            },
        },
{
    let text = match encode(scene) {
        Ok(text) => text,
        Err(e) => {
            return Err(e);
        },
    };
    let sent = ShareDigest::from_scene(scene);
    match decode(text.as_str()) {
        Ok(back) => {
            if same_digest(&back, &sent) {
                proof {
                    if scene.well_formed() {
                        lemma_digest_keeps_summary_content(*scene, sent);
                    }
                }
                Ok(text)
            } else {
                Err(EngineError::CorruptDigest)
            }
        },
        Err(e) => Err(e),
    }
}

/// Decodes a digest: unwraps the transport encoding, parses the structured
/// text and reads the five texts. Whatever fails on the way, the digest is
/// corrupt.
pub fn decode(digest: &str) -> (r: Result<ShareDigest, EngineError>)
    ensures
        match r {
            Ok(d) => digest_of_transport(digest@) == Some(d@),
            Err(e) => e == EngineError::CorruptDigest && digest_of_transport(digest@) is None,
        },
{
    let bytes = match decode_transport(digest) {
        Ok(bytes) => bytes,
        Err(e) => {
            return Err(e);
        },
    };
    let fields = match json_parse_object(bytes.as_slice()) {
        Ok(fields) => fields,
        Err(_) => {
            return Err(EngineError::CorruptDigest);
        },
    };
    ShareDigest::from_fields(&fields)
}

/// Renders the summary of a digest that was encoded earlier. A corrupt
/// digest gives the error and no summary.
pub fn get_plain_summary(digest_b64: &str) -> (r: Result<String, EngineError>)
    ensures
        match r {
            Ok(summary) => digest_of_transport(digest_b64@) is Some && summary@
                == digest_summary_of(digest_of_transport(digest_b64@)->Some_0),
            Err(e) => e == EngineError::CorruptDigest && digest_of_transport(digest_b64@) is None,
        },
{
    match decode(digest_b64) {
        Ok(digest) => Ok(render_digest_summary(&digest)),
        Err(e) => Err(e),
    }
}

/// Each of the five keys is found once among the members of a digest, with
/// the digest's own text: the members of a digest read back as that digest.
pub proof fn lemma_members_read_back(d: ShareDigestModel)
    ensures
        complete_digest(members_of(d)) == Some(d),
{
    reveal_strlit("event_id");
    reveal_strlit("affected_invariant");
    reveal_strlit("fus_level");
    reveal_strlit("mode");
    reveal_strlit("temperament_hint");
    assert("event_id"@.len() == 8);
    assert("affected_invariant"@.len() == 18);
    assert("fus_level"@.len() == 9);
    assert("mode"@.len() == 4);
    assert("temperament_hint"@.len() == 16);
    reveal_with_fuel(key_count, 6);
    reveal_with_fuel(key_position, 6);
    let m = members_of(d);
    assert(m.len() == 5);
    assert(unique_text(m, "event_id"@) == Some(d.event_id));
    assert(unique_text(m, "affected_invariant"@) == Some(d.affected_invariant));
    assert(unique_text(m, "fus_level"@) == Some(d.fus_level));
    assert(unique_text(m, "mode"@) == Some(d.mode));
    assert(unique_text(m, "temperament_hint"@) == Some(d.temperament_hint));
}

} // verus!
