use noemafeed::analysis::{
    analyze_event, assemble_result, build_event_scene, make_event_id, EventInput,
};
use noemafeed::digest::{
    decode, decode_transport, encode, encode_round_trip, encode_transport, find_field,
    frame_structured_text, get_plain_summary, quote, render_digest_summary, same_digest,
    DigestField, ShareDigest,
};
use noemafeed::engine::{build_onto_scene, AnalysisMode, NewsEvent, OntoScene};
use noemafeed::fus::FusLevel;
use noemafeed::inference::{EngineError, Temperament};
use oxigraph::store::Store;

fn input(title: &str) -> EventInput {
    EventInput { title: title.to_string(), content: None, source_url: None, published_at: None }
}

fn field(key: &str, text: Option<&str>) -> DigestField {
    DigestField { key: key.to_string(), text: text.map(|t| t.to_string()) }
}

fn five_fields() -> Vec<DigestField> {
    vec![
        field("event_id", Some("e")),
        field("affected_invariant", Some("fus:Integrity")),
        field("fus_level", Some("BiologicalLevel")),
        field("mode", Some("critical")),
        field("temperament_hint", Some("sanguine")),
    ]
}

fn scene_with_id(id: &str, title: &str, mode: AnalysisMode, year: i64) -> OntoScene {
    let store = Store::new().unwrap();
    let e = NewsEvent { id: id.to_string(), title: title.to_string(), content: None, source: None };
    build_onto_scene(&store, &e, mode, year).unwrap()
}

fn scene(title: &str, mode: AnalysisMode, year: i64) -> OntoScene {
    scene_with_id("n-7", title, mode, year)
}

#[allow(deprecated)]
fn transport(structured: &str) -> String {
    base64::encode(structured)
}

#[test]
fn transport_text_is_base64() {
    assert_eq!(encode_transport(""), "");
    assert_eq!(encode_transport("{}"), "e30=");
    assert_eq!(encode_transport("hello world~"), "aGVsbG8gd29ybGR+");
    assert_eq!(encode_transport("ab"), "YWI=");
    assert_eq!(encode_transport("a"), "YQ==");
}

#[test]
fn transport_round_trip() {
    for text in vec!["", "a", "ab", "abc", "{\"mode\":\"critical\"}", "Привет, мир"] {
        let sent = encode_transport(text);
        assert_eq!(decode_transport(&sent), Ok(text.as_bytes().to_vec()));
    }
}

#[test]
fn invalid_digest_is_corrupt() {
    assert_eq!(decode_transport("not a valid digest"), Err(EngineError::CorruptDigest));
    assert!(matches!(decode("not a valid digest"), Err(EngineError::CorruptDigest)));
    assert_eq!(get_plain_summary("not a valid digest"), Err(EngineError::CorruptDigest));
}

#[test]
fn truncated_digest_is_corrupt() {
    let sent = encode(&scene("Regulator bans AI system", AnalysisMode::Critical, 1990)).unwrap();
    for cut in 1..sent.len() {
        let part = &sent[..sent.len() - cut];
        assert_eq!(get_plain_summary(part), Err(EngineError::CorruptDigest));
    }
    assert_eq!(decode_transport("YQ="), Err(EngineError::CorruptDigest));
    assert_eq!(decode_transport("YQ"), Err(EngineError::CorruptDigest));
    assert_eq!(decode_transport("YR=="), Err(EngineError::CorruptDigest));
}

#[test]
fn digest_that_is_no_object_is_corrupt() {
    assert_eq!(get_plain_summary(""), Err(EngineError::CorruptDigest));
    assert_eq!(get_plain_summary(&transport("hello")), Err(EngineError::CorruptDigest));
    assert_eq!(get_plain_summary(&transport("[]")), Err(EngineError::CorruptDigest));
    assert_eq!(get_plain_summary(&transport("\"text\"")), Err(EngineError::CorruptDigest));
    assert_eq!(get_plain_summary(&transport("{}")), Err(EngineError::CorruptDigest));
    assert_eq!(get_plain_summary(&transport("{\"mode\":\"critical\"")), Err(EngineError::CorruptDigest));
}

#[test]
fn digest_that_is_null_is_corrupt() {
    assert!(matches!(decode(&transport("null")), Err(EngineError::CorruptDigest)));
    assert_eq!(get_plain_summary(&transport("null")), Err(EngineError::CorruptDigest));
}

#[test]
fn digest_with_a_repeated_member_keeps_the_later() {
    let text = "{\"event_id\":\"e\",\"affected_invariant\":\"fus:Integrity\",\"fus_level\":\"L\",\"mode\":\"critical\",\"mode\":\"analytical\",\"temperament_hint\":\"sanguine\"}";
    let d = decode(&transport(text)).unwrap();
    assert_eq!(d.mode, "analytical");
    assert_eq!(d.event_id, "e");
}

#[test]
fn digest_with_a_missing_or_wrong_member_is_corrupt() {
    let missing = "{\"event_id\":\"e\",\"affected_invariant\":\"fus:Integrity\",\"fus_level\":\"L\",\"mode\":\"critical\"}";
    assert_eq!(get_plain_summary(&transport(missing)), Err(EngineError::CorruptDigest));
    let number = "{\"event_id\":\"e\",\"affected_invariant\":\"fus:Integrity\",\"fus_level\":\"L\",\"mode\":\"critical\",\"temperament_hint\":3}";
    assert_eq!(get_plain_summary(&transport(number)), Err(EngineError::CorruptDigest));
    let null = "{\"event_id\":null,\"affected_invariant\":\"fus:Integrity\",\"fus_level\":\"L\",\"mode\":\"critical\",\"temperament_hint\":\"sanguine\"}";
    assert_eq!(get_plain_summary(&transport(null)), Err(EngineError::CorruptDigest));
}

#[test]
fn digest_in_another_layout_is_read() {
    let text = " { \"mode\" : \"critical\", \"extra\": [1, 2], \"temperament_hint\":\"sanguine\",\n \"fus_level\":\"PsychicLevel\", \"event_id\":\"e\", \"affected_invariant\":\"fus:Integrity\" } ";
    assert_eq!(
        get_plain_summary(&transport(text)),
        Ok("[NoemaFeed • critical]\nУровень: PsychicLevel\nИнвариант: Целостность\nТемперамент: sanguine".to_string())
    );
}

#[test]
fn digest_projects_the_scene() {
    let s = scene("Regulator bans AI system", AnalysisMode::Constructive, 1985);
    let d = ShareDigest::from_scene(&s);
    assert_eq!(d.event_id, "n-7");
    assert_eq!(d.affected_invariant, "fus:ObserverPosition");
    assert_eq!(d.fus_level, "OntologicalLevel");
    assert_eq!(d.mode, "constructive");
    assert_eq!(d.temperament_hint, "choleric");
}

#[test]
fn structured_text_frame() {
    assert_eq!(
        frame_structured_text("1", "2", "3", "4", "5"),
        "{\"event_id\":1,\"affected_invariant\":2,\"fus_level\":3,\"mode\":4,\"temperament_hint\":5}"
    );
}

#[test]
fn encoded_digest_is_the_structured_text_in_base64() {
    let s = scene("Regulator bans AI system", AnalysisMode::Constructive, 1985);
    let expected = "{\"event_id\":\"n-7\",\"affected_invariant\":\"fus:ObserverPosition\",\"fus_level\":\"OntologicalLevel\",\"mode\":\"constructive\",\"temperament_hint\":\"choleric\"}";
    assert_eq!(encode(&s), Ok(transport(expected)));
}

#[test]
fn encoded_digest_escapes_the_event_id() {
    let id = "a \"quoted\" id\\ with\nnew line, tab\t and Юникод";
    let s = scene_with_id(id, "Local bakery wins award", AnalysisMode::Analytical, 2001);
    let expected = "{\"event_id\":\"a \\\"quoted\\\" id\\\\ with\\nnew line, tab\\t and Юникод\",\"affected_invariant\":\"fus:FreedomInDeterminism\",\"fus_level\":\"ExistentialLevel\",\"mode\":\"analytical\",\"temperament_hint\":\"melancholic\"}";
    let sent = encode(&s).unwrap();
    assert_eq!(sent, transport(expected));
    let back = decode(&sent).unwrap();
    assert_eq!(back.event_id, id);
    assert_eq!(back.affected_invariant, "fus:FreedomInDeterminism");
    assert_eq!(back.fus_level, "ExistentialLevel");
    assert_eq!(back.mode, "analytical");
    assert_eq!(back.temperament_hint, "melancholic");
}

#[test]
fn decoded_summary_template() {
    let d = ShareDigest {
        event_id: "x".to_string(),
        affected_invariant: "fus:ObserverPosition".to_string(),
        fus_level: "OntologicalLevel".to_string(),
        mode: "critical".to_string(),
        temperament_hint: "sanguine".to_string(),
    };
    assert_eq!(
        render_digest_summary(&d),
        "[NoemaFeed • critical]\nУровень: OntologicalLevel\nИнвариант: Позиция наблюдателя\nТемперамент: sanguine"
    );
}

#[test]
fn decoded_summary_of_unknown_invariant() {
    let d = ShareDigest {
        event_id: "x".to_string(),
        affected_invariant: "fus:Elsewhere".to_string(),
        fus_level: "PsychicLevel".to_string(),
        mode: "analytical".to_string(),
        temperament_hint: "melancholic".to_string(),
    };
    assert_eq!(
        render_digest_summary(&d),
        "[NoemaFeed • analytical]\nУровень: PsychicLevel\nИнвариант: Онтологический инвариант\nТемперамент: melancholic"
    );
}

#[test]
fn digest_round_trip_keeps_the_content() {
    let titles = vec![
        "Regulator bans AI system",
        "Local bakery wins award",
        "Apps that manipulate and control",
        "",
    ];
    let modes = vec![AnalysisMode::Constructive, AnalysisMode::Analytical, AnalysisMode::Critical];
    for title in titles.iter() {
        for mode in modes.iter() {
            for year in vec![-3i64, 1984, 1987, 1991, 2003] {
                let s = scene(title, *mode, year);
                let summary = get_plain_summary(&encode(&s).unwrap()).unwrap();
                assert!(summary.contains(s.affected_level.name()));
                assert!(summary.contains(s.violated_invariant.label.as_str()));
                assert!(summary.contains(s.mode.word()));
                assert!(summary.contains(s.temperament_hint.name()));
                assert!(s.summary.contains(s.affected_level.name()));
                assert!(s.summary.contains(s.violated_invariant.label.as_str()));
                assert!(s.summary.contains(s.mode.label()));
                assert!(s.summary.contains(s.temperament_hint.name()));
                assert_eq!(
                    summary,
                    format!(
                        "[NoemaFeed • {}]\nУровень: {}\nИнвариант: {}\nТемперамент: {}",
                        s.mode.word(),
                        s.affected_level.name(),
                        s.violated_invariant.label,
                        s.temperament_hint.name()
                    )
                );
                let back = decode(&encode(&s).unwrap()).unwrap();
                let sent = ShareDigest::from_scene(&s);
                assert_eq!(back.event_id, sent.event_id);
                assert_eq!(back.affected_invariant, sent.affected_invariant);
                assert_eq!(back.fus_level, sent.fus_level);
                assert_eq!(back.mode, sent.mode);
                assert_eq!(back.temperament_hint, sent.temperament_hint);
            }
        }
    }
}

#[test]
fn member_is_found_when_it_is_the_only_one() {
    let fields = five_fields();
    assert_eq!(find_field(&fields, "mode"), Some("critical".to_string()));
    assert_eq!(find_field(&fields, "event_id"), Some("e".to_string()));
    assert_eq!(find_field(&fields, "temperament_hint"), Some("sanguine".to_string()));
    assert_eq!(find_field(&fields, "Mode"), None);
    assert_eq!(find_field(&fields, ""), None);
    assert_eq!(find_field(&vec![], "mode"), None);
}

#[test]
fn member_that_occurs_twice_is_not_found() {
    let mut fields = five_fields();
    fields.push(field("mode", Some("critical")));
    assert_eq!(find_field(&fields, "mode"), None);
    assert_eq!(find_field(&fields, "event_id"), Some("e".to_string()));
    assert!(matches!(ShareDigest::from_fields(&fields), Err(EngineError::CorruptDigest)));
}

#[test]
fn member_without_text_is_not_found() {
    let mut fields = five_fields();
    fields[2] = field("fus_level", None);
    assert_eq!(find_field(&fields, "fus_level"), None);
    assert!(matches!(ShareDigest::from_fields(&fields), Err(EngineError::CorruptDigest)));
}

#[test]
fn digest_is_read_from_its_members_in_any_order() {
    let mut fields = five_fields();
    fields.reverse();
    fields.insert(2, field("note", None));
    let d = ShareDigest::from_fields(&fields).unwrap();
    assert_eq!(d.event_id, "e");
    assert_eq!(d.affected_invariant, "fus:Integrity");
    assert_eq!(d.fus_level, "BiologicalLevel");
    assert_eq!(d.mode, "critical");
    assert_eq!(d.temperament_hint, "sanguine");
}

#[test]
fn digest_with_a_member_missing_is_corrupt() {
    for skip in 0..5 {
        let mut fields = five_fields();
        fields.remove(skip);
        assert!(matches!(ShareDigest::from_fields(&fields), Err(EngineError::CorruptDigest)));
    }
    assert!(matches!(ShareDigest::from_fields(&vec![]), Err(EngineError::CorruptDigest)));
}

#[test]
fn event_id_keeps_twenty_bytes() {
    assert_eq!(make_event_id("Regulator bans AI system"), "event_Regulator bans AI sy");
    assert_eq!(make_event_id("12345678901234567890"), "event_12345678901234567890");
    assert_eq!(make_event_id("123456789012345678901"), "event_12345678901234567890");
}

#[test]
fn event_id_of_short_title_is_whole() {
    assert_eq!(make_event_id(""), "event_");
    assert_eq!(make_event_id("Short"), "event_Short");
    assert_eq!(make_event_id("1234567890123456789"), "event_1234567890123456789");
}

#[test]
fn event_id_does_not_split_a_character() {
    let whole = "aЗапрет алгоритмов в школах";
    assert_eq!(make_event_id(whole), "event_aЗапрет алг");
    assert_eq!(make_event_id(whole), format!("event_{}", &whole[..20]));
    let split = "Запрет алгоритмов в школах";
    assert!(!split.is_char_boundary(20));
    assert_eq!(make_event_id(split), format!("event_{}", split));
}

#[test]
fn analysis_without_store_fails() {
    let r = analyze_event(None, &input("Regulator bans AI system"), "critical", 1990);
    assert!(matches!(r, Err(EngineError::StoreNotInitialized)));
    let s = build_event_scene(None, &input("Regulator bans AI system"), "critical", 1990);
    assert!(matches!(s, Err(EngineError::StoreNotInitialized)));
}

#[test]
fn analysis_builds_the_scene() {
    let store = Store::new().unwrap();
    let s = build_event_scene(Some(&store), &input("Regulator bans AI system"), " Analytical ", 1986)
        .unwrap();
    assert_eq!(s.event_id, "event_Regulator bans AI sy");
    assert_eq!(s.mode, AnalysisMode::Analytical);
    assert_eq!(s.affected_level, FusLevel::Ontological);
    assert_eq!(s.temperament_hint, Temperament::Choleric);
    let unknown = build_event_scene(Some(&store), &input("x"), "whatever", 1986).unwrap();
    assert_eq!(unknown.mode, AnalysisMode::Critical);
}

#[test]
fn analysis_gives_the_whole_result() {
    let store = Store::new().unwrap();
    let r = analyze_event(Some(&store), &input("Regulator bans AI system"), "Constructive", 1987)
        .unwrap();
    assert_eq!(r.fus_level, "OntologicalLevel");
    assert_eq!(r.affected_invariant, "fus:ObserverPosition");
    assert_eq!(r.perturbation_type, "pert:RegulatoryPrecautionism");
    assert_eq!(r.mode, "constructive");
    assert_eq!(r.temperament_hint, "phlegmatic");
    assert_eq!(
        r.summary,
        "[NoemaFeed • Конструктивный режим]\nНарушение: Позиция наблюдателя (OntologicalLevel)\nТип возмущения: pert:RegulatoryPrecautionism\nДля темперамента: phlegmatic"
    );
    let expected = "{\"event_id\":\"event_Regulator bans AI sy\",\"affected_invariant\":\"fus:ObserverPosition\",\"fus_level\":\"OntologicalLevel\",\"mode\":\"constructive\",\"temperament_hint\":\"phlegmatic\"}";
    assert_eq!(r.digest, transport(expected));
    assert_eq!(
        get_plain_summary(&r.digest),
        Ok("[NoemaFeed • constructive]\nУровень: OntologicalLevel\nИнвариант: Позиция наблюдателя\nТемперамент: phlegmatic".to_string())
    );
}

#[test]
fn result_carries_scene_and_digest() {
    let s = scene("Regulator bans AI system", AnalysisMode::Critical, 1987);
    let r = assemble_result(&s, "e30=".to_string());
    assert_eq!(r.fus_level, "OntologicalLevel");
    assert_eq!(r.affected_invariant, "fus:ObserverPosition");
    assert_eq!(r.perturbation_type, "pert:RegulatoryPrecautionism");
    assert_eq!(r.mode, "critical");
    assert_eq!(r.temperament_hint, "phlegmatic");
    assert_eq!(r.summary, s.summary);
    assert_eq!(r.digest, "e30=");
}

#[test]
fn analysis_with_a_store_succeeds_for_every_mode() {
    let store = Store::new().unwrap();
    let padded = analyze_event(Some(&store), &input("Regulator bans AI system"), " Analytical ", 1990)
        .unwrap();
    assert_eq!(padded.mode, "analytical");
    assert!(padded.summary.starts_with("[NoemaFeed • Аналитический режим]\n"));
    assert_eq!(padded.temperament_hint, "melancholic");
    let unknown = analyze_event(Some(&store), &input("Regulator bans AI system"), "verbose", 1990)
        .unwrap();
    assert_eq!(unknown.mode, "critical");
    assert!(unknown.summary.starts_with("[NoemaFeed • Критический режим]\n"));
    let empty = analyze_event(Some(&store), &input(""), "", -5).unwrap();
    assert_eq!(empty.mode, "critical");
    assert_eq!(empty.fus_level, "ExistentialLevel");
    assert_eq!(empty.affected_invariant, "fus:FreedomInDeterminism");
    assert_eq!(empty.temperament_hint, "phlegmatic");
    let expected = "{\"event_id\":\"event_\",\"affected_invariant\":\"fus:FreedomInDeterminism\",\"fus_level\":\"ExistentialLevel\",\"mode\":\"critical\",\"temperament_hint\":\"phlegmatic\"}";
    assert_eq!(empty.digest, transport(expected));
}

#[test]
fn text_literals() {
    assert_eq!(quote(""), "\"\"");
    assert_eq!(quote("plain"), "\"plain\"");
    assert_eq!(quote("a\"b\\c\nd"), "\"a\\\"b\\\\c\\nd\"");
    assert_eq!(quote("Юникод"), "\"Юникод\"");
}

#[test]
fn digests_are_compared_text_by_text() {
    let s = scene("Regulator bans AI system", AnalysisMode::Critical, 1990);
    let a = ShareDigest::from_scene(&s);
    let b = ShareDigest::from_scene(&s);
    assert!(same_digest(&a, &b));
    let mut c = ShareDigest::from_scene(&s);
    c.temperament_hint = "choleric".to_string();
    assert!(!same_digest(&a, &c));
    let mut d = ShareDigest::from_scene(&s);
    d.event_id = "other".to_string();
    assert!(!same_digest(&a, &d));
    let mut e = ShareDigest::from_scene(&s);
    e.mode = "Critical".to_string();
    assert!(!same_digest(&a, &e));
}

#[test]
fn encoded_text_reads_back_as_the_scene_digest() {
    let ids = vec!["n-7", "", "a \"quoted\" id\\ with\nnew line", "Событие №5", "{\"mode\":\"x\"}"];
    for id in ids.iter() {
        for title in vec!["Regulator bans AI system", "Local bakery wins award", ""] {
            let s = scene_with_id(id, title, AnalysisMode::Analytical, 1985);
            let text = encode_round_trip(&s).unwrap();
            assert_eq!(Ok(text.clone()), encode(&s));
            let back = decode(&text).unwrap();
            assert!(same_digest(&back, &ShareDigest::from_scene(&s)));
            assert_eq!(
                get_plain_summary(&text),
                Ok(format!(
                    "[NoemaFeed • analytical]\nУровень: {}\nИнвариант: {}\nТемперамент: choleric",
                    s.affected_level.name(),
                    s.violated_invariant.label
                ))
            );
        }
    }
}
