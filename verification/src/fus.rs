//! The closed taxonomy: five ordered levels and the catalog of invariants.

use vstd::prelude::*;
use crate::text::same_text;

verus! {

/// One tier of the hierarchy, ordered by depth.
#[derive(Clone, Copy, Debug, PartialEq, Eq, Structural)]
pub enum FusLevel {
    /// Distinction, relation, position of the observer.
    Ontological,
    /// Energy, symmetry, hierarchy (the structural tier).
    Physical,
    /// Integrity, adaptation, heredity (the archetypal tier).
    Biological,
    /// Agency, narrative, ethical frame (the identity tier).
    Psychic,
    /// Finitude and freedom inside determinism.
    Existential,
}

/// Namespace that every level URI starts with.
pub open spec fn level_namespace() -> Seq<char> {
    "http://onto16.org/fus#"@
}

/// The level that a bare level word denotes. Four words are read:
/// "Ontological", and the second word of each middle level, "Structural",
/// "Archetypal" and "Identity". Every other word denotes the existential
/// level.
pub open spec fn level_of_word(word: Seq<char>) -> FusLevel {
    if word == "Ontological"@ {
        FusLevel::Ontological
    } else if word == "Structural"@ {
        FusLevel::Physical
    } else if word == "Archetypal"@ {
        FusLevel::Biological
    } else if word == "Identity"@ {
        FusLevel::Psychic
    } else {
        FusLevel::Existential
    }
}

impl FusLevel {
    /// Depth of the level as a mathematical integer: 0 is the most foundational.
    pub open spec fn spec_depth(self) -> int {
        match self {
            FusLevel::Ontological => 0,
            FusLevel::Physical => 1,
            FusLevel::Biological => 2,
            FusLevel::Psychic => 3,
            FusLevel::Existential => 4,
        }
    }

    /// The level's name: the fragment of its URI.
    pub open spec fn spec_name(self) -> Seq<char> {
        match self {
            FusLevel::Ontological => "OntologicalLevel"@,
            FusLevel::Physical => "PhysicalLevel"@,
            FusLevel::Biological => "BiologicalLevel"@,
            FusLevel::Psychic => "PsychicLevel"@,
            FusLevel::Existential => "ExistentialLevel"@,
        }
    }

    /// The level's stable URI.
    pub open spec fn spec_uri(self) -> Seq<char> {
        match self {
            FusLevel::Ontological => "http://onto16.org/fus#OntologicalLevel"@,
            FusLevel::Physical => "http://onto16.org/fus#PhysicalLevel"@,
            FusLevel::Biological => "http://onto16.org/fus#BiologicalLevel"@,
            FusLevel::Psychic => "http://onto16.org/fus#PsychicLevel"@,
            FusLevel::Existential => "http://onto16.org/fus#ExistentialLevel"@,
        }
    }

    /// The bare word that `from_str` reads as this level.
    pub open spec fn spec_word(self) -> Seq<char> {
        match self {
            FusLevel::Ontological => "Ontological"@,
            FusLevel::Physical => "Structural"@,
            FusLevel::Biological => "Archetypal"@,
            FusLevel::Psychic => "Identity"@,
            FusLevel::Existential => "Existential"@,
        }
    }

    /// The bare word that `from_str` reads as this level.
    pub fn word(&self) -> (r: &'static str)
        ensures
            r@ == self.spec_word(),
    {
        match self {
            FusLevel::Ontological => "Ontological",
            FusLevel::Physical => "Structural",
            FusLevel::Biological => "Archetypal",
            FusLevel::Psychic => "Identity",
            FusLevel::Existential => "Existential",
        }
    }

    /// The level's stable URI.
    pub fn uri(&self) -> (r: &'static str)
        ensures
            r@ == self.spec_uri(),
    {
        match self {
            FusLevel::Ontological => "http://onto16.org/fus#OntologicalLevel",
            FusLevel::Physical => "http://onto16.org/fus#PhysicalLevel",
            FusLevel::Biological => "http://onto16.org/fus#BiologicalLevel",
            FusLevel::Psychic => "http://onto16.org/fus#PsychicLevel",
            FusLevel::Existential => "http://onto16.org/fus#ExistentialLevel",
        }
    }

    /// The level's name as summaries print it.
    pub fn name(&self) -> (r: &'static str)
        ensures
            r@ == self.spec_name(),
    {
        match self {
            FusLevel::Ontological => "OntologicalLevel",
            FusLevel::Physical => "PhysicalLevel",
            FusLevel::Biological => "BiologicalLevel",
            FusLevel::Psychic => "PsychicLevel",
            FusLevel::Existential => "ExistentialLevel",
        }
    }

    /// Depth of the level: 0 is the most foundational, 4 the least.
    pub fn depth(&self) -> (d: u8)
        ensures
            d as int == self.spec_depth(),
    {
        match self {
            FusLevel::Ontological => 0,
            FusLevel::Physical => 1,
            FusLevel::Biological => 2,
            FusLevel::Psychic => 3,
            FusLevel::Existential => 4,
        }
    }

    /// Reads a bare level word; an unknown word gives the existential level.
    /// `word` gives the word that is read back as the level.
    pub fn from_str(s: &str) -> (r: Self)
        ensures
            r == level_of_word(s@),
    {
        if same_text(s, "Ontological") {
            FusLevel::Ontological
        } else if same_text(s, "Structural") {
            FusLevel::Physical
        } else if same_text(s, "Archetypal") {
            FusLevel::Biological
        } else if same_text(s, "Identity") {
            FusLevel::Psychic
        } else {
            FusLevel::Existential
        }
    }
}

/// The word of a level reads back as that level.
pub proof fn lemma_level_word_reads_back(level: FusLevel)
    ensures
        level_of_word(level.spec_word()) == level,
{
    reveal_strlit("Ontological");
    reveal_strlit("Structural");
    reveal_strlit("Archetypal");
    reveal_strlit("Identity");
    reveal_strlit("Existential");
    assert("Ontological"@[0] == 'O');
    assert("Structural"@[0] == 'S');
    assert("Archetypal"@[0] == 'A');
    assert("Identity"@[0] == 'I');
    assert("Existential"@[0] == 'E');
}

/// The depth order is total and strict: two levels of one depth are one level.
pub proof fn lemma_depth_identifies_level(a: FusLevel, b: FusLevel)
    ensures
        0 <= a.spec_depth() <= 4,
        a.spec_depth() == b.spec_depth() <==> a == b,
{
}

/// Every level URI is the namespace followed by the level's name.
pub proof fn lemma_uri_is_namespace_and_name(level: FusLevel)
    ensures
        level.spec_uri() =~= level_namespace() + level.spec_name(),
{
    reveal_strlit("http://onto16.org/fus#");
    reveal_strlit("OntologicalLevel");
    reveal_strlit("PhysicalLevel");
    reveal_strlit("BiologicalLevel");
    reveal_strlit("PsychicLevel");
    reveal_strlit("ExistentialLevel");
    reveal_strlit("http://onto16.org/fus#OntologicalLevel");
    reveal_strlit("http://onto16.org/fus#PhysicalLevel");
    reveal_strlit("http://onto16.org/fus#BiologicalLevel");
    reveal_strlit("http://onto16.org/fus#PsychicLevel");
    reveal_strlit("http://onto16.org/fus#ExistentialLevel");
}

/// A named structural property that a system is expected to preserve.
#[derive(Clone, Debug)]
pub struct Invariant {
    pub id: String,
    pub label: String,
    pub level: FusLevel,
    pub description: String,
}

/// What an invariant is, as plain mathematical values.
pub struct InvariantModel {
    pub id: Seq<char>,
    pub label: Seq<char>,
    pub level: FusLevel,
    pub description: Seq<char>,
}

impl View for Invariant {
    type V = InvariantModel;

    open spec fn view(&self) -> InvariantModel {
        InvariantModel {
            id: self.id@,
            label: self.label@,
            level: self.level,
            description: self.description@,
        }
    }
}

impl Invariant {
    /// Builds an invariant from its four parts, copying the texts.
    pub fn new(id: &str, label: &str, level: FusLevel, desc: &str) -> (r: Self)
        ensures
            r@ == (InvariantModel { id: id@, label: label@, level: level, description: desc@ }),
    {
        Invariant {
            id: id.to_owned(),
            label: label.to_owned(),
            level,
            description: desc.to_owned(),
        }
    }
}

/// Number of invariants in the built-in catalog.
pub const CATALOG_LEN: usize = 6;

/// Label printed for an invariant id that the catalog does not hold.
pub open spec fn generic_label() -> Seq<char> {
    "Онтологический инвариант"@
}

/// The catalog, entry by entry, in its fixed order.
pub open spec fn catalog(i: int) -> InvariantModel
    recommends
        0 <= i < CATALOG_LEN,
{
    if i == 0 {
        InvariantModel {
            id: "fus:Distinction"@,
            label: "Различение"@,
            level: FusLevel::Ontological,
            description: "Способность различать 'бытие' и 'небытие'"@,
        }
    } else if i == 1 {
        InvariantModel {
            id: "fus:ObserverPosition"@,
            label: "Позиция наблюдателя"@,
            level: FusLevel::Ontological,
            description: "Независимость субъекта от объекта наблюдения"@,
        }
    } else if i == 2 {
        InvariantModel {
            id: "fus:EnergyHierarchy"@,
            label: "Энергетическая иерархия"@,
            level: FusLevel::Physical,
            description: "Энергия распределяется иерархически, а не хаотично"@,
        }
    } else if i == 3 {
        InvariantModel {
            id: "fus:Integrity"@,
            label: "Целостность"@,
            level: FusLevel::Biological,
            description: "Живая система сохраняет границу 'внутри/снаружи'"@,
        }
    } else if i == 4 {
        InvariantModel {
            id: "fus:AgencyResponsibility"@,
            label: "Агентность с ответственностью"@,
            level: FusLevel::Psychic,
            description: "Действие невозможно без этической ответственности"@,
        }
    } else {
        InvariantModel {
            id: "fus:FreedomInDeterminism"@,
            label: "Свобода-в-детерминизме"@,
            level: FusLevel::Existential,
            description: "Свобода возможна только внутри детерминированных рамок"@,
        }
    }
}

/// Position of the first catalog entry with this id among the first `n`
/// entries, or -1 where none of them has it.
pub open spec fn catalog_position(id: Seq<char>, n: int) -> int
    decreases n,
{
    if n <= 0 {
        -1
    } else if catalog_position(id, n - 1) >= 0 {
        catalog_position(id, n - 1)
    } else if catalog(n - 1).id == id {
        n - 1
    } else {
        -1
    }
}

/// The label that summaries print for an invariant id: the catalog's label
/// where the catalog holds the id, the generic label otherwise.
pub open spec fn label_of(id: Seq<char>) -> Seq<char> {
    let k = catalog_position(id, CATALOG_LEN as int);
    if k >= 0 {
        catalog(k).label
    } else {
        generic_label()
    }
}

/// The catalog entry at position `i`, copied out by value.
pub fn catalog_entry(i: usize) -> (r: Invariant)
    requires
        i < CATALOG_LEN,
    ensures
        r@ == catalog(i as int),
{
    if i == 0 {
        Invariant::new(
            "fus:Distinction",
            "Различение",
            FusLevel::Ontological,
            "Способность различать 'бытие' и 'небытие'",
        )
    } else if i == 1 {
        Invariant::new(
            "fus:ObserverPosition",
            "Позиция наблюдателя",
            FusLevel::Ontological,
            "Независимость субъекта от объекта наблюдения",
        )
    } else if i == 2 {
        Invariant::new(
            "fus:EnergyHierarchy",
            "Энергетическая иерархия",
            FusLevel::Physical,
            "Энергия распределяется иерархически, а не хаотично",
        )
    } else if i == 3 {
        Invariant::new(
            "fus:Integrity",
            "Целостность",
            FusLevel::Biological,
            "Живая система сохраняет границу 'внутри/снаружи'",
        )
    } else if i == 4 {
        Invariant::new(
            "fus:AgencyResponsibility",
            "Агентность с ответственностью",
            FusLevel::Psychic,
            "Действие невозможно без этической ответственности",
        )
    } else {
        Invariant::new(
            "fus:FreedomInDeterminism",
            "Свобода-в-детерминизме",
            FusLevel::Existential,
            "Свобода возможна только внутри детерминированных рамок",
        )
    }
}

/// The whole catalog, in its fixed order.
pub fn known_invariants() -> (r: Vec<Invariant>)
    ensures
        r@.len() == CATALOG_LEN,
        forall|i: int| 0 <= i < CATALOG_LEN ==> (#[trigger] r@[i])@ == catalog(i),
{
    let mut all: Vec<Invariant> = Vec::new();
    let mut i: usize = 0;
    while i < CATALOG_LEN
        invariant
            i <= CATALOG_LEN,
            all@.len() == i,
            forall|j: int| 0 <= j < i ==> (#[trigger] all@[j])@ == catalog(j),
        decreases CATALOG_LEN - i,
    {
        all.push(catalog_entry(i));
        i = i + 1;
    }
    all
}

/// Looks an invariant up by its id: the first catalog entry with that id, or
/// `None` where the catalog holds none.
pub fn find_invariant(id: &str) -> (r: Option<Invariant>)
    ensures
        match r {
            Some(inv) => catalog_position(id@, CATALOG_LEN as int) >= 0 && inv@ == catalog(
                catalog_position(id@, CATALOG_LEN as int),
            ),
            None => catalog_position(id@, CATALOG_LEN as int) < 0,
        },
{
    let mut i: usize = 0;
    while i < CATALOG_LEN
        invariant
            i <= CATALOG_LEN,
            catalog_position(id@, i as int) < 0,
        decreases CATALOG_LEN - i,
    {
        let entry = catalog_entry(i);
        if same_text(entry.id.as_str(), id) {
            proof {
                lemma_position_stays(id@, i as int + 1, CATALOG_LEN as int);
            }
            return Some(entry);
        }
        i = i + 1;
    }
    None
}

/// Once an id is found among the first `n` entries, more entries do not move it.
pub proof fn lemma_position_stays(id: Seq<char>, n: int, m: int)
    requires
        0 <= n <= m,
        catalog_position(id, n) >= 0,
    ensures
        catalog_position(id, m) == catalog_position(id, n),
    decreases m - n,
{
    if n < m {
        lemma_position_stays(id, n, m - 1);
    }
}

/// A found position is inside the catalog prefix and holds the id.
pub proof fn lemma_position_holds_id(id: Seq<char>, n: int)
    requires
        0 <= n,
    ensures
        catalog_position(id, n) >= 0 ==> catalog_position(id, n) < n && catalog(
            catalog_position(id, n),
        ).id == id,
        catalog_position(id, n) < 0 ==> forall|j: int| 0 <= j < n ==> (#[trigger] catalog(j)).id != id,
    decreases n,
{
    if n > 0 {
        lemma_position_holds_id(id, n - 1);
    }
}

/// No two catalog entries share an id.
pub proof fn lemma_catalog_ids_distinct()
    ensures
        forall|i: int, j: int|
            0 <= i < j < CATALOG_LEN ==> (#[trigger] catalog(i)).id != (#[trigger] catalog(j)).id,
{
    reveal_strlit("fus:Distinction");
    reveal_strlit("fus:ObserverPosition");
    reveal_strlit("fus:EnergyHierarchy");
    reveal_strlit("fus:Integrity");
    reveal_strlit("fus:AgencyResponsibility");
    reveal_strlit("fus:FreedomInDeterminism");
    assert(catalog(0).id.len() == 15);
    assert(catalog(1).id.len() == 20);
    assert(catalog(2).id.len() == 19);
    assert(catalog(3).id.len() == 13);
    assert(catalog(4).id.len() == 24);
    assert(catalog(5).id.len() == 24);
    assert(catalog(4).id[4] == 'A');
    assert(catalog(5).id[4] == 'F');
}

/// Looking up the id of a catalog entry finds that entry, so the label that
/// summaries print for it is its own.
pub proof fn lemma_catalog_entry_found(k: int)
    requires
        0 <= k < CATALOG_LEN,
    ensures
        catalog_position(catalog(k).id, CATALOG_LEN as int) == k,
        label_of(catalog(k).id) == catalog(k).label,
{
    lemma_catalog_ids_distinct();
    lemma_position_holds_id(catalog(k).id, k);
    assert(catalog_position(catalog(k).id, k) < 0);
    assert(catalog_position(catalog(k).id, k + 1) == k);
    lemma_position_stays(catalog(k).id, k + 1, CATALOG_LEN as int);
}

/// The label that summaries print for an invariant id.
pub fn invariant_label(id: &str) -> (r: String)
    ensures
        r@ == label_of(id@),
{
    match find_invariant(id) {
        Some(inv) => inv.label,
        None => "Онтологический инвариант".to_owned(),
    }
}

} // verus!
