//! Subtypes of every card type but creature (CR 205.3).
use vstd::prelude::*;

verus! {

pub open spec fn words_view(words: Seq<&str>) -> Seq<Seq<char>> {
    Seq::new(words.len(), |i: int| words[i]@)
}

/// Artifact types (CR 205.3g).
pub open spec fn artifact_types() -> Seq<Seq<char>> {
    seq![
        "Attraction"@, "Blood"@, "Bobblehead"@, "Clue"@, "Contraption"@, "Equipment"@, "Food"@,
        "Fortification"@, "Gold"@, "Incubator"@, "Infinity"@, "Junk"@, "Lander"@, "Map"@,
        "Mutagen"@, "Powerstone"@, "Spacecraft"@, "Stone"@, "Treasure"@, "Vehicle"@,
    ]
}

fn list_artifact_types() -> (r: Vec<&'static str>)
    ensures
        words_view(r@) == artifact_types(),
{
    let r: Vec<&'static str> = vec![
        "Attraction", "Blood", "Bobblehead", "Clue", "Contraption", "Equipment", "Food",
        "Fortification", "Gold", "Incubator", "Infinity", "Junk", "Lander", "Map", "Mutagen",
        "Powerstone", "Spacecraft", "Stone", "Treasure", "Vehicle",
    ];
    assert(words_view(r@) =~= artifact_types());
    r
}

/// Enchantment types (CR 205.3h).
pub open spec fn enchantment_types() -> Seq<Seq<char>> {
    seq![
        "Aura"@, "Background"@, "Cartouche"@, "Case"@, "Class"@, "Curse"@, "Plan"@, "Role"@,
        "Room"@, "Rune"@, "Saga"@, "Shard"@, "Shrine"@,
    ]
}

fn list_enchantment_types() -> (r: Vec<&'static str>)
    ensures
        words_view(r@) == enchantment_types(),
{
    let r: Vec<&'static str> = vec![
        "Aura", "Background", "Cartouche", "Case", "Class", "Curse", "Plan", "Role", "Room",
        "Rune", "Saga", "Shard", "Shrine",
    ];
    assert(words_view(r@) =~= enchantment_types());
    r
}

/// Land types (CR 205.3i).
pub open spec fn land_types() -> Seq<Seq<char>> {
    seq![
        "Cave"@, "Desert"@, "Forest"@, "Gate"@, "Island"@, "Lair"@, "Locus"@, "Mine"@,
        "Mountain"@, "Plains"@, "Planet"@, "Power-Plant"@, "Sphere"@, "Swamp"@, "Tower"@,
        "Town"@, "Urza's"@,
    ]
}

fn list_land_types() -> (r: Vec<&'static str>)
    ensures
        words_view(r@) == land_types(),
{
    let r: Vec<&'static str> = vec![
        "Cave", "Desert", "Forest", "Gate", "Island", "Lair", "Locus", "Mine", "Mountain",
        "Plains", "Planet", "Power-Plant", "Sphere", "Swamp", "Tower", "Town", "Urza's",
    ];
    assert(words_view(r@) =~= land_types());
    r
}

/// Planeswalker types (CR 205.3j), A to G.
pub open spec fn planeswalker_types_a_to_g() -> Seq<Seq<char>> {
    seq![
        "Ajani"@, "Aminatou"@, "Angrath"@, "Arlinn"@, "Ashiok"@, "Bahamut"@, "Basri"@,
        "Bolas"@, "Calix"@, "Chandra"@, "Comet"@, "Dack"@, "Dakkon"@, "Daretti"@, "Davriel"@,
        "Dihada"@, "Domri"@, "Dovin"@, "Ellywick"@, "Elminster"@, "Elspeth"@, "Estrid"@,
        "Freyalise"@, "Garruk"@, "Gideon"@, "Grist"@, "Guff"@,
    ]
}

fn list_planeswalker_types_a_to_g() -> (r: Vec<&'static str>)
    ensures
        words_view(r@) == planeswalker_types_a_to_g(),
{
    let r: Vec<&'static str> = vec![
        "Ajani", "Aminatou", "Angrath", "Arlinn", "Ashiok", "Bahamut", "Basri", "Bolas",
        "Calix", "Chandra", "Comet", "Dack", "Dakkon", "Daretti", "Davriel", "Dihada", "Domri",
        "Dovin", "Ellywick", "Elminster", "Elspeth", "Estrid", "Freyalise", "Garruk", "Gideon",
        "Grist", "Guff",
    ];
    assert(words_view(r@) =~= planeswalker_types_a_to_g());
    r
}

/// Planeswalker types (CR 205.3j), H to N.
pub open spec fn planeswalker_types_h_to_n() -> Seq<Seq<char>> {
    seq![
        "Huatli"@, "Jace"@, "Jared"@, "Jaya"@, "Jeska"@, "Kaito"@, "Karn"@, "Kasmina"@,
        "Kaya"@, "Kiora"@, "Koth"@, "Liliana"@, "Lolth"@, "Lukka"@, "Minsc"@, "Mordenkainen"@,
        "Nahiri"@, "Narset"@, "Niko"@, "Nissa"@, "Nixilis"@,
    ]
}

fn list_planeswalker_types_h_to_n() -> (r: Vec<&'static str>)
    ensures
        words_view(r@) == planeswalker_types_h_to_n(),
{
    let r: Vec<&'static str> = vec![
        "Huatli", "Jace", "Jared", "Jaya", "Jeska", "Kaito", "Karn", "Kasmina", "Kaya",
        "Kiora", "Koth", "Liliana", "Lolth", "Lukka", "Minsc", "Mordenkainen", "Nahiri",
        "Narset", "Niko", "Nissa", "Nixilis",
    ];
    assert(words_view(r@) =~= planeswalker_types_h_to_n());
    r
}

/// Planeswalker types (CR 205.3j), O to Z.
pub open spec fn planeswalker_types_o_to_z() -> Seq<Seq<char>> {
    seq![
        "Oko"@, "Quintorius"@, "Ral"@, "Rowan"@, "Saheeli"@, "Samut"@, "Sarkhan"@, "Serra"@,
        "Sivitri"@, "Sorin"@, "Szat"@, "Tamiyo"@, "Tasha"@, "Teferi"@, "Teyo"@, "Tezzeret"@,
        "Tibalt"@, "Tyvar"@, "Ugin"@, "Urza"@, "Venser"@, "Vivien"@, "Vraska"@, "Vronos"@,
        "Will"@, "Windgrace"@, "Wrenn"@, "Xenagos"@, "Yanggu"@, "Yanling"@, "Zariel"@,
    ]
}

fn list_planeswalker_types_o_to_z() -> (r: Vec<&'static str>)
    ensures
        words_view(r@) == planeswalker_types_o_to_z(),
{
    let r: Vec<&'static str> = vec![
        "Oko", "Quintorius", "Ral", "Rowan", "Saheeli", "Samut", "Sarkhan", "Serra", "Sivitri",
        "Sorin", "Szat", "Tamiyo", "Tasha", "Teferi", "Teyo", "Tezzeret", "Tibalt", "Tyvar",
        "Ugin", "Urza", "Venser", "Vivien", "Vraska", "Vronos", "Will", "Windgrace", "Wrenn",
        "Xenagos", "Yanggu", "Yanling", "Zariel",
    ];
    assert(words_view(r@) =~= planeswalker_types_o_to_z());
    r
}

/// Spell types (CR 205.3k).
pub open spec fn spell_types() -> Seq<Seq<char>> {
    seq![
        "Adventure"@, "Arcane"@, "Lesson"@, "Omen"@, "Trap"@,
    ]
}

fn list_spell_types() -> (r: Vec<&'static str>)
    ensures
        words_view(r@) == spell_types(),
{
    let r: Vec<&'static str> = vec![
        "Adventure", "Arcane", "Lesson", "Omen", "Trap",
    ];
    assert(words_view(r@) =~= spell_types());
    r
}

/// Battle types (CR 205.3q).
pub open spec fn battle_types() -> Seq<Seq<char>> {
    seq![
        "Siege"@,
    ]
}

fn list_battle_types() -> (r: Vec<&'static str>)
    ensures
        words_view(r@) == battle_types(),
{
    let r: Vec<&'static str> = vec![
        "Siege",
    ];
    assert(words_view(r@) =~= battle_types());
    r
}

/// Every noncreature subtype.
pub open spec fn noncreature_subtypes() -> Seq<Seq<char>> {
    artifact_types()
        + enchantment_types()
        + land_types()
        + planeswalker_types_a_to_g()
        + planeswalker_types_h_to_n()
        + planeswalker_types_o_to_z()
        + spell_types()
        + battle_types()
}

/// Every noncreature subtype, category by category.
pub fn fixed_noncreature_subtypes() -> (r: Vec<&'static str>)
    ensures
        words_view(r@) == noncreature_subtypes(),
{
    let mut r = list_artifact_types();

    append_words(&mut r, list_enchantment_types());
    append_words(&mut r, list_land_types());
    append_words(&mut r, list_planeswalker_types_a_to_g());
    append_words(&mut r, list_planeswalker_types_h_to_n());
    append_words(&mut r, list_planeswalker_types_o_to_z());
    append_words(&mut r, list_spell_types());
    append_words(&mut r, list_battle_types());
    r
}

fn append_words(list: &mut Vec<&'static str>, more: Vec<&'static str>)
    ensures
        words_view(final(list)@) == words_view(old(list)@) + words_view(more@),
{
    let mut i: usize = 0;
    while i < more.len()
        invariant
            i <= more.len(),
            words_view(list@) == words_view(old(list)@) + words_view(more@.take(i as int)),
        decreases more.len() - i,
    {
        let ghost before = list@;
        list.push(more[i]);
        i = i + 1;
        proof {
            assert(words_view(list@) =~= words_view(before).push(more@[i - 1]@));
            assert(words_view(more@.take(i as int)) =~= words_view(more@.take(i - 1)).push(more@[i - 1]@));
        }
    }
    assert(more@.take(i as int) =~= more@);
}

} // verus!
