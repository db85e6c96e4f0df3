//! The noncreature subtypes that the parser knows.
use vstd::prelude::*;

use crate::database::noncreature_subtypes;
use crate::database::subtype_vocab;

verus! {

proof fn lemma_known(creature_subtypes: Seq<Seq<char>>, k: int)
    requires
        0 <= k < noncreature_subtypes::noncreature_subtypes().len(),
    ensures
        subtype_vocab::vocabulary(creature_subtypes).contains(
            noncreature_subtypes::noncreature_subtypes()[k],
        ),
{
    let all = noncreature_subtypes::noncreature_subtypes();
    assert(all.to_set().contains(all[k]));
}

/// Artifact types (CR 205.3g): the parser knows each of them, whichever creature subtypes there are.
pub proof fn artifact_types_are_known(creature_subtypes: Seq<Seq<char>>, word: Seq<char>)
    requires
        ({
            ||| word == "Attraction"@
            ||| word == "Blood"@
            ||| word == "Bobblehead"@
            ||| word == "Clue"@
            ||| word == "Contraption"@
            ||| word == "Equipment"@
            ||| word == "Food"@
            ||| word == "Fortification"@
            ||| word == "Gold"@
            ||| word == "Incubator"@
            ||| word == "Infinity"@
            ||| word == "Junk"@
            ||| word == "Lander"@
            ||| word == "Map"@
            ||| word == "Mutagen"@
            ||| word == "Powerstone"@
            ||| word == "Spacecraft"@
            ||| word == "Stone"@
            ||| word == "Treasure"@
            ||| word == "Vehicle"@
        }),
    ensures
        subtype_vocab::vocabulary(creature_subtypes).contains(word),
{
    let all = noncreature_subtypes::noncreature_subtypes();
    if word == "Attraction"@ {
        assert(all[0] == "Attraction"@);
        lemma_known(creature_subtypes, 0);
    } else if word == "Blood"@ {
        assert(all[1] == "Blood"@);
        lemma_known(creature_subtypes, 1);
    } else if word == "Bobblehead"@ {
        assert(all[2] == "Bobblehead"@);
        lemma_known(creature_subtypes, 2);
    } else if word == "Clue"@ {
        assert(all[3] == "Clue"@);
        lemma_known(creature_subtypes, 3);
    } else if word == "Contraption"@ {
        assert(all[4] == "Contraption"@);
        lemma_known(creature_subtypes, 4);
    } else if word == "Equipment"@ {
        assert(all[5] == "Equipment"@);
        lemma_known(creature_subtypes, 5);
    } else if word == "Food"@ {
        assert(all[6] == "Food"@);
        lemma_known(creature_subtypes, 6);
    } else if word == "Fortification"@ {
        assert(all[7] == "Fortification"@);
        lemma_known(creature_subtypes, 7);
    } else if word == "Gold"@ {
        assert(all[8] == "Gold"@);
        lemma_known(creature_subtypes, 8);
    } else if word == "Incubator"@ {
        assert(all[9] == "Incubator"@);
        lemma_known(creature_subtypes, 9);
    } else if word == "Infinity"@ {
        assert(all[10] == "Infinity"@);
        lemma_known(creature_subtypes, 10);
    } else if word == "Junk"@ {
        assert(all[11] == "Junk"@);
        lemma_known(creature_subtypes, 11);
    } else if word == "Lander"@ {
        assert(all[12] == "Lander"@);
        lemma_known(creature_subtypes, 12);
    } else if word == "Map"@ {
        assert(all[13] == "Map"@);
        lemma_known(creature_subtypes, 13);
    } else if word == "Mutagen"@ {
        assert(all[14] == "Mutagen"@);
        lemma_known(creature_subtypes, 14);
    } else if word == "Powerstone"@ {
        assert(all[15] == "Powerstone"@);
        lemma_known(creature_subtypes, 15);
    } else if word == "Spacecraft"@ {
        assert(all[16] == "Spacecraft"@);
        lemma_known(creature_subtypes, 16);
    } else if word == "Stone"@ {
        assert(all[17] == "Stone"@);
        lemma_known(creature_subtypes, 17);
    } else if word == "Treasure"@ {
        assert(all[18] == "Treasure"@);
        lemma_known(creature_subtypes, 18);
    } else if word == "Vehicle"@ {
        assert(all[19] == "Vehicle"@);
        lemma_known(creature_subtypes, 19);
    }
}

/// Enchantment types (CR 205.3h): the parser knows each of them, whichever creature subtypes there are.
pub proof fn enchantment_types_are_known(creature_subtypes: Seq<Seq<char>>, word: Seq<char>)
    requires
        ({
            ||| word == "Aura"@
            ||| word == "Background"@
            ||| word == "Cartouche"@
            ||| word == "Case"@
            ||| word == "Class"@
            ||| word == "Curse"@
            ||| word == "Plan"@
            ||| word == "Role"@
            ||| word == "Room"@
            ||| word == "Rune"@
            ||| word == "Saga"@
            ||| word == "Shard"@
            ||| word == "Shrine"@
        }),
    ensures
        subtype_vocab::vocabulary(creature_subtypes).contains(word),
{
    let all = noncreature_subtypes::noncreature_subtypes();
    if word == "Aura"@ {
        assert(all[20] == "Aura"@);
        lemma_known(creature_subtypes, 20);
    } else if word == "Background"@ {
        assert(all[21] == "Background"@);
        lemma_known(creature_subtypes, 21);
    } else if word == "Cartouche"@ {
        assert(all[22] == "Cartouche"@);
        lemma_known(creature_subtypes, 22);
    } else if word == "Case"@ {
        assert(all[23] == "Case"@);
        lemma_known(creature_subtypes, 23);
    } else if word == "Class"@ {
        assert(all[24] == "Class"@);
        lemma_known(creature_subtypes, 24);
    } else if word == "Curse"@ {
        assert(all[25] == "Curse"@);
        lemma_known(creature_subtypes, 25);
    } else if word == "Plan"@ {
        assert(all[26] == "Plan"@);
        lemma_known(creature_subtypes, 26);
    } else if word == "Role"@ {
        assert(all[27] == "Role"@);
        lemma_known(creature_subtypes, 27);
    } else if word == "Room"@ {
        assert(all[28] == "Room"@);
        lemma_known(creature_subtypes, 28);
    } else if word == "Rune"@ {
        assert(all[29] == "Rune"@);
        lemma_known(creature_subtypes, 29);
    } else if word == "Saga"@ {
        assert(all[30] == "Saga"@);
        lemma_known(creature_subtypes, 30);
    } else if word == "Shard"@ {
        assert(all[31] == "Shard"@);
        lemma_known(creature_subtypes, 31);
    } else if word == "Shrine"@ {
        assert(all[32] == "Shrine"@);
        lemma_known(creature_subtypes, 32);
    }
}

/// Land types (CR 205.3i): the parser knows each of them, whichever creature subtypes there are.
pub proof fn land_types_are_known(creature_subtypes: Seq<Seq<char>>, word: Seq<char>)
    requires
        ({
            ||| word == "Cave"@
            ||| word == "Desert"@
            ||| word == "Forest"@
            ||| word == "Gate"@
            ||| word == "Island"@
            ||| word == "Lair"@
            ||| word == "Locus"@
            ||| word == "Mine"@
            ||| word == "Mountain"@
            ||| word == "Plains"@
            ||| word == "Planet"@
            ||| word == "Power-Plant"@
            ||| word == "Sphere"@
            ||| word == "Swamp"@
            ||| word == "Tower"@
            ||| word == "Town"@
            ||| word == "Urza's"@
        }),
    ensures
        subtype_vocab::vocabulary(creature_subtypes).contains(word),
{
    let all = noncreature_subtypes::noncreature_subtypes();
    if word == "Cave"@ {
        assert(all[33] == "Cave"@);
        lemma_known(creature_subtypes, 33);
    } else if word == "Desert"@ {
        assert(all[34] == "Desert"@);
        lemma_known(creature_subtypes, 34);
    } else if word == "Forest"@ {
        assert(all[35] == "Forest"@);
        lemma_known(creature_subtypes, 35);
    } else if word == "Gate"@ {
        assert(all[36] == "Gate"@);
        lemma_known(creature_subtypes, 36);
    } else if word == "Island"@ {
        assert(all[37] == "Island"@);
        lemma_known(creature_subtypes, 37);
    } else if word == "Lair"@ {
        assert(all[38] == "Lair"@);
        lemma_known(creature_subtypes, 38);
    } else if word == "Locus"@ {
        assert(all[39] == "Locus"@);
        lemma_known(creature_subtypes, 39);
    } else if word == "Mine"@ {
        assert(all[40] == "Mine"@);
        lemma_known(creature_subtypes, 40);
    } else if word == "Mountain"@ {
        assert(all[41] == "Mountain"@);
        lemma_known(creature_subtypes, 41);
    } else if word == "Plains"@ {
        assert(all[42] == "Plains"@);
        lemma_known(creature_subtypes, 42);
    } else if word == "Planet"@ {
        assert(all[43] == "Planet"@);
        lemma_known(creature_subtypes, 43);
    } else if word == "Power-Plant"@ {
        assert(all[44] == "Power-Plant"@);
        lemma_known(creature_subtypes, 44);
    } else if word == "Sphere"@ {
        assert(all[45] == "Sphere"@);
        lemma_known(creature_subtypes, 45);
    } else if word == "Swamp"@ {
        assert(all[46] == "Swamp"@);
        lemma_known(creature_subtypes, 46);
    } else if word == "Tower"@ {
        assert(all[47] == "Tower"@);
        lemma_known(creature_subtypes, 47);
    } else if word == "Town"@ {
        assert(all[48] == "Town"@);
        lemma_known(creature_subtypes, 48);
    } else if word == "Urza's"@ {
        assert(all[49] == "Urza's"@);
        lemma_known(creature_subtypes, 49);
    }
}

/// Planeswalker types (CR 205.3j), A to G: the parser knows each of them, whichever creature subtypes there are.
pub proof fn planeswalker_types_a_to_g_are_known(creature_subtypes: Seq<Seq<char>>, word: Seq<char>)
    requires
        ({
            ||| word == "Ajani"@
            ||| word == "Aminatou"@
            ||| word == "Angrath"@
            ||| word == "Arlinn"@
            ||| word == "Ashiok"@
            ||| word == "Bahamut"@
            ||| word == "Basri"@
            ||| word == "Bolas"@
            ||| word == "Calix"@
            ||| word == "Chandra"@
            ||| word == "Comet"@
            ||| word == "Dack"@
            ||| word == "Dakkon"@
            ||| word == "Daretti"@
            ||| word == "Davriel"@
            ||| word == "Dihada"@
            ||| word == "Domri"@
            ||| word == "Dovin"@
            ||| word == "Ellywick"@
            ||| word == "Elminster"@
            ||| word == "Elspeth"@
            ||| word == "Estrid"@
            ||| word == "Freyalise"@
            ||| word == "Garruk"@
            ||| word == "Gideon"@
            ||| word == "Grist"@
            ||| word == "Guff"@
        }),
    ensures
        subtype_vocab::vocabulary(creature_subtypes).contains(word),
{
    let all = noncreature_subtypes::noncreature_subtypes();
    if word == "Ajani"@ {
        assert(all[50] == "Ajani"@);
        lemma_known(creature_subtypes, 50);
    } else if word == "Aminatou"@ {
        assert(all[51] == "Aminatou"@);
        lemma_known(creature_subtypes, 51);
    } else if word == "Angrath"@ {
        assert(all[52] == "Angrath"@);
        lemma_known(creature_subtypes, 52);
    } else if word == "Arlinn"@ {
        assert(all[53] == "Arlinn"@);
        lemma_known(creature_subtypes, 53);
    } else if word == "Ashiok"@ {
        assert(all[54] == "Ashiok"@);
        lemma_known(creature_subtypes, 54);
    } else if word == "Bahamut"@ {
        assert(all[55] == "Bahamut"@);
        lemma_known(creature_subtypes, 55);
    } else if word == "Basri"@ {
        assert(all[56] == "Basri"@);
        lemma_known(creature_subtypes, 56);
    } else if word == "Bolas"@ {
        assert(all[57] == "Bolas"@);
        lemma_known(creature_subtypes, 57);
    } else if word == "Calix"@ {
        assert(all[58] == "Calix"@);
        lemma_known(creature_subtypes, 58);
    } else if word == "Chandra"@ {
        assert(all[59] == "Chandra"@);
        lemma_known(creature_subtypes, 59);
    } else if word == "Comet"@ {
        assert(all[60] == "Comet"@);
        lemma_known(creature_subtypes, 60);
    } else if word == "Dack"@ {
        assert(all[61] == "Dack"@);
        lemma_known(creature_subtypes, 61);
    } else if word == "Dakkon"@ {
        assert(all[62] == "Dakkon"@);
        lemma_known(creature_subtypes, 62);
    } else if word == "Daretti"@ {
        assert(all[63] == "Daretti"@);
        lemma_known(creature_subtypes, 63);
    } else if word == "Davriel"@ {
        assert(all[64] == "Davriel"@);
        lemma_known(creature_subtypes, 64);
    } else if word == "Dihada"@ {
        assert(all[65] == "Dihada"@);
        lemma_known(creature_subtypes, 65);
    } else if word == "Domri"@ {
        assert(all[66] == "Domri"@);
        lemma_known(creature_subtypes, 66);
    } else if word == "Dovin"@ {
        assert(all[67] == "Dovin"@);
        lemma_known(creature_subtypes, 67);
    } else if word == "Ellywick"@ {
        assert(all[68] == "Ellywick"@);
        lemma_known(creature_subtypes, 68);
    } else if word == "Elminster"@ {
        assert(all[69] == "Elminster"@);
        lemma_known(creature_subtypes, 69);
    } else if word == "Elspeth"@ {
        assert(all[70] == "Elspeth"@);
        lemma_known(creature_subtypes, 70);
    } else if word == "Estrid"@ {
        assert(all[71] == "Estrid"@);
        lemma_known(creature_subtypes, 71);
    } else if word == "Freyalise"@ {
        assert(all[72] == "Freyalise"@);
        lemma_known(creature_subtypes, 72);
    } else if word == "Garruk"@ {
        assert(all[73] == "Garruk"@);
        lemma_known(creature_subtypes, 73);
    } else if word == "Gideon"@ {
        assert(all[74] == "Gideon"@);
        lemma_known(creature_subtypes, 74);
    } else if word == "Grist"@ {
        assert(all[75] == "Grist"@);
        lemma_known(creature_subtypes, 75);
    } else if word == "Guff"@ {
        assert(all[76] == "Guff"@);
        lemma_known(creature_subtypes, 76);
    }
}

/// Planeswalker types (CR 205.3j), H to N: the parser knows each of them, whichever creature subtypes there are.
pub proof fn planeswalker_types_h_to_n_are_known(creature_subtypes: Seq<Seq<char>>, word: Seq<char>)
    requires
        ({
            ||| word == "Huatli"@
            ||| word == "Jace"@
            ||| word == "Jared"@
            ||| word == "Jaya"@
            ||| word == "Jeska"@
            ||| word == "Kaito"@
            ||| word == "Karn"@
            ||| word == "Kasmina"@
            ||| word == "Kaya"@
            ||| word == "Kiora"@
            ||| word == "Koth"@
            ||| word == "Liliana"@
            ||| word == "Lolth"@
            ||| word == "Lukka"@
            ||| word == "Minsc"@
            ||| word == "Mordenkainen"@
            ||| word == "Nahiri"@
            ||| word == "Narset"@
            ||| word == "Niko"@
            ||| word == "Nissa"@
            ||| word == "Nixilis"@
        }),
    ensures
        subtype_vocab::vocabulary(creature_subtypes).contains(word),
{
    let all = noncreature_subtypes::noncreature_subtypes();
    if word == "Huatli"@ {
        assert(all[77] == "Huatli"@);
        lemma_known(creature_subtypes, 77);
    } else if word == "Jace"@ {
        assert(all[78] == "Jace"@);
        lemma_known(creature_subtypes, 78);
    } else if word == "Jared"@ {
        assert(all[79] == "Jared"@);
        lemma_known(creature_subtypes, 79);
    } else if word == "Jaya"@ {
        assert(all[80] == "Jaya"@);
        lemma_known(creature_subtypes, 80);
    } else if word == "Jeska"@ {
        assert(all[81] == "Jeska"@);
        lemma_known(creature_subtypes, 81);
    } else if word == "Kaito"@ {
        assert(all[82] == "Kaito"@);
        lemma_known(creature_subtypes, 82);
    } else if word == "Karn"@ {
        assert(all[83] == "Karn"@);
        lemma_known(creature_subtypes, 83);
    } else if word == "Kasmina"@ {
        assert(all[84] == "Kasmina"@);
        lemma_known(creature_subtypes, 84);
    } else if word == "Kaya"@ {
        assert(all[85] == "Kaya"@);
        lemma_known(creature_subtypes, 85);
    } else if word == "Kiora"@ {
        assert(all[86] == "Kiora"@);
        lemma_known(creature_subtypes, 86);
    } else if word == "Koth"@ {
        assert(all[87] == "Koth"@);
        lemma_known(creature_subtypes, 87);
    } else if word == "Liliana"@ {
        assert(all[88] == "Liliana"@);
        lemma_known(creature_subtypes, 88);
    } else if word == "Lolth"@ {
        assert(all[89] == "Lolth"@);
        lemma_known(creature_subtypes, 89);
    } else if word == "Lukka"@ {
        assert(all[90] == "Lukka"@);
        lemma_known(creature_subtypes, 90);
    } else if word == "Minsc"@ {
        assert(all[91] == "Minsc"@);
        lemma_known(creature_subtypes, 91);
    } else if word == "Mordenkainen"@ {
        assert(all[92] == "Mordenkainen"@);
        lemma_known(creature_subtypes, 92);
    } else if word == "Nahiri"@ {
        assert(all[93] == "Nahiri"@);
        lemma_known(creature_subtypes, 93);
    } else if word == "Narset"@ {
        assert(all[94] == "Narset"@);
        lemma_known(creature_subtypes, 94);
    } else if word == "Niko"@ {
        assert(all[95] == "Niko"@);
        lemma_known(creature_subtypes, 95);
    } else if word == "Nissa"@ {
        assert(all[96] == "Nissa"@);
        lemma_known(creature_subtypes, 96);
    } else if word == "Nixilis"@ {
        assert(all[97] == "Nixilis"@);
        lemma_known(creature_subtypes, 97);
    }
}

/// Planeswalker types (CR 205.3j), O to Z: the parser knows each of them, whichever creature subtypes there are.
pub proof fn planeswalker_types_o_to_z_are_known(creature_subtypes: Seq<Seq<char>>, word: Seq<char>)
    requires
        ({
            ||| word == "Oko"@
            ||| word == "Quintorius"@
            ||| word == "Ral"@
            ||| word == "Rowan"@
            ||| word == "Saheeli"@
            ||| word == "Samut"@
            ||| word == "Sarkhan"@
            ||| word == "Serra"@
            ||| word == "Sivitri"@
            ||| word == "Sorin"@
            ||| word == "Szat"@
            ||| word == "Tamiyo"@
            ||| word == "Tasha"@
            ||| word == "Teferi"@
            ||| word == "Teyo"@
            ||| word == "Tezzeret"@
            ||| word == "Tibalt"@
            ||| word == "Tyvar"@
            ||| word == "Ugin"@
            ||| word == "Urza"@
            ||| word == "Venser"@
            ||| word == "Vivien"@
            ||| word == "Vraska"@
            ||| word == "Vronos"@
            ||| word == "Will"@
            ||| word == "Windgrace"@
            ||| word == "Wrenn"@
            ||| word == "Xenagos"@
            ||| word == "Yanggu"@
            ||| word == "Yanling"@
            ||| word == "Zariel"@
        }),
    ensures
        subtype_vocab::vocabulary(creature_subtypes).contains(word),
{
    let all = noncreature_subtypes::noncreature_subtypes();
    if word == "Oko"@ {
        assert(all[98] == "Oko"@);
        lemma_known(creature_subtypes, 98);
    } else if word == "Quintorius"@ {
        assert(all[99] == "Quintorius"@);
        lemma_known(creature_subtypes, 99);
    } else if word == "Ral"@ {
        assert(all[100] == "Ral"@);
        lemma_known(creature_subtypes, 100);
    } else if word == "Rowan"@ {
        assert(all[101] == "Rowan"@);
        lemma_known(creature_subtypes, 101);
    } else if word == "Saheeli"@ {
        assert(all[102] == "Saheeli"@);
        lemma_known(creature_subtypes, 102);
    } else if word == "Samut"@ {
        assert(all[103] == "Samut"@);
        lemma_known(creature_subtypes, 103);
    } else if word == "Sarkhan"@ {
        assert(all[104] == "Sarkhan"@);
        lemma_known(creature_subtypes, 104);
    } else if word == "Serra"@ {
        assert(all[105] == "Serra"@);
        lemma_known(creature_subtypes, 105);
    } else if word == "Sivitri"@ {
        assert(all[106] == "Sivitri"@);
        lemma_known(creature_subtypes, 106);
    } else if word == "Sorin"@ {
        assert(all[107] == "Sorin"@);
        lemma_known(creature_subtypes, 107);
    } else if word == "Szat"@ {
        assert(all[108] == "Szat"@);
        lemma_known(creature_subtypes, 108);
    } else if word == "Tamiyo"@ {
        assert(all[109] == "Tamiyo"@);
        lemma_known(creature_subtypes, 109);
    } else if word == "Tasha"@ {
        assert(all[110] == "Tasha"@);
        lemma_known(creature_subtypes, 110);
    } else if word == "Teferi"@ {
        assert(all[111] == "Teferi"@);
        lemma_known(creature_subtypes, 111);
    } else if word == "Teyo"@ {
        assert(all[112] == "Teyo"@);
        lemma_known(creature_subtypes, 112);
    } else if word == "Tezzeret"@ {
        assert(all[113] == "Tezzeret"@);
        lemma_known(creature_subtypes, 113);
    } else if word == "Tibalt"@ {
        assert(all[114] == "Tibalt"@);
        lemma_known(creature_subtypes, 114);
    } else if word == "Tyvar"@ {
        assert(all[115] == "Tyvar"@);
        lemma_known(creature_subtypes, 115);
    } else if word == "Ugin"@ {
        assert(all[116] == "Ugin"@);
        lemma_known(creature_subtypes, 116);
    } else if word == "Urza"@ {
        assert(all[117] == "Urza"@);
        lemma_known(creature_subtypes, 117);
    } else if word == "Venser"@ {
        assert(all[118] == "Venser"@);
        lemma_known(creature_subtypes, 118);
    } else if word == "Vivien"@ {
        assert(all[119] == "Vivien"@);
        lemma_known(creature_subtypes, 119);
    } else if word == "Vraska"@ {
        assert(all[120] == "Vraska"@);
        lemma_known(creature_subtypes, 120);
    } else if word == "Vronos"@ {
        assert(all[121] == "Vronos"@);
        lemma_known(creature_subtypes, 121);
    } else if word == "Will"@ {
        assert(all[122] == "Will"@);
        lemma_known(creature_subtypes, 122);
    } else if word == "Windgrace"@ {
        assert(all[123] == "Windgrace"@);
        lemma_known(creature_subtypes, 123);
    } else if word == "Wrenn"@ {
        assert(all[124] == "Wrenn"@);
        lemma_known(creature_subtypes, 124);
    } else if word == "Xenagos"@ {
        assert(all[125] == "Xenagos"@);
        lemma_known(creature_subtypes, 125);
    } else if word == "Yanggu"@ {
        assert(all[126] == "Yanggu"@);
        lemma_known(creature_subtypes, 126);
    } else if word == "Yanling"@ {
        assert(all[127] == "Yanling"@);
        lemma_known(creature_subtypes, 127);
    } else if word == "Zariel"@ {
        assert(all[128] == "Zariel"@);
        lemma_known(creature_subtypes, 128);
    }
}

/// Spell types (CR 205.3k): the parser knows each of them, whichever creature subtypes there are.
pub proof fn spell_types_are_known(creature_subtypes: Seq<Seq<char>>, word: Seq<char>)
    requires
        ({
            ||| word == "Adventure"@
            ||| word == "Arcane"@
            ||| word == "Lesson"@
            ||| word == "Omen"@
            ||| word == "Trap"@
        }),
    ensures
        subtype_vocab::vocabulary(creature_subtypes).contains(word),
{
    let all = noncreature_subtypes::noncreature_subtypes();
    if word == "Adventure"@ {
        assert(all[129] == "Adventure"@);
        lemma_known(creature_subtypes, 129);
    } else if word == "Arcane"@ {
        assert(all[130] == "Arcane"@);
        lemma_known(creature_subtypes, 130);
    } else if word == "Lesson"@ {
        assert(all[131] == "Lesson"@);
        lemma_known(creature_subtypes, 131);
    } else if word == "Omen"@ {
        assert(all[132] == "Omen"@);
        lemma_known(creature_subtypes, 132);
    } else if word == "Trap"@ {
        assert(all[133] == "Trap"@);
        lemma_known(creature_subtypes, 133);
    }
}

/// Battle types (CR 205.3q): the parser knows each of them, whichever creature subtypes there are.
pub proof fn battle_types_are_known(creature_subtypes: Seq<Seq<char>>, word: Seq<char>)
    requires
        ({
            ||| word == "Siege"@
        }),
    ensures
        subtype_vocab::vocabulary(creature_subtypes).contains(word),
{
    let all = noncreature_subtypes::noncreature_subtypes();
    if word == "Siege"@ {
        assert(all[134] == "Siege"@);
        lemma_known(creature_subtypes, 134);
    }
}

/// There are no others in the tables.
pub proof fn tables_hold_no_more()
    ensures
        noncreature_subtypes::noncreature_subtypes().len() == 135,
{
}

} // verus!
