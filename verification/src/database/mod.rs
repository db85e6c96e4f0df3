pub mod mtgjson;
pub mod noncreature_subtypes;
pub mod spelling_laws;
pub mod subtype_vocab;
pub mod synthesis;
pub mod synthesis_laws;
pub mod table_laws;
pub mod vocab_laws;
pub mod word_list;
