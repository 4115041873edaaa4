//! Street-name normalisation and matching: diacritic folding, tokenisation
//! with synonym canonicalisation, title casing, ordered name sets, the name
//! linker, address-number normalisation, and per-source agreement counting.

pub mod agreement;
pub mod context;
pub mod diacritics;
pub mod fold_table;
pub mod linker;
pub mod name;
pub mod number;
pub mod patterns;
pub mod pipeline;
pub mod similarity;
pub mod strings;
pub mod titlecase;
pub mod tokenize;
pub mod tokens;

pub use agreement::{Agreement, Results};
pub use context::Context;
pub use diacritics::diacritics;
pub use linker::{linker, Link, LinkResult};
pub use name::{Name, Names, Source};
pub use number::{normalize_number, NumberError};
pub use titlecase::{capitalize, normalize_cardinals, titlecase};
pub use tokens::{type_us_st, ParsedToken, TokenType, Tokenized, Tokens};
