//! Decoding and encoding of vCard text (versions 3.0 and 4.0) with machine-checked contracts.
//!
//! Decoding goes upward through the modules, encoding downward:
//!
//! - `reader` takes logical lines off a byte source, unfolds them, and assembles cards;
//! - `grammar` splits a logical line into group, name, raw parameters and raw value;
//! - `parameter` decodes one parameter, `property` one property; `records` holds the typed
//!   properties, `model` what they share, `uri` the URIs that some of them carry;
//! - `containers` group the properties of a card by alt-id and find the preferred one;
//! - `card` is the card itself: how a property is folded into it, and how it is written;
//! - `wire` is the text of a property on the wire; `text` holds the character-level tools;
//! - `errors` is the closed set of failures.
//!
//! What holds of the whole is proved in `laws`, `inverse` and `round_trip`: folding changes
//! nothing, the length limit is exact, and what is written is read back as it was.

pub mod card;
pub mod containers;
pub mod errors;
pub mod grammar;
pub mod inverse;
pub mod laws;
pub mod model;
pub mod parameter;
pub mod property;
pub mod reader;
pub mod records;
pub mod round_trip;
pub mod text;
pub mod uri;
pub mod wire;
