//! A verified property-value engine for CSS font properties: typed value
//! models with parse and serialize operations over a token stream, and a
//! folding handler that reconciles the `font` shorthand with its longhands
//! as declarations stream through a rule body.

pub mod text;
pub mod tokens;
pub mod values;
pub mod font;
pub mod properties;
pub mod declaration;
pub mod printer;
pub mod style;
pub mod laws;
