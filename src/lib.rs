//! Reads a metabolic-network model written in SBML with flux-balance
//! annotations into a typed, fully owned model.
pub mod base_types;
pub mod color;
pub mod decimal;
pub mod laws;
pub mod parser;
pub mod xml;

pub use base_types::{
    Entity, Field, ListOfReactions, ListOfSpecies, ListOfSpeciesReferences, ModelRaw, ParseError,
    Reaction, Species, SpeciesReference,
};
pub use decimal::Stoichiometry;
