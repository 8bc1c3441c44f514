//! The domain entities of a model and the schema bindings that build each
//! entity from the attributes of its element.
use crate::decimal::{stoichiometry_of, Stoichiometry};
use crate::xml::{attr_value, attrs_view, find_attribute, opt_view, Attribute};
use vstd::prelude::*;

verus! {

/// The entity whose element failed to bind.
#[derive(Clone, Copy, Debug, PartialEq, Eq, Structural)]
pub enum Entity {
    Species,
    Reaction,
    SpeciesReference,
}

/// A required attribute.
#[derive(Clone, Copy, Debug, PartialEq, Eq, Structural)]
pub enum Field {
    /// `id`, of a species or a reaction.
    Id,
    /// `compartment`, of a species.
    Compartment,
    /// `species`, of a species reference.
    Species,
}

/// Why a document could not be read as a model.
#[derive(Clone, Copy, Debug, PartialEq, Eq, Structural)]
pub enum ParseError {
    /// The text is not well-formed markup.
    MalformedMarkup,
    /// The root element is not `sbml`.
    UnexpectedRoot,
    /// The root element holds no `model` element.
    MissingModel,
    /// A required attribute is absent or empty.
    MissingAttribute { entity: Entity, field: Field },
    /// A `stoichiometry` attribute is not a decimal number.
    InvalidStoichiometry,
}

impl ParseError {
    /// Whether the markup itself was at fault, rather than its fit to the schema.
    pub fn is_malformed(&self) -> (r: bool)
        ensures
            r == (*self is MalformedMarkup),
    {
        match self {
            ParseError::MalformedMarkup => true,
            _ => false,
        }
    }
}

/// A metabolite.
#[derive(Clone, Debug, PartialEq)]
pub struct Species {
    pub id: String,
    pub name: Option<String>,
    pub compartment: String,
}

pub struct SpeciesView {
    pub id: Seq<char>,
    pub name: Option<Seq<char>>,
    pub compartment: Seq<char>,
}

impl View for Species {
    type V = SpeciesView;

    open spec fn view(&self) -> SpeciesView {
        SpeciesView { id: self.id@, name: opt_view(self.name), compartment: self.compartment@ }
    }
}

/// A participant of a reaction: a species identifier and an optional
/// coefficient, which is implicitly one where absent.
#[derive(Clone, Debug, PartialEq)]
pub struct SpeciesReference {
    pub species: String,
    pub stoichiometry: Option<Stoichiometry>,
}

pub struct SpeciesReferenceView {
    pub species: Seq<char>,
    pub stoichiometry: Option<Stoichiometry>,
}

impl View for SpeciesReference {
    type V = SpeciesReferenceView;

    open spec fn view(&self) -> SpeciesReferenceView {
        SpeciesReferenceView { species: self.species@, stoichiometry: self.stoichiometry }
    }
}

pub open spec fn refs_view(v: Seq<SpeciesReference>) -> Seq<SpeciesReferenceView> {
    v.map_values(|r: SpeciesReference| r@)
}

/// The reactant or product list of a reaction, in document order.
#[derive(Clone, Debug, PartialEq)]
pub struct ListOfSpeciesReferences {
    pub species_references: Vec<SpeciesReference>,
}

impl View for ListOfSpeciesReferences {
    type V = Seq<SpeciesReferenceView>;

    open spec fn view(&self) -> Seq<SpeciesReferenceView> {
        refs_view(self.species_references@)
    }
}

impl Default for ListOfSpeciesReferences {
    fn default() -> (r: Self)
        ensures
            r@ == Seq::<SpeciesReferenceView>::empty(),
    {
        let r = ListOfSpeciesReferences { species_references: Vec::new() };
        assert(r@ =~= Seq::<SpeciesReferenceView>::empty());
        r
    }
}

/// A biochemical transformation. The bounds name parameters defined
/// elsewhere; they are kept as written and not resolved.
#[derive(Clone, Debug, PartialEq)]
pub struct Reaction {
    pub id: String,
    pub list_of_reactants: ListOfSpeciesReferences,
    pub list_of_products: ListOfSpeciesReferences,
    pub name: Option<String>,
    pub lower_bound: Option<String>,
    pub upper_bound: Option<String>,
}

pub struct ReactionView {
    pub id: Seq<char>,
    pub reactants: Seq<SpeciesReferenceView>,
    pub products: Seq<SpeciesReferenceView>,
    pub name: Option<Seq<char>>,
    pub lower_bound: Option<Seq<char>>,
    pub upper_bound: Option<Seq<char>>,
}

impl View for Reaction {
    type V = ReactionView;

    open spec fn view(&self) -> ReactionView {
        ReactionView {
            id: self.id@,
            reactants: self.list_of_reactants@,
            products: self.list_of_products@,
            name: opt_view(self.name),
            lower_bound: opt_view(self.lower_bound),
            upper_bound: opt_view(self.upper_bound),
        }
    }
}

/// The species of a model, in document order.
#[derive(Clone, Debug, PartialEq)]
pub struct ListOfSpecies {
    pub species: Vec<Species>,
}

impl View for ListOfSpecies {
    type V = Seq<SpeciesView>;

    open spec fn view(&self) -> Seq<SpeciesView> {
        self.species@.map_values(|s: Species| s@)
    }
}

impl Default for ListOfSpecies {
    fn default() -> (r: Self)
        ensures
            r@ == Seq::<SpeciesView>::empty(),
    {
        let r = ListOfSpecies { species: Vec::new() };
        assert(r@ =~= Seq::<SpeciesView>::empty());
        r
    }
}

/// The reactions of a model, in document order.
#[derive(Clone, Debug, PartialEq)]
pub struct ListOfReactions {
    pub reactions: Vec<Reaction>,
}

impl View for ListOfReactions {
    type V = Seq<ReactionView>;

    open spec fn view(&self) -> Seq<ReactionView> {
        self.reactions@.map_values(|r: Reaction| r@)
    }
}

impl Default for ListOfReactions {
    fn default() -> (r: Self)
        ensures
            r@ == Seq::<ReactionView>::empty(),
    {
        let r = ListOfReactions { reactions: Vec::new() };
        assert(r@ =~= Seq::<ReactionView>::empty());
        r
    }
}

/// A model: its species and its reactions, each in document order.
#[derive(Clone, Debug, PartialEq)]
pub struct ModelRaw {
    pub list_of_species: ListOfSpecies,
    pub list_of_reactions: ListOfReactions,
}

pub struct ModelView {
    pub species: Seq<SpeciesView>,
    pub reactions: Seq<ReactionView>,
}

impl View for ModelRaw {
    type V = ModelView;

    open spec fn view(&self) -> ModelView {
        ModelView { species: self.list_of_species@, reactions: self.list_of_reactions@ }
    }
}

impl Default for ModelRaw {
    fn default() -> (r: Self)
        ensures
            r@.species == Seq::<SpeciesView>::empty(),
            r@.reactions == Seq::<ReactionView>::empty(),
    {
        ModelRaw { list_of_species: ListOfSpecies::default(), list_of_reactions: ListOfReactions::default() }
    }
}

/// The value of a required attribute: present and not empty.
pub open spec fn required_attr(attrs: Seq<(Seq<char>, Seq<char>)>, key: Seq<char>) -> Option<
    Seq<char>,
> {
    match attr_value(attrs, key) {
        Some(v) => if v.len() > 0 {
            Some(v)
        } else {
            None
        },
        None => None,
    }
}

/// Binds a `species` element: `id` and `compartment` required, `name` optional.
pub open spec fn species_of(attrs: Seq<(Seq<char>, Seq<char>)>) -> Result<SpeciesView, ParseError> {
    match required_attr(attrs, "id"@) {
        None => Err(ParseError::MissingAttribute { entity: Entity::Species, field: Field::Id }),
        Some(id) => match required_attr(attrs, "compartment"@) {
            None => Err(
                ParseError::MissingAttribute { entity: Entity::Species, field: Field::Compartment },
            ),
            Some(c) => Ok(SpeciesView { id, name: attr_value(attrs, "name"@), compartment: c }),
        },
    }
}

/// Binds a `reaction` element: `id` required; `name` and the two bounds,
/// `fbc:lowerFluxBound` and `fbc:lowerUpperBound`, optional. The lists of
/// participants start empty.
pub open spec fn reaction_of(attrs: Seq<(Seq<char>, Seq<char>)>) -> Result<ReactionView, ParseError> {
    match required_attr(attrs, "id"@) {
        None => Err(ParseError::MissingAttribute { entity: Entity::Reaction, field: Field::Id }),
        Some(id) => Ok(
            ReactionView {
                id,
                reactants: Seq::empty(),
                products: Seq::empty(),
                name: attr_value(attrs, "name"@),
                lower_bound: attr_value(attrs, "fbc:lowerFluxBound"@),
                upper_bound: attr_value(attrs, "fbc:lowerUpperBound"@),
            },
        ),
    }
}

/// Binds a `speciesReference` element: `species` required, `stoichiometry`
/// optional and, where present, a decimal number.
pub open spec fn reference_of(attrs: Seq<(Seq<char>, Seq<char>)>) -> Result<
    SpeciesReferenceView,
    ParseError,
> {
    match required_attr(attrs, "species"@) {
        None => Err(
            ParseError::MissingAttribute { entity: Entity::SpeciesReference, field: Field::Species },
        ),
        Some(sp) => match attr_value(attrs, "stoichiometry"@) {
            None => Ok(SpeciesReferenceView { species: sp, stoichiometry: None }),
            Some(text) => match stoichiometry_of(text) {
                None => Err(ParseError::InvalidStoichiometry),
                Some(st) => Ok(SpeciesReferenceView { species: sp, stoichiometry: Some(st) }),
            },
        },
    }
}

/// Looks up a required attribute.
pub fn required_attribute(attrs: &Vec<Attribute>, key: &str) -> (r: Option<String>)
    ensures
        opt_view(r) == required_attr(attrs_view(attrs@), key@),
{
    match find_attribute(attrs, key) {
        Some(v) => if !v.as_str().is_empty() {
            Some(v)
        } else {
            None
        },
        None => None,
    }
}

impl Species {
    /// Builds a species from the attributes of its element.
    pub fn from_attributes(attrs: &Vec<Attribute>) -> (r: Result<Species, ParseError>)
        ensures
            match r {
                Ok(s) => species_of(attrs_view(attrs@)) == Ok::<SpeciesView, ParseError>(s@),
                Err(e) => species_of(attrs_view(attrs@)) == Err::<SpeciesView, ParseError>(e),
            },
    {
        let id = match required_attribute(attrs, "id") {
            Some(v) => v,
            None => {
                return Err(ParseError::MissingAttribute { entity: Entity::Species, field: Field::Id });
            },
        };
        let compartment = match required_attribute(attrs, "compartment") {
            Some(v) => v,
            None => {
                return Err(
                    ParseError::MissingAttribute { entity: Entity::Species, field: Field::Compartment },
                );
            },
        };
        let name = find_attribute(attrs, "name");
        Ok(Species { id, name, compartment })
    }
}

impl Reaction {
    /// Builds a reaction, with no participants yet, from the attributes of its element.
    pub fn from_attributes(attrs: &Vec<Attribute>) -> (r: Result<Reaction, ParseError>)
        ensures
            match r {
                Ok(x) => reaction_of(attrs_view(attrs@)) == Ok::<ReactionView, ParseError>(x@),
                Err(e) => reaction_of(attrs_view(attrs@)) == Err::<ReactionView, ParseError>(e),
            },
    {
        let id = match required_attribute(attrs, "id") {
            Some(v) => v,
            None => {
                return Err(ParseError::MissingAttribute { entity: Entity::Reaction, field: Field::Id });
            },
        };
        let r = Reaction {
            id,
            list_of_reactants: ListOfSpeciesReferences::default(),
            list_of_products: ListOfSpeciesReferences::default(),
            name: find_attribute(attrs, "name"),
            lower_bound: find_attribute(attrs, "fbc:lowerFluxBound"),
            upper_bound: find_attribute(attrs, "fbc:lowerUpperBound"),
        };
        Ok(r)
    }
}

impl SpeciesReference {
    /// Builds a species reference from the attributes of its element.
    pub fn from_attributes(attrs: &Vec<Attribute>) -> (r: Result<SpeciesReference, ParseError>)
        ensures
            match r {
                Ok(x) => reference_of(attrs_view(attrs@)) == Ok::<SpeciesReferenceView, ParseError>(x@),
                Err(e) => reference_of(attrs_view(attrs@)) == Err::<SpeciesReferenceView, ParseError>(e),
            },
    {
        let species = match required_attribute(attrs, "species") {
            Some(v) => v,
            None => {
                return Err(
                    ParseError::MissingAttribute {
                        entity: Entity::SpeciesReference,
                        field: Field::Species,
                    },
                );
            },
        };
        let stoichiometry = match find_attribute(attrs, "stoichiometry") {
            None => None,
            Some(text) => match Stoichiometry::from_text(text.as_str()) {
                None => {
                    return Err(ParseError::InvalidStoichiometry);
                },
                Some(st) => Some(st),
            },
        };
        Ok(SpeciesReference { species, stoichiometry })
    }
}

} // verus!
