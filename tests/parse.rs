use fdsbml::xml::{find_attribute, tag_attributes, tokenize, Attribute, XmlToken};
use fdsbml::{
    Entity, Field, ModelRaw, ParseError, Reaction, Species, SpeciesReference, Stoichiometry,
};

fn doc(body: &str) -> String {
    format!(
        "<?xml version=\"1.0\" encoding=\"UTF-8\"?>\n<sbml xmlns:fbc=\"http://www.sbml.org/sbml/level3/version1/fbc/version2\"><model id=\"m\">{}</model></sbml>",
        body
    )
}

fn attr(key: &str, value: &str) -> Attribute {
    Attribute { key: key.to_string(), value: value.to_string() }
}

#[test]
fn scenario_single_species() {
    let text = doc("<listOfSpecies><species id=\"M_atp_c\" compartment=\"c\"/></listOfSpecies>");
    let m = ModelRaw::parse(&text).unwrap();
    assert_eq!(
        m.list_of_species.species,
        vec![Species { id: "M_atp_c".to_string(), name: None, compartment: "c".to_string() }]
    );
    assert!(m.list_of_reactions.reactions.is_empty());
}

#[test]
fn scenario_single_reaction() {
    let text = doc(&[
        "<listOfReactions><reaction id=\"R1\">",
        "<listOfReactants><speciesReference species=\"M_atp_c\" stoichiometry=\"2\"/></listOfReactants>",
        "<listOfProducts><speciesReference species=\"M_adp_c\"/></listOfProducts>",
        "</reaction></listOfReactions>"
    ].concat());
    let m = ModelRaw::parse(&text).unwrap();
    assert!(m.list_of_species.species.is_empty());
    assert_eq!(m.list_of_reactions.reactions.len(), 1);
    let r = &m.list_of_reactions.reactions[0];
    assert_eq!(r.id, "R1");
    assert_eq!(
        r.list_of_reactants.species_references,
        vec![SpeciesReference {
            species: "M_atp_c".to_string(),
            stoichiometry: Some(Stoichiometry { mantissa: 2, scale: 0 }),
        }]
    );
    assert_eq!(
        r.list_of_products.species_references,
        vec![SpeciesReference { species: "M_adp_c".to_string(), stoichiometry: None }]
    );
    assert_eq!(r.name, None);
    assert_eq!(r.lower_bound, None);
    assert_eq!(r.upper_bound, None);
}

#[test]
fn truncated_text_is_malformed() {
    let r = ModelRaw::parse("<not-xml");
    assert_eq!(r, Err(ParseError::MalformedMarkup));
    assert!(r.unwrap_err().is_malformed());
}

#[test]
fn species_without_id_is_schema_mismatch() {
    let text = doc("<listOfSpecies><species compartment=\"c\"/></listOfSpecies>");
    let r = ModelRaw::parse(&text);
    assert_eq!(
        r,
        Err(ParseError::MissingAttribute { entity: Entity::Species, field: Field::Id })
    );
    assert!(!r.unwrap_err().is_malformed());
}

#[test]
fn absent_reactant_list_reads_as_empty() {
    let absent = doc("<listOfReactions><reaction id=\"R\"/></listOfReactions>");
    let empty = doc("<listOfReactions><reaction id=\"R\"><listOfReactants/></reaction></listOfReactions>");
    let open_empty = doc(
        "<listOfReactions><reaction id=\"R\"><listOfReactants></listOfReactants></reaction></listOfReactions>",
    );
    let a = ModelRaw::parse(&absent).unwrap();
    assert!(a.list_of_reactions.reactions[0].list_of_reactants.species_references.is_empty());
    assert_eq!(a, ModelRaw::parse(&empty).unwrap());
    assert_eq!(a, ModelRaw::parse(&open_empty).unwrap());
}

#[test]
fn missing_reactants_do_not_hide_siblings() {
    let text = doc(&[
        "<listOfReactions><reaction id=\"R1\"/>",
        "<reaction id=\"R2\"><listOfReactants><speciesReference species=\"A\"/></listOfReactants></reaction>",
        "</listOfReactions>"
    ].concat());
    let m = ModelRaw::parse(&text).unwrap();
    let rs = &m.list_of_reactions.reactions;
    assert_eq!(rs.len(), 2);
    assert!(rs[0].list_of_reactants.species_references.is_empty());
    assert_eq!(rs[1].list_of_reactants.species_references.len(), 1);
    assert_eq!(rs[1].list_of_reactants.species_references[0].species, "A");
    assert!(rs[1].list_of_products.species_references.is_empty());
}

#[test]
fn absent_name_differs_from_empty_name() {
    let text = doc(&[
        "<listOfSpecies><species id=\"A\" compartment=\"c\"/>",
        "<species id=\"B\" name=\"\" compartment=\"c\"/></listOfSpecies>"
    ].concat());
    let m = ModelRaw::parse(&text).unwrap();
    assert_eq!(m.list_of_species.species[0].name, None);
    assert_eq!(m.list_of_species.species[1].name, Some(String::new()));
}

#[test]
fn absent_stoichiometry_differs_from_explicit_one() {
    let implicit = SpeciesReference::from_attributes(&vec![attr("species", "A")]).unwrap();
    let explicit =
        SpeciesReference::from_attributes(&vec![attr("species", "A"), attr("stoichiometry", "1")])
            .unwrap();
    assert_eq!(implicit.stoichiometry, None);
    assert_eq!(explicit.stoichiometry, Some(Stoichiometry { mantissa: 1, scale: 0 }));
    assert_ne!(implicit, explicit);
}

#[test]
fn species_order_is_kept() {
    let text = doc(&[
        "<listOfSpecies><species id=\"A\" compartment=\"c\"/>",
        "<species id=\"B\" compartment=\"e\"/><species id=\"C\" compartment=\"c\"/></listOfSpecies>"
    ].concat());
    let m = ModelRaw::parse(&text).unwrap();
    let ids: Vec<&str> = m.list_of_species.species.iter().map(|s| s.id.as_str()).collect();
    assert_eq!(ids, vec!["A", "B", "C"]);
}

#[test]
fn parsing_twice_gives_equal_models() {
    let text = doc(&[
        "<listOfSpecies><species id=\"A\" name=\"alpha\" compartment=\"c\"/></listOfSpecies>",
        "<listOfReactions><reaction id=\"R\" fbc:lowerFluxBound=\"lb\">",
        "<listOfProducts><speciesReference species=\"A\" stoichiometry=\"0.5\"/></listOfProducts>",
        "</reaction></listOfReactions>"
    ].concat());
    assert_eq!(ModelRaw::parse(&text), ModelRaw::parse(&text));
    assert!(ModelRaw::parse(&text).is_ok());
}

#[test]
fn bounds_bind_by_qualified_name() {
    let text = doc(&[
        "<listOfReactions><reaction id=\"R1\" fbc:lowerFluxBound=\"cobra_0_bound\" fbc:lowerUpperBound=\"cobra_default_ub\"/>",
        "<reaction id=\"R2\" lowerFluxBound=\"plain\"/></listOfReactions>"
    ].concat());
    let m = ModelRaw::parse(&text).unwrap();
    let rs = &m.list_of_reactions.reactions;
    assert_eq!(rs[0].lower_bound, Some("cobra_0_bound".to_string()));
    assert_eq!(rs[0].upper_bound, Some("cobra_default_ub".to_string()));
    assert_eq!(rs[1].lower_bound, None);
    assert_eq!(rs[1].upper_bound, None);
}

#[test]
fn reaction_binding_reads_name_and_bounds() {
    let r = Reaction::from_attributes(&vec![
        attr("lowerFluxBound", "x"),
        attr("id", "R"),
        attr("name", "reaction R"),
        attr("fbc:lowerFluxBound", "lb"),
    ])
    .unwrap();
    assert_eq!(r.id, "R");
    assert_eq!(r.name, Some("reaction R".to_string()));
    assert_eq!(r.lower_bound, Some("lb".to_string()));
    assert_eq!(r.upper_bound, None);
    assert!(r.list_of_reactants.species_references.is_empty());
}

#[test]
fn unexpected_root_is_refused() {
    assert_eq!(
        ModelRaw::parse("<notsbml><model/></notsbml>"),
        Err(ParseError::UnexpectedRoot)
    );
}

#[test]
fn missing_model_is_refused() {
    assert_eq!(ModelRaw::parse("<sbml></sbml>"), Err(ParseError::MissingModel));
}

#[test]
fn empty_model_has_empty_lists() {
    let m = ModelRaw::parse("<sbml><model/></sbml>").unwrap();
    assert_eq!(m, ModelRaw::default());
}

#[test]
fn empty_text_is_malformed() {
    assert_eq!(ModelRaw::parse(""), Err(ParseError::MalformedMarkup));
}

#[test]
fn mismatched_end_tag_is_malformed() {
    assert_eq!(
        ModelRaw::parse("<sbml><model></listOfSpecies></sbml>"),
        Err(ParseError::MalformedMarkup)
    );
}

#[test]
fn unclosed_element_is_malformed() {
    assert_eq!(ModelRaw::parse("<sbml><model>"), Err(ParseError::MalformedMarkup));
}

#[test]
fn second_root_is_malformed() {
    assert_eq!(
        ModelRaw::parse("<sbml><model/></sbml><sbml/>"),
        Err(ParseError::MalformedMarkup)
    );
}

#[test]
fn species_without_compartment_is_refused() {
    let r = Species::from_attributes(&vec![attr("id", "A"), attr("compartment", "")]);
    assert_eq!(
        r,
        Err(ParseError::MissingAttribute { entity: Entity::Species, field: Field::Compartment })
    );
}

#[test]
fn reference_without_species_is_refused() {
    let text = doc(&[
        "<listOfReactions><reaction id=\"R\"><listOfProducts>",
        "<speciesReference stoichiometry=\"1\"/></listOfProducts></reaction></listOfReactions>"
    ].concat());
    assert_eq!(
        ModelRaw::parse(&text),
        Err(ParseError::MissingAttribute { entity: Entity::SpeciesReference, field: Field::Species })
    );
}

#[test]
fn reaction_without_id_is_refused() {
    let text = doc("<listOfReactions><reaction name=\"r\"/></listOfReactions>");
    assert_eq!(
        ModelRaw::parse(&text),
        Err(ParseError::MissingAttribute { entity: Entity::Reaction, field: Field::Id })
    );
}

#[test]
fn bad_stoichiometry_is_refused() {
    let text = doc(&[
        "<listOfReactions><reaction id=\"R\"><listOfProducts>",
        "<speciesReference species=\"A\" stoichiometry=\"two\"/></listOfProducts></reaction></listOfReactions>"
    ].concat());
    assert_eq!(ModelRaw::parse(&text), Err(ParseError::InvalidStoichiometry));
}

#[test]
fn decimal_text_is_read_exactly() {
    assert_eq!(Stoichiometry::from_text("2.50"), Some(Stoichiometry { mantissa: 250, scale: 2 }));
    assert_eq!(Stoichiometry::from_text("007"), Some(Stoichiometry { mantissa: 7, scale: 0 }));
    assert_eq!(Stoichiometry::from_text(".5"), Some(Stoichiometry { mantissa: 5, scale: 1 }));
    assert_eq!(Stoichiometry::from_text("3."), Some(Stoichiometry { mantissa: 3, scale: 0 }));
    assert_eq!(
        Stoichiometry::from_text("18446744073709551615"),
        Some(Stoichiometry { mantissa: u64::MAX, scale: 0 })
    );
}

#[test]
fn decimal_text_is_refused() {
    assert_eq!(Stoichiometry::from_text(""), None);
    assert_eq!(Stoichiometry::from_text("."), None);
    assert_eq!(Stoichiometry::from_text("1.2.3"), None);
    assert_eq!(Stoichiometry::from_text("-1"), None);
    assert_eq!(Stoichiometry::from_text("1e3"), None);
    assert_eq!(Stoichiometry::from_text("18446744073709551616"), None);
}

#[test]
fn attributes_are_read_and_unescaped() {
    let attrs = tag_attributes(&" id=\"a&amp;b\" fbc:x='y'".to_string()).unwrap();
    assert_eq!(attrs, vec![attr("id", "a&b"), attr("fbc:x", "y")]);
    assert_eq!(find_attribute(&attrs, "fbc:x"), Some("y".to_string()));
    assert_eq!(find_attribute(&attrs, "x"), None);
}

#[test]
fn duplicate_attributes_are_malformed() {
    assert_eq!(tag_attributes(&" id=\"a\" id=\"b\"".to_string()), None);
    let text = doc("<listOfSpecies><species id=\"A\" id=\"B\" compartment=\"c\"/></listOfSpecies>");
    assert_eq!(ModelRaw::parse(&text), Err(ParseError::MalformedMarkup));
}

#[test]
fn tokens_are_read_in_order() {
    let toks = tokenize("<a x=\"1\"><b/>t</a>").unwrap();
    assert_eq!(
        toks,
        vec![
            XmlToken::Open { name: "a".to_string(), attrs: " x=\"1\"".to_string() },
            XmlToken::Leaf { name: "b".to_string(), attrs: String::new() },
            XmlToken::Other,
            XmlToken::Close { name: "a".to_string() },
        ]
    );
}
