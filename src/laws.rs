//! Laws of the parser, stated over its specification.
use crate::base_types::{reaction_of, reference_of, species_of, ModelRaw, ParseError, SpeciesView};
use crate::decimal::{scan_decimal, stoichiometry_of, Stoichiometry};
use crate::parser::{
    document_model, initial_state, model_of_tokens, outcome_is, run_from, species_list_path, step,
    ScanState,
};
use crate::xml::{attr_value, xml_attributes_of, TokenView};
use vstd::prelude::*;

verus! {

/// Running over two runs of tokens in turn is running over both.
pub proof fn lemma_run_concat(st: ScanState, a: Seq<TokenView>, b: Seq<TokenView>)
    ensures
        run_from(st, a + b) == run_from(run_from(st, a), b),
    decreases a.len(),
{
    if a.len() == 0 {
        assert(a + b =~= b);
    } else {
        assert((a + b).drop_first() =~= a.drop_first() + b);
        assert((a + b)[0] == a[0]);
        lemma_run_concat(step(st, a[0]), a.drop_first(), b);
    }
}

/// A list of participants that is absent reads as one that is present and
/// empty: inside an open element, an empty `listOfReactants` or
/// `listOfProducts`, self-closing or not, changes nothing of the outcome.
pub proof fn lemma_absent_list_is_empty_list(
    pre: Seq<TokenView>,
    post: Seq<TokenView>,
    name: Seq<char>,
    raw: Seq<char>,
)
    requires
        name == "listOfReactants"@ || name == "listOfProducts"@,
        run_from(initial_state(), pre).path.len() > 0,
    ensures
        model_of_tokens(pre + seq![TokenView::Leaf { name, attrs: raw }] + post) == model_of_tokens(
            pre + post,
        ),
        model_of_tokens(
            pre + seq![TokenView::Open { name, attrs: raw }, TokenView::Close { name }] + post,
        ) == model_of_tokens(pre + post),
{
    reveal_strlit("listOfReactants");
    reveal_strlit("listOfProducts");
    reveal_strlit("model");
    reveal_strlit("species");
    reveal_strlit("reaction");
    reveal_strlit("speciesReference");
    let s = run_from(initial_state(), pre);
    let leaf = seq![TokenView::Leaf { name, attrs: raw }];
    let pair = seq![TokenView::Open { name, attrs: raw }, TokenView::Close { name }];
    lemma_run_concat(initial_state(), pre, post);
    lemma_run_concat(initial_state(), pre + leaf, post);
    lemma_run_concat(initial_state(), pre, leaf);
    lemma_run_concat(initial_state(), pre + pair, post);
    lemma_run_concat(initial_state(), pre, pair);
    assert(leaf.drop_first() =~= Seq::<TokenView>::empty());
    assert(name.len() != "model"@.len() && name.len() != "species"@.len() && name.len()
        != "reaction"@.len() && name.len() != "speciesReference"@.len());
    assert(run_from(step(s, leaf[0]), Seq::empty()) == step(s, leaf[0]));
    assert(step(s, leaf[0]) == s);
    assert(pair.drop_first() =~= seq![TokenView::Close { name }]);
    assert(pair.drop_first().drop_first() =~= Seq::<TokenView>::empty());
    let s1 = step(s, pair[0]);
    if s.error is None {
        assert(s1.path == s.path.push(name));
        assert(s1.path.drop_last() =~= s.path);
    }
    assert(run_from(step(s1, pair[1]), Seq::empty()) == step(s1, pair[1]));
    assert(run_from(s1, pair.drop_first()) == step(s1, pair[1]));
    assert(step(s1, pair[1]) == s);
}

/// A species keeps its `name` attribute as it is: absent where the
/// attribute is absent, the empty text where it is empty.
pub proof fn lemma_species_name_kept(attrs: Seq<(Seq<char>, Seq<char>)>)
    ensures
        species_of(attrs) is Ok ==> species_of(attrs)->Ok_0.name == attr_value(attrs, "name"@),
        species_of(attrs) is Ok && attr_value(attrs, "name"@) is None ==> species_of(
            attrs,
        )->Ok_0.name is None,
        species_of(attrs) is Ok && attr_value(attrs, "name"@) == Some(Seq::<char>::empty())
            ==> species_of(attrs)->Ok_0.name == Some(Seq::<char>::empty()),
{
}

/// A reference without a `stoichiometry` attribute has no coefficient, and
/// one that writes `1` has the coefficient one, so the two stay apart.
pub proof fn lemma_stoichiometry_default(attrs: Seq<(Seq<char>, Seq<char>)>)
    ensures
        reference_of(attrs) is Ok ==> (reference_of(attrs)->Ok_0.stoichiometry is None <==> attr_value(
            attrs,
            "stoichiometry"@,
        ) is None),
        attr_value(attrs, "stoichiometry"@) == Some("1"@) && reference_of(attrs) is Ok
            ==> reference_of(attrs)->Ok_0.stoichiometry == Some(
            Stoichiometry { mantissa: 1, scale: 0 },
        ),
{
    reveal_strlit("1");
    assert("1"@.drop_last() =~= Seq::<char>::empty());
    assert(scan_decimal("1"@.drop_last()) == Some((0nat, 0nat, false, 0nat)));
    assert(scan_decimal("1"@) == Some((1nat, 0nat, false, 1nat)));
    assert(stoichiometry_of("1"@) == Some(Stoichiometry { mantissa: 1, scale: 0 }));
}

/// Whether a token is a self-closing `species` element whose attributes bind.
pub open spec fn binds_species(t: TokenView) -> bool {
    match t {
        TokenView::Leaf { name, attrs } => name == "species"@ && match xml_attributes_of(attrs) {
            Some(a) => species_of(a) is Ok,
            None => false,
        },
        _ => false,
    }
}

/// The species that such a token binds.
pub open spec fn bound_species(t: TokenView) -> SpeciesView {
    match t {
        TokenView::Leaf { attrs, .. } => species_of(xml_attributes_of(attrs)->Some_0)->Ok_0,
        _ => arbitrary(),
    }
}

/// Species are kept in document order: in the species list, a run of
/// species elements appends their species, in the order written.
pub proof fn lemma_species_in_order(st: ScanState, toks: Seq<TokenView>)
    requires
        st.error is None,
        st.path == species_list_path(),
        forall|i: int| 0 <= i < toks.len() ==> binds_species(#[trigger] toks[i]),
    ensures
        run_from(st, toks).error is None,
        run_from(st, toks).path == st.path,
        run_from(st, toks).model.reactions == st.model.reactions,
        run_from(st, toks).model.species == st.model.species + toks.map_values(
            |t: TokenView| bound_species(t),
        ),
    decreases toks.len(),
{
    if toks.len() == 0 {
        assert(st.model.species + toks.map_values(|t: TokenView| bound_species(t))
            =~= st.model.species);
    } else {
        let t = toks[0];
        assert(binds_species(t));
        let s1 = step(st, t);
        assert(s1.model.species == st.model.species.push(bound_species(t)));
        lemma_species_in_order(s1, toks.drop_first());
        assert(st.model.species.push(bound_species(t)) + toks.drop_first().map_values(
            |t: TokenView| bound_species(t),
        ) =~= st.model.species + toks.map_values(|t: TokenView| bound_species(t)));
    }
}

/// Parsing is stable: two outcomes for the same text are the same outcome.
pub proof fn lemma_parse_stable(
    doc: &str,
    r1: Result<ModelRaw, ParseError>,
    r2: Result<ModelRaw, ParseError>,
)
    requires
        outcome_is(r1, document_model(doc)),
        outcome_is(r2, document_model(doc)),
    ensures
        r1 is Ok <==> r2 is Ok,
        r1 is Ok ==> r1->Ok_0@ == r2->Ok_0@,
        r1 is Err ==> r1 == r2,
{
}

/// A bound is bound by its qualified name: `fbc:lowerFluxBound` gives the
/// lower bound, and an attribute `lowerFluxBound` without the prefix changes
/// nothing of the reaction.
pub proof fn lemma_qualified_bound(attrs: Seq<(Seq<char>, Seq<char>)>, v: Seq<char>)
    ensures
        reaction_of(attrs) is Ok ==> reaction_of(attrs)->Ok_0.lower_bound == attr_value(
            attrs,
            "fbc:lowerFluxBound"@,
        ),
        reaction_of(seq![("lowerFluxBound"@, v)] + attrs) == reaction_of(attrs),
{
    reveal_strlit("lowerFluxBound");
    reveal_strlit("fbc:lowerFluxBound");
    reveal_strlit("fbc:lowerUpperBound");
    reveal_strlit("id");
    reveal_strlit("name");
    let all = seq![("lowerFluxBound"@, v)] + attrs;
    assert("lowerFluxBound"@.len() == 14);
    assert("id"@.len() == 2 && "name"@.len() == 4);
    assert(all[0] == ("lowerFluxBound"@, v));
    assert(all.drop_first() =~= attrs);
    assert(attr_value(all, "id"@) == attr_value(attrs, "id"@));
    assert(attr_value(all, "name"@) == attr_value(attrs, "name"@));
    assert(attr_value(all, "fbc:lowerFluxBound"@) == attr_value(attrs, "fbc:lowerFluxBound"@));
    assert(attr_value(all, "fbc:lowerUpperBound"@) == attr_value(attrs, "fbc:lowerUpperBound"@));
}

} // verus!
