//! The model parser: a pass over the tokens of a document that tracks the
//! path of open elements and binds each entity where its element stands.
use crate::base_types::{
    reaction_of, reference_of, species_of, ListOfReactions, ListOfSpecies, ModelRaw, ModelView,
    ParseError, Reaction, ReactionView, Species, SpeciesReference, SpeciesReferenceView,
    SpeciesView,
};
use crate::xml::{
    attrs_view, document_tokens, is_named, tag_attributes, tokenize, tokens_view, xml_attributes_of,
    TokenView, XmlToken,
};
use vstd::prelude::*;

verus! {

/// What the parser knows after a prefix of the tokens.
pub struct ScanState {
    /// The names of the open elements, outermost first.
    pub path: Seq<Seq<char>>,
    pub model: ModelView,
    pub root_seen: bool,
    pub model_seen: bool,
    /// The first error met; once set, nothing changes.
    pub error: Option<ParseError>,
}

pub open spec fn initial_state() -> ScanState {
    ScanState {
        path: Seq::empty(),
        model: ModelView { species: Seq::empty(), reactions: Seq::empty() },
        root_seen: false,
        model_seen: false,
        error: None,
    }
}

pub open spec fn with_error(st: ScanState, e: ParseError) -> ScanState {
    ScanState { error: Some(e), ..st }
}

pub open spec fn model_path() -> Seq<Seq<char>> {
    seq!["sbml"@]
}

pub open spec fn species_list_path() -> Seq<Seq<char>> {
    seq!["sbml"@, "model"@, "listOfSpecies"@]
}

pub open spec fn reaction_list_path() -> Seq<Seq<char>> {
    seq!["sbml"@, "model"@, "listOfReactions"@]
}

pub open spec fn reactant_list_path() -> Seq<Seq<char>> {
    seq!["sbml"@, "model"@, "listOfReactions"@, "reaction"@, "listOfReactants"@]
}

pub open spec fn product_list_path() -> Seq<Seq<char>> {
    seq!["sbml"@, "model"@, "listOfReactions"@, "reaction"@, "listOfProducts"@]
}

/// Adds a participant to the last reaction, as a reactant or as a product.
pub open spec fn add_participant(m: ModelView, r: SpeciesReferenceView, reactant: bool) -> ModelView {
    let last = m.reactions.last();
    let updated = if reactant {
        ReactionView { reactants: last.reactants.push(r), ..last }
    } else {
        ReactionView { products: last.products.push(r), ..last }
    };
    ModelView { reactions: m.reactions.update(m.reactions.len() - 1, updated), ..m }
}

/// What opening the element `name`, with raw attribute text `raw`, does
/// where the open elements are `st.path`. The root must be `sbml`; a model
/// is found under it, species under its species list, reactions under its
/// reaction list, and participants under the reactant or product list of
/// the reaction last read. Any other element is passed over.
pub open spec fn bind_element(st: ScanState, name: Seq<char>, raw: Seq<char>) -> ScanState {
    if st.path.len() == 0 {
        if st.root_seen {
            with_error(st, ParseError::MalformedMarkup)
        } else if name != "sbml"@ {
            with_error(ScanState { root_seen: true, ..st }, ParseError::UnexpectedRoot)
        } else {
            ScanState { root_seen: true, ..st }
        }
    } else if st.path == model_path() && name == "model"@ {
        ScanState { model_seen: true, ..st }
    } else if st.path == species_list_path() && name == "species"@ {
        match xml_attributes_of(raw) {
            None => with_error(st, ParseError::MalformedMarkup),
            Some(a) => match species_of(a) {
                Err(e) => with_error(st, e),
                Ok(s) => ScanState {
                    model: ModelView { species: st.model.species.push(s), ..st.model },
                    ..st
                },
            },
        }
    } else if st.path == reaction_list_path() && name == "reaction"@ {
        match xml_attributes_of(raw) {
            None => with_error(st, ParseError::MalformedMarkup),
            Some(a) => match reaction_of(a) {
                Err(e) => with_error(st, e),
                Ok(r) => ScanState {
                    model: ModelView { reactions: st.model.reactions.push(r), ..st.model },
                    ..st
                },
            },
        }
    } else if (st.path == reactant_list_path() || st.path == product_list_path()) && name
        == "speciesReference"@ && st.model.reactions.len() > 0 {
        match xml_attributes_of(raw) {
            None => with_error(st, ParseError::MalformedMarkup),
            Some(a) => match reference_of(a) {
                Err(e) => with_error(st, e),
                Ok(r) => ScanState {
                    model: add_participant(st.model, r, st.path == reactant_list_path()),
                    ..st
                },
            },
        }
    } else {
        st
    }
}

/// One token: a start tag binds and opens its element, a self-closing tag
/// binds only, an end tag must close the innermost open element.
pub open spec fn step(st: ScanState, t: TokenView) -> ScanState {
    if st.error is Some {
        st
    } else {
        match t {
            TokenView::Open { name, attrs } => {
                let s = bind_element(st, name, attrs);
                if s.error is Some {
                    s
                } else {
                    ScanState { path: s.path.push(name), ..s }
                }
            },
            TokenView::Leaf { name, attrs } => bind_element(st, name, attrs),
            TokenView::Close { name } => {
                if st.path.len() > 0 && st.path.last() == name {
                    ScanState { path: st.path.drop_last(), ..st }
                } else {
                    with_error(st, ParseError::MalformedMarkup)
                }
            },
            _ => st,
        }
    }
}

/// The state after the tokens `toks`, from `st`.
pub open spec fn run_from(st: ScanState, toks: Seq<TokenView>) -> ScanState
    decreases toks.len(),
{
    if toks.len() == 0 {
        st
    } else {
        run_from(step(st, toks[0]), toks.drop_first())
    }
}

/// The outcome once all tokens are read: every element closed, a root and a
/// model seen.
pub open spec fn finish(st: ScanState) -> Result<ModelView, ParseError> {
    match st.error {
        Some(e) => Err(e),
        None => if st.path.len() > 0 || !st.root_seen {
            Err(ParseError::MalformedMarkup)
        } else if !st.model_seen {
            Err(ParseError::MissingModel)
        } else {
            Ok(st.model)
        },
    }
}

pub open spec fn model_of_tokens(toks: Seq<TokenView>) -> Result<ModelView, ParseError> {
    finish(run_from(initial_state(), toks))
}

/// The model that a document denotes, or why it denotes none.
pub open spec fn document_model(doc: &str) -> Result<ModelView, ParseError> {
    match document_tokens(doc) {
        None => Err(ParseError::MalformedMarkup),
        Some(toks) => model_of_tokens(toks),
    }
}

/// Whether `r` is the outcome that `expected` gives.
pub open spec fn outcome_is(r: Result<ModelRaw, ParseError>, expected: Result<ModelView, ParseError>) -> bool {
    match r {
        Ok(m) => expected == Ok::<ModelView, ParseError>(m@),
        Err(e) => expected == Err::<ModelView, ParseError>(e),
    }
}

pub open spec fn names_view(p: Seq<String>) -> Seq<Seq<char>> {
    p.map_values(|s: String| s@)
}

/// The state of a pass over tokens.
pub struct ModelBuilder {
    pub path: Vec<String>,
    pub model: ModelRaw,
    pub root_seen: bool,
    pub model_seen: bool,
    pub error: Option<ParseError>,
}

impl View for ModelBuilder {
    type V = ScanState;

    open spec fn view(&self) -> ScanState {
        ScanState {
            path: names_view(self.path@),
            model: self.model@,
            root_seen: self.root_seen,
            model_seen: self.model_seen,
            error: self.error,
        }
    }
}

fn at_path3(path: &Vec<String>, a: &str, b: &str, c: &str) -> (r: bool)
    ensures
        r == (names_view(path@) == seq![a@, b@, c@]),
{
    let r = path.len() == 3 && is_named(&path[0], a) && is_named(&path[1], b) && is_named(
        &path[2],
        c,
    );
    assert(names_view(path@).len() == path@.len());
    if r {
        assert(names_view(path@) =~= seq![a@, b@, c@]);
    } else if path.len() == 3 {
        assert(names_view(path@)[0] == path@[0]@);
        assert(names_view(path@)[1] == path@[1]@);
        assert(names_view(path@)[2] == path@[2]@);
        assert(seq![a@, b@, c@][0] == a@);
        assert(seq![a@, b@, c@][1] == b@);
        assert(seq![a@, b@, c@][2] == c@);
    }
    r
}

fn at_participant_list(path: &Vec<String>, list: &str) -> (r: bool)
    ensures
        r == (names_view(path@) == seq![
            "sbml"@,
            "model"@,
            "listOfReactions"@,
            "reaction"@,
            list@,
        ]),
{
    let ghost want = seq!["sbml"@, "model"@, "listOfReactions"@, "reaction"@, list@];
    let r = path.len() == 5 && is_named(&path[0], "sbml") && is_named(&path[1], "model")
        && is_named(&path[2], "listOfReactions") && is_named(&path[3], "reaction") && is_named(
        &path[4],
        list,
    );
    assert(names_view(path@).len() == path@.len());
    if r {
        assert(names_view(path@) =~= want);
    } else if path.len() == 5 {
        assert(forall|i: int| 0 <= i < 5 ==> names_view(path@)[i] == path@[i]@);
        assert(want[0] == "sbml"@ && want[1] == "model"@ && want[2] == "listOfReactions"@
            && want[3] == "reaction"@ && want[4] == list@);
    }
    r
}

impl ModelBuilder {
    /// The state before any token.
    pub fn new() -> (r: ModelBuilder)
        ensures
            r@ == initial_state(),
    {
        let r = ModelBuilder {
            path: Vec::new(),
            model: ModelRaw { list_of_species: ListOfSpecies::default(), list_of_reactions: ListOfReactions::default() },
            root_seen: false,
            model_seen: false,
            error: None,
        };
        assert(r@.path =~= Seq::<Seq<char>>::empty());
        r
    }

    fn push_species(&mut self, s: Species)
        ensures
            final(self)@ == (ScanState {
                model: ModelView { species: old(self)@.model.species.push(s@), ..old(self)@.model },
                ..old(self)@
            }),
    {
        self.model.list_of_species.species.push(s);
        assert(self.model.list_of_species@ =~= old(self)@.model.species.push(s@));
    }

    fn push_reaction(&mut self, r: Reaction)
        ensures
            final(self)@ == (ScanState {
                model: ModelView { reactions: old(self)@.model.reactions.push(r@), ..old(self)@.model },
                ..old(self)@
            }),
    {
        self.model.list_of_reactions.reactions.push(r);
        assert(self.model.list_of_reactions@ =~= old(self)@.model.reactions.push(r@));
    }

    fn push_participant(&mut self, p: SpeciesReference, reactant: bool)
        requires
            old(self)@.model.reactions.len() > 0,
        ensures
            final(self)@ == (ScanState {
                model: add_participant(old(self)@.model, p@, reactant),
                ..old(self)@
            }),
    {
        let ghost pv = p@;
        let ghost m0 = old(self)@.model;
        match self.model.list_of_reactions.reactions.pop() {
            Some(mut last) => {
                assert(last@ == m0.reactions.last());
                if reactant {
                    let ghost before = last.list_of_reactants.species_references@;
                    last.list_of_reactants.species_references.push(p);
                    assert(last.list_of_reactants@ =~= crate::base_types::refs_view(before).push(pv));
                } else {
                    let ghost before = last.list_of_products.species_references@;
                    last.list_of_products.species_references.push(p);
                    assert(last.list_of_products@ =~= crate::base_types::refs_view(before).push(pv));
                }
                let ghost lv = last@;
                self.model.list_of_reactions.reactions.push(last);
                assert(self.model.list_of_reactions@ =~= m0.reactions.update(
                    m0.reactions.len() - 1,
                    lv,
                ));
            },
            None => {},
        }
    }

    /// Opens the element `name` with raw attribute text `raw`, binding it.
    pub fn bind(&mut self, name: &String, raw: &String)
        requires
            old(self)@.error is None,
        ensures
            final(self)@ == bind_element(old(self)@, name@, raw@),
    {
        if self.path.len() == 0 {
            if self.root_seen {
                self.error = Some(ParseError::MalformedMarkup);
            } else {
                self.root_seen = true;
                if !is_named(name, "sbml") {
                    self.error = Some(ParseError::UnexpectedRoot);
                }
            }
            return;
        }
        let in_root = self.path.len() == 1 && is_named(&self.path[0], "sbml");
        assert(in_root == (self@.path == model_path())) by {
            if self.path.len() == 1 {
                assert(self@.path[0] == self.path@[0]@);
                if in_root {
                    assert(self@.path =~= model_path());
                }
            }
        }
        if in_root && is_named(name, "model") {
            self.model_seen = true;
            return;
        }
        if at_path3(&self.path, "sbml", "model", "listOfSpecies") && is_named(name, "species") {
            match tag_attributes(raw) {
                None => {
                    self.error = Some(ParseError::MalformedMarkup);
                },
                Some(a) => match Species::from_attributes(&a) {
                    Err(e) => {
                        self.error = Some(e);
                    },
                    Ok(s) => {
                        self.push_species(s);
                    },
                },
            }
            return;
        }
        if at_path3(&self.path, "sbml", "model", "listOfReactions") && is_named(name, "reaction") {
            match tag_attributes(raw) {
                None => {
                    self.error = Some(ParseError::MalformedMarkup);
                },
                Some(a) => match Reaction::from_attributes(&a) {
                    Err(e) => {
                        self.error = Some(e);
                    },
                    Ok(r) => {
                        self.push_reaction(r);
                    },
                },
            }
            return;
        }
        let reactant = at_participant_list(&self.path, "listOfReactants");
        let product = at_participant_list(&self.path, "listOfProducts");
        if (reactant || product) && is_named(name, "speciesReference")
            && self.model.list_of_reactions.reactions.len() > 0 {
            match tag_attributes(raw) {
                None => {
                    self.error = Some(ParseError::MalformedMarkup);
                },
                Some(a) => match SpeciesReference::from_attributes(&a) {
                    Err(e) => {
                        self.error = Some(e);
                    },
                    Ok(r) => {
                        self.push_participant(r, reactant);
                    },
                },
            }
        }
    }

    /// Reads one token.
    pub fn feed(&mut self, t: &XmlToken)
        ensures
            final(self)@ == step(old(self)@, t@),
    {
        if self.error.is_some() {
            return;
        }
        match t {
            XmlToken::Open { name, attrs } => {
                self.bind(name, attrs);
                if self.error.is_none() {
                    let ghost p = self@.path;
                    self.path.push(name.clone());
                    assert(self@.path =~= p.push(name@));
                }
            },
            XmlToken::Leaf { name, attrs } => {
                self.bind(name, attrs);
            },
            XmlToken::Close { name } => {
                let n = self.path.len();
                if n > 0 && self.path[n - 1] == *name {
                    let ghost p = self@.path;
                    self.path.pop();
                    assert(self@.path =~= p.drop_last());
                } else {
                    self.error = Some(ParseError::MalformedMarkup);
                }
            },
            _ => {},
        }
    }

    /// The outcome once all tokens are read.
    pub fn finish(self) -> (r: Result<ModelRaw, ParseError>)
        ensures
            outcome_is(r, finish(self@)),
    {
        match self.error {
            Some(e) => Err(e),
            None => {
                if self.path.len() > 0 || !self.root_seen {
                    Err(ParseError::MalformedMarkup)
                } else if !self.model_seen {
                    Err(ParseError::MissingModel)
                } else {
                    Ok(self.model)
                }
            },
        }
    }
}

impl ModelRaw {
    /// Builds a model from the tokens of a document.
    pub fn from_tokens(toks: &Vec<XmlToken>) -> (r: Result<ModelRaw, ParseError>)
        ensures
            outcome_is(r, model_of_tokens(tokens_view(toks@))),
    {
        let ghost all = tokens_view(toks@);
        let mut b = ModelBuilder::new();
        let mut i: usize = 0;
        assert(all.subrange(0, all.len() as int) =~= all);
        while i < toks.len()
            invariant
                i <= toks.len(),
                all == tokens_view(toks@),
                run_from(initial_state(), all) == run_from(b@, all.subrange(i as int, all.len() as int)),
            decreases toks.len() - i,
        {
            let ghost rest = all.subrange(i as int, all.len() as int);
            assert(rest[0] == toks@[i as int]@);
            assert(rest.drop_first() =~= all.subrange(i + 1, all.len() as int));
            b.feed(&toks[i]);
            i = i + 1;
        }
        assert(all.subrange(i as int, all.len() as int) =~= Seq::<TokenView>::empty());
        b.finish()
    }

    /// Parses the full text of a document into a model.
    pub fn parse(doc: &str) -> (r: Result<ModelRaw, ParseError>)
        ensures
            outcome_is(r, document_model(doc)),
    {
        match tokenize(doc) {
            None => Err(ParseError::MalformedMarkup),
            Some(toks) => ModelRaw::from_tokens(&toks),
        }
    }
}

} // verus!
