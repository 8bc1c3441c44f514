//! The XML layer: tokens read by quick-xml, with the attribute lookup that
//! the schema bindings use.
use quick_xml::events::attributes::Attributes;
use quick_xml::events::Event;
use quick_xml::Reader;
use vstd::prelude::*;
use vstd::string::StringSliceAdditionalSpecFns;

verus! {

/// One markup token of a document, as plain values.
#[derive(Clone, Debug, PartialEq, Eq)]
pub enum XmlToken {
    /// A start tag: its qualified name and the raw text of its attributes.
    Open { name: String, attrs: String },
    /// A self-closing tag: its qualified name and the raw text of its attributes.
    Leaf { name: String, attrs: String },
    /// An end tag and its qualified name.
    Close { name: String },
    /// Text, a comment, a declaration or any other markup without structure.
    Other,
    /// The end of the input.
    Finish,
}

/// The mathematical form of an [`XmlToken`].
pub enum TokenView {
    Open { name: Seq<char>, attrs: Seq<char> },
    Leaf { name: Seq<char>, attrs: Seq<char> },
    Close { name: Seq<char> },
    Other,
    Finish,
}

impl View for XmlToken {
    type V = TokenView;

    open spec fn view(&self) -> TokenView {
        match self {
            XmlToken::Open { name, attrs } => TokenView::Open { name: name@, attrs: attrs@ },
            XmlToken::Leaf { name, attrs } => TokenView::Leaf { name: name@, attrs: attrs@ },
            XmlToken::Close { name } => TokenView::Close { name: name@ },
            XmlToken::Other => TokenView::Other,
            XmlToken::Finish => TokenView::Finish,
        }
    }
}

/// An attribute of a tag: its qualified name and its unescaped value.
#[derive(Clone, Debug, PartialEq, Eq)]
pub struct Attribute {
    pub key: String,
    pub value: String,
}

impl View for Attribute {
    type V = (Seq<char>, Seq<char>);

    open spec fn view(&self) -> (Seq<char>, Seq<char>) {
        (self.key@, self.value@)
    }
}

pub open spec fn attrs_view(attrs: Seq<Attribute>) -> Seq<(Seq<char>, Seq<char>)> {
    attrs.map_values(|a: Attribute| a@)
}

pub open spec fn tokens_view(toks: Seq<XmlToken>) -> Seq<TokenView> {
    toks.map_values(|t: XmlToken| t@)
}

/// The token that quick-xml reads from `doc` at byte offset `pos`, and the
/// number of bytes it spans; `None` where quick-xml reports an error.
pub uninterp spec fn xml_token_at(doc: Seq<char>, pos: nat) -> Option<(TokenView, nat)>;

/// The attributes that quick-xml reads from the raw attribute text of a tag;
/// `None` where quick-xml reports an error.
pub uninterp spec fn xml_attributes_of(raw: Seq<char>) -> Option<Seq<(Seq<char>, Seq<char>)>>;

/// Relies on quick_xml::Reader::read_event, on a reader over `doc` from byte
/// offset `pos`: the token there and the offset after it, which depend on
/// the text alone. Each call reads with a fresh reader, so end tags are
/// taken as they stand and left to the caller to match.
#[verifier::external_body]
fn read_token(doc: &str, pos: usize) -> (r: Option<(XmlToken, u64)>)
    ensures
        r matches Some((t, n)) ==> xml_token_at(doc@, pos as nat) == Some((t@, n as nat)),
        r is None ==> xml_token_at(doc@, pos as nat) is None,
{
    let mut reader = Reader::from_str(doc.get(pos..)?);
    reader.config_mut().check_end_names = false;
    reader.config_mut().allow_unmatched_ends = true;
    let token = match reader.read_event().ok()? {
        Event::Start(e) => XmlToken::Open { name: e.name().0.to_string(), attrs: e.attributes_raw().to_string() },
        Event::Empty(e) => XmlToken::Leaf { name: e.name().0.to_string(), attrs: e.attributes_raw().to_string() },
        Event::End(e) => XmlToken::Close { name: e.name().0.to_string() },
        Event::Eof => XmlToken::Finish,
        _ => XmlToken::Other,
    };
    Some((token, reader.buffer_position()))
}

/// Relies on quick_xml's `Attributes` iterator and `Attribute::normalized_value`:
/// the attributes of a tag in document order, with their values unescaped
/// and normalized as XML 1.0 prescribes; duplicate names are an error there.
#[verifier::external_body]
fn read_attributes(raw: &str) -> (r: Option<Vec<Attribute>>)
    ensures
        r matches Some(v) ==> xml_attributes_of(raw@) == Some(attrs_view(v@)),
        r is None ==> xml_attributes_of(raw@) is None,
{
    let mut attributes = Attributes::new(raw, 0);
    let mut out = Vec::new();
    while let Some(a) = attributes.next() {
        let a = a.ok()?;
        let key = a.key.0.to_string();
        let value = a.normalized_value(quick_xml::XmlVersion::Implicit1_0).ok()?.into_owned();
        out.push(Attribute { key, value });
    }
    Some(out)
}

/// The tokens of `doc` from byte offset `pos` up to the end of the input;
/// `None` where a token cannot be read or does not move forward.
pub open spec fn tokens_from(doc: &str, pos: nat) -> Option<Seq<TokenView>>
    decreases doc.spec_bytes().len() - pos,
{
    match xml_token_at(doc@, pos) {
        None => None,
        Some((t, n)) => {
            if t is Finish {
                Some(Seq::empty())
            } else if 0 < n && pos + n <= doc.spec_bytes().len() {
                match tokens_from(doc, pos + n) {
                    Some(rest) => Some(seq![t] + rest),
                    None => None,
                }
            } else {
                None
            }
        },
    }
}

/// The tokens of a whole document, the final end of input left out.
pub open spec fn document_tokens(doc: &str) -> Option<Seq<TokenView>> {
    tokens_from(doc, 0)
}

/// Reads all tokens of `doc`.
pub fn tokenize(doc: &str) -> (r: Option<Vec<XmlToken>>)
    ensures
        r matches Some(v) ==> document_tokens(doc) == Some(tokens_view(v@)),
        r is None ==> document_tokens(doc) is None,
{
    let len = doc.as_bytes().len();
    let mut pos: usize = 0;
    let mut out: Vec<XmlToken> = Vec::new();
    loop
        invariant
            len == doc.spec_bytes().len(),
            pos <= len,
            document_tokens(doc) == match tokens_from(doc, pos as nat) {
                Some(rest) => Some(tokens_view(out@) + rest),
                None => None::<Seq<TokenView>>,
            },
        decreases len - pos,
    {
        match read_token(doc, pos) {
            None => {
                return None;
            },
            Some((t, n)) => {
                if let XmlToken::Finish = t {
                    assert(tokens_view(out@) + Seq::<TokenView>::empty() =~= tokens_view(out@));
                    return Some(out);
                }
                if n == 0 || n > (len - pos) as u64 {
                    return None;
                }
                let ghost before = out@;
                let ghost tv = t@;
                out.push(t);
                assert(tokens_view(out@) =~= tokens_view(before) + seq![tv]);
                proof {
                    match tokens_from(doc, (pos + n) as nat) {
                        Some(rest) => {
                            assert(tokens_view(before) + (seq![tv] + rest) =~= tokens_view(out@)
                                + rest);
                        },
                        None => {},
                    }
                }
                pos = pos + n as usize;
            },
        }
    }
}

/// The value of the first attribute whose qualified name is `key`; a name is
/// compared whole, its prefix included.
pub open spec fn attr_value(attrs: Seq<(Seq<char>, Seq<char>)>, key: Seq<char>) -> Option<
    Seq<char>,
>
    decreases attrs.len(),
{
    if attrs.len() == 0 {
        None
    } else if attrs[0].0 == key {
        Some(attrs[0].1)
    } else {
        attr_value(attrs.drop_first(), key)
    }
}

pub open spec fn opt_view(s: Option<String>) -> Option<Seq<char>> {
    match s {
        Some(v) => Some(v@),
        None => None,
    }
}

/// Looks up an attribute by its qualified name.
pub fn find_attribute(attrs: &Vec<Attribute>, key: &str) -> (r: Option<String>)
    ensures
        opt_view(r) == attr_value(attrs_view(attrs@), key@),
{
    let ghost all = attrs_view(attrs@);
    let wanted = key.to_owned();
    let mut i: usize = 0;
    assert(all.subrange(0, all.len() as int) =~= all);
    while i < attrs.len()
        invariant
            i <= attrs.len(),
            all == attrs_view(attrs@),
            wanted@ == key@,
            attr_value(all, key@) == attr_value(all.subrange(i as int, all.len() as int), key@),
        decreases attrs.len() - i,
    {
        let ghost rest = all.subrange(i as int, all.len() as int);
        assert(rest[0] == attrs@[i as int]@);
        if attrs[i].key == wanted {
            return Some(attrs[i].value.clone());
        }
        assert(rest.drop_first() =~= all.subrange(i + 1, all.len() as int));
        i = i + 1;
    }
    None
}

/// Reads the attributes of a tag from its raw attribute text.
pub fn tag_attributes(raw: &String) -> (r: Option<Vec<Attribute>>)
    ensures
        r matches Some(v) ==> xml_attributes_of(raw@) == Some(attrs_view(v@)),
        r is None ==> xml_attributes_of(raw@) is None,
{
    read_attributes(raw.as_str())
}

/// Whether `name` is exactly `lit`.
pub fn is_named(name: &String, lit: &str) -> (r: bool)
    ensures
        r == (name@ == lit@),
{
    let l = lit.to_owned();
    *name == l
}

} // verus!
