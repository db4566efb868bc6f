//! The XML events that drive the extractor, as plain values.
use vstd::prelude::*;

verus! {

/// One attribute of a start tag: its qualified name and its raw value.
#[derive(Clone, Debug)]
pub struct XmlAttribute {
    pub key: Vec<char>,
    pub value: Vec<char>,
}

/// One event of a streaming XML reader.
#[derive(Debug)]
pub enum XmlToken {
    /// `<name ...>`; the attributes, or the reader's message if they are malformed.
    Start { name: Vec<char>, attributes: Result<Vec<XmlAttribute>, String> },
    /// `<name .../>`.
    Empty { name: Vec<char>, attributes: Result<Vec<XmlAttribute>, String> },
    /// `</name>`.
    End { name: Vec<char> },
    /// Character data with entities resolved, or the reader's message if that failed.
    Text { content: Result<Vec<char>, String> },
    /// End of the document.
    Eof,
    /// A comment, CDATA section, declaration, processing instruction or DOCTYPE.
    Other,
    /// The reader failed.
    Fault { message: String },
}

pub enum TokenView {
    Start { name: Seq<char>, attributes: Result<Seq<(Seq<char>, Seq<char>)>, Seq<char>> },
    Empty { name: Seq<char>, attributes: Result<Seq<(Seq<char>, Seq<char>)>, Seq<char>> },
    End { name: Seq<char> },
    Text { content: Result<Seq<char>, Seq<char>> },
    Eof,
    Other,
    Fault { message: Seq<char> },
}

pub open spec fn attributes_view(a: Result<Vec<XmlAttribute>, String>) -> Result<
    Seq<(Seq<char>, Seq<char>)>,
    Seq<char>,
> {
    match a {
        Ok(v) => Ok(v@.map_values(|x: XmlAttribute| (x.key@, x.value@))),
        Err(m) => Err(m@),
    }
}

pub open spec fn content_view(c: Result<Vec<char>, String>) -> Result<Seq<char>, Seq<char>> {
    match c {
        Ok(v) => Ok(v@),
        Err(m) => Err(m@),
    }
}

impl View for XmlToken {
    type V = TokenView;

    open spec fn view(&self) -> TokenView {
        match self {
            XmlToken::Start { name, attributes } => TokenView::Start {
                name: name@,
                attributes: attributes_view(*attributes),
            },
            XmlToken::Empty { name, attributes } => TokenView::Empty {
                name: name@,
                attributes: attributes_view(*attributes),
            },
            XmlToken::End { name } => TokenView::End { name: name@ },
            XmlToken::Text { content } => TokenView::Text { content: content_view(*content) },
            XmlToken::Eof => TokenView::Eof,
            XmlToken::Other => TokenView::Other,
            XmlToken::Fault { message } => TokenView::Fault { message: message@ },
        }
    }
}

pub open spec fn tokens_view(ts: Seq<XmlToken>) -> Seq<TokenView> {
    ts.map_values(|t: XmlToken| t@)
}

} // verus!
