//! Reading a document with quick-xml. The events of a document are a function
//! of its text; `xml_event`, `xml_name`, `xml_attributes` and `xml_text` name
//! what the reader reports for the `k`-th event of a document.
use crate::extract::{running, scan, Extractor};
use crate::model::{result_view, DemData, DemError};
use crate::normalize::parse_spec;
use crate::parse::lemma_sample_count;
use crate::token::{attributes_view, content_view, TokenView, XmlAttribute, XmlToken};
use quick_xml::events::Event;
use quick_xml::Reader;
use vstd::prelude::*;

verus! {

#[verifier::external_type_specification]
#[verifier::external_body]
#[verifier::reject_recursive_types(R)]
pub struct ExReader<R>(Reader<R>);

#[verifier::external_type_specification]
#[verifier::external_body]
pub struct ExEvent<'a>(Event<'a>);

#[verifier::external_type_specification]
#[verifier::external_body]
pub struct ExXmlError(quick_xml::Error);

/// The kind of an event.
#[derive(Clone, Copy, Debug, PartialEq, Eq, Structural)]
pub enum EventKind {
    Start,
    Empty,
    End,
    Text,
    Eof,
    Other,
}

/// The kind of the `k`-th event that the reader reports for `doc`, or the
/// text of its error.
pub uninterp spec fn xml_event(doc: Seq<char>, k: nat) -> Result<EventKind, Seq<char>>;

/// The qualified name of the `k`-th event's tag.
pub uninterp spec fn xml_name(doc: Seq<char>, k: nat) -> Seq<char>;

/// The attributes of the `k`-th event's start tag, or the text of the error
/// met while reading them.
pub uninterp spec fn xml_attributes(doc: Seq<char>, k: nat) -> Result<
    Seq<(Seq<char>, Seq<char>)>,
    Seq<char>,
>;

/// The `k`-th event's text with entities resolved, or the text of the error
/// met while resolving them.
pub uninterp spec fn xml_text(doc: Seq<char>, k: nat) -> Result<Seq<char>, Seq<char>>;

/// The `k`-th event of `doc`, as a token.
pub open spec fn token_at(doc: Seq<char>, k: nat) -> TokenView {
    match xml_event(doc, k) {
        Ok(EventKind::Start) => TokenView::Start {
            name: xml_name(doc, k),
            attributes: xml_attributes(doc, k),
        },
        Ok(EventKind::Empty) => TokenView::Empty {
            name: xml_name(doc, k),
            attributes: xml_attributes(doc, k),
        },
        Ok(EventKind::End) => TokenView::End { name: xml_name(doc, k) },
        Ok(EventKind::Text) => TokenView::Text { content: xml_text(doc, k) },
        Ok(EventKind::Eof) => TokenView::Eof,
        Ok(EventKind::Other) => TokenView::Other,
        Err(m) => TokenView::Fault { message: m },
    }
}

/// The first `n` events of `doc`.
pub open spec fn doc_tokens(doc: Seq<char>, n: nat) -> Seq<TokenView> {
    Seq::new(n, |k: int| token_at(doc, k as nat))
}

/// Reading `doc` stops after its `n`-th event: the first at which the
/// document has ended or failed.
pub open spec fn stops_at(doc: Seq<char>, n: nat) -> bool {
    &&& !running(scan(doc_tokens(doc, n)))
    &&& forall|j: nat| j < n ==> running(#[trigger] scan(doc_tokens(doc, j)))
}

pub open spec fn kind_view(k: Result<EventKind, String>) -> Result<EventKind, Seq<char>> {
    match k {
        Ok(e) => Ok(e),
        Err(m) => Err(m@),
    }
}

/// A reader over a document, with the last event it reported.
struct XmlCursor<'a> {
    reader: Reader<&'a [u8]>,
    current: Result<Event<'a>, quick_xml::Error>,
    doc: Ghost<Seq<char>>,
    read: Ghost<nat>,
    /// Bytes of the document not yet consumed.
    left: usize,
}

impl<'a> XmlCursor<'a> {
    /// Relies on quick-xml's `Reader::from_str` and `trim_text`: a reader at the
    /// start of `doc` that drops whitespace around text.
    #[verifier::external_body]
    fn open(doc: &'a str) -> (c: XmlCursor<'a>)
        ensures
            c.doc@ == doc@,
            c.read@ == 0,
    {
        let mut reader = Reader::from_str(doc);
        reader.trim_text(true);
        let left = reader.get_ref().len();
        XmlCursor { reader, current: Ok(Event::Eof), doc: Ghost(doc@), read: Ghost(0), left }
    }

    /// Relies on quick-xml's `Reader::read_event`: the next event of the
    /// document. The input only shrinks, and each event but the end consumes some.
    #[verifier::external_body]
    fn advance(&mut self) -> (k: Result<EventKind, String>)
        ensures
            final(self).doc == old(self).doc,
            final(self).read@ == old(self).read@ + 1,
            kind_view(k) == xml_event(old(self).doc@, old(self).read@),
            final(self).left <= old(self).left,
            k matches Ok(e) && e != EventKind::Eof ==> final(self).left < old(self).left,
    {
        self.current = self.reader.read_event();
        self.left = self.reader.get_ref().len();
        match &self.current {
            Ok(Event::Start(_)) => Ok(EventKind::Start),
            Ok(Event::Empty(_)) => Ok(EventKind::Empty),
            Ok(Event::End(_)) => Ok(EventKind::End),
            Ok(Event::Text(_)) => Ok(EventKind::Text),
            Ok(Event::Eof) => Ok(EventKind::Eof),
            Ok(_) => Ok(EventKind::Other),
            Err(e) => Err(e.to_string()),
        }
    }

    /// Relies on quick-xml's `BytesStart::name` and `BytesEnd::name`: the
    /// qualified name of the tag just read.
    #[verifier::external_body]
    fn tag_name(&self) -> (r: Vec<char>)
        requires
            self.read@ > 0,
            xml_event(self.doc@, (self.read@ - 1) as nat) matches Ok(e) && (e == EventKind::Start
                || e == EventKind::Empty || e == EventKind::End),
        ensures
            r@ == xml_name(self.doc@, (self.read@ - 1) as nat),
    {
        match &self.current {
            Ok(Event::Start(e)) | Ok(Event::Empty(e)) => String::from_utf8_lossy(
                e.name().as_ref(),
            ).chars().collect(),
            Ok(Event::End(e)) => String::from_utf8_lossy(e.name().as_ref()).chars().collect(),
            _ => Vec::new(),
        }
    }

    /// Relies on quick-xml's `BytesStart::attributes`: the attributes of the
    /// start tag just read, each name with its raw value.
    #[verifier::external_body]
    fn tag_attributes(&self) -> (r: Result<Vec<XmlAttribute>, String>)
        requires
            self.read@ > 0,
            xml_event(self.doc@, (self.read@ - 1) as nat) matches Ok(e) && (e == EventKind::Start
                || e == EventKind::Empty),
        ensures
            attributes_view(r) == xml_attributes(self.doc@, (self.read@ - 1) as nat),
    {
        match &self.current {
            Ok(Event::Start(e)) | Ok(Event::Empty(e)) => e.attributes().map(
                |a| match a {
                    Ok(a) => Ok(XmlAttribute {
                        key: String::from_utf8_lossy(a.key.as_ref()).chars().collect(),
                        value: String::from_utf8_lossy(&a.value).chars().collect(),
                    }),
                    Err(x) => Err(x.to_string()),
                },
            ).collect(),
            _ => Ok(Vec::new()),
        }
    }

    /// Relies on quick-xml's `BytesText::unescape`: the text just read, with
    /// entity and character references resolved.
    #[verifier::external_body]
    fn text(&self) -> (r: Result<Vec<char>, String>)
        requires
            self.read@ > 0,
            xml_event(self.doc@, (self.read@ - 1) as nat) == Ok::<EventKind, Seq<char>>(
                EventKind::Text,
            ),
        ensures
            content_view(r) == xml_text(self.doc@, (self.read@ - 1) as nat),
    {
        match &self.current {
            Ok(Event::Text(e)) => match e.unescape() {
                Ok(t) => Ok(t.chars().collect()),
                Err(x) => Err(x.to_string()),
            },
            _ => Ok(Vec::new()),
        }
    }

    /// The next event, as a token.
    fn next_token(&mut self) -> (t: XmlToken)
        ensures
            final(self).doc == old(self).doc,
            final(self).read@ == old(self).read@ + 1,
            t@ == token_at(old(self).doc@, old(self).read@),
            final(self).left <= old(self).left,
            !(t@ is Eof || t@ is Fault) ==> final(self).left < old(self).left,
    {
        match self.advance() {
            Ok(EventKind::Start) => XmlToken::Start {
                name: self.tag_name(),
                attributes: self.tag_attributes(),
            },
            Ok(EventKind::Empty) => XmlToken::Empty {
                name: self.tag_name(),
                attributes: self.tag_attributes(),
            },
            Ok(EventKind::End) => XmlToken::End { name: self.tag_name() },
            Ok(EventKind::Text) => XmlToken::Text { content: self.text() },
            Ok(EventKind::Eof) => XmlToken::Eof,
            Ok(EventKind::Other) => XmlToken::Other,
            Err(message) => XmlToken::Fault { message },
        }
    }
}

/// Reads a DEM document into a grid: the events that quick-xml reports for
/// `xml`, up to the one that ends or fails the document, read as
/// `parse_tokens` reads them.
pub fn parse_dem_xml(xml: &str) -> (r: Result<DemData, DemError>)
    ensures
        exists|n: nat| stops_at(xml@, n) && result_view(r) == parse_spec(doc_tokens(xml@, n)),
        r matches Ok(d) ==> d.metadata.width * d.metadata.height == d.elevation_values.len(),
{
    let mut cur = XmlCursor::open(xml);
    let mut ex = Extractor::new();
    let ghost mut ts: Seq<TokenView> = Seq::empty();
    assert(doc_tokens(xml@, 0) =~= ts);
    while ex.is_running()
        invariant
            cur.doc@ == xml@,
            cur.read@ == ts.len(),
            ts == doc_tokens(xml@, ts.len()),
            ex@ == scan(ts),
            forall|j: nat| j < ts.len() ==> running(#[trigger] scan(doc_tokens(xml@, j))),
        decreases cur.left + if running(ex@) {
            1int
        } else {
            0int
        },
    {
        let ghost n = ts.len();
        let t = cur.next_token();
        ex.step(&t);
        proof {
            assert(ts.push(t@).drop_last() =~= ts);
            assert(doc_tokens(xml@, n + 1) =~= ts.push(t@));
            ts = ts.push(t@);
            assert forall|j: nat| j < ts.len() implies running(
                #[trigger] scan(doc_tokens(xml@, j)),
            ) by {
                if j == n {
                    assert(doc_tokens(xml@, j) =~= ts.drop_last());
                }
            }
        }
    }
    proof {
        lemma_sample_count(ex@);
    }
    let r = ex.finish();
    assert(r matches Ok(d) ==> d@.elevation_values.len() == d.elevation_values.len());
    proof {
        let n = ts.len();
        assert(stops_at(xml@, n));
        assert(result_view(r) == parse_spec(doc_tokens(xml@, n)));
    }
    r
}

} // verus!
