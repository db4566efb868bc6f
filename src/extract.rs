//! The grid-metadata extractor: a single forward pass over XML events that
//! tracks which recognised elements it is inside of and collects the raw
//! values of the leaf elements it needs.
use crate::model::{result_view, DemData, DemError, DemMetadata, ErrorView, MetadataView};
use crate::normalize::{crs_name, decode_elevations, metadata_of, scan_result};
use crate::number::{is_float_literal, Number};
use crate::text::{
    chars_equal, chars_of, decimal_chars, extend_chars, lower_char, lower_seq, parse_unsigned,
    parse_unsigned_chars, slice_chars, split_fields, starts_with, string_of, trim, trim_chars,
    words,
};
use crate::token::{attributes_view, content_view, TokenView, XmlAttribute, XmlToken};
use vstd::prelude::*;

verus! {

/// The elements the extractor recognises, by lower-cased local name.
#[derive(Clone, Copy, Debug, PartialEq, Eq, Structural)]
pub enum Tag {
    Dem,
    SpatialReferenceInfo,
    SpatialReference,
    RectifiedGrid,
    Limits,
    GridEnvelope,
    Low,
    High,
    Origin,
    Point,
    Pos,
    OffsetVector,
    Coverage,
    RangeSet,
    DataBlock,
    TupleList,
    Mesh,
    NilValues,
}

/// The leaf elements whose text the extractor collects.
#[derive(Clone, Copy, Debug, PartialEq, Eq, Structural)]
pub enum Field {
    Low,
    High,
    Pos,
    OffsetVector,
    TupleList,
    Mesh,
    NilValues,
}

/// The containers the extractor is currently inside of.
#[derive(Clone, Copy, Debug, PartialEq, Eq, Structural)]
pub struct Flags {
    pub dem: bool,
    pub spatial_reference_info: bool,
    pub rectified_grid: bool,
    pub limits: bool,
    pub grid_envelope: bool,
    pub origin: bool,
    pub point: bool,
    pub coverage: bool,
    pub range_set: bool,
    pub data_block: bool,
}

pub enum StatusView {
    Running,
    Done,
    Failed(ErrorView),
}

/// What the extractor has seen so far.
pub struct ScanState {
    pub flags: Flags,
    pub crs_code: Option<nat>,
    pub low_seen: bool,
    pub grid_high: Option<(nat, nat)>,
    /// (Y, X) of the origin, in document order.
    pub origin_pos: Option<(Seq<char>, Seq<char>)>,
    pub offset_vectors: Seq<Seq<char>>,
    pub tuple_list: Option<Seq<char>>,
    pub mesh_code: Option<Seq<char>>,
    pub no_data_value: Option<Seq<char>>,
    /// The leaf element whose text is being collected: field, tag name, text so far.
    pub collecting: Option<(Field, Seq<char>, Seq<char>)>,
    pub status: StatusView,
}

pub open spec fn no_flags() -> Flags {
    Flags {
        dem: false,
        spatial_reference_info: false,
        rectified_grid: false,
        limits: false,
        grid_envelope: false,
        origin: false,
        point: false,
        coverage: false,
        range_set: false,
        data_block: false,
    }
}

pub open spec fn initial_scan() -> ScanState {
    ScanState {
        flags: no_flags(),
        crs_code: None,
        low_seen: false,
        grid_high: None,
        origin_pos: None,
        offset_vectors: Seq::empty(),
        tuple_list: None,
        mesh_code: None,
        no_data_value: None,
        collecting: None,
        status: StatusView::Running,
    }
}

/// The local name of a qualified name whose prefix is absent or one of the
/// known namespace prefixes.
pub open spec fn local_name(n: Seq<char>) -> Option<Seq<char>> {
    if n.len() >= 4 && (n.take(4) == "gml:"@ || n.take(4) == "swe:"@) {
        Some(n.skip(4))
    } else if n.contains(':') {
        None
    } else {
        Some(n)
    }
}

/// The recognised element with lower-cased local name `l`.
pub open spec fn tag_named(l: Seq<char>) -> Option<Tag> {
    if l == "dem"@ {
        Some(Tag::Dem)
    } else if l == "spatialreferenceinfo"@ {
        Some(Tag::SpatialReferenceInfo)
    } else if l == "spatialreference"@ {
        Some(Tag::SpatialReference)
    } else if l == "rectifiedgrid"@ {
        Some(Tag::RectifiedGrid)
    } else if l == "limits"@ {
        Some(Tag::Limits)
    } else if l == "gridenvelope"@ {
        Some(Tag::GridEnvelope)
    } else if l == "low"@ {
        Some(Tag::Low)
    } else if l == "high"@ {
        Some(Tag::High)
    } else if l == "origin"@ {
        Some(Tag::Origin)
    } else if l == "point"@ {
        Some(Tag::Point)
    } else if l == "pos"@ {
        Some(Tag::Pos)
    } else if l == "offsetvector"@ {
        Some(Tag::OffsetVector)
    } else if l == "coverage"@ {
        Some(Tag::Coverage)
    } else if l == "rangeset"@ {
        Some(Tag::RangeSet)
    } else if l == "datablock"@ {
        Some(Tag::DataBlock)
    } else if l == "tuplelist"@ {
        Some(Tag::TupleList)
    } else if l == "mesh"@ {
        Some(Tag::Mesh)
    } else if l == "nilvalues"@ {
        Some(Tag::NilValues)
    } else {
        None
    }
}

/// The recognised element that a tag name denotes, ignoring letter case.
pub open spec fn tag_of(name: Seq<char>) -> Option<Tag> {
    match local_name(name) {
        Some(l) => tag_named(lower_seq(l)),
        None => None,
    }
}

pub open spec fn epsg_urn() -> Seq<char> {
    "urn:ogc:def:crs:EPSG::"@
}

/// The EPSG code after the `system` attributes `attrs`, starting from `crs`:
/// each `system` value in the EPSG URN form replaces it by its code, or clears
/// it when the code is not a 16-bit number.
pub open spec fn crs_after(crs: Option<nat>, attrs: Seq<(Seq<char>, Seq<char>)>) -> Option<nat>
    decreases attrs.len(),
{
    if attrs.len() == 0 {
        crs
    } else {
        let before = crs_after(crs, attrs.drop_last());
        let (k, v) = attrs.last();
        if k == "system"@ && v.len() >= epsg_urn().len() && v.take(epsg_urn().len() as int)
            == epsg_urn() {
            parse_unsigned(v.skip(epsg_urn().len() as int), 65535)
        } else {
            before
        }
    }
}

pub open spec fn with_flags(s: ScanState, f: Flags) -> ScanState {
    ScanState { flags: f, ..s }
}

pub open spec fn failed(s: ScanState, e: ErrorView) -> ScanState {
    ScanState { status: StatusView::Failed(e), ..s }
}

pub open spec fn collect(s: ScanState, f: Field, name: Seq<char>) -> ScanState {
    ScanState { collecting: Some((f, name, Seq::empty())), ..s }
}

/// A start tag outside any collected element.
pub open spec fn on_start(
    s: ScanState,
    name: Seq<char>,
    attrs: Result<Seq<(Seq<char>, Seq<char>)>, Seq<char>>,
) -> ScanState {
    let f = s.flags;
    match tag_of(name) {
        Some(Tag::Dem) => with_flags(s, Flags { dem: true, ..f }),
        Some(Tag::SpatialReferenceInfo) => if f.dem {
            with_flags(s, Flags { spatial_reference_info: true, ..f })
        } else {
            s
        },
        Some(Tag::SpatialReference) => if f.spatial_reference_info {
            match attrs {
                Err(m) => failed(s, ErrorView::Attribute { message: m }),
                Ok(a) => ScanState { crs_code: crs_after(s.crs_code, a), ..s },
            }
        } else {
            s
        },
        Some(Tag::RectifiedGrid) => if f.dem {
            with_flags(s, Flags { rectified_grid: true, ..f })
        } else {
            s
        },
        Some(Tag::Limits) => if f.rectified_grid {
            with_flags(s, Flags { limits: true, ..f })
        } else {
            s
        },
        Some(Tag::GridEnvelope) => if f.limits {
            with_flags(s, Flags { grid_envelope: true, ..f })
        } else {
            s
        },
        Some(Tag::Low) => if f.grid_envelope {
            collect(s, Field::Low, name)
        } else {
            s
        },
        Some(Tag::High) => if f.grid_envelope {
            collect(s, Field::High, name)
        } else {
            s
        },
        Some(Tag::Origin) => if f.rectified_grid {
            with_flags(s, Flags { origin: true, ..f })
        } else {
            s
        },
        Some(Tag::Point) => if f.origin {
            with_flags(s, Flags { point: true, ..f })
        } else {
            s
        },
        Some(Tag::Pos) => if f.point {
            collect(s, Field::Pos, name)
        } else {
            s
        },
        Some(Tag::OffsetVector) => if f.rectified_grid {
            collect(s, Field::OffsetVector, name)
        } else {
            s
        },
        Some(Tag::Coverage) => if f.dem {
            with_flags(s, Flags { coverage: true, ..f })
        } else {
            s
        },
        Some(Tag::RangeSet) => if f.coverage {
            with_flags(s, Flags { range_set: true, ..f })
        } else {
            s
        },
        Some(Tag::DataBlock) => if f.range_set {
            with_flags(s, Flags { data_block: true, ..f })
        } else {
            s
        },
        Some(Tag::TupleList) => if f.data_block {
            collect(s, Field::TupleList, name)
        } else {
            s
        },
        Some(Tag::Mesh) => if f.dem {
            collect(s, Field::Mesh, name)
        } else {
            s
        },
        Some(Tag::NilValues) => collect(s, Field::NilValues, name),
        None => s,
    }
}

/// An end tag outside any collected element: leaves the container it closes.
pub open spec fn on_end(s: ScanState, name: Seq<char>) -> ScanState {
    let f = s.flags;
    match tag_of(name) {
        Some(Tag::Dem) => with_flags(s, Flags { dem: false, ..f }),
        Some(Tag::SpatialReferenceInfo) => with_flags(
            s,
            Flags { spatial_reference_info: false, ..f },
        ),
        Some(Tag::RectifiedGrid) => with_flags(s, Flags { rectified_grid: false, ..f }),
        Some(Tag::Limits) => with_flags(s, Flags { limits: false, ..f }),
        Some(Tag::GridEnvelope) => with_flags(s, Flags { grid_envelope: false, ..f }),
        Some(Tag::Origin) => with_flags(s, Flags { origin: false, ..f }),
        Some(Tag::Point) => with_flags(s, Flags { point: false, ..f }),
        Some(Tag::Coverage) => with_flags(s, Flags { coverage: false, ..f }),
        Some(Tag::RangeSet) => with_flags(s, Flags { range_set: false, ..f }),
        Some(Tag::DataBlock) => with_flags(s, Flags { data_block: false, ..f }),
        _ => s,
    }
}

/// The two integers of a grid bound, when `text` is exactly two `usize` numerals.
pub open spec fn index_pair(text: Seq<char>) -> Option<(nat, nat)> {
    let w = words(text);
    if w.len() == 2 && parse_unsigned(w[0], usize::MAX as nat) is Some && parse_unsigned(
        w[1],
        usize::MAX as nat,
    ) is Some {
        Some(
            (
                parse_unsigned(w[0], usize::MAX as nat).unwrap(),
                parse_unsigned(w[1], usize::MAX as nat).unwrap(),
            ),
        )
    } else {
        None
    }
}

/// The two literals of a position, when `text` is exactly two numbers.
pub open spec fn number_pair(text: Seq<char>) -> Option<(Seq<char>, Seq<char>)> {
    let w = words(text);
    if w.len() == 2 && is_float_literal(w[0]) && is_float_literal(w[1]) {
        Some((w[0], w[1]))
    } else {
        None
    }
}

/// The text of a collected element is complete.
pub open spec fn complete(s: ScanState, f: Field, text: Seq<char>) -> ScanState {
    match f {
        Field::Low => if trim(text) == seq!['0', ' ', '0'] {
            ScanState { low_seen: true, ..s }
        } else {
            failed(s, ErrorView::InvalidGridLow { found: text })
        },
        Field::High => match index_pair(text) {
            Some(p) => ScanState { grid_high: Some(p), ..s },
            None => s,
        },
        Field::Pos => match number_pair(text) {
            Some(p) => ScanState { origin_pos: Some(p), ..s },
            None => s,
        },
        Field::OffsetVector => ScanState { offset_vectors: s.offset_vectors.push(text), ..s },
        Field::TupleList => ScanState { tuple_list: Some(text), ..s },
        Field::Mesh => ScanState { mesh_code: Some(text), ..s },
        Field::NilValues => ScanState {
            no_data_value: if is_float_literal(trim(text)) {
                Some(trim(text))
            } else {
                None
            },
            ..s
        },
    }
}

pub open spec fn start_step(
    s: ScanState,
    name: Seq<char>,
    attrs: Result<Seq<(Seq<char>, Seq<char>)>, Seq<char>>,
) -> ScanState {
    if s.status is Running && s.collecting is None {
        on_start(s, name, attrs)
    } else {
        s
    }
}

pub open spec fn end_step(s: ScanState, name: Seq<char>) -> ScanState {
    if s.status is Running {
        match s.collecting {
            Some((f, _tag, text)) => complete(ScanState { collecting: None, ..s }, f, text),
            None => on_end(s, name),
        }
    } else {
        s
    }
}

pub open spec fn text_step(s: ScanState, content: Result<Seq<char>, Seq<char>>) -> ScanState {
    if s.status is Running {
        match s.collecting {
            Some((f, tag, text)) => match content {
                Ok(c) => ScanState { collecting: Some((f, tag, text + c)), ..s },
                Err(m) => failed(s, ErrorView::TextRead { tag, message: m }),
            },
            None => s,
        }
    } else {
        s
    }
}

pub open spec fn eof_step(s: ScanState) -> ScanState {
    if s.status is Running {
        match s.collecting {
            Some((_f, tag, _text)) => failed(s, ErrorView::UnexpectedEof { tag }),
            None => ScanState { status: StatusView::Done, ..s },
        }
    } else {
        s
    }
}

pub open spec fn fault_step(s: ScanState, m: Seq<char>) -> ScanState {
    if s.status is Running {
        match s.collecting {
            Some((_f, tag, _text)) => failed(s, ErrorView::TextRead { tag, message: m }),
            None => failed(s, ErrorView::XmlRead { message: m }),
        }
    } else {
        s
    }
}

/// The extractor after one more event. A self-closing element acts as its
/// start tag followed by its end tag.
pub open spec fn scan_step(s: ScanState, t: TokenView) -> ScanState {
    match t {
        TokenView::Start { name, attributes } => start_step(s, name, attributes),
        TokenView::Empty { name, attributes } => end_step(start_step(s, name, attributes), name),
        TokenView::End { name } => end_step(s, name),
        TokenView::Text { content } => text_step(s, content),
        TokenView::Eof => eof_step(s),
        TokenView::Other => s,
        TokenView::Fault { message } => fault_step(s, message),
    }
}

/// The extractor after the events `ts`, from the start of a document.
pub open spec fn scan(ts: Seq<TokenView>) -> ScanState
    decreases ts.len(),
{
    if ts.len() == 0 {
        initial_scan()
    } else {
        scan_step(scan(ts.drop_last()), ts.last())
    }
}

/// Still reading: the document has neither ended nor failed.
pub open spec fn running(s: ScanState) -> bool {
    s.status is Running
}

#[derive(Debug)]
enum Status {
    Running,
    Done,
    Failed(DemError),
}

/// The raw accumulator of a parse: nesting flags and the values found so far.
#[derive(Debug)]
pub struct Extractor {
    flags: Flags,
    crs_code: Option<u16>,
    low_seen: bool,
    grid_high: Option<(usize, usize)>,
    origin_pos: Option<(Number, Number)>,
    offset_vectors: Vec<Vec<char>>,
    tuple_list: Option<Vec<char>>,
    mesh_code: Option<Vec<char>>,
    no_data_value: Option<Number>,
    collecting: Option<Field>,
    collect_tag: Vec<char>,
    collect_text: Vec<char>,
    status: Status,
}

impl View for Extractor {
    type V = ScanState;

    closed spec fn view(&self) -> ScanState {
        ScanState {
            flags: self.flags,
            crs_code: match self.crs_code {
                Some(c) => Some(c as nat),
                None => None,
            },
            low_seen: self.low_seen,
            grid_high: match self.grid_high {
                Some((c, r)) => Some((c as nat, r as nat)),
                None => None,
            },
            origin_pos: match self.origin_pos {
                Some((y, x)) => Some((y@, x@)),
                None => None,
            },
            offset_vectors: self.offset_vectors@.map_values(|v: Vec<char>| v@),
            tuple_list: match self.tuple_list {
                Some(t) => Some(t@),
                None => None,
            },
            mesh_code: match self.mesh_code {
                Some(t) => Some(t@),
                None => None,
            },
            no_data_value: match self.no_data_value {
                Some(n) => Some(n@),
                None => None,
            },
            collecting: match self.collecting {
                Some(f) => Some((f, self.collect_tag@, self.collect_text@)),
                None => None,
            },
            status: match self.status {
                Status::Running => StatusView::Running,
                Status::Done => StatusView::Done,
                Status::Failed(e) => StatusView::Failed(e@),
            },
        }
    }
}

/// The local name of `n` (see `local_name`).
fn local_name_chars(n: &Vec<char>) -> (r: Option<Vec<char>>)
    ensures
        match local_name(n@) {
            Some(l) => r matches Some(v) && v@ == l,
            None => r is None,
        },
{
    let gml = chars_of("gml:");
    let swe = chars_of("swe:");
    proof {
        reveal_strlit("gml:");
        reveal_strlit("swe:");
        assert("gml:"@.len() == 4);
        assert("swe:"@.len() == 4);
    }
    if starts_with(n, &gml) || starts_with(n, &swe) {
        return Some(slice_chars(n, 4, n.len()));
    }
    let mut i: usize = 0;
    while i < n.len()
        invariant
            i <= n.len(),
            !(n@.len() >= 4 && (n@.take(4) == "gml:"@ || n@.take(4) == "swe:"@)),
            forall|j: int| 0 <= j < i ==> n@[j] != ':',
        decreases n.len() - i,
    {
        if n[i] == ':' {
            assert(n@[i as int] == ':');
            assert(n@.contains(':'));
            return None;
        }
        i = i + 1;
    }
    Some(slice_chars(n, 0, n.len()))
}

/// The recognised element that a tag name denotes (see `tag_of`).
pub fn classify(name: &Vec<char>) -> (r: Option<Tag>)
    ensures
        r == tag_of(name@),
{
    let local = match local_name_chars(name) {
        Some(l) => l,
        None => return None,
    };
    let mut l: Vec<char> = Vec::new();
    let mut i: usize = 0;
    while i < local.len()
        invariant
            i <= local.len(),
            l@ == lower_seq(local@.take(i as int)),
        decreases local.len() - i,
    {
        l.push(lower_char(local[i]));
        assert(lower_seq(local@.take(i + 1)) =~= lower_seq(local@.take(i as int)).push(
            crate::text::ascii_lower(local@[i as int]),
        ));
        i = i + 1;
    }
    assert(local@.take(i as int) =~= local@);
    if chars_equal(&l, &chars_of("dem")) {
        Some(Tag::Dem)
    } else if chars_equal(&l, &chars_of("spatialreferenceinfo")) {
        Some(Tag::SpatialReferenceInfo)
    } else if chars_equal(&l, &chars_of("spatialreference")) {
        Some(Tag::SpatialReference)
    } else if chars_equal(&l, &chars_of("rectifiedgrid")) {
        Some(Tag::RectifiedGrid)
    } else if chars_equal(&l, &chars_of("limits")) {
        Some(Tag::Limits)
    } else if chars_equal(&l, &chars_of("gridenvelope")) {
        Some(Tag::GridEnvelope)
    } else if chars_equal(&l, &chars_of("low")) {
        Some(Tag::Low)
    } else if chars_equal(&l, &chars_of("high")) {
        Some(Tag::High)
    } else if chars_equal(&l, &chars_of("origin")) {
        Some(Tag::Origin)
    } else if chars_equal(&l, &chars_of("point")) {
        Some(Tag::Point)
    } else if chars_equal(&l, &chars_of("pos")) {
        Some(Tag::Pos)
    } else if chars_equal(&l, &chars_of("offsetvector")) {
        Some(Tag::OffsetVector)
    } else if chars_equal(&l, &chars_of("coverage")) {
        Some(Tag::Coverage)
    } else if chars_equal(&l, &chars_of("rangeset")) {
        Some(Tag::RangeSet)
    } else if chars_equal(&l, &chars_of("datablock")) {
        Some(Tag::DataBlock)
    } else if chars_equal(&l, &chars_of("tuplelist")) {
        Some(Tag::TupleList)
    } else if chars_equal(&l, &chars_of("mesh")) {
        Some(Tag::Mesh)
    } else if chars_equal(&l, &chars_of("nilvalues")) {
        Some(Tag::NilValues)
    } else {
        None
    }
}

/// The EPSG code after the `system` attributes in `attrs` (see `crs_after`).
pub fn crs_from_attributes(crs: Option<u16>, attrs: &Vec<XmlAttribute>) -> (r: Option<u16>)
    ensures
        match r {
            Some(c) => crs_after(
                match crs {
                    Some(c) => Some(c as nat),
                    None => None,
                },
                attrs@.map_values(|x: XmlAttribute| (x.key@, x.value@)),
            ) == Some(c as nat),
            None => crs_after(
                match crs {
                    Some(c) => Some(c as nat),
                    None => None,
                },
                attrs@.map_values(|x: XmlAttribute| (x.key@, x.value@)),
            ) is None,
        },
{
    let ghost start = match crs {
        Some(c) => Some(c as nat),
        None => None,
    };
    let ghost av = attrs@.map_values(|x: XmlAttribute| (x.key@, x.value@));
    let system = chars_of("system");
    let urn = chars_of("urn:ogc:def:crs:EPSG::");
    let mut cur = crs;
    let mut i: usize = 0;
    assert(av.take(0) =~= Seq::<(Seq<char>, Seq<char>)>::empty());
    while i < attrs.len()
        invariant
            i <= attrs.len(),
            av == attrs@.map_values(|x: XmlAttribute| (x.key@, x.value@)),
            system@ == "system"@,
            urn@ == epsg_urn(),
            match cur {
                Some(c) => crs_after(start, av.take(i as int)) == Some(c as nat),
                None => crs_after(start, av.take(i as int)) is None,
            },
        decreases attrs.len() - i,
    {
        assert(av.take(i + 1).drop_last() =~= av.take(i as int));
        assert(av.take(i + 1).last() == (attrs@[i as int].key@, attrs@[i as int].value@));
        let a = &attrs[i];
        if chars_equal(&a.key, &system) && starts_with(&a.value, &urn) {
            let code = slice_chars(&a.value, urn.len(), a.value.len());
            assert(code@ =~= a.value@.skip(urn@.len() as int));
            cur = match parse_unsigned_chars(&code, 65535) {
                Some(v) => Some(v as u16),
                None => None,
            };
        }
        i = i + 1;
    }
    assert(av.take(i as int) =~= av);
    cur
}

impl Extractor {
    /// An extractor at the start of a document.
    pub fn new() -> (r: Extractor)
        ensures
            r@ == initial_scan(),
    {
        let r = Extractor {
            flags: Flags {
                dem: false,
                spatial_reference_info: false,
                rectified_grid: false,
                limits: false,
                grid_envelope: false,
                origin: false,
                point: false,
                coverage: false,
                range_set: false,
                data_block: false,
            },
            crs_code: None,
            low_seen: false,
            grid_high: None,
            origin_pos: None,
            offset_vectors: Vec::new(),
            tuple_list: None,
            mesh_code: None,
            no_data_value: None,
            collecting: None,
            collect_tag: Vec::new(),
            collect_text: Vec::new(),
            status: Status::Running,
        };
        assert(r@.offset_vectors =~= Seq::<Seq<char>>::empty());
        r
    }

    /// Whether the document has neither ended nor failed.
    pub fn is_running(&self) -> (r: bool)
        ensures
            r == running(self@),
    {
        match self.status {
            Status::Running => true,
            _ => false,
        }
    }

    fn set_flags(&mut self, f: Flags)
        ensures
            final(self)@ == with_flags(old(self)@, f),
    {
        self.flags = f;
    }

    fn fail(&mut self, e: DemError)
        ensures
            final(self)@ == failed(old(self)@, e@),
    {
        self.status = Status::Failed(e);
    }

    fn begin(&mut self, f: Field, name: &Vec<char>)
        ensures
            final(self)@ == collect(old(self)@, f, name@),
    {
        self.collecting = Some(f);
        self.collect_tag = slice_chars(name, 0, name.len());
        self.collect_text = Vec::new();
        assert(self.collect_tag@ =~= name@);
        assert(self.collect_text@ =~= Seq::<char>::empty());
    }

    fn start(&mut self, name: &Vec<char>, attributes: &Result<Vec<XmlAttribute>, String>)
        requires
            old(self)@.status is Running,
            old(self)@.collecting is None,
        ensures
            final(self)@ == on_start(old(self)@, name@, attributes_view(*attributes)),
    {
        let f = self.flags;
        match classify(name) {
            Some(Tag::Dem) => self.set_flags(Flags { dem: true, ..f }),
            Some(Tag::SpatialReferenceInfo) => if f.dem {
                self.set_flags(Flags { spatial_reference_info: true, ..f });
            },
            Some(Tag::SpatialReference) => if f.spatial_reference_info {
                match attributes {
                    Err(m) => self.fail(DemError::Attribute { message: m.clone() }),
                    Ok(a) => {
                        self.crs_code = crs_from_attributes(self.crs_code, a);
                    },
                }
            },
            Some(Tag::RectifiedGrid) => if f.dem {
                self.set_flags(Flags { rectified_grid: true, ..f });
            },
            Some(Tag::Limits) => if f.rectified_grid {
                self.set_flags(Flags { limits: true, ..f });
            },
            Some(Tag::GridEnvelope) => if f.limits {
                self.set_flags(Flags { grid_envelope: true, ..f });
            },
            Some(Tag::Low) => if f.grid_envelope {
                self.begin(Field::Low, name);
            },
            Some(Tag::High) => if f.grid_envelope {
                self.begin(Field::High, name);
            },
            Some(Tag::Origin) => if f.rectified_grid {
                self.set_flags(Flags { origin: true, ..f });
            },
            Some(Tag::Point) => if f.origin {
                self.set_flags(Flags { point: true, ..f });
            },
            Some(Tag::Pos) => if f.point {
                self.begin(Field::Pos, name);
            },
            Some(Tag::OffsetVector) => if f.rectified_grid {
                self.begin(Field::OffsetVector, name);
            },
            Some(Tag::Coverage) => if f.dem {
                self.set_flags(Flags { coverage: true, ..f });
            },
            Some(Tag::RangeSet) => if f.coverage {
                self.set_flags(Flags { range_set: true, ..f });
            },
            Some(Tag::DataBlock) => if f.range_set {
                self.set_flags(Flags { data_block: true, ..f });
            },
            Some(Tag::TupleList) => if f.data_block {
                self.begin(Field::TupleList, name);
            },
            Some(Tag::Mesh) => if f.dem {
                self.begin(Field::Mesh, name);
            },
            Some(Tag::NilValues) => self.begin(Field::NilValues, name),
            None => {},
        }
    }

    fn end(&mut self, name: &Vec<char>)
        requires
            old(self)@.collecting is None,
        ensures
            final(self)@ == on_end(old(self)@, name@),
    {
        let f = self.flags;
        match classify(name) {
            Some(Tag::Dem) => self.set_flags(Flags { dem: false, ..f }),
            Some(Tag::SpatialReferenceInfo) => self.set_flags(Flags { spatial_reference_info: false, ..f }),
            Some(Tag::RectifiedGrid) => self.set_flags(Flags { rectified_grid: false, ..f }),
            Some(Tag::Limits) => self.set_flags(Flags { limits: false, ..f }),
            Some(Tag::GridEnvelope) => self.set_flags(Flags { grid_envelope: false, ..f }),
            Some(Tag::Origin) => self.set_flags(Flags { origin: false, ..f }),
            Some(Tag::Point) => self.set_flags(Flags { point: false, ..f }),
            Some(Tag::Coverage) => self.set_flags(Flags { coverage: false, ..f }),
            Some(Tag::RangeSet) => self.set_flags(Flags { range_set: false, ..f }),
            Some(Tag::DataBlock) => self.set_flags(Flags { data_block: false, ..f }),
            _ => {},
        }
    }

    fn finish_low(&mut self, text: Vec<char>)
        ensures
            final(self)@ == complete(old(self)@, Field::Low, text@),
    {
        let t = trim_chars(&text);
        let zero = chars_of("0 0");
        proof {
            reveal_strlit("0 0");
            assert(zero@ =~= seq!['0', ' ', '0']);
        }
        if chars_equal(&t, &zero) {
            self.low_seen = true;
        } else {
            self.fail(DemError::InvalidGridLow { found: string_of(&text) });
        }
    }

    fn finish_high(&mut self, text: Vec<char>)
        ensures
            final(self)@ == complete(old(self)@, Field::High, text@),
    {
        let w = split_fields(&text, false);
        if w.len() == 2 {
            let a = parse_unsigned_chars(&w[0], usize::MAX as u64);
            let b = parse_unsigned_chars(&w[1], usize::MAX as u64);
            match (a, b) {
                (Some(c), Some(r)) => {
                    self.grid_high = Some((c as usize, r as usize));
                },
                _ => {},
            }
        }
    }

    fn finish_pos(&mut self, text: Vec<char>)
        ensures
            final(self)@ == complete(old(self)@, Field::Pos, text@),
    {
        let w = split_fields(&text, false);
        if w.len() == 2 {
            let y = Number::from_chars(&w[0]);
            let x = Number::from_chars(&w[1]);
            match (y, x) {
                (Some(y), Some(x)) => {
                    self.origin_pos = Some((y, x));
                },
                _ => {},
            }
        }
    }

    fn finish_offset_vector(&mut self, text: Vec<char>)
        ensures
            final(self)@ == complete(old(self)@, Field::OffsetVector, text@),
    {
        let ghost old_v = self.offset_vectors@;
        let ghost tv = text@;
        self.offset_vectors.push(text);
        assert(self.offset_vectors@.map_values(|v: Vec<char>| v@) =~= old_v.map_values(
            |v: Vec<char>| v@,
        ).push(tv));
    }

    fn finish_nil_values(&mut self, text: Vec<char>)
        ensures
            final(self)@ == complete(old(self)@, Field::NilValues, text@),
    {
        let t = trim_chars(&text);
        self.no_data_value = Number::from_chars(&t);
    }

    fn finish_field(&mut self, f: Field, text: Vec<char>)
        ensures
            final(self)@ == complete(old(self)@, f, text@),
    {
        match f {
            Field::Low => self.finish_low(text),
            Field::High => self.finish_high(text),
            Field::Pos => self.finish_pos(text),
            Field::OffsetVector => self.finish_offset_vector(text),
            Field::TupleList => self.tuple_list = Some(text),
            Field::Mesh => self.mesh_code = Some(text),
            Field::NilValues => self.finish_nil_values(text),
        }
    }

    fn end_token(&mut self, name: &Vec<char>)
        ensures
            final(self)@ == end_step(old(self)@, name@),
    {
        if !self.is_running() {
            return ;
        }
        match self.collecting {
            Some(f) => {
                self.collecting = None;
                let text = slice_chars(&self.collect_text, 0, self.collect_text.len());
                assert(text@ =~= self.collect_text@);
                self.finish_field(f, text);
            },
            None => self.end(name),
        }
    }

    fn start_token(&mut self, name: &Vec<char>, attributes: &Result<Vec<XmlAttribute>, String>)
        ensures
            final(self)@ == start_step(old(self)@, name@, attributes_view(*attributes)),
    {
        if self.is_running() && self.collecting.is_none() {
            self.start(name, attributes);
        }
    }

    fn text_token(&mut self, content: &Result<Vec<char>, String>)
        ensures
            final(self)@ == text_step(old(self)@, content_view(*content)),
    {
        if self.is_running() && self.collecting.is_some() {
            match content {
                Ok(c) => extend_chars(&mut self.collect_text, c),
                Err(m) => {
                    let tag = string_of(&self.collect_tag);
                    self.fail(DemError::TextRead { tag, message: m.clone() });
                },
            }
        }
    }

    fn eof_token(&mut self)
        ensures
            final(self)@ == eof_step(old(self)@),
    {
        if self.is_running() {
            if self.collecting.is_some() {
                let tag = string_of(&self.collect_tag);
                self.fail(DemError::UnexpectedEof { tag });
            } else {
                self.status = Status::Done;
            }
        }
    }

    fn fault_token(&mut self, message: &String)
        ensures
            final(self)@ == fault_step(old(self)@, message@),
    {
        if self.is_running() {
            if self.collecting.is_some() {
                let tag = string_of(&self.collect_tag);
                self.fail(DemError::TextRead { tag, message: message.clone() });
            } else {
                self.fail(DemError::XmlRead { message: message.clone() });
            }
        }
    }

    /// Takes one more event of the document.
    pub fn step(&mut self, t: &XmlToken)
        ensures
            final(self)@ == scan_step(old(self)@, t@),
    {
        match t {
            XmlToken::Start { name, attributes } => self.start_token(name, attributes),
            XmlToken::Empty { name, attributes } => {
                self.start_token(name, attributes);
                self.end_token(name);
            },
            XmlToken::End { name } => self.end_token(name),
            XmlToken::Text { content } => self.text_token(content),
            XmlToken::Eof => self.eof_token(),
            XmlToken::Other => {},
            XmlToken::Fault { message } => self.fault_token(message),
        }
    }
}

pub open spec fn metadata_view(r: Result<DemMetadata, DemError>) -> Result<MetadataView, ErrorView> {
    match r {
        Ok(m) => Ok(m@),
        Err(e) => Err(e@),
    }
}

/// `EPSG:<code>`.
fn crs_string(code: u16) -> (r: String)
    ensures
        r@ == crs_name(code as nat),
{
    let mut m = chars_of("EPSG:");
    extend_chars(&mut m, &decimal_chars(code as u128));
    string_of(&m)
}

impl Extractor {
    /// The grid's metadata (see `metadata_of`).
    pub fn metadata(&self) -> (r: Result<DemMetadata, DemError>)
        ensures
            metadata_view(r) == metadata_of(self@),
    {
        let (c, r) = match self.grid_high {
            None => return Err(DemError::MissingGridDimensions),
            Some(p) => p,
        };
        if c == usize::MAX || r == usize::MAX {
            return Err(DemError::MissingGridDimensions);
        }
        let (y, x) = match &self.origin_pos {
            None => return Err(DemError::MissingOrigin),
            Some(p) => p,
        };
        if self.offset_vectors.len() < 2 {
            return Err(DemError::TooFewOffsetVectors);
        }
        let v0 = split_fields(&self.offset_vectors[0], false);
        let v1 = split_fields(&self.offset_vectors[1], false);
        let cell_x = if v0.len() < 1 {
            return Err(DemError::MissingCellSizeX);
        } else {
            match Number::from_chars(&v0[0]) {
                None => return Err(DemError::MissingCellSizeX),
                Some(n) => n.abs(),
            }
        };
        let cell_y = if v1.len() < 2 {
            return Err(DemError::MissingCellSizeY);
        } else {
            match Number::from_chars(&v1[1]) {
                None => return Err(DemError::MissingCellSizeY),
                Some(n) => n.abs(),
            }
        };
        if !self.low_seen {
            return Err(DemError::MissingGridLow);
        }
        let no_data_value = match &self.no_data_value {
            Some(n) => Some(n.duplicate()),
            None => None,
        };
        let crs = match self.crs_code {
            Some(code) => Some(crs_string(code)),
            None => None,
        };
        let mesh_code = match &self.mesh_code {
            Some(m) => Some(string_of(m)),
            None => None,
        };
        Ok(
            DemMetadata {
                width: c + 1,
                height: r + 1,
                x_min: x.duplicate(),
                y_max: y.duplicate(),
                cell_size_x: cell_x,
                cell_size_y: cell_y,
                no_data_value,
                crs,
                mesh_code,
            },
        )
    }

    /// Ends the document and builds the grid (see `scan_result`).
    pub fn finish(self) -> (r: Result<DemData, DemError>)
        ensures
            result_view(r) == scan_result(self@),
    {
        let mut s = self;
        if s.is_running() {
            s.step(&XmlToken::Eof);
        }
        if let Status::Failed(e) = s.status {
            return Err(e);
        }
        let metadata = match s.metadata() {
            Ok(m) => m,
            Err(e) => return Err(e),
        };
        let text = match s.tuple_list {
            None => return Err(DemError::MissingTupleList),
            Some(t) => t,
        };
        let values = match decode_elevations(&text) {
            Ok(v) => v,
            Err(e) => return Err(e),
        };
        let w = metadata.width as u128;
        let h = metadata.height as u128;
        assert(w * h <= u64::MAX as u128 * u64::MAX as u128) by (nonlinear_arith)
            requires
                w <= u64::MAX,
                h <= u64::MAX,
        ;
        if values.len() as u128 != w * h {
            return Err(
                DemError::ElevationCountMismatch {
                    width: metadata.width,
                    height: metadata.height,
                    found: values.len(),
                },
            );
        }
        Ok(DemData { metadata, elevation_values: values })
    }
}

} // verus!
