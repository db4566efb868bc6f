//! Properties that hold across calls and for every input.
use crate::extract::{
    collect, complete, initial_scan, on_start, running, scan, scan_step, tag_of, Field, ScanState,
    Tag,
};
use crate::model::{DemDataView, ErrorView, MetadataView};
use crate::normalize::{all_numbers, close, decode_spec, metadata_of, parse_spec};
use crate::number::{
    is_float_literal, is_unsigned_literal, lemma_literal_is_word, lemma_strip_sign_literal,
    strip_sign,
};
use crate::text::{
    decimal, is_word, join_words, lead_ws, lemma_fields_join, lemma_parse_decimal, trail_ws,
    trim, words,
};
use crate::token::TokenView;
use crate::xml_parser::{doc_tokens, stops_at};
use vstd::prelude::*;

verus! {

/// In every successful outcome both cell sizes are float literals without a
/// sign, whatever sign the offset-vector components they come from carried.
pub proof fn lemma_cell_sizes_unsigned(ts: Seq<TokenView>)
    ensures
        parse_spec(ts) matches Ok(d) ==> is_unsigned_literal(d.metadata.cell_size_x)
            && is_unsigned_literal(d.metadata.cell_size_y),
{
    let s = close(scan(ts));
    if parse_spec(ts) is Ok {
        let v0 = words(s.offset_vectors[0]);
        let v1 = words(s.offset_vectors[1]);
        assert(metadata_of(s) is Ok);
        lemma_strip_sign_literal(v0[0]);
        lemma_strip_sign_literal(v1[1]);
    }
}

/// Two reads of the same document end at the same event, so they give the
/// same outcome: nothing but the document decides it.
pub proof fn lemma_same_document_same_result(
    doc: Seq<char>,
    r1: Result<DemDataView, ErrorView>,
    r2: Result<DemDataView, ErrorView>,
)
    requires
        exists|n: nat| stops_at(doc, n) && r1 == parse_spec(doc_tokens(doc, n)),
        exists|n: nat| stops_at(doc, n) && r2 == parse_spec(doc_tokens(doc, n)),
    ensures
        r1 == r2,
{
    let n1 = choose|n: nat| stops_at(doc, n) && r1 == parse_spec(doc_tokens(doc, n));
    let n2 = choose|n: nat| stops_at(doc, n) && r2 == parse_spec(doc_tokens(doc, n));
    if n1 < n2 {
        assert(crate::extract::running(scan(doc_tokens(doc, n1))));
    } else if n2 < n1 {
        assert(crate::extract::running(scan(doc_tokens(doc, n2))));
    }
}

pub open spec fn open_tag(name: Seq<char>) -> TokenView {
    TokenView::Start { name, attributes: Ok(Seq::empty()) }
}

pub open spec fn close_tag(name: Seq<char>) -> TokenView {
    TokenView::End { name }
}

/// `<name>text</name>`.
pub open spec fn leaf(name: Seq<char>, text: Seq<char>) -> Seq<TokenView> {
    seq![open_tag(name), TokenView::Text { content: Ok(text) }, close_tag(name)]
}

/// The events of the DEM document that holds the grid `m` with samples `vals`:
/// `<dem><rectifiedgrid><limits><gridenvelope><low>0 0</low><high>W-1 H-1</high>`
/// `</gridenvelope></limits><origin><point><pos>Y X</pos></point></origin>`
/// `<offsetvector>CX 0</offsetvector><offsetvector>0 -CY</offsetvector></rectifiedgrid>`
/// `<coverage><rangeset><datablock><tuplelist>V1 V2 ...</tuplelist></datablock>`
/// `</rangeset></coverage></dem>`, then the end of the document.
pub open spec fn grid_document(m: MetadataView, vals: Seq<Seq<char>>) -> Seq<TokenView> {
    seq![open_tag("dem"@), open_tag("rectifiedgrid"@), open_tag("limits"@), open_tag("gridenvelope"@)]
        + leaf("low"@, seq!['0', ' ', '0'])
        + leaf("high"@, join_words(seq![decimal((m.width - 1) as nat), decimal((m.height - 1) as nat)]))
        + seq![close_tag("gridenvelope"@), close_tag("limits"@), open_tag("origin"@), open_tag("point"@)]
        + leaf("pos"@, join_words(seq![m.y_max, m.x_min]))
        + seq![close_tag("point"@), close_tag("origin"@)]
        + leaf("offsetvector"@, join_words(seq![m.cell_size_x, seq!['0']]))
        + leaf("offsetvector"@, join_words(seq![seq!['0'], seq!['-'] + m.cell_size_y]))
        + seq![close_tag("rectifiedgrid"@), open_tag("coverage"@), open_tag("rangeset"@), open_tag("datablock"@)]
        + leaf("tuplelist"@, join_words(vals))
        + seq![close_tag("datablock"@), close_tag("rangeset"@), close_tag("coverage"@), close_tag("dem"@)]
        + seq![TokenView::Eof]
}

/// The extractor after the events `ts`, starting from `s`.
#[verifier::opaque]
pub open spec fn scan_from(s: ScanState, ts: Seq<TokenView>) -> ScanState
    decreases ts.len(),
{
    if ts.len() == 0 {
        s
    } else {
        scan_step(scan_from(s, ts.drop_last()), ts.last())
    }
}

proof fn lemma_scan_from_append(s: ScanState, a: Seq<TokenView>, b: Seq<TokenView>)
    ensures
        scan_from(s, a + b) == scan_from(scan_from(s, a), b),
    decreases b.len(),
{
    reveal(scan_from);
    if b.len() == 0 {
        assert(a + b =~= a);
    } else {
        assert((a + b).drop_last() =~= a + b.drop_last());
        assert((a + b).last() == b.last());
        lemma_scan_from_append(s, a, b.drop_last());
    }
}

proof fn lemma_scan_is_scan_from(ts: Seq<TokenView>)
    ensures
        scan(ts) == scan_from(initial_scan(), ts),
    decreases ts.len(),
{
    reveal(scan_from);
    if ts.len() > 0 {
        lemma_scan_is_scan_from(ts.drop_last());
    }
}

proof fn lemma_steps(s: ScanState, ts: Seq<TokenView>)
    requires
        1 <= ts.len() <= 4,
    ensures
        ts.len() == 1 ==> scan_from(s, ts) == scan_step(s, ts[0]),
        ts.len() == 2 ==> scan_from(s, ts) == scan_step(scan_step(s, ts[0]), ts[1]),
        ts.len() == 3 ==> scan_from(s, ts) == scan_step(
            scan_step(scan_step(s, ts[0]), ts[1]),
            ts[2],
        ),
        ts.len() == 4 ==> scan_from(s, ts) == scan_step(
            scan_step(scan_step(scan_step(s, ts[0]), ts[1]), ts[2]),
            ts[3],
        ),
{
    reveal_with_fuel(scan_from, 5);
    let t1 = ts.take(1);
    let t2 = ts.take(2);
    let t3 = ts.take(3);
    assert(t1.last() == ts[0]);
    if ts.len() >= 2 {
        assert(t2.last() == ts[1]);
    }
    if ts.len() >= 3 {
        assert(t3.last() == ts[2]);
    }
    assert(t1.drop_last() =~= Seq::<TokenView>::empty());
    if ts.len() >= 2 {
        assert(t2.drop_last() =~= t1);
    }
    if ts.len() >= 3 {
        assert(t3.drop_last() =~= t2);
    }
    if ts.len() == 1 {
        assert(ts =~= t1);
    } else if ts.len() == 2 {
        assert(ts.drop_last() =~= t1);
    } else if ts.len() == 3 {
        assert(ts.drop_last() =~= t2);
    } else {
        assert(ts.drop_last() =~= t3);
    }
}

proof fn lemma_leaf(s: ScanState, name: Seq<char>, f: Field, text: Seq<char>)
    requires
        running(s),
        s.collecting is None,
        on_start(s, name, Ok(Seq::empty())) == collect(s, f, name),
    ensures
        scan_from(s, leaf(name, text)) == complete(s, f, text),
{
    lemma_steps(s, leaf(name, text));
    let c = collect(s, f, name);
    assert(Seq::<char>::empty() + text =~= text);
    let mid = ScanState { collecting: Some((f, name, text)), ..c };
    assert(ScanState { collecting: None, ..mid } == s);
}

proof fn lemma_tags()
    ensures
        tag_of("dem"@) == Some(Tag::Dem),
        tag_of("rectifiedgrid"@) == Some(Tag::RectifiedGrid),
        tag_of("limits"@) == Some(Tag::Limits),
        tag_of("gridenvelope"@) == Some(Tag::GridEnvelope),
        tag_of("low"@) == Some(Tag::Low),
        tag_of("high"@) == Some(Tag::High),
        tag_of("origin"@) == Some(Tag::Origin),
        tag_of("point"@) == Some(Tag::Point),
        tag_of("pos"@) == Some(Tag::Pos),
        tag_of("offsetvector"@) == Some(Tag::OffsetVector),
        tag_of("coverage"@) == Some(Tag::Coverage),
        tag_of("rangeset"@) == Some(Tag::RangeSet),
        tag_of("datablock"@) == Some(Tag::DataBlock),
        tag_of("tuplelist"@) == Some(Tag::TupleList),
{
    reveal_strlit("spatialreferenceinfo");
    reveal_strlit("spatialreference");
    reveal_strlit("dem");
    reveal_strlit("rectifiedgrid");
    reveal_strlit("limits");
    reveal_strlit("gridenvelope");
    reveal_strlit("low");
    reveal_strlit("high");
    reveal_strlit("origin");
    reveal_strlit("point");
    reveal_strlit("pos");
    reveal_strlit("offsetvector");
    reveal_strlit("coverage");
    reveal_strlit("rangeset");
    reveal_strlit("datablock");
    reveal_strlit("tuplelist");
    assert("dem"@ =~= seq!['d', 'e', 'm']);
    assert("rectifiedgrid"@ =~= seq!['r', 'e', 'c', 't', 'i', 'f', 'i', 'e', 'd', 'g', 'r', 'i', 'd']);
    assert("limits"@ =~= seq!['l', 'i', 'm', 'i', 't', 's']);
    assert("gridenvelope"@ =~= seq!['g', 'r', 'i', 'd', 'e', 'n', 'v', 'e', 'l', 'o', 'p', 'e']);
    assert("low"@ =~= seq!['l', 'o', 'w']);
    assert("high"@ =~= seq!['h', 'i', 'g', 'h']);
    assert("origin"@ =~= seq!['o', 'r', 'i', 'g', 'i', 'n']);
    assert("point"@ =~= seq!['p', 'o', 'i', 'n', 't']);
    assert("pos"@ =~= seq!['p', 'o', 's']);
    assert("offsetvector"@ =~= seq!['o', 'f', 'f', 's', 'e', 't', 'v', 'e', 'c', 't', 'o', 'r']);
    assert("coverage"@ =~= seq!['c', 'o', 'v', 'e', 'r', 'a', 'g', 'e']);
    assert("rangeset"@ =~= seq!['r', 'a', 'n', 'g', 'e', 's', 'e', 't']);
    assert("datablock"@ =~= seq!['d', 'a', 't', 'a', 'b', 'l', 'o', 'c', 'k']);
    assert("tuplelist"@ =~= seq!['t', 'u', 'p', 'l', 'e', 'l', 'i', 's', 't']);
    lemma_tag("dem"@, Tag::Dem);
    lemma_tag("rectifiedgrid"@, Tag::RectifiedGrid);
    lemma_tag("limits"@, Tag::Limits);
    lemma_tag("gridenvelope"@, Tag::GridEnvelope);
    lemma_tag("low"@, Tag::Low);
    lemma_tag("high"@, Tag::High);
    lemma_tag("origin"@, Tag::Origin);
    lemma_tag("point"@, Tag::Point);
    lemma_tag("pos"@, Tag::Pos);
    lemma_tag("offsetvector"@, Tag::OffsetVector);
    lemma_tag("coverage"@, Tag::Coverage);
    lemma_tag("rangeset"@, Tag::RangeSet);
    lemma_tag("datablock"@, Tag::DataBlock);
    lemma_tag("tuplelist"@, Tag::TupleList);
}

/// A name written in lower-case letters without prefix denotes the element
/// that the table gives for it.
proof fn lemma_tag(n: Seq<char>, t: Tag)
    requires
        crate::extract::tag_named(n) == Some(t),
        forall|i: int| 0 <= i < n.len() ==> 'a' <= #[trigger] n[i] && n[i] <= 'z',
    ensures
        tag_of(n) == Some(t),
{
    reveal_strlit("gml:");
    reveal_strlit("swe:");
    assert(crate::text::lower_seq(n) =~= n);
    if n.len() >= 4 {
        assert(n.take(4)[3] == n[3]);
        assert("gml:"@[3] == ':');
        assert("swe:"@[3] == ':');
    }
    assert(!n.contains(':'));
}

proof fn lemma_trim_zero_pair()
    ensures
        trim(seq!['0', ' ', '0']) == seq!['0', ' ', '0'],
{
    let z = seq!['0', ' ', '0'];
    assert(lead_ws(z) == 0);
    assert(z.drop_last().len() == 2);
    assert(z.last() == '0');
    assert(trail_ws(z) == 0);
    assert(z.subrange(0, 3) =~= z);
}

/// Two words joined by a space split back into them.
proof fn lemma_two_words(a: Seq<char>, b: Seq<char>)
    requires
        is_word(a, true),
        is_word(b, true),
    ensures
        words(join_words(seq![a, b])) == seq![a, b],
{
    let v = seq![a, b];
    assert(v.drop_first() =~= seq![b]);
    assert forall|i: int| 0 <= i < v.len() implies is_word(#[trigger] v[i], false) by {
        assert(is_word(v[i], true));
    }
    lemma_fields_join(v, false);
}

/// `-` before an unsigned literal is a literal whose sign strips back off.
proof fn lemma_minus(c: Seq<char>)
    requires
        is_unsigned_literal(c),
    ensures
        is_float_literal(seq!['-'] + c),
        strip_sign(seq!['-'] + c) == c,
{
    assert((seq!['-'] + c).drop_first() =~= c);
}


pub open spec fn seg_open_grid() -> Seq<TokenView> {
    seq![open_tag("dem"@), open_tag("rectifiedgrid"@), open_tag("limits"@), open_tag("gridenvelope"@)]
}

pub open spec fn seg_to_origin() -> Seq<TokenView> {
    seq![close_tag("gridenvelope"@), close_tag("limits"@), open_tag("origin"@), open_tag("point"@)]
}

pub open spec fn seg_close_origin() -> Seq<TokenView> {
    seq![close_tag("point"@), close_tag("origin"@)]
}

pub open spec fn seg_to_data() -> Seq<TokenView> {
    seq![close_tag("rectifiedgrid"@), open_tag("coverage"@), open_tag("rangeset"@), open_tag("datablock"@)]
}

pub open spec fn seg_close_dem() -> Seq<TokenView> {
    seq![close_tag("datablock"@), close_tag("rangeset"@), close_tag("coverage"@), close_tag("dem"@)]
}

pub open spec fn high_text(m: MetadataView) -> Seq<char> {
    join_words(seq![decimal((m.width - 1) as nat), decimal((m.height - 1) as nat)])
}

pub open spec fn cell_x_text(m: MetadataView) -> Seq<char> {
    join_words(seq![m.cell_size_x, seq!['0']])
}

pub open spec fn cell_y_text(m: MetadataView) -> Seq<char> {
    join_words(seq![seq!['0'], seq!['-'] + m.cell_size_y])
}

proof fn lemma_seg_open_grid(s: ScanState)
    requires
        running(s),
        s.collecting is None,
    ensures
        scan_from(s, seg_open_grid()) == (ScanState {
            flags: crate::extract::Flags {
                dem: true,
                rectified_grid: true,
                limits: true,
                grid_envelope: true,
                ..s.flags
            },
            ..s
        }),
{
    lemma_tags();
    lemma_steps(s, seg_open_grid());
}

proof fn lemma_seg_to_origin(s: ScanState)
    requires
        running(s),
        s.collecting is None,
        s.flags.rectified_grid,
    ensures
        scan_from(s, seg_to_origin()) == (ScanState {
            flags: crate::extract::Flags {
                grid_envelope: false,
                limits: false,
                origin: true,
                point: true,
                ..s.flags
            },
            ..s
        }),
{
    lemma_tags();
    lemma_steps(s, seg_to_origin());
}

proof fn lemma_seg_close_origin(s: ScanState)
    requires
        running(s),
        s.collecting is None,
    ensures
        scan_from(s, seg_close_origin()) == (ScanState {
            flags: crate::extract::Flags { point: false, origin: false, ..s.flags },
            ..s
        }),
{
    lemma_tags();
    lemma_steps(s, seg_close_origin());
}

proof fn lemma_seg_to_data(s: ScanState)
    requires
        running(s),
        s.collecting is None,
        s.flags.dem,
    ensures
        scan_from(s, seg_to_data()) == (ScanState {
            flags: crate::extract::Flags {
                rectified_grid: false,
                coverage: true,
                range_set: true,
                data_block: true,
                ..s.flags
            },
            ..s
        }),
{
    lemma_tags();
    lemma_steps(s, seg_to_data());
}

proof fn lemma_seg_close_dem(s: ScanState)
    requires
        running(s),
        s.collecting is None,
    ensures
        scan_from(s, seg_close_dem()) == (ScanState {
            flags: crate::extract::Flags {
                data_block: false,
                range_set: false,
                coverage: false,
                dem: false,
                ..s.flags
            },
            ..s
        }),
{
    lemma_tags();
    lemma_steps(s, seg_close_dem());
}

proof fn lemma_leaf_low(s: ScanState)
    requires
        running(s),
        s.collecting is None,
        s.flags.grid_envelope,
    ensures
        scan_from(s, leaf("low"@, seq!['0', ' ', '0'])) == (ScanState { low_seen: true, ..s }),
{
    lemma_tags();
    lemma_leaf(s, "low"@, Field::Low, seq!['0', ' ', '0']);
    lemma_trim_zero_pair();
}

proof fn lemma_leaf_high(s: ScanState, m: MetadataView)
    requires
        running(s),
        s.collecting is None,
        s.flags.grid_envelope,
        1 <= m.width <= usize::MAX,
        1 <= m.height <= usize::MAX,
    ensures
        scan_from(s, leaf("high"@, high_text(m))) == (ScanState {
            grid_high: Some(((m.width - 1) as nat, (m.height - 1) as nat)),
            ..s
        }),
{
    lemma_tags();
    lemma_leaf(s, "high"@, Field::High, high_text(m));
    lemma_parse_decimal((m.width - 1) as nat, usize::MAX as nat);
    lemma_parse_decimal((m.height - 1) as nat, usize::MAX as nat);
    lemma_two_words(decimal((m.width - 1) as nat), decimal((m.height - 1) as nat));
}

proof fn lemma_leaf_pos(s: ScanState, m: MetadataView)
    requires
        running(s),
        s.collecting is None,
        s.flags.point,
        is_float_literal(m.x_min),
        is_float_literal(m.y_max),
    ensures
        scan_from(s, leaf("pos"@, join_words(seq![m.y_max, m.x_min]))) == (ScanState {
            origin_pos: Some((m.y_max, m.x_min)),
            ..s
        }),
{
    lemma_tags();
    lemma_leaf(s, "pos"@, Field::Pos, join_words(seq![m.y_max, m.x_min]));
    lemma_literal_is_word(m.y_max);
    lemma_literal_is_word(m.x_min);
    lemma_two_words(m.y_max, m.x_min);
}

proof fn lemma_leaf_offset(s: ScanState, text: Seq<char>)
    requires
        running(s),
        s.collecting is None,
        s.flags.rectified_grid,
    ensures
        scan_from(s, leaf("offsetvector"@, text)) == (ScanState {
            offset_vectors: s.offset_vectors.push(text),
            ..s
        }),
{
    lemma_tags();
    lemma_leaf(s, "offsetvector"@, Field::OffsetVector, text);
}

proof fn lemma_leaf_tuples(s: ScanState, text: Seq<char>)
    requires
        running(s),
        s.collecting is None,
        s.flags.data_block,
    ensures
        scan_from(s, leaf("tuplelist"@, text)) == (ScanState { tuple_list: Some(text), ..s }),
{
    lemma_tags();
    lemma_leaf(s, "tuplelist"@, Field::TupleList, text);
}

/// The cell sizes written as offset vectors read back as themselves.
proof fn lemma_cell_texts(m: MetadataView)
    requires
        is_unsigned_literal(m.cell_size_x),
        is_unsigned_literal(m.cell_size_y),
    ensures
        words(cell_x_text(m)) == seq![m.cell_size_x, seq!['0']],
        words(cell_y_text(m)) == seq![seq!['0'], seq!['-'] + m.cell_size_y],
        is_float_literal(seq!['-'] + m.cell_size_y),
        strip_sign(seq!['-'] + m.cell_size_y) == m.cell_size_y,
        strip_sign(m.cell_size_x) == m.cell_size_x,
{
    assert(is_word(seq!['0'], true)) by {
        assert(!crate::text::is_sep('0', true));
    }
    lemma_literal_is_word(m.cell_size_x);
    lemma_literal_is_word(m.cell_size_y);
    lemma_minus(m.cell_size_y);
    let t = seq!['-'] + m.cell_size_y;
    assert(is_word(t, true)) by {
        assert forall|j: int| 0 <= j < t.len() implies !crate::text::is_sep(#[trigger] t[j], true) by {
            if j > 0 {
                assert(t[j] == m.cell_size_y[j - 1]);
            }
        }
    }
    lemma_two_words(m.cell_size_x, seq!['0']);
    lemma_two_words(seq!['0'], t);
}

/// The samples written as a tuple list read back as themselves.
proof fn lemma_tuple_text(vals: Seq<Seq<char>>)
    requires
        forall|i: int| 0 <= i < vals.len() ==> is_float_literal(#[trigger] vals[i]),
    ensures
        decode_spec(join_words(vals)) == Ok::<Seq<Seq<char>>, ErrorView>(vals),
{
    assert forall|i: int| 0 <= i < vals.len() implies is_word(#[trigger] vals[i], true) by {
        lemma_literal_is_word(vals[i]);
    }
    lemma_fields_join(vals, true);
    assert(all_numbers(vals));
}

/// The extractor after the whole document: every value in place, and ended.
proof fn lemma_scan_document(m: MetadataView, vals: Seq<Seq<char>>)
    requires
        1 <= m.width <= usize::MAX,
        1 <= m.height <= usize::MAX,
        is_float_literal(m.x_min),
        is_float_literal(m.y_max),
    ensures
        scan(grid_document(m, vals)).status is Done,
        scan(grid_document(m, vals)).low_seen,
        scan(grid_document(m, vals)).grid_high == Some(((m.width - 1) as nat, (m.height - 1) as nat)),
        scan(grid_document(m, vals)).origin_pos == Some((m.y_max, m.x_min)),
        scan(grid_document(m, vals)).offset_vectors == seq![cell_x_text(m), cell_y_text(m)],
        scan(grid_document(m, vals)).tuple_list == Some(join_words(vals)),
{
    let p1 = seg_open_grid();
    let p2 = p1 + leaf("low"@, seq!['0', ' ', '0']);
    let p3 = p2 + leaf("high"@, high_text(m));
    let p4 = p3 + seg_to_origin();
    let p5 = p4 + leaf("pos"@, join_words(seq![m.y_max, m.x_min]));
    let p6 = p5 + seg_close_origin();
    let p7 = p6 + leaf("offsetvector"@, cell_x_text(m));
    let p8 = p7 + leaf("offsetvector"@, cell_y_text(m));
    let p9 = p8 + seg_to_data();
    let p10 = p9 + leaf("tuplelist"@, join_words(vals));
    let p11 = p10 + seg_close_dem();
    let doc = p11 + seq![TokenView::Eof];
    assert(doc == grid_document(m, vals));
    let s0 = initial_scan();
    lemma_scan_is_scan_from(doc);
    lemma_scan_from_append(s0, p11, seq![TokenView::Eof]);
    lemma_scan_from_append(s0, p10, seg_close_dem());
    lemma_scan_from_append(s0, p9, leaf("tuplelist"@, join_words(vals)));
    lemma_scan_from_append(s0, p8, seg_to_data());
    lemma_scan_from_append(s0, p7, leaf("offsetvector"@, cell_y_text(m)));
    lemma_scan_from_append(s0, p6, leaf("offsetvector"@, cell_x_text(m)));
    lemma_scan_from_append(s0, p5, seg_close_origin());
    lemma_scan_from_append(s0, p4, leaf("pos"@, join_words(seq![m.y_max, m.x_min])));
    lemma_scan_from_append(s0, p3, seg_to_origin());
    lemma_scan_from_append(s0, p2, leaf("high"@, high_text(m)));
    lemma_scan_from_append(s0, p1, leaf("low"@, seq!['0', ' ', '0']));
    lemma_seg_open_grid(s0);
    let s1 = scan_from(s0, p1);
    lemma_leaf_low(s1);
    let s2 = scan_from(s0, p2);
    lemma_leaf_high(s2, m);
    let s3 = scan_from(s0, p3);
    lemma_seg_to_origin(s3);
    let s4 = scan_from(s0, p4);
    lemma_leaf_pos(s4, m);
    let s5 = scan_from(s0, p5);
    lemma_seg_close_origin(s5);
    let s6 = scan_from(s0, p6);
    lemma_leaf_offset(s6, cell_x_text(m));
    let s7 = scan_from(s0, p7);
    lemma_leaf_offset(s7, cell_y_text(m));
    let s8 = scan_from(s0, p8);
    lemma_seg_to_data(s8);
    let s9 = scan_from(s0, p9);
    lemma_leaf_tuples(s9, join_words(vals));
    let s10 = scan_from(s0, p10);
    lemma_seg_close_dem(s10);
    let s11 = scan_from(s0, p11);
    lemma_steps(s11, seq![TokenView::Eof]);
    assert(s8.offset_vectors =~= seq![cell_x_text(m), cell_y_text(m)]);
}

/// Writing a grid's geometry and samples as a DEM document and reading it back
/// gives the same width, height, origin, cell sizes and samples.
pub proof fn lemma_round_trip(m: MetadataView, vals: Seq<Seq<char>>)
    requires
        1 <= m.width <= usize::MAX,
        1 <= m.height <= usize::MAX,
        is_float_literal(m.x_min),
        is_float_literal(m.y_max),
        is_unsigned_literal(m.cell_size_x),
        is_unsigned_literal(m.cell_size_y),
        forall|i: int| 0 <= i < vals.len() ==> is_float_literal(#[trigger] vals[i]),
        vals.len() == m.width * m.height,
    ensures
        parse_spec(grid_document(m, vals)) matches Ok(d) && d.metadata.width == m.width
            && d.metadata.height == m.height && d.metadata.x_min == m.x_min && d.metadata.y_max
            == m.y_max && d.metadata.cell_size_x == m.cell_size_x && d.metadata.cell_size_y
            == m.cell_size_y && d.elevation_values == vals,
{
    lemma_scan_document(m, vals);
    lemma_cell_texts(m);
    lemma_tuple_text(vals);
    let s = scan(grid_document(m, vals));
    assert(close(s) == s);
    assert(s.offset_vectors[0] == cell_x_text(m));
    assert(s.offset_vectors[1] == cell_y_text(m));
}

} // verus!
