//! Geometry and validation: turns what the extractor collected into a grid
//! record, or into the error of the first required field that is missing.
use crate::extract::{scan, scan_step, running, ScanState, StatusView};
use crate::model::{numbers_view, DemDataView, DemError, ErrorView, MetadataView};
use crate::number::{is_float_literal, strip_sign, Number};
use crate::text::{decimal, fields, split_fields, string_of, words};
use crate::token::TokenView;
use vstd::prelude::*;

verus! {

/// `EPSG:<code>`.
pub open spec fn crs_name(code: nat) -> Seq<char> {
    "EPSG:"@ + decimal(code)
}

/// The grid's metadata, or the error for the first required field that is
/// missing: grid bounds, origin, offset vectors, the two cell sizes, then the
/// low bound. Width and height are one more than the inclusive high bound;
/// the origin reads Y then X; the X cell size is the first component of the
/// first offset vector and the Y cell size the second component of the
/// second, both without sign.
pub open spec fn metadata_of(s: ScanState) -> Result<MetadataView, ErrorView> {
    match s.grid_high {
        None => Err(ErrorView::MissingGridDimensions),
        Some((c, r)) => if c + 1 > usize::MAX || r + 1 > usize::MAX {
            Err(ErrorView::MissingGridDimensions)
        } else {
            match s.origin_pos {
                None => Err(ErrorView::MissingOrigin),
                Some((y, x)) => if s.offset_vectors.len() < 2 {
                    Err(ErrorView::TooFewOffsetVectors)
                } else {
                    let v0 = words(s.offset_vectors[0]);
                    let v1 = words(s.offset_vectors[1]);
                    if v0.len() < 1 || !is_float_literal(v0[0]) {
                        Err(ErrorView::MissingCellSizeX)
                    } else if v1.len() < 2 || !is_float_literal(v1[1]) {
                        Err(ErrorView::MissingCellSizeY)
                    } else if !s.low_seen {
                        Err(ErrorView::MissingGridLow)
                    } else {
                        Ok(
                            MetadataView {
                                width: c + 1,
                                height: r + 1,
                                x_min: x,
                                y_max: y,
                                cell_size_x: strip_sign(v0[0]),
                                cell_size_y: strip_sign(v1[1]),
                                no_data_value: s.no_data_value,
                                crs: match s.crs_code {
                                    Some(code) => Some(crs_name(code)),
                                    None => None,
                                },
                                mesh_code: s.mesh_code,
                            },
                        )
                    }
                },
            }
        },
    }
}

pub open spec fn all_numbers(toks: Seq<Seq<char>>) -> bool {
    forall|i: int| 0 <= i < toks.len() ==> is_float_literal(#[trigger] toks[i])
}

/// Index of the first token that is not a number.
pub open spec fn first_bad(toks: Seq<Seq<char>>) -> int {
    choose|i: int|
        0 <= i < toks.len() && !is_float_literal(#[trigger] toks[i]) && forall|j: int|
            0 <= j < i ==> is_float_literal(#[trigger] toks[j])
}

/// The samples of a tuple list: its tokens, with commas counted as spaces,
/// or the error naming the first token that is not a number.
pub open spec fn decode_spec(text: Seq<char>) -> Result<Seq<Seq<char>>, ErrorView> {
    let toks = fields(text, true);
    if all_numbers(toks) {
        Ok(toks)
    } else {
        Err(ErrorView::InvalidElevationValue { token: toks[first_bad(toks)] })
    }
}

/// The grid that a finished scan describes.
pub open spec fn build(s: ScanState) -> Result<DemDataView, ErrorView> {
    match metadata_of(s) {
        Err(e) => Err(e),
        Ok(m) => match s.tuple_list {
            None => Err(ErrorView::MissingTupleList),
            Some(t) => match decode_spec(t) {
                Err(e) => Err(e),
                Ok(v) => if v.len() == m.width * m.height {
                    Ok(DemDataView { metadata: m, elevation_values: v })
                } else {
                    Err(
                        ErrorView::ElevationCountMismatch {
                            width: m.width,
                            height: m.height,
                            found: v.len(),
                        },
                    )
                },
            },
        },
    }
}

/// The scan once the document has ended: a scan still running sees the end.
pub open spec fn close(s: ScanState) -> ScanState {
    if running(s) {
        scan_step(s, TokenView::Eof)
    } else {
        s
    }
}

/// The outcome of a scan: its error, or the grid it describes.
pub open spec fn scan_result(s: ScanState) -> Result<DemDataView, ErrorView> {
    match close(s).status {
        StatusView::Failed(e) => Err(e),
        _ => build(close(s)),
    }
}

/// The outcome of reading the events `ts`.
pub open spec fn parse_spec(ts: Seq<TokenView>) -> Result<DemDataView, ErrorView> {
    scan_result(scan(ts))
}

pub open spec fn decode_view(r: Result<Vec<Number>, DemError>) -> Result<
    Seq<Seq<char>>,
    ErrorView,
> {
    match r {
        Ok(v) => Ok(numbers_view(v@)),
        Err(e) => Err(e@),
    }
}

/// Decodes a tuple list into its samples, in order.
pub fn decode_elevations(text: &Vec<char>) -> (r: Result<Vec<Number>, DemError>)
    ensures
        decode_view(r) == decode_spec(text@),
{
    let toks = split_fields(text, true);
    let ghost tv = fields(text@, true);
    let mut out: Vec<Number> = Vec::new();
    let mut i: usize = 0;
    while i < toks.len()
        invariant
            i <= toks.len() == tv.len(),
            tv == fields(text@, true),
            forall|k: int| 0 <= k < toks@.len() ==> #[trigger] toks@[k]@ == tv[k],
            out@.len() == i,
            forall|k: int| 0 <= k < i ==> #[trigger] out@[k]@ == tv[k],
            forall|k: int| 0 <= k < i ==> is_float_literal(#[trigger] tv[k]),
        decreases toks.len() - i,
    {
        match Number::from_chars(&toks[i]) {
            Some(n) => out.push(n),
            None => {
                proof {
                    assert(toks@[i as int]@ == tv[i as int]);
                    assert(!all_numbers(tv));
                    let k = first_bad(tv);
                    assert(0 <= k < tv.len() && !is_float_literal(tv[k]) && forall|j: int|
                        0 <= j < k ==> is_float_literal(#[trigger] tv[j])) by {
                        assert(0 <= i < tv.len() && !is_float_literal(tv[i as int]) && forall|
                            j: int,
                        | 0 <= j < i ==> is_float_literal(#[trigger] tv[j]));
                    }
                    if k < i {
                        assert(is_float_literal(tv[k]));
                    }
                    if k > i {
                        assert(is_float_literal(tv[i as int]));
                    }
                }
                return Err(DemError::InvalidElevationValue { token: string_of(&toks[i]) });
            },
        }
        i = i + 1;
    }
    assert(numbers_view(out@) =~= tv);
    Ok(out)
}

} // verus!
