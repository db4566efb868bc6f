//! What a GeoTIFF writer is to put in the file for a grid: the raster size,
//! the affine grid-to-world transform, the coordinate-system keys and the
//! no-data marker. Writing the bytes is left to the caller.
use crate::model::{DemData, DemMetadata};
use crate::number::Number;
use crate::text::{
    chars_of, lower_char, lower_seq, parse_unsigned, parse_unsigned_chars, slice_chars, string_of,
};
use vstd::prelude::*;

verus! {

/// Marker for 8-bit colour channels of an encoded raster.
#[derive(Debug, Clone, Copy)]
pub struct RgbDepth;

/// How the coordinate reference system is recorded.
#[derive(Debug, Clone)]
pub enum CrsKey {
    /// `GeographicTypeGeoKey`, with a geographic model.
    Geographic(u16),
    /// `ProjectedCSTypeGeoKey`, with a projected model.
    Projected(u16),
    /// `GTCitationGeoKey`, holding the text as it was given.
    Citation(String),
    /// No coordinate reference system.
    Absent,
}

pub enum CrsKeyView {
    Geographic(nat),
    Projected(nat),
    Citation(Seq<char>),
    Absent,
}

impl View for CrsKey {
    type V = CrsKeyView;

    open spec fn view(&self) -> CrsKeyView {
        match self {
            CrsKey::Geographic(c) => CrsKeyView::Geographic(*c as nat),
            CrsKey::Projected(c) => CrsKeyView::Projected(*c as nat),
            CrsKey::Citation(s) => CrsKeyView::Citation(s@),
            CrsKey::Absent => CrsKeyView::Absent,
        }
    }
}

/// An `EPSG:<code>` string (the prefix in any letter case) with a 16-bit code
/// is geographic when the code lies in 4000..4999 and projected otherwise;
/// any other text is kept as a citation.
pub open spec fn crs_key(crs: Option<Seq<char>>) -> CrsKeyView {
    match crs {
        None => CrsKeyView::Absent,
        Some(s) => if s.len() >= 5 && lower_seq(s.take(5)) == "epsg:"@ {
            match parse_unsigned(s.skip(5), 65535) {
                Some(c) => if 4000 <= c && c < 5000 {
                    CrsKeyView::Geographic(c)
                } else {
                    CrsKeyView::Projected(c)
                },
                None => CrsKeyView::Citation(s),
            }
        } else {
            CrsKeyView::Citation(s)
        },
    }
}

/// Classifies a coordinate reference system (see `crs_key`).
pub fn classify_crs(crs: &Option<String>) -> (r: CrsKey)
    ensures
        r@ == crs_key(
            match crs {
                Some(s) => Some(s@),
                None => None,
            },
        ),
{
    let s = match crs {
        None => return CrsKey::Absent,
        Some(s) => s,
    };
    let v = chars_of(s.as_str());
    if v.len() >= 5 {
        let mut low: Vec<char> = Vec::new();
        let mut i: usize = 0;
        while i < 5
            invariant
                i <= 5 <= v.len(),
                low@ == lower_seq(v@.take(i as int)),
            decreases 5 - i,
        {
            low.push(lower_char(v[i]));
            assert(lower_seq(v@.take(i + 1)) =~= lower_seq(v@.take(i as int)).push(
                crate::text::ascii_lower(v@[i as int]),
            ));
            i = i + 1;
        }
        if crate::text::chars_equal(&low, &chars_of("epsg:")) {
            let rest = slice_chars(&v, 5, v.len());
            assert(rest@ =~= v@.skip(5));
            match parse_unsigned_chars(&rest, 65535) {
                Some(c) => {
                    let c = c as u16;
                    if 4000 <= c && c < 5000 {
                        return CrsKey::Geographic(c);
                    } else {
                        return CrsKey::Projected(c);
                    }
                },
                None => {},
            }
        }
    }
    CrsKey::Citation(string_of(&v))
}

/// The GeoTIFF layout of a grid.
#[derive(Debug)]
pub struct GeoTiffLayout {
    /// Raster columns.
    pub width: usize,
    /// Raster rows.
    pub height: usize,
    /// The six coefficients of the grid-to-world transform: X origin, X cell
    /// size, row rotation, Y origin, column rotation, Y cell size (negative, so
    /// that row 0 is the top row).
    pub geo_transform: Vec<Number>,
    /// Coordinate reference system keys.
    pub crs: CrsKey,
    /// No-data marker, present only when the grid has one.
    pub no_data: Option<Number>,
}

/// `-` followed by `s`, without the sign `s` had.
pub open spec fn negated(s: Seq<char>) -> Seq<char> {
    seq!['-'] + crate::number::strip_sign(s)
}

/// The six coefficients of the grid-to-world transform of `m`.
pub open spec fn transform_of(m: crate::model::MetadataView) -> Seq<Seq<char>> {
    seq![m.x_min, m.cell_size_x, seq!['0'], m.y_max, seq!['0'], negated(m.cell_size_y)]
}

/// Writes GeoTIFF layouts of grids.
#[derive(Debug, Default)]
pub struct GeoTiffWriter {}

impl GeoTiffWriter {
    pub fn new() -> (r: Self) {
        GeoTiffWriter {  }
    }

    /// The layout of `dem` in a single-band GeoTIFF: size, transform, CRS keys
    /// and the no-data marker when there is one.
    pub fn write(&self, dem: &DemData) -> (r: GeoTiffLayout)
        requires
            crate::number::is_float_literal(dem.metadata.cell_size_y@),
        ensures
            r.width == dem.metadata.width,
            r.height == dem.metadata.height,
            r.geo_transform@.map_values(|n: Number| n@) == transform_of(dem.metadata@),
            r.crs@ == crs_key(dem.metadata@.crs),
            match r.no_data {
                Some(n) => dem.metadata.no_data_value matches Some(d) && n@ == d@,
                None => dem.metadata.no_data_value is None,
            },
    {
        let m: &DemMetadata = &dem.metadata;
        let zero = zero_number();
        let mut t: Vec<Number> = Vec::new();
        t.push(m.x_min.duplicate());
        t.push(m.cell_size_x.duplicate());
        t.push(zero.duplicate());
        t.push(m.y_max.duplicate());
        t.push(zero);
        t.push(negate(&m.cell_size_y));
        assert(t@.map_values(|n: Number| n@) =~= transform_of(dem.metadata@));
        let no_data = match &m.no_data_value {
            Some(n) => Some(n.duplicate()),
            None => None,
        };
        let crs = classify_crs(&m.crs);
        GeoTiffLayout { width: m.width, height: m.height, geo_transform: t, crs, no_data }
    }
}

fn zero_number() -> (r: Number)
    ensures
        r@ == seq!['0'],
{
    let mut v: Vec<char> = Vec::new();
    v.push('0');
    proof {
        assert(v@ =~= seq!['0']);
        assert(crate::number::is_mantissa(v@)) by {
            assert(crate::number::count_char(v@, '.') == 0) by {
                assert(v@.drop_last() =~= Seq::<char>::empty());
                assert(crate::number::count_char(v@.drop_last(), '.') == 0);
                assert(v@.last() == '0');
            }
            assert(crate::text::is_digit(v@[0]));
        }
    }
    Number::from_chars(&v).unwrap()
}

fn negate(n: &Number) -> (r: Number)
    requires
        crate::number::is_float_literal(n@),
    ensures
        r@ == negated(n@),
{
    let a = n.abs();
    let mut v: Vec<char> = Vec::new();
    v.push('-');
    let rest = a.chars();
    crate::text::extend_chars(&mut v, &rest);
    proof {
        crate::number::lemma_strip_sign_literal(n@);
        assert(v@ =~= negated(n@));
        assert(crate::number::strip_sign(v@) =~= crate::number::strip_sign(n@));
    }
    Number::from_chars(&v).unwrap()
}

} // verus!
