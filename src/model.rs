//! The grid record that a parse produces, and the errors it can end with.
use crate::number::Number;
use crate::text::{chars_of, decimal, decimal_chars, extend_chars, string_of};
use vstd::prelude::*;

verus! {

/// Georeferencing of a rectified grid.
#[derive(Clone, Debug)]
pub struct DemMetadata {
    /// Number of columns.
    pub width: usize,
    /// Number of rows.
    pub height: usize,
    /// X (longitude or easting) of the outer edge of the westernmost column.
    pub x_min: Number,
    /// Y (latitude or northing) of the outer edge of the northernmost row.
    pub y_max: Number,
    /// Cell size along X, without sign.
    pub cell_size_x: Number,
    /// Cell size along Y, without sign.
    pub cell_size_y: Number,
    /// Sample value that marks a void cell, when the document gives one.
    pub no_data_value: Option<Number>,
    /// Coordinate reference system, as `EPSG:<code>`.
    pub crs: Option<String>,
    /// Identifier of the tile.
    pub mesh_code: Option<String>,
}

/// A grid with its samples, row 0 first, each row from west to east.
#[derive(Clone, Debug)]
pub struct DemData {
    pub metadata: DemMetadata,
    pub elevation_values: Vec<Number>,
}

pub struct MetadataView {
    pub width: nat,
    pub height: nat,
    pub x_min: Seq<char>,
    pub y_max: Seq<char>,
    pub cell_size_x: Seq<char>,
    pub cell_size_y: Seq<char>,
    pub no_data_value: Option<Seq<char>>,
    pub crs: Option<Seq<char>>,
    pub mesh_code: Option<Seq<char>>,
}

pub struct DemDataView {
    pub metadata: MetadataView,
    pub elevation_values: Seq<Seq<char>>,
}

pub open spec fn opt_number_view(n: Option<Number>) -> Option<Seq<char>> {
    match n {
        Some(v) => Some(v@),
        None => None,
    }
}

pub open spec fn opt_string_view(s: Option<String>) -> Option<Seq<char>> {
    match s {
        Some(v) => Some(v@),
        None => None,
    }
}

pub open spec fn numbers_view(v: Seq<Number>) -> Seq<Seq<char>> {
    v.map_values(|n: Number| n@)
}

impl View for DemMetadata {
    type V = MetadataView;

    open spec fn view(&self) -> MetadataView {
        MetadataView {
            width: self.width as nat,
            height: self.height as nat,
            x_min: self.x_min@,
            y_max: self.y_max@,
            cell_size_x: self.cell_size_x@,
            cell_size_y: self.cell_size_y@,
            no_data_value: opt_number_view(self.no_data_value),
            crs: opt_string_view(self.crs),
            mesh_code: opt_string_view(self.mesh_code),
        }
    }
}

impl View for DemData {
    type V = DemDataView;

    open spec fn view(&self) -> DemDataView {
        DemDataView {
            metadata: self.metadata@,
            elevation_values: numbers_view(self.elevation_values@),
        }
    }
}

/// Why a document could not be read into a grid.
#[derive(Clone, Debug)]
pub enum DemError {
    /// The XML reader failed outside the text of a recognised element.
    XmlRead { message: String },
    /// The document ended inside a recognised element.
    UnexpectedEof { tag: String },
    /// The XML reader failed inside a recognised element.
    TextRead { tag: String, message: String },
    /// The attributes of the spatial-reference element are malformed.
    Attribute { message: String },
    /// The grid's low bound is not `0 0`.
    InvalidGridLow { found: String },
    /// The grid's high bound is missing or is not two integers.
    MissingGridDimensions,
    /// The origin position is missing or is not two numbers.
    MissingOrigin,
    /// Fewer than two offset vectors.
    TooFewOffsetVectors,
    /// The first offset vector has no numeric first component.
    MissingCellSizeX,
    /// The second offset vector has no numeric second component.
    MissingCellSizeY,
    /// No low bound was given.
    MissingGridLow,
    /// No tuple list was given.
    MissingTupleList,
    /// A token of the tuple list is not a number.
    InvalidElevationValue { token: String },
    /// The tuple list does not hold width x height samples.
    ElevationCountMismatch { width: usize, height: usize, found: usize },
}

pub enum ErrorView {
    XmlRead { message: Seq<char> },
    UnexpectedEof { tag: Seq<char> },
    TextRead { tag: Seq<char>, message: Seq<char> },
    Attribute { message: Seq<char> },
    InvalidGridLow { found: Seq<char> },
    MissingGridDimensions,
    MissingOrigin,
    TooFewOffsetVectors,
    MissingCellSizeX,
    MissingCellSizeY,
    MissingGridLow,
    MissingTupleList,
    InvalidElevationValue { token: Seq<char> },
    ElevationCountMismatch { width: nat, height: nat, found: nat },
}

impl View for DemError {
    type V = ErrorView;

    open spec fn view(&self) -> ErrorView {
        match self {
            DemError::XmlRead { message } => ErrorView::XmlRead { message: message@ },
            DemError::UnexpectedEof { tag } => ErrorView::UnexpectedEof { tag: tag@ },
            DemError::TextRead { tag, message } => ErrorView::TextRead {
                tag: tag@,
                message: message@,
            },
            DemError::Attribute { message } => ErrorView::Attribute { message: message@ },
            DemError::InvalidGridLow { found } => ErrorView::InvalidGridLow { found: found@ },
            DemError::MissingGridDimensions => ErrorView::MissingGridDimensions,
            DemError::MissingOrigin => ErrorView::MissingOrigin,
            DemError::TooFewOffsetVectors => ErrorView::TooFewOffsetVectors,
            DemError::MissingCellSizeX => ErrorView::MissingCellSizeX,
            DemError::MissingCellSizeY => ErrorView::MissingCellSizeY,
            DemError::MissingGridLow => ErrorView::MissingGridLow,
            DemError::MissingTupleList => ErrorView::MissingTupleList,
            DemError::InvalidElevationValue { token } => ErrorView::InvalidElevationValue {
                token: token@,
            },
            DemError::ElevationCountMismatch { width, height, found } =>
                ErrorView::ElevationCountMismatch {
                width: *width as nat,
                height: *height as nat,
                found: *found as nat,
            },
        }
    }
}

pub open spec fn result_view(r: Result<DemData, DemError>) -> Result<DemDataView, ErrorView> {
    match r {
        Ok(d) => Ok(d@),
        Err(e) => Err(e@),
    }
}

/// The human-readable text of an error.
pub open spec fn error_message(e: ErrorView) -> Seq<char> {
    match e {
        ErrorView::XmlRead { message } => "XML Read Error: "@ + message,
        ErrorView::UnexpectedEof { tag } =>
            "XML Parse Error: Unexpected EOF while reading text content for tag <"@ + tag + ">."@,
        ErrorView::TextRead { tag, message } =>
            "XML Read Error: Error reading text content for tag <"@ + tag + ">: "@ + message,
        ErrorView::Attribute { message } => "XML Attribute Error: "@ + message,
        ErrorView::InvalidGridLow { found } =>
            "XML Structure Error: <gml:low> must be '0 0', found '"@ + found + "'"@,
        ErrorView::MissingGridDimensions =>
            "XML Parse Error: Grid dimensions (<gml:high> within <gml:GridEnvelope>) are missing or invalid."@,
        ErrorView::MissingOrigin =>
            "XML Parse Error: Origin position (<gml:pos> within <gml:origin>/<gml:Point>) is missing or invalid."@,
        ErrorView::TooFewOffsetVectors =>
            "XML Structure Error: Expected at least two <gml:offsetVector> elements for cell size."@,
        ErrorView::MissingCellSizeX =>
            "XML Parse Error: First <gml:offsetVector> is missing the first value for cell_size_x."@,
        ErrorView::MissingCellSizeY =>
            "XML Parse Error: Second <gml:offsetVector> is missing the second value for cell_size_y."@,
        ErrorView::MissingGridLow => "XML Structure Error: <gml:low> element is missing."@,
        ErrorView::MissingTupleList =>
            "XML Parse Error: Elevation data string (<gml:tupleList>) is missing."@,
        ErrorView::InvalidElevationValue { token } =>
            "XML Parse Error: Failed to parse elevation value '"@ + token
                + "': invalid float literal"@,
        ErrorView::ElevationCountMismatch { width, height, found } =>
            "Data Integrity Error: Mismatch between expected number of elevation values ("@
                + decimal(width * height) + ", from width "@ + decimal(width) + " x height "@
                + decimal(height) + ") and parsed values ("@ + decimal(found) + ")."@,
    }
}

fn join2(a: &str, b: &Vec<char>) -> (r: Vec<char>)
    ensures
        r@ == a@ + b@,
{
    let mut m = chars_of(a);
    extend_chars(&mut m, b);
    m
}

fn join3(a: &str, b: &Vec<char>, c: &str) -> (r: Vec<char>)
    ensures
        r@ == a@ + b@ + c@,
{
    let mut m = join2(a, b);
    extend_chars(&mut m, &chars_of(c));
    m
}

impl DemError {
    /// The human-readable text of this error.
    pub fn message(&self) -> (r: String)
        ensures
            r@ == error_message(self@),
    {
        let m: Vec<char> = match self {
            DemError::XmlRead { message } => join2(
                "XML Read Error: ",
                &chars_of(message.as_str()),
            ),
            DemError::UnexpectedEof { tag } => join3(
                "XML Parse Error: Unexpected EOF while reading text content for tag <",
                &chars_of(tag.as_str()),
                ">.",
            ),
            DemError::TextRead { tag, message } => {
                let mut m = join3(
                    "XML Read Error: Error reading text content for tag <",
                    &chars_of(tag.as_str()),
                    ">: ",
                );
                extend_chars(&mut m, &chars_of(message.as_str()));
                m
            },
            DemError::Attribute { message } => join2(
                "XML Attribute Error: ",
                &chars_of(message.as_str()),
            ),
            DemError::InvalidGridLow { found } => join3(
                "XML Structure Error: <gml:low> must be '0 0', found '",
                &chars_of(found.as_str()),
                "'",
            ),
            DemError::MissingGridDimensions => chars_of(
                "XML Parse Error: Grid dimensions (<gml:high> within <gml:GridEnvelope>) are missing or invalid.",
            ),
            DemError::MissingOrigin => chars_of(
                "XML Parse Error: Origin position (<gml:pos> within <gml:origin>/<gml:Point>) is missing or invalid.",
            ),
            DemError::TooFewOffsetVectors => chars_of(
                "XML Structure Error: Expected at least two <gml:offsetVector> elements for cell size.",
            ),
            DemError::MissingCellSizeX => chars_of(
                "XML Parse Error: First <gml:offsetVector> is missing the first value for cell_size_x.",
            ),
            DemError::MissingCellSizeY => chars_of(
                "XML Parse Error: Second <gml:offsetVector> is missing the second value for cell_size_y.",
            ),
            DemError::MissingGridLow => chars_of(
                "XML Structure Error: <gml:low> element is missing.",
            ),
            DemError::MissingTupleList => chars_of(
                "XML Parse Error: Elevation data string (<gml:tupleList>) is missing.",
            ),
            DemError::InvalidElevationValue { token } => join3(
                "XML Parse Error: Failed to parse elevation value '",
                &chars_of(token.as_str()),
                "': invalid float literal",
            ),
            DemError::ElevationCountMismatch { width, height, found } => {
                let w = *width as u128;
                let h = *height as u128;
                assert(w * h <= u64::MAX as u128 * u64::MAX as u128) by (nonlinear_arith)
                    requires
                        w <= u64::MAX,
                        h <= u64::MAX,
                ;
                let mut m = join3(
                    "Data Integrity Error: Mismatch between expected number of elevation values (",
                    &decimal_chars(w * h),
                    ", from width ",
                );
                extend_chars(&mut m, &join3("", &decimal_chars(w), " x height "));
                extend_chars(&mut m, &join3("", &decimal_chars(h), ") and parsed values ("));
                extend_chars(&mut m, &join3("", &decimal_chars(*found as u128), ")."));
                proof {
                    reveal_strlit("");
                    assert(""@ =~= Seq::<char>::empty());
                }
                m
            },
        };
        proof {
            assert(m@ =~= error_message(self@));
        }
        string_of(&m)
    }
}

} // verus!
