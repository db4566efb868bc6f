use dem_converter::model::DemError;
use dem_converter::number::Number;
use dem_converter::xml_parser::parse_dem_xml;

fn f64_of(n: &Number) -> f64 {
    n.text().parse::<f64>().unwrap()
}

fn f32_of(n: &Number) -> f32 {
    n.text().parse::<f32>().unwrap()
}

fn message(r: Result<dem_converter::model::DemData, DemError>) -> String {
    r.err().unwrap().message()
}

// Width=3, Height=2 based on gml:high 2 1
#[allow(clippy::too_many_arguments)]
fn build_test_xml(
    crs_system_attr: &str,
    gml_high_content: &str,
    gml_pos_content: &str,
    offset_vector1_content: &str,
    offset_vector2_content: &str,
    tuple_list_content: &str,
    mesh_content: Option<&str>,
    omit_dem_tag: bool,
    omit_spatial_ref_info: bool,
    omit_rectified_grid: bool,
    omit_limits: bool,
    omit_grid_envelope: bool,
    omit_gml_low: bool,
    omit_gml_high: bool,
    omit_origin: bool,
    omit_origin_point: bool,
    omit_pos: bool,
    omit_offset_vector1: bool,
    omit_offset_vector2: bool,
    omit_coverage: bool,
    omit_range_set: bool,
    omit_data_block: bool,
    omit_tuple_list: bool,
) -> String {
    let mesh_tag = mesh_content.map_or("".to_string(), |m| format!("<mesh>{}</mesh>", m));
    let gml_low = if omit_gml_low { "".to_string() } else { "<gml:low>0 0</gml:low>".to_string() };
    let gml_high = if omit_gml_high {
        "".to_string()
    } else {
        format!("<gml:high>{}</gml:high>", gml_high_content)
    };
    let grid_envelope = if omit_grid_envelope {
        "".to_string()
    } else {
        format!("<gml:GridEnvelope>{}{}</gml:GridEnvelope>", gml_low, gml_high)
    };
    let limits = if omit_limits {
        "".to_string()
    } else {
        format!("<gml:limits>{}</gml:limits>", grid_envelope)
    };
    let pos = if omit_pos { "".to_string() } else { format!("<gml:pos>{}</gml:pos>", gml_pos_content) };
    let point = if omit_origin_point {
        "".to_string()
    } else {
        format!(r#"<gml:Point gml:id="TestOrigin">{}</gml:Point>"#, pos)
    };
    let origin = if omit_origin { "".to_string() } else { format!("<gml:origin>{}</gml:origin>", point) };
    let ov1 = if omit_offset_vector1 {
        "".to_string()
    } else {
        format!("<gml:offsetVector>{}</gml:offsetVector>", offset_vector1_content)
    };
    let ov2 = if omit_offset_vector2 {
        "".to_string()
    } else {
        format!("<gml:offsetVector>{}</gml:offsetVector>", offset_vector2_content)
    };
    let rectified_grid = if omit_rectified_grid {
        "".to_string()
    } else {
        format!(
            r#"
                <gml:RectifiedGrid gml:id="TestGrid" dimension="2">
                    {}
                    {}
                    {}
                    {}
                </gml:RectifiedGrid>
                "#,
            limits, origin, ov1, ov2
        )
    };
    let spatial_ref_info = if omit_spatial_ref_info {
        "".to_string()
    } else {
        format!(
            r#"<spatialReferenceInfo><SpatialReference system="{}"/></spatialReferenceInfo>"#,
            crs_system_attr
        )
    };
    let tuple_list = if omit_tuple_list {
        "".to_string()
    } else {
        format!("<gml:tupleList>{}</gml:tupleList>", tuple_list_content)
    };
    let data_block = if omit_data_block {
        "".to_string()
    } else {
        format!("<gml:DataBlock>{}</gml:DataBlock>", tuple_list)
    };
    let range_set = if omit_range_set {
        "".to_string()
    } else {
        format!("<gml:rangeSet>{}</gml:rangeSet>", data_block)
    };
    let coverage = if omit_coverage {
        "".to_string()
    } else {
        format!("<gml:Coverage>{}</gml:Coverage>", range_set)
    };
    let dem_content = if omit_dem_tag {
        "".to_string()
    } else {
        format!(
            r#"
            <DEM>
                {}
                {}
                {}
                {}
            </DEM>
            "#,
            mesh_tag, spatial_ref_info, rectified_grid, coverage
        )
    };
    format!(
        r#"<?xml version="1.0" encoding="UTF-8"?>
<Dataset xmlns="http://fgd.gsi.go.jp/spec/2008/FGD_Dataset" xmlns:gml="http://www.opengis.net/gml/3.2">
    {}
</Dataset>"#,
        dem_content
    )
}

fn build_minimal_valid_xml(crs: &str, high: &str, pos: &str, ov1: &str, ov2: &str, tuples: &str) -> String {
    build_test_xml(
        crs, high, pos, ov1, ov2, tuples, Some("5339"), false, false, false, false, false, false, false,
        false, false, false, false, false, false, false, false, false,
    )
}

#[test]
fn test_parse_valid_jpgis_sample_simplified() {
    let xml_data = build_minimal_valid_xml(
        "urn:ogc:def:crs:EPSG::6667",
        "2 1",
        "36.0 139.0",
        "0.001 0.0",
        "0.0 -0.001",
        "1.0 2.0 3.0 4.0 5.0 6.0",
    );

    let result = parse_dem_xml(&xml_data);
    assert!(result.is_ok(), "Parsing valid simplified JPGIS sample failed: {:?}", result.err());
    let dem_data = result.unwrap();

    assert_eq!(dem_data.metadata.width, 3, "Width mismatch");
    assert_eq!(dem_data.metadata.height, 2, "Height mismatch");
    assert_eq!(f64_of(&dem_data.metadata.x_min), 139.0, "x_min mismatch");
    assert_eq!(f64_of(&dem_data.metadata.y_max), 36.0, "y_max mismatch");
    assert_eq!(f64_of(&dem_data.metadata.cell_size_x), 0.001, "cell_size_x mismatch");
    assert_eq!(f64_of(&dem_data.metadata.cell_size_y), 0.001, "cell_size_y mismatch");
    assert_eq!(dem_data.metadata.crs, Some("EPSG:6667".to_string()), "CRS mismatch");
    assert!(dem_data.metadata.no_data_value.is_none(), "no_data_value should be None: the sample has no no-data element");

    assert_eq!(dem_data.elevation_values.len(), 6, "Elevation values count mismatch");
    let values: Vec<f32> = dem_data.elevation_values.iter().map(f32_of).collect();
    assert_eq!(values, vec![1.0, 2.0, 3.0, 4.0, 5.0, 6.0], "Elevation values mismatch");
}

#[test]
fn test_error_missing_dem_tag() {
    let xml = build_test_xml(
        "urn:ogc:def:crs:EPSG::6667", "2 1", "36.0 139.0", "0.1 0.0", "0.0 -0.1", "1 2 3 4 5 6", None, true,
        false, false, false, false, false, false, false, false, false, false, false, false, false, false,
        false,
    );
    let result = parse_dem_xml(&xml);
    assert!(result.is_err(), "Should fail if <DEM> is missing");
    assert!(message(result).contains("Grid dimensions"));
}

#[test]
fn test_error_missing_spatial_reference_info() {
    let xml = build_test_xml(
        "urn:ogc:def:crs:EPSG::6667", "2 1", "36.0 139.0", "0.1 0.0", "0.0 -0.1", "1 2 3 4 5 6", None, false,
        true, false, false, false, false, false, false, false, false, false, false, false, false, false,
        false,
    );
    let result = parse_dem_xml(&xml);
    assert!(
        result.is_ok(),
        "Missing spatialReferenceInfo should be a warning, not an error, CRS will be None. Res: {:?}",
        result.err()
    );
    assert_eq!(result.unwrap().metadata.crs, None);
}

#[test]
fn test_error_missing_rectified_grid() {
    let xml = build_test_xml(
        "urn:ogc:def:crs:EPSG::6667", "2 1", "36.0 139.0", "0.1 0.0", "0.0 -0.1", "1 2 3 4 5 6", None, false,
        false, true, false, false, false, false, false, false, false, false, false, false, false, false,
        false,
    );
    let result = parse_dem_xml(&xml);
    assert!(result.is_err());
    assert!(message(result).contains("Grid dimensions"));
}

#[test]
fn test_error_invalid_gml_low() {
    let xml_data = r#"<?xml version="1.0" encoding="UTF-8"?>
<Dataset xmlns="http://fgd.gsi.go.jp/spec/2008/FGD_Dataset" xmlns:gml="http://www.opengis.net/gml/3.2">
<DEM>
    <spatialReferenceInfo><SpatialReference system="urn:ogc:def:crs:EPSG::6667"/></spatialReferenceInfo>
    <gml:RectifiedGrid gml:id="TestGrid" dimension="2">
        <gml:limits><gml:GridEnvelope>
            <gml:low>1 1</gml:low> <!-- Invalid -->
            <gml:high>2 1</gml:high>
        </gml:GridEnvelope></gml:limits>
        <gml:origin><gml:Point gml:id="P"><gml:pos>36.0 139.0</gml:pos></gml:Point></gml:origin>
        <gml:offsetVector>0.001 0.0</gml:offsetVector>
        <gml:offsetVector>0.0 -0.001</gml:offsetVector>
    </gml:RectifiedGrid>
    <gml:Coverage><gml:rangeSet><gml:DataBlock><gml:tupleList>1 2 3 4 5 6</gml:tupleList></gml:DataBlock></gml:rangeSet></gml:Coverage>
</DEM>
</Dataset>"#;
    let result = parse_dem_xml(xml_data);
    assert!(result.is_err(), "Should fail for invalid gml:low");
    assert!(message(result).contains("<gml:low> must be '0 0'"));
}

#[test]
fn test_error_missing_offset_vectors() {
    let xml = build_test_xml(
        "urn:ogc:def:crs:EPSG::6667", "2 1", "36.0 139.0", "0.1 0.0", "0.0 -0.1", "1 2 3 4 5 6", None, false,
        false, false, false, false, false, false, false, false, false, true, true, false, false, false,
        false,
    );
    let result = parse_dem_xml(&xml);
    assert!(result.is_err());
    assert!(message(result).contains("Expected at least two <gml:offsetVector>"));
}

#[test]
fn test_error_missing_one_offset_vector() {
    let xml = build_test_xml(
        "urn:ogc:def:crs:EPSG::6667", "2 1", "36.0 139.0", "0.1 0.0", "0.0 -0.1", "1 2 3 4 5 6", None, false,
        false, false, false, false, false, false, false, false, false, false, true, false, false, false,
        false,
    );
    let result = parse_dem_xml(&xml);
    assert!(result.is_err());
    assert!(message(result).contains("Expected at least two <gml:offsetVector>"));
}

#[test]
fn test_error_malformed_gml_high() {
    let xml = build_minimal_valid_xml(
        "urn:ogc:def:crs:EPSG::6667",
        "2 non_numeric",
        "36.0 139.0",
        "0.1 0.0",
        "0.0 -0.1",
        "1 2 3 4 5 6",
    );
    let result = parse_dem_xml(&xml);
    assert!(result.is_err());
    assert!(message(result).contains("Grid dimensions"));
}

#[test]
fn test_error_malformed_offset_vector_value() {
    let xml = build_minimal_valid_xml(
        "urn:ogc:def:crs:EPSG::6667",
        "2 1",
        "36.0 139.0",
        "non_numeric 0.0",
        "0.0 -0.1",
        "1 2 3 4 5 6",
    );
    let result = parse_dem_xml(&xml);
    assert!(result.is_err());
    assert!(message(result).contains("First <gml:offsetVector> is missing the first value"));
}

#[test]
fn test_error_malformed_tuple_list_non_numeric() {
    let xml = build_minimal_valid_xml(
        "urn:ogc:def:crs:EPSG::6667",
        "2 1",
        "36.0 139.0",
        "0.1 0.0",
        "0.0 -0.1",
        "1 2 non_numeric 4 5 6",
    );
    let result = parse_dem_xml(&xml);
    assert!(result.is_err());
    assert!(message(result).contains("Failed to parse elevation value 'non_numeric'"));
}

#[test]
fn test_error_elevation_count_mismatch() {
    let xml = build_minimal_valid_xml(
        "urn:ogc:def:crs:EPSG::6667",
        "2 1",
        "36.0 139.0",
        "0.1 0.0",
        "0.0 -0.1",
        "1 2 3 4 5",
    );
    let result = parse_dem_xml(&xml);
    assert!(result.is_err());
    assert!(message(result).contains("Mismatch between expected number of elevation values"));
}

#[test]
fn test_error_missing_tuple_list() {
    let xml = build_test_xml(
        "urn:ogc:def:crs:EPSG::6667", "2 1", "36.0 139.0", "0.1 0.0", "0.0 -0.1", "", None, false, false,
        false, false, false, false, false, false, false, false, false, false, false, false, false, true,
    );
    let result = parse_dem_xml(&xml);
    assert!(result.is_err());
    assert!(message(result).contains("Elevation data string (<gml:tupleList>) is missing"));
}

#[test]
fn test_error_missing_gml_high() {
    let xml = build_test_xml(
        "urn:ogc:def:crs:EPSG::6667", "2 1", "36.0 139.0", "0.1 0.0", "0.0 -0.1", "1 2 3 4 5 6", None, false,
        false, false, false, false, false, true, false, false, false, false, false, false, false, false,
        false,
    );
    let result = parse_dem_xml(&xml);
    assert!(result.is_err());
    assert!(message(result).contains("Grid dimensions"));
}

#[test]
fn single_cell_grid_from_zero_high_bound() {
    let xml = build_minimal_valid_xml("urn:ogc:def:crs:EPSG::6667", "0 0", "36.0 139.0", "0.1 0.0", "0.0 -0.1", "42.5");
    let dem = parse_dem_xml(&xml).unwrap();
    assert_eq!(dem.metadata.width, 1);
    assert_eq!(dem.metadata.height, 1);
    assert_eq!(dem.elevation_values.len(), 1);
    assert_eq!(f32_of(&dem.elevation_values[0]), 42.5);
}

#[test]
fn count_mismatch_cites_both_counts() {
    let xml = build_minimal_valid_xml(
        "urn:ogc:def:crs:EPSG::6667",
        "2 1",
        "36.0 139.0",
        "0.001 0.0",
        "0.0 -0.001",
        "1 2 3 4 5",
    );
    let err = parse_dem_xml(&xml).err().unwrap();
    assert!(matches!(err, DemError::ElevationCountMismatch { width: 3, height: 2, found: 5 }));
    let m = err.message();
    assert!(m.contains("(6, from width 3 x height 2)"), "{}", m);
    assert!(m.contains("parsed values (5)"), "{}", m);
}

#[test]
fn epsg_urn_gives_epsg_code_and_missing_attribute_gives_none() {
    let xml = build_minimal_valid_xml("urn:ogc:def:crs:EPSG::4326", "1 0", "36.0 139.0", "0.1 0.0", "0.0 -0.1", "1 2");
    assert_eq!(parse_dem_xml(&xml).unwrap().metadata.crs, Some("EPSG:4326".to_string()));
    let no_attr = xml.replace(r#"<SpatialReference system="urn:ogc:def:crs:EPSG::4326"/>"#, "<SpatialReference/>");
    let dem = parse_dem_xml(&no_attr).unwrap();
    assert_eq!(dem.metadata.crs, None);
}

#[test]
fn unparsable_epsg_code_leaves_crs_unset() {
    let xml = build_minimal_valid_xml("urn:ogc:def:crs:EPSG::99999", "1 0", "36.0 139.0", "0.1 0.0", "0.0 -0.1", "1 2");
    assert_eq!(parse_dem_xml(&xml).unwrap().metadata.crs, None);
    let other = build_minimal_valid_xml("EPSG:4326", "1 0", "36.0 139.0", "0.1 0.0", "0.0 -0.1", "1 2");
    assert_eq!(parse_dem_xml(&other).unwrap().metadata.crs, None);
}

#[test]
fn non_numeric_token_is_named_exactly() {
    let xml = build_minimal_valid_xml("urn:ogc:def:crs:EPSG::6667", "2 1", "36.0 139.0", "0.1 0.0", "0.0 -0.1", "1 2 3 x4y 5 6");
    let err = parse_dem_xml(&xml).err().unwrap();
    match &err {
        DemError::InvalidElevationValue { token } => assert_eq!(token, "x4y"),
        other => panic!("unexpected error {:?}", other),
    }
    assert!(err.message().contains("'x4y'"));
}

#[test]
fn grid_size_times_is_sample_count() {
    let xml = build_minimal_valid_xml("urn:ogc:def:crs:EPSG::6667", "3 2", "36.0 139.0", "0.1 0.0", "0.0 -0.1", "1 2 3 4 5 6 7 8 9 10 11 12");
    let dem = parse_dem_xml(&xml).unwrap();
    assert_eq!(dem.metadata.width * dem.metadata.height, dem.elevation_values.len());
    assert_eq!(dem.elevation_values.len(), 12);
}

#[test]
fn negative_offset_components_give_positive_cell_sizes() {
    let xml = build_minimal_valid_xml("urn:ogc:def:crs:EPSG::6667", "1 0", "36.0 139.0", "-0.25 0.0", "0.0 -0.5", "1 2");
    let dem = parse_dem_xml(&xml).unwrap();
    assert_eq!(f64_of(&dem.metadata.cell_size_x), 0.25);
    assert_eq!(f64_of(&dem.metadata.cell_size_y), 0.5);
    assert_eq!(dem.metadata.cell_size_x.text(), "0.25");
}

#[test]
fn encoded_metadata_reads_back_equal() {
    let (w, h, x_min, y_max, csx, csy) = (4usize, 3usize, 138.5f64, 35.25f64, 0.0125f64, 0.00833f64);
    let tuples: Vec<String> = (0..w * h).map(|i| format!("{}", i as f32 * 0.5)).collect();
    let xml = build_minimal_valid_xml(
        "urn:ogc:def:crs:EPSG::6668",
        &format!("{} {}", w - 1, h - 1),
        &format!("{} {}", y_max, x_min),
        &format!("{} 0", csx),
        &format!("0 -{}", csy),
        &tuples.join(" "),
    );
    let dem = parse_dem_xml(&xml).unwrap();
    assert_eq!(dem.metadata.width, w);
    assert_eq!(dem.metadata.height, h);
    assert_eq!(f64_of(&dem.metadata.x_min).to_bits(), x_min.to_bits());
    assert_eq!(f64_of(&dem.metadata.y_max).to_bits(), y_max.to_bits());
    assert_eq!(f64_of(&dem.metadata.cell_size_x).to_bits(), csx.to_bits());
    assert_eq!(f64_of(&dem.metadata.cell_size_y).to_bits(), csy.to_bits());
}

#[test]
fn parsing_twice_gives_equal_results() {
    let xml = build_minimal_valid_xml("urn:ogc:def:crs:EPSG::6667", "2 1", "36.0 139.0", "0.001 0.0", "0.0 -0.001", "1 2 3 4 5 6");
    let a = parse_dem_xml(&xml).unwrap();
    let b = parse_dem_xml(&xml).unwrap();
    assert_eq!(a.metadata.width, b.metadata.width);
    assert_eq!(a.metadata.height, b.metadata.height);
    assert_eq!(a.metadata.x_min.text(), b.metadata.x_min.text());
    assert_eq!(a.metadata.y_max.text(), b.metadata.y_max.text());
    assert_eq!(a.metadata.cell_size_x.text(), b.metadata.cell_size_x.text());
    assert_eq!(a.metadata.cell_size_y.text(), b.metadata.cell_size_y.text());
    assert_eq!(a.metadata.crs, b.metadata.crs);
    assert_eq!(a.metadata.mesh_code, b.metadata.mesh_code);
    let av: Vec<String> = a.elevation_values.iter().map(|n| n.text()).collect();
    let bv: Vec<String> = b.elevation_values.iter().map(|n| n.text()).collect();
    assert_eq!(av, bv);
}

#[test]
fn mesh_code_and_comma_separated_tuples() {
    let xml = build_minimal_valid_xml("urn:ogc:def:crs:EPSG::6677", "2 1", "35.0 139.0", "0.1 0.0", "0.0 -0.1", "1,2,3\n4, 5 ,6");
    let dem = parse_dem_xml(&xml).unwrap();
    assert_eq!(dem.metadata.mesh_code, Some("5339".to_string()));
    let values: Vec<f32> = dem.elevation_values.iter().map(f32_of).collect();
    assert_eq!(values, vec![1.0, 2.0, 3.0, 4.0, 5.0, 6.0]);
}

#[test]
fn no_data_value_from_nil_values() {
    let xml = build_minimal_valid_xml("urn:ogc:def:crs:EPSG::6677", "1 0", "35.0 139.0", "0.1 0.0", "0.0 -0.1", "1 2")
        .replace("<mesh>5339</mesh>", "<mesh>5339</mesh><gml:nilValues> -9999 </gml:nilValues>");
    let dem = parse_dem_xml(&xml).unwrap();
    assert_eq!(f32_of(dem.metadata.no_data_value.as_ref().unwrap()), -9999.0);
    let bad = xml.replace("-9999", "none");
    assert!(parse_dem_xml(&bad).unwrap().metadata.no_data_value.is_none());
}

#[test]
fn tag_names_ignore_case_and_unprefixed_forms() {
    let xml = build_minimal_valid_xml("urn:ogc:def:crs:EPSG::6677", "1 0", "35.0 139.0", "0.1 0.0", "0.0 -0.1", "1 2")
        .replace("gml:tupleList", "TupleList")
        .replace("<DEM>", "<dem>")
        .replace("</DEM>", "</dem>");
    let dem = parse_dem_xml(&xml).unwrap();
    assert_eq!(dem.elevation_values.len(), 2);
    let unknown_prefix = build_minimal_valid_xml("urn:ogc:def:crs:EPSG::6677", "1 0", "35.0 139.0", "0.1 0.0", "0.0 -0.1", "1 2")
        .replace("gml:tupleList", "foo:tupleList");
    assert!(matches!(parse_dem_xml(&unknown_prefix), Err(DemError::MissingTupleList)));
}

#[test]
fn entities_in_text_are_resolved() {
    let xml = build_minimal_valid_xml("urn:ogc:def:crs:EPSG::6677", "1 0", "35.0 139.0", "0.1 0.0", "0.0 -0.1", "&#49; &#50;");
    let dem = parse_dem_xml(&xml).unwrap();
    let values: Vec<String> = dem.elevation_values.iter().map(|n| n.text()).collect();
    assert_eq!(values, vec!["1".to_string(), "2".to_string()]);
}

#[test]
fn missing_origin_second_cell_size_and_low_are_reported() {
    let no_origin = build_test_xml(
        "urn:ogc:def:crs:EPSG::6667", "1 0", "36.0 139.0", "0.1 0.0", "0.0 -0.1", "1 2", None, false, false,
        false, false, false, false, false, false, false, true, false, false, false, false, false, false,
    );
    assert!(matches!(parse_dem_xml(&no_origin), Err(DemError::MissingOrigin)));
    let short_second = build_minimal_valid_xml("urn:ogc:def:crs:EPSG::6667", "1 0", "36.0 139.0", "0.1 0.0", "0.0", "1 2");
    let e = parse_dem_xml(&short_second).err().unwrap();
    assert!(matches!(e, DemError::MissingCellSizeY));
    assert!(e.message().contains("Second <gml:offsetVector> is missing the second value"));
    let no_low = build_test_xml(
        "urn:ogc:def:crs:EPSG::6667", "1 0", "36.0 139.0", "0.1 0.0", "0.0 -0.1", "1 2", None, false, false,
        false, false, false, true, false, false, false, false, false, false, false, false, false, false,
    );
    let e = parse_dem_xml(&no_low).err().unwrap();
    assert!(e.message().contains("<gml:low> element is missing"));
}

#[test]
fn reader_failures_are_reported() {
    let truncated = "<DEM><gml:RectifiedGrid><gml:limits><gml:GridEnvelope><gml:high>1 0";
    let e = parse_dem_xml(truncated).err().unwrap();
    assert!(matches!(e, DemError::UnexpectedEof { .. }), "{:?}", e);
    assert!(e.message().contains("Unexpected EOF while reading text content for tag <gml:high>"));

    let mismatched = "<DEM><mesh>1</mesh></DEMX>";
    let e = parse_dem_xml(mismatched).err().unwrap();
    assert!(matches!(e, DemError::XmlRead { .. }), "{:?}", e);
    assert!(e.message().starts_with("XML Read Error: "));

    let bad_entity = "<DEM><mesh>&nosuch;</mesh></DEM>";
    let e = parse_dem_xml(bad_entity).err().unwrap();
    assert!(matches!(e, DemError::TextRead { .. }), "{:?}", e);

    let bad_attr = r#"<DEM><spatialReferenceInfo><SpatialReference system="a" system="b"/></spatialReferenceInfo></DEM>"#;
    let e = parse_dem_xml(bad_attr).err().unwrap();
    assert!(matches!(e, DemError::Attribute { .. }), "{:?}", e);
    assert!(e.message().starts_with("XML Attribute Error: "));
}

#[test]
fn oversized_high_bound_is_invalid() {
    let xml = build_minimal_valid_xml(
        "urn:ogc:def:crs:EPSG::6667",
        &format!("{} 0", usize::MAX),
        "36.0 139.0",
        "0.1 0.0",
        "0.0 -0.1",
        "1 2",
    );
    assert!(matches!(parse_dem_xml(&xml), Err(DemError::MissingGridDimensions)));
}
