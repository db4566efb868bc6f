use dem_converter::number::Number;
use dem_converter::writer::{CrsKey, GeoTiffWriter};
use dem_converter::xml_parser::parse_dem_xml;

const TEST_JPGIS_XML_VALID_SAMPLE: &str = r#"<?xml version="1.0" encoding="UTF-8"?>
<Dataset xsi:schemaLocation="http://fgd.gsi.go.jp/spec/2008/FGD_DatasetSpec.xsd"
    xmlns="http://fgd.gsi.go.jp/spec/2008/FGD_Dataset"
    xmlns:gml="http://www.opengis.net/gml/3.2"
    xmlns:xsi="http://www.w3.org/2001/XMLSchema-instance"
    gml:id="Dataset_DEM_Test_533946">
    <DEM gml:id="DEM_Test_533946_01">
        <mesh>533946</mesh>
        <spatialReferenceInfo>
            <SpatialReference system="urn:ogc:def:crs:EPSG::6677"/>
        </spatialReferenceInfo>
        <gml:RectifiedGrid gml:id="Grid_Test_533946_01" dimension="2">
            <gml:limits>
                <gml:GridEnvelope>
                    <gml:low>0 0</gml:low>
                    <gml:high>1 1</gml:high> <!-- width=2, height=2 -->
                </gml:GridEnvelope>
            </gml:limits>
            <gml:axisLabels>Y X</gml:axisLabels>
            <gml:origin>
                <gml:Point gml:id="P_Origin_Test_533946">
                    <gml:pos>35.0 139.0</gml:pos>
                </gml:Point>
            </gml:origin>
            <gml:offsetVector>0.00125 0.0</gml:offsetVector>
            <gml:offsetVector>0.0 -0.0008333333333333334</gml:offsetVector>
        </gml:RectifiedGrid>
        <gml:Coverage gml:id="Coverage_Test_533946_01">
            <gml:rangeSet>
                <gml:DataBlock>
                    <gml:rangeParameters/>
                    <gml:tupleList>
                        10.1 10.2
                        10.5 10.6
                    </gml:tupleList>
                </gml:DataBlock>
            </gml:rangeSet>
        </gml:Coverage>
    </DEM>
</Dataset>
"#;

fn f64_of(n: &Number) -> f64 {
    n.text().parse::<f64>().unwrap()
}

#[test]
fn test_full_conversion_workflow_new_spec() {
    let parse_result = parse_dem_xml(TEST_JPGIS_XML_VALID_SAMPLE);
    assert!(parse_result.is_ok(), "Integration Test: XML parsing failed: {:?}", parse_result.err());
    let dem_data = parse_result.unwrap();

    assert_eq!(dem_data.metadata.width, 2, "Width mismatch");
    assert_eq!(dem_data.metadata.height, 2, "Height mismatch");
    assert_eq!(f64_of(&dem_data.metadata.x_min), 139.0, "x_min mismatch");
    assert_eq!(f64_of(&dem_data.metadata.y_max), 35.0, "y_max mismatch");
    assert_eq!(f64_of(&dem_data.metadata.cell_size_x), 0.00125, "cell_size_x mismatch");
    assert_eq!(f64_of(&dem_data.metadata.cell_size_y), 0.0008333333333333334, "cell_size_y mismatch");
    assert_eq!(dem_data.metadata.crs, Some("EPSG:6677".to_string()), "CRS mismatch");
    assert_eq!(dem_data.metadata.mesh_code, Some("533946".to_string()), "Mesh code mismatch");
    assert!(dem_data.metadata.no_data_value.is_none(), "No-data value should be None for this sample");
    assert_eq!(dem_data.elevation_values.len(), 4, "Elevation values count mismatch");
    let values: Vec<f32> = dem_data.elevation_values.iter().map(|n| n.text().parse::<f32>().unwrap()).collect();
    assert_eq!(values, vec![10.1, 10.2, 10.5, 10.6], "Elevation values mismatch");

    let layout = GeoTiffWriter::new().write(&dem_data);
    assert_eq!((layout.width, layout.height), (2, 2));
    assert!(matches!(layout.crs, CrsKey::Projected(6677)));
    assert!(layout.no_data.is_none());
}

#[test]
fn test_conversion_workflow_no_mesh_code() {
    let xml = TEST_JPGIS_XML_VALID_SAMPLE.replace("<mesh>533946</mesh>", "<!-- <mesh>533946</mesh> -->");
    let parse_result = parse_dem_xml(&xml);
    assert!(parse_result.is_ok(), "Integration Test (No Mesh): XML parsing failed: {:?}", parse_result.err());
    let dem_data = parse_result.unwrap();
    assert_eq!(dem_data.metadata.width, 2, "Width mismatch (No Mesh)");
    assert_eq!(dem_data.metadata.height, 2, "Height mismatch (No Mesh)");
    assert_eq!(dem_data.metadata.crs, Some("EPSG:6677".to_string()), "CRS mismatch (No Mesh)");
    assert_eq!(dem_data.metadata.mesh_code, None, "Mesh code should be None");
    assert_eq!(dem_data.elevation_values.len(), 4, "Elevation values count mismatch (No Mesh)");
}
