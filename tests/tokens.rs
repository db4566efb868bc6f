use dem_converter::extract::{classify, Tag};
use dem_converter::model::DemError;
use dem_converter::parse::parse_tokens;
use dem_converter::token::{XmlAttribute, XmlToken};

fn chars(s: &str) -> Vec<char> {
    s.chars().collect()
}

fn start(name: &str) -> XmlToken {
    XmlToken::Start { name: chars(name), attributes: Ok(Vec::new()) }
}

fn end(name: &str) -> XmlToken {
    XmlToken::End { name: chars(name) }
}

fn text(s: &str) -> XmlToken {
    XmlToken::Text { content: Ok(chars(s)) }
}

fn leaf(out: &mut Vec<XmlToken>, name: &str, content: &str) {
    out.push(start(name));
    out.push(text(content));
    out.push(end(name));
}

fn grid_tokens(tuples: &str) -> Vec<XmlToken> {
    let mut t = vec![start("DEM"), start("spatialReferenceInfo")];
    t.push(XmlToken::Empty {
        name: chars("SpatialReference"),
        attributes: Ok(vec![XmlAttribute { key: chars("system"), value: chars("urn:ogc:def:crs:EPSG::6677") }]),
    });
    t.push(end("spatialReferenceInfo"));
    t.push(start("gml:RectifiedGrid"));
    t.push(start("gml:limits"));
    t.push(start("gml:GridEnvelope"));
    leaf(&mut t, "gml:low", "0 0");
    leaf(&mut t, "gml:high", "1 1");
    t.push(end("gml:GridEnvelope"));
    t.push(end("gml:limits"));
    t.push(start("gml:origin"));
    t.push(start("gml:Point"));
    leaf(&mut t, "gml:pos", "35.0 139.0");
    t.push(end("gml:Point"));
    t.push(end("gml:origin"));
    leaf(&mut t, "gml:offsetVector", "0.00125 0.0");
    leaf(&mut t, "gml:offsetVector", "0.0 -0.0008333333333333334");
    t.push(end("gml:RectifiedGrid"));
    t.push(start("gml:Coverage"));
    t.push(start("gml:rangeSet"));
    t.push(start("gml:DataBlock"));
    leaf(&mut t, "gml:tupleList", tuples);
    t.push(end("gml:DataBlock"));
    t.push(end("gml:rangeSet"));
    t.push(end("gml:Coverage"));
    t.push(end("DEM"));
    t.push(XmlToken::Eof);
    t
}

#[test]
fn tokens_read_into_a_grid() {
    let dem = parse_tokens(&grid_tokens("10.1 10.2 10.5 10.6")).unwrap();
    assert_eq!((dem.metadata.width, dem.metadata.height), (2, 2));
    assert_eq!(dem.metadata.x_min.text().parse::<f64>().unwrap(), 139.0);
    assert_eq!(dem.metadata.y_max.text().parse::<f64>().unwrap(), 35.0);
    assert_eq!(dem.metadata.cell_size_x.text().parse::<f64>().unwrap(), 0.00125);
    assert_eq!(dem.metadata.cell_size_y.text().parse::<f64>().unwrap(), 0.0008333333333333334);
    assert_eq!(dem.metadata.crs, Some("EPSG:6677".to_string()));
    let v: Vec<f32> = dem.elevation_values.iter().map(|n| n.text().parse::<f32>().unwrap()).collect();
    assert_eq!(v, vec![10.1, 10.2, 10.5, 10.6]);
}

#[test]
fn events_after_the_end_are_ignored_and_a_missing_end_is_supplied() {
    let mut t = grid_tokens("1 2 3 4");
    t.push(XmlToken::Fault { message: "ignored".to_string() });
    assert!(parse_tokens(&t).is_ok());
    let mut open = grid_tokens("1 2 3 4");
    open.pop();
    assert!(parse_tokens(&open).is_ok());
    let cut: Vec<XmlToken> = vec![start("DEM"), start("mesh")];
    assert!(matches!(parse_tokens(&cut), Err(DemError::UnexpectedEof { .. })));
}

#[test]
fn fault_reports_reader_message() {
    let t = vec![start("DEM"), XmlToken::Fault { message: "boom".to_string() }];
    match parse_tokens(&t) {
        Err(DemError::XmlRead { message }) => assert_eq!(message, "boom"),
        other => panic!("unexpected {:?}", other),
    }
}

#[test]
fn tag_names_are_normalised() {
    assert_eq!(classify(&chars("gml:TupleList")), Some(Tag::TupleList));
    assert_eq!(classify(&chars("swe:nilValues")), Some(Tag::NilValues));
    assert_eq!(classify(&chars("DEM")), Some(Tag::Dem));
    assert_eq!(classify(&chars("OffsetVector")), Some(Tag::OffsetVector));
    assert_eq!(classify(&chars("xyz:DEM")), None);
    assert_eq!(classify(&chars("Dataset")), None);
}
