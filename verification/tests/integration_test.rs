use interactive_html_bom::Drawing;
use interactive_html_bom::DrawingKind;
use interactive_html_bom::DrawingLayer;
use interactive_html_bom::Footprint;
use interactive_html_bom::InteractiveHtmlBom;
use interactive_html_bom::Layer;
use interactive_html_bom::Pad;
use interactive_html_bom::RefMap;
use interactive_html_bom::Track;
use interactive_html_bom::Via;
use interactive_html_bom::Zone;

#[test]
fn test_empty() {
    let bom = InteractiveHtmlBom::new(
        "Test Title",
        "Test Company",
        "Test Revision",
        "Test Date",
        (0, 0),
        (0, 0),
    );

    let html = bom.generate_html().unwrap();
    assert!(html.contains("<html"));
}

#[test]
fn test_everything() {
    let mut bom = InteractiveHtmlBom::new(
        "Test Title",
        "Test Company",
        "Test Revision",
        "Test Date",
        (0, 0),
        (100_000, 100_000),
    );

    bom.dark_mode = true;
    bom.show_silkscreen = false;
    bom.show_fabrication = false;
    bom.checkboxes = vec!["Foo".into(), "Bar".into()];
    bom.fields = vec!["Field 1".into(), "Field 2".into()];
    bom.user_header = "<!-- header -->".into();
    bom.user_footer = "<!-- footer -->".into();
    bom.user_js = "<!-- js -->".into();

    bom.drawings.push(Drawing::new(
        DrawingKind::Polygon,
        DrawingLayer::Edge,
        "",
        100,
        false,
    ));
    bom.drawings.push(Drawing::new(
        DrawingKind::Polygon,
        DrawingLayer::SilkscreenFront,
        "M 0 0",
        100,
        false,
    ));
    bom.drawings.push(Drawing::new(
        DrawingKind::ReferenceText,
        DrawingLayer::SilkscreenBack,
        "",
        100,
        false,
    ));
    bom.drawings.push(Drawing::new(
        DrawingKind::Polygon,
        DrawingLayer::FabricationFront,
        "M 0 0",
        100,
        false,
    ));
    bom.drawings.push(Drawing::new(
        DrawingKind::ValueText,
        DrawingLayer::FabricationBack,
        "M 0 0",
        100,
        false,
    ));

    bom.tracks.push(Track::new(
        Layer::Front,
        (0, 0),
        (100_000, 100_000),
        1000,
        None,
    ));
    bom.tracks.push(Track::new(
        Layer::Back,
        (0, 0),
        (100_000, 100_000),
        1000,
        Some("net 1"),
    ));

    bom.vias.push(Via::new(
        vec![Layer::Front],
        (50_000, 50_000),
        1000,
        500,
        None,
    ));
    bom.vias.push(Via::new(
        vec![Layer::Front, Layer::Back],
        (50_000, 50_000),
        1000,
        500,
        Some("net 2"),
    ));

    bom.zones.push(Zone::new(Layer::Front, "M 0 0", None));
    bom.zones.push(Zone::new(Layer::Back, "M 0 0", Some("net 3")));

    bom.footprints.push(Footprint::new(
        Layer::Front,
        (50_000, 50_000),
        45_000,
        (-5000, -5000),
        (5000, 5000),
        vec!["Value 1".into(), "Value 2".into()],
        vec![],
        false,
    ));
    bom.footprints.push(Footprint::new(
        Layer::Front,
        (50_000, 50_000),
        45_000,
        (-5000, -5000),
        (5000, 5000),
        vec!["Value 1".into(), "Value 2".into()],
        vec![
            Pad::new(
                vec![Layer::Front],
                (0, -5000),
                45_000,
                "M 0 0",
                None,
                None,
                false,
            ),
            Pad::new(
                vec![Layer::Front, Layer::Back],
                (0, 5000),
                45_000,
                "M 0 0",
                Some((500, 1000)),
                Some("net 4"),
                true,
            ),
        ],
        true,
    ));

    bom.bom_front
        .push(vec![RefMap::new("R1", 0), RefMap::new("R2", 1)]);
    bom.bom_back
        .push(vec![RefMap::new("R1", 0), RefMap::new("R2", 1)]);
    bom.bom_both.push(vec![RefMap::new("R1", 0)]);
    bom.bom_both.push(vec![RefMap::new("R2", 1)]);

    let html = bom.generate_html().unwrap();
    assert!(html.contains("<html"));
}

#[test]
fn test_invalid_footprint_id() {
    let mut bom = InteractiveHtmlBom::new(
        "Test Title",
        "Test Company",
        "Test Revision",
        "Test Date",
        (0, 0),
        (100_000, 100_000),
    );

    bom.bom_both.push(vec![RefMap::new("R1", 0)]);

    let err = bom.generate_html().unwrap_err();
    assert_eq!(err, "Invalid footprint ID.");
}

#[test]
fn test_inconsistent_fields() {
    let mut bom = InteractiveHtmlBom::new(
        "Test Title",
        "Test Company",
        "Test Revision",
        "Test Date",
        (0, 0),
        (100_000, 100_000),
    );

    bom.fields = vec!["Field 1".into()];

    bom.footprints.push(Footprint::new(
        Layer::Front,
        (50_000, 50_000),
        45_000,
        (-5000, -5000),
        (5000, 5000),
        vec!["Value 1".into(), "Value 2".into()],
        vec![],
        false,
    ));

    let err = bom.generate_html().unwrap_err();
    assert_eq!(err, "Inconsistent number of fields.");
}
