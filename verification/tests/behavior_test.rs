use interactive_html_bom::Drawing;
use interactive_html_bom::DrawingKind;
use interactive_html_bom::DrawingLayer;
use interactive_html_bom::Footprint;
use interactive_html_bom::InteractiveHtmlBom;
use interactive_html_bom::Layer;
use interactive_html_bom::Pad;
use interactive_html_bom::RefMap;
use interactive_html_bom::Track;
use interactive_html_bom::Via;
use interactive_html_bom::Zone;
use interactive_html_bom::text::fmt_milli;
use interactive_html_bom::text::fmt_u64;
use interactive_html_bom::text::json_str;

fn doc(bl: (i32, i32), tr: (i32, i32)) -> InteractiveHtmlBom {
    InteractiveHtmlBom::new("Title", "Company", "Rev", "Date", bl, tr)
}

fn plain_footprint(fields: Vec<String>, pads: Vec<Pad>, mount: bool) -> Footprint {
    Footprint::new(
        Layer::Front,
        (0, 0),
        0,
        (-1000, -1000),
        (1000, 1000),
        fields,
        pads,
        mount,
    )
}

/// Extract and decompress the payload document embedded in the page.
fn payload_of(html: &str) -> String {
    let marker = "decompressFromBase64(\"";
    let start = html.find(marker).expect("payload marker") + marker.len();
    let end = html[start..].find('"').expect("payload end") + start;
    let units = lz_str::decompress_from_base64(&html[start..end]).expect("decompress");
    String::from_utf16(&units).expect("utf16")
}

#[test]
fn test_empty_board_payload() {
    let bom = doc((0, 0), (0, 0));
    let html = bom.generate_html().unwrap();
    assert!(html.contains("<html"));
    assert!(html.contains("\"layer_view\":\"FB\""));
    let payload = payload_of(&html);
    assert!(payload.contains("\"nets\":[]"));
    assert!(payload.contains("\"skipped\":[]"));
    assert!(payload.contains("\"footprints\":[]"));
    assert!(payload.contains("\"edges_bbox\":{\"minx\":0,\"maxx\":0,\"miny\":0,\"maxy\":0}"));
}

#[test]
fn test_layer_view_modes() {
    let mut front_only = doc((0, 0), (0, 0));
    front_only.bom_front.push(vec![]);
    assert!(front_only
        .generate_html()
        .unwrap()
        .contains("\"layer_view\":\"F\""));

    let mut back_only = doc((0, 0), (0, 0));
    back_only.bom_back.push(vec![]);
    assert!(back_only
        .generate_html()
        .unwrap()
        .contains("\"layer_view\":\"B\""));

    let mut both = doc((0, 0), (0, 0));
    both.bom_front.push(vec![]);
    both.bom_back.push(vec![]);
    assert!(both
        .generate_html()
        .unwrap()
        .contains("\"layer_view\":\"FB\""));

    let neither = doc((0, 0), (0, 0));
    assert!(neither
        .generate_html()
        .unwrap()
        .contains("\"layer_view\":\"FB\""));
}

#[test]
fn test_net_list_first_seen_order() {
    let mut bom = doc((0, 0), (0, 0));
    let pad = |net: Option<&str>| Pad::new(vec![Layer::Front], (0, 0), 0, "M 0 0", None, net, false);
    bom.footprints.push(plain_footprint(
        vec![],
        vec![pad(Some("b")), pad(None), pad(Some("a"))],
        true,
    ));
    bom.footprints.push(plain_footprint(
        vec![],
        vec![pad(Some("b")), pad(Some("c")), pad(Some("a"))],
        true,
    ));
    let payload = payload_of(&bom.generate_html().unwrap());
    assert!(payload.contains("\"nets\":[\"b\",\"a\",\"c\"]"));
}

#[test]
fn test_do_not_place_list() {
    let mut bom = doc((0, 0), (0, 0));
    bom.footprints.push(plain_footprint(vec![], vec![], false));
    bom.footprints.push(plain_footprint(vec![], vec![], true));
    bom.footprints.push(plain_footprint(vec![], vec![], false));
    let payload = payload_of(&bom.generate_html().unwrap());
    assert!(payload.contains("\"skipped\":[0,2]"));
}

#[test]
fn test_drill_shape_oblong() {
    let mut bom = doc((0, 0), (0, 0));
    let pad = Pad::new(
        vec![Layer::Front],
        (0, 0),
        0,
        "M 0 0",
        Some((500, 1000)),
        None,
        false,
    );
    bom.footprints.push(plain_footprint(vec![], vec![pad], true));
    let payload = payload_of(&bom.generate_html().unwrap());
    assert!(payload.contains("\"type\":\"th\""));
    assert!(payload.contains("\"drillsize\":[0.5,1]"));
    assert!(payload.contains("\"drillshape\":\"oblong\""));
}

#[test]
fn test_drill_shape_circle() {
    let mut bom = doc((0, 0), (0, 0));
    let pad = Pad::new(
        vec![Layer::Front],
        (0, 0),
        0,
        "M 0 0",
        Some((750, 750)),
        None,
        false,
    );
    bom.footprints.push(plain_footprint(vec![], vec![pad], true));
    let payload = payload_of(&bom.generate_html().unwrap());
    assert!(payload.contains("\"drillsize\":[0.75,0.75]"));
    assert!(payload.contains("\"drillshape\":\"circle\""));
}

#[test]
fn test_pad_without_drill_is_smd() {
    let mut bom = doc((0, 0), (0, 0));
    let pad = Pad::new(vec![Layer::Back], (0, 0), 0, "M 0 0", None, None, true);
    bom.footprints.push(plain_footprint(vec![], vec![pad], true));
    let payload = payload_of(&bom.generate_html().unwrap());
    assert!(payload.contains("\"type\":\"smd\""));
    assert!(!payload.contains("drillsize"));
    assert!(!payload.contains("drillshape"));
    assert!(payload.contains("\"pin1\":1"));
}

#[test]
fn test_field_count_mismatch_mounted() {
    let mut bom = doc((0, 0), (0, 0));
    bom.fields = vec!["Field 1".into()];
    bom.footprints.push(plain_footprint(
        vec!["Value 1".into(), "Value 2".into()],
        vec![],
        true,
    ));
    let err = bom.generate_html().unwrap_err();
    assert_eq!(err, "Inconsistent number of fields.");
}

#[test]
fn test_error_kinds_distinct() {
    // A document with both faults reports the reference fault first.
    let mut bom = doc((0, 0), (0, 0));
    bom.fields = vec!["Field 1".into()];
    bom.footprints.push(plain_footprint(vec![], vec![], true));
    bom.bom_both.push(vec![RefMap::new("R1", 5)]);
    let err = bom.generate_html().unwrap_err();
    assert_eq!(err, "Invalid footprint ID.");

    let mut empty = doc((0, 0), (0, 0));
    empty.bom_both.push(vec![RefMap::new("R1", 0)]);
    let err2 = empty.generate_html().unwrap_err();
    assert_eq!(err2, "Invalid footprint ID.");
    assert_ne!(err2, "Inconsistent number of fields.");
}

#[test]
fn test_add_footprint_assigns_indices() {
    let mut bom = doc((0, 0), (0, 0));
    assert_eq!(bom.add_footprint(plain_footprint(vec![], vec![], true)), 0);
    assert_eq!(bom.add_footprint(plain_footprint(vec![], vec![], false)), 1);
    assert_eq!(bom.add_footprint(plain_footprint(vec![], vec![], true)), 2);
}

#[test]
fn test_bom_rows_and_fields_in_payload() {
    let mut bom = doc((0, 0), (0, 0));
    bom.fields = vec!["Value".into(), "Package".into()];
    bom.footprints.push(plain_footprint(
        vec!["100R".into(), "0603".into()],
        vec![],
        true,
    ));
    bom.bom_front.push(vec![RefMap::new("R1", 0)]);
    let payload = payload_of(&bom.generate_html().unwrap());
    assert!(payload.contains("\"F\":[[[\"R1\",0]]]"));
    assert!(payload.contains("\"fields\":{\"0\":[\"100R\",\"0603\"]}"));
}

#[test]
fn test_config_contents() {
    let mut bom = doc((0, 0), (0, 0));
    bom.dark_mode = true;
    bom.show_pads = false;
    let html = bom.generate_html().unwrap();
    assert!(html.contains("var config = {\"board_rotation\":0"));
    assert!(html.contains("\"checkboxes\":\"Sourced,Placed\""));
    assert!(html.contains("\"dark_mode\":true"));
    assert!(html.contains("\"show_pads\":false"));
    assert!(html.contains("\"show_silkscreen\":true"));
    assert!(html.contains("var pcbdata = JSON.parse(LZString.decompressFromBase64("));
}

#[test]
fn test_user_text_substitution() {
    let mut bom = doc((0, 0), (0, 0));
    bom.user_header = "<!-- my header -->".into();
    bom.user_footer = "<!-- my footer -->".into();
    bom.user_js = "console.log(1)".into();
    let html = bom.generate_html().unwrap();
    assert!(html.contains("<!-- my header -->"));
    assert!(html.contains("<!-- my footer -->"));
    assert!(html.contains("console.log(1)"));
}

#[test]
fn test_metadata_and_geometry_in_payload() {
    let mut bom = doc((-1500, 0), (100_000, 80_000));
    bom.drawings.push(Drawing::new(
        DrawingKind::Polygon,
        DrawingLayer::Edge,
        "M 0 0 H 100",
        100,
        false,
    ));
    bom.tracks.push(Track::new(
        Layer::Front,
        (0, 0),
        (1000, 2500),
        250,
        Some("GND"),
    ));
    let payload = payload_of(&bom.generate_html().unwrap());
    assert!(payload.contains("\"ibom_version\":\"2.9.0\""));
    assert!(payload.contains(
        "\"metadata\":{\"title\":\"Title\",\"company\":\"Company\",\"revision\":\"Rev\",\"date\":\"Date\"}"
    ));
    assert!(payload.contains("\"minx\":-1.5"));
    assert!(payload.contains("\"maxy\":80"));
    assert!(payload.contains("\"svgpath\":\"M 0 0 H 100\""));
    assert!(payload
        .contains("{\"start\":[0,0],\"end\":[1,2.5],\"width\":0.25,\"net\":\"GND\"}"));
}

#[test]
fn test_via_on_both_sides() {
    let mut bom = doc((0, 0), (0, 0));
    bom.vias.push(Via::new(
        vec![Layer::Front, Layer::Back],
        (1000, 1000),
        600,
        300,
        Some("VCC"),
    ));
    let payload = payload_of(&bom.generate_html().unwrap());
    let via_json =
        "{\"start\":[1,1],\"end\":[1,1],\"width\":0.6,\"drillsize\":0.3,\"net\":\"VCC\"}";
    let occurrences = payload.matches(via_json).count();
    assert_eq!(occurrences, 2);
}

#[test]
fn test_number_formatting() {
    assert_eq!(fmt_milli(0), "0");
    assert_eq!(fmt_milli(1500), "1.5");
    assert_eq!(fmt_milli(-250), "-0.25");
    assert_eq!(fmt_milli(45_000), "45");
    assert_eq!(fmt_milli(100), "0.1");
    assert_eq!(fmt_milli(1050), "1.05");
    assert_eq!(fmt_milli(1005), "1.005");
    assert_eq!(fmt_milli(-1_000_000), "-1000");
    assert_eq!(fmt_milli(999), "0.999");
    assert_eq!(fmt_u64(0), "0");
    assert_eq!(fmt_u64(10), "10");
    assert_eq!(fmt_u64(987654321), "987654321");
}

#[test]
fn test_json_string_escaping() {
    assert_eq!(json_str("plain"), "\"plain\"");
    assert_eq!(json_str("a\"b"), "\"a\\\"b\"");
    assert_eq!(json_str("a\\b"), "\"a\\\\b\"");
    assert_eq!(json_str("a\nb\tc\rd"), "\"a\\nb\\tc\\rd\"");
    assert_eq!(json_str("\u{1}"), "\"\\u0001\"");
    assert_eq!(json_str("\u{1f}"), "\"\\u001f\"");
}
