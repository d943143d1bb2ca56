//! The two serialized documents (config and payload), the bundled page
//! template, and the generation step that validates a document and
//! assembles the final HTML page.

use vstd::prelude::*;
use vstd::string::StringExecFns;
use crate::agg::check_fields;
use crate::agg::check_rows;
use crate::agg::dnp_of;
use crate::agg::dnp_ids;
use crate::agg::fields_ok;
use crate::agg::layer_view;
use crate::agg::layer_view_of;
use crate::agg::nets;
use crate::agg::nets_of;
use crate::agg::rows_ok;
use crate::model::InteractiveHtmlBom;
use crate::model::DrawingLayer;
use crate::model::Layer;
use crate::model::Track;
use crate::model::Via;
use crate::pack::config_var;
use crate::pack::config_var_of;
use crate::pack::pcbdata_var;
use crate::pack::pcbdata_var_of;
use crate::serial::bool_json;
use crate::serial::drawing_items;
use crate::serial::drawing_strs;
use crate::serial::field_entry_items;
use crate::serial::field_entry_strs;
use crate::serial::footprint_items;
use crate::serial::footprint_strs;
use crate::serial::id_items;
use crate::serial::id_strs;
use crate::serial::jstr_items;
use crate::serial::jstr_strs;
use crate::serial::row_items;
use crate::serial::row_strs;
use crate::serial::track_items;
use crate::serial::track_strs;
use crate::serial::via_items;
use crate::serial::via_strs;
use crate::serial::zone_items;
use crate::serial::zone_strs;
use crate::text::join_all;
use crate::text::join_comma;
use crate::text::json_str;
use crate::text::jstr;
use crate::text::fmt_milli;
use crate::text::milli_of;
use crate::text::str_views;

verus! {

/// Append a JSON boolean.
fn append_bool(out: &mut String, b: bool)
    ensures
        final(out)@ == old(out)@ + bool_json(b),
{
    if b {
        out.append("true");
    } else {
        out.append("false");
    }
}

/// Join the given pieces with commas between JSON list brackets.
fn bracket_join(items: &Vec<String>) -> (r: String)
    ensures
        r@ == "["@ + join_comma(str_views(items@)) + "]"@,
{
    let mut out = String::from_str("[");
    let j = join_all(items);
    out.append(j.as_str());
    out.append("]");
    out
}

/// The config document: the fixed viewer settings, the checkbox and field
/// columns, the derived layer-view mode and the three visibility flags.
pub open spec fn config_json_of(doc: InteractiveHtmlBom) -> Seq<char> {
    "{\"board_rotation\":0,\"bom_view\":\"left-right\",\"checkboxes\":"@ + jstr(
        join_comma(str_views(doc.checkboxes@)),
    ) + ",\"dark_mode\":"@ + bool_json(doc.dark_mode) + ",\"fields\":["@ + join_comma(
        jstr_items(str_views(doc.fields@)),
    ) + "],\"highlight_pin1\":\"none\",\"kicad_text_formatting\":false,\"layer_view\":\""@
        + layer_view_of(doc.bom_front@.len(), doc.bom_back@.len())
        + "\",\"offset_back_rotation\":false,\"redraw_on_drag\":true,\"show_fabrication\":"@
        + bool_json(doc.show_fabrication) + ",\"show_pads\":"@ + bool_json(doc.show_pads)
        + ",\"show_silkscreen\":"@ + bool_json(doc.show_silkscreen) + "}"@
}

/// Render the config document.
pub fn config_json(doc: &InteractiveHtmlBom) -> (r: String)
    ensures
        r@ == config_json_of(*doc),
{
    let mut out = String::from_str(
        "{\"board_rotation\":0,\"bom_view\":\"left-right\",\"checkboxes\":",
    );
    let cb = join_all(&doc.checkboxes);
    let cbj = json_str(cb.as_str());
    out.append(cbj.as_str());
    out.append(",\"dark_mode\":");
    append_bool(&mut out, doc.dark_mode);
    out.append(",\"fields\":[");
    let fi = jstr_strs(&doc.fields);
    let fj = join_all(&fi);
    out.append(fj.as_str());
    out.append("],\"highlight_pin1\":\"none\",\"kicad_text_formatting\":false,\"layer_view\":\"");
    out.append(layer_view(&doc.bom_front, &doc.bom_back));
    out.append("\",\"offset_back_rotation\":false,\"redraw_on_drag\":true,\"show_fabrication\":");
    append_bool(&mut out, doc.show_fabrication);
    out.append(",\"show_pads\":");
    append_bool(&mut out, doc.show_pads);
    out.append(",\"show_silkscreen\":");
    append_bool(&mut out, doc.show_silkscreen);
    out.append("}");
    proof {
        assert(out@ =~= config_json_of(*doc));
    }
    out
}

/// The metadata block of the payload document.
pub open spec fn metadata_json_of(doc: InteractiveHtmlBom) -> Seq<char> {
    "{\"title\":"@ + jstr(doc.title@) + ",\"company\":"@ + jstr(doc.company@) + ",\"revision\":"@
        + jstr(doc.revision@) + ",\"date\":"@ + jstr(doc.date@) + "}"@
}

/// Render the metadata block.
fn metadata_json(doc: &InteractiveHtmlBom) -> (r: String)
    ensures
        r@ == metadata_json_of(*doc),
{
    let mut out = String::from_str("{\"title\":");
    let t = json_str(doc.title.as_str());
    out.append(t.as_str());
    out.append(",\"company\":");
    let c = json_str(doc.company.as_str());
    out.append(c.as_str());
    out.append(",\"revision\":");
    let rv = json_str(doc.revision.as_str());
    out.append(rv.as_str());
    out.append(",\"date\":");
    let d = json_str(doc.date.as_str());
    out.append(d.as_str());
    out.append("}");
    proof {
        assert(out@ =~= metadata_json_of(*doc));
    }
    out
}

/// The board bounding box block of the payload document.
pub open spec fn edges_bbox_json_of(doc: InteractiveHtmlBom) -> Seq<char> {
    "{\"minx\":"@ + milli_of(doc.bottom_left.0 as int) + ",\"maxx\":"@ + milli_of(
        doc.top_right.0 as int,
    ) + ",\"miny\":"@ + milli_of(doc.bottom_left.1 as int) + ",\"maxy\":"@ + milli_of(
        doc.top_right.1 as int,
    ) + "}"@
}

/// Render the board bounding box block.
fn edges_bbox_json(doc: &InteractiveHtmlBom) -> (r: String)
    ensures
        r@ == edges_bbox_json_of(*doc),
{
    let mut out = String::from_str("{\"minx\":");
    let a = fmt_milli(doc.bottom_left.0 as i64);
    out.append(a.as_str());
    out.append(",\"maxx\":");
    let b = fmt_milli(doc.top_right.0 as i64);
    out.append(b.as_str());
    out.append(",\"miny\":");
    let c = fmt_milli(doc.bottom_left.1 as i64);
    out.append(c.as_str());
    out.append(",\"maxy\":");
    let d = fmt_milli(doc.top_right.1 as i64);
    out.append(d.as_str());
    out.append("}");
    proof {
        assert(out@ =~= edges_bbox_json_of(*doc));
    }
    out
}

/// The drawings block: the silkscreen and fabrication groups, each split
/// into front and back lists.
pub open spec fn drawings_block_of(doc: InteractiveHtmlBom) -> Seq<char> {
    "{\"silkscreen\":{\"F\":["@ + join_comma(
        drawing_items(doc.drawings@, DrawingLayer::SilkscreenFront),
    ) + "],\"B\":["@ + join_comma(drawing_items(doc.drawings@, DrawingLayer::SilkscreenBack))
        + "]},\"fabrication\":{\"F\":["@ + join_comma(
        drawing_items(doc.drawings@, DrawingLayer::FabricationFront),
    ) + "],\"B\":["@ + join_comma(drawing_items(doc.drawings@, DrawingLayer::FabricationBack))
        + "]}}"@
}

/// Render the drawings block.
fn drawings_block(doc: &InteractiveHtmlBom) -> (r: String)
    ensures
        r@ == drawings_block_of(*doc),
{
    let mut out = String::from_str("{\"silkscreen\":{\"F\":[");
    let sf = drawing_strs(&doc.drawings, DrawingLayer::SilkscreenFront);
    let sfj = join_all(&sf);
    out.append(sfj.as_str());
    out.append("],\"B\":[");
    let sb = drawing_strs(&doc.drawings, DrawingLayer::SilkscreenBack);
    let sbj = join_all(&sb);
    out.append(sbj.as_str());
    out.append("]},\"fabrication\":{\"F\":[");
    let ff = drawing_strs(&doc.drawings, DrawingLayer::FabricationFront);
    let ffj = join_all(&ff);
    out.append(ffj.as_str());
    out.append("],\"B\":[");
    let fb = drawing_strs(&doc.drawings, DrawingLayer::FabricationBack);
    let fbj = join_all(&fb);
    out.append(fbj.as_str());
    out.append("]}}");
    proof {
        assert(out@ =~= drawings_block_of(*doc));
    }
    out
}

/// One side of the tracks block: that side's track segments followed by
/// every via present on that side.
pub open spec fn side_tracks_of(ts: Seq<Track>, vs: Seq<Via>, l: Layer) -> Seq<char> {
    "["@ + join_comma(track_items(ts, l) + via_items(vs, l)) + "]"@
}

/// Render one side of the tracks block.
fn side_tracks(ts: &Vec<Track>, vs: &Vec<Via>, l: Layer) -> (r: String)
    ensures
        r@ == side_tracks_of(ts@, vs@, l),
{
    let mut items = track_strs(ts, l);
    let vstrs = via_strs(vs, l);
    proof {
        assert(str_views(items@) =~= track_items(ts@, l) + str_views(vstrs@).take(0));
    }
    let mut k: usize = 0;
    while k < vstrs.len()
        invariant
            k <= vstrs@.len(),
            str_views(vstrs@) == via_items(vs@, l),
            str_views(items@) == track_items(ts@, l) + str_views(vstrs@).take(k as int),
        decreases vstrs@.len() - k,
    {
        let ghost pre = str_views(items@);
        let s = vstrs[k].clone();
        items.push(s);
        proof {
            assert(str_views(vstrs@).take(k + 1).drop_last() =~= str_views(vstrs@).take(k as int));
            assert(str_views(vstrs@).take(k + 1).last() == vstrs@[k as int]@);
            assert(str_views(items@) =~= pre + seq![vstrs@[k as int]@]);
            assert(pre + seq![vstrs@[k as int]@] =~= track_items(ts@, l) + str_views(vstrs@).take(
                k + 1,
            ));
        }
        k = k + 1;
    }
    proof {
        assert(str_views(vstrs@).take(vstrs@.len() as int) =~= str_views(vstrs@));
    }
    bracket_join(&items)
}

/// The tracks block, split into front and back.
pub open spec fn tracks_block_of(doc: InteractiveHtmlBom) -> Seq<char> {
    "{\"F\":"@ + side_tracks_of(doc.tracks@, doc.vias@, Layer::Front) + ",\"B\":"@ + side_tracks_of(
        doc.tracks@,
        doc.vias@,
        Layer::Back,
    ) + "}"@
}

/// Render the tracks block.
fn tracks_block(doc: &InteractiveHtmlBom) -> (r: String)
    ensures
        r@ == tracks_block_of(*doc),
{
    let mut out = String::from_str("{\"F\":");
    let f = side_tracks(&doc.tracks, &doc.vias, Layer::Front);
    out.append(f.as_str());
    out.append(",\"B\":");
    let b = side_tracks(&doc.tracks, &doc.vias, Layer::Back);
    out.append(b.as_str());
    out.append("}");
    proof {
        assert(out@ =~= tracks_block_of(*doc));
    }
    out
}

/// The zones block, split into front and back.
pub open spec fn zones_block_of(doc: InteractiveHtmlBom) -> Seq<char> {
    "{\"F\":["@ + join_comma(zone_items(doc.zones@, Layer::Front)) + "],\"B\":["@ + join_comma(
        zone_items(doc.zones@, Layer::Back),
    ) + "]}"@
}

/// Render the zones block.
fn zones_block(doc: &InteractiveHtmlBom) -> (r: String)
    ensures
        r@ == zones_block_of(*doc),
{
    let mut out = String::from_str("{\"F\":[");
    let f = zone_strs(&doc.zones, Layer::Front);
    let fj = join_all(&f);
    out.append(fj.as_str());
    out.append("],\"B\":[");
    let b = zone_strs(&doc.zones, Layer::Back);
    let bj = join_all(&b);
    out.append(bj.as_str());
    out.append("]}");
    proof {
        assert(out@ =~= zones_block_of(*doc));
    }
    out
}

/// The BOM block: the three row collections, the do-not-place list and
/// the per-footprint field values keyed by index.
pub open spec fn bom_block_of(doc: InteractiveHtmlBom) -> Seq<char> {
    "{\"F\":["@ + join_comma(row_items(doc.bom_front@)) + "],\"B\":["@ + join_comma(
        row_items(doc.bom_back@),
    ) + "],\"both\":["@ + join_comma(row_items(doc.bom_both@)) + "],\"skipped\":["@ + join_comma(
        id_items(dnp_of(doc.footprints@)),
    ) + "],\"fields\":{"@ + join_comma(field_entry_items(doc.footprints@)) + "}}"@
}

/// Render the BOM block.
fn bom_block(doc: &InteractiveHtmlBom) -> (r: String)
    ensures
        r@ == bom_block_of(*doc),
{
    let mut out = String::from_str("{\"F\":[");
    let f = row_strs(&doc.bom_front);
    let fj = join_all(&f);
    out.append(fj.as_str());
    out.append("],\"B\":[");
    let b = row_strs(&doc.bom_back);
    let bj = join_all(&b);
    out.append(bj.as_str());
    out.append("],\"both\":[");
    let both = row_strs(&doc.bom_both);
    let bothj = join_all(&both);
    out.append(bothj.as_str());
    out.append("],\"skipped\":[");
    let ids = dnp_ids(&doc.footprints);
    let idstrs = id_strs(&ids);
    let idj = join_all(&idstrs);
    out.append(idj.as_str());
    out.append("],\"fields\":{");
    let fe = field_entry_strs(&doc.footprints);
    let fej = join_all(&fe);
    out.append(fej.as_str());
    out.append("}}");
    proof {
        assert(out@ =~= bom_block_of(*doc));
    }
    out
}

/// The payload document: the versioned envelope with the metadata block,
/// the board bounding box, the edge drawings, the grouped drawings,
/// tracks and zones, the net list, the footprints and the BOM block.
pub open spec fn payload_json_of(doc: InteractiveHtmlBom) -> Seq<char> {
    "{\"ibom_version\":\"2.9.0\",\"metadata\":"@ + metadata_json_of(doc) + ",\"edges_bbox\":"@
        + edges_bbox_json_of(doc) + ",\"edges\":["@ + join_comma(
        drawing_items(doc.drawings@, DrawingLayer::Edge),
    ) + "],\"drawings\":"@ + drawings_block_of(doc) + ",\"tracks\":"@ + tracks_block_of(doc)
        + ",\"zones\":"@ + zones_block_of(doc) + ",\"nets\":["@ + join_comma(
        jstr_items(nets_of(doc.footprints@)),
    ) + "],\"footprints\":["@ + join_comma(footprint_items(doc.footprints@)) + "],\"bom\":"@
        + bom_block_of(doc) + "}"@
}

/// Render the payload document.
pub fn payload_json(doc: &InteractiveHtmlBom) -> (r: String)
    ensures
        r@ == payload_json_of(*doc),
{
    let mut out = String::from_str("{\"ibom_version\":\"2.9.0\",\"metadata\":");
    let md = metadata_json(doc);
    out.append(md.as_str());
    out.append(",\"edges_bbox\":");
    let bb = edges_bbox_json(doc);
    out.append(bb.as_str());
    out.append(",\"edges\":[");
    let ed = drawing_strs(&doc.drawings, DrawingLayer::Edge);
    let edj = join_all(&ed);
    out.append(edj.as_str());
    out.append("],\"drawings\":");
    let db = drawings_block(doc);
    out.append(db.as_str());
    out.append(",\"tracks\":");
    let tb = tracks_block(doc);
    out.append(tb.as_str());
    out.append(",\"zones\":");
    let zb = zones_block(doc);
    out.append(zb.as_str());
    out.append(",\"nets\":[");
    let ns = nets(&doc.footprints);
    let nstrs = jstr_strs(&ns);
    let nj = join_all(&nstrs);
    out.append(nj.as_str());
    out.append("],\"footprints\":[");
    let fps = footprint_strs(&doc.footprints);
    let fpj = join_all(&fps);
    out.append(fpj.as_str());
    out.append("],\"bom\":");
    let bom = bom_block(doc);
    out.append(bom.as_str());
    out.append("}");
    proof {
        assert(out@ =~= payload_json_of(*doc));
    }
    out
}

/// The bundled style sheet of the page template.
pub open spec fn css_text() -> Seq<char> {
    "body { margin: 0; font-family: sans-serif; }"@
}

/// The part of the page before the config definition: the template head
/// with the style sheet and the user-supplied header in their slots.
pub open spec fn page_prefix(doc: InteractiveHtmlBom) -> Seq<char> {
    "<html>"@ + "\n<head>\n<meta charset=\"utf-8\">\n<title>Interactive HTML BOM</title>\n<style>\n"@
        + css_text() + "\n</style>\n</head>\n<body>\n"@ + doc.user_header@
        + "\n<div id=\"bom\"></div>\n<script>\n"@
}

/// The part of the page after the payload definition: the user-supplied
/// script and footer in their slots, and the template tail.
pub open spec fn page_suffix(doc: InteractiveHtmlBom) -> Seq<char> {
    "\n"@ + doc.user_js@ + "\n</script>\n"@ + doc.user_footer@ + "\n</body>\n</html>\n"@
}

/// The final page: the bundled template with the style sheet, the two
/// variable definitions and the three user-supplied texts substituted
/// into their slots.
pub open spec fn html_of(doc: InteractiveHtmlBom) -> Seq<char> {
    page_prefix(doc) + config_var_of(config_json_of(doc)) + "\n"@ + pcbdata_var_of(
        payload_json_of(doc),
    ) + page_suffix(doc)
}

/// Every reference mapping of every BOM row of the document points to an
/// existing footprint.
pub open spec fn refs_ok_doc(doc: InteractiveHtmlBom) -> bool {
    &&& rows_ok(doc.bom_front@, doc.footprints@.len())
    &&& rows_ok(doc.bom_back@, doc.footprints@.len())
    &&& rows_ok(doc.bom_both@, doc.footprints@.len())
}

/// Every footprint of the document carries as many field values as the
/// document declares field names.
pub open spec fn fields_ok_doc(doc: InteractiveHtmlBom) -> bool {
    fields_ok(doc.footprints@, doc.fields@.len())
}

/// The message of the invalid-reference error.
pub open spec fn invalid_ref_msg() -> Seq<char> {
    "Invalid footprint ID."@
}

/// The message of the field-count-mismatch error.
pub open spec fn field_count_msg() -> Seq<char> {
    "Inconsistent number of fields."@
}

impl InteractiveHtmlBom {
    /// Generate the final HTML page.
    ///
    /// Validation runs first: if some BOM row references a nonexistent
    /// footprint index the invalid-reference error is returned, else if
    /// some footprint's field count disagrees with the declared field
    /// names the field-count error is returned; otherwise the assembled
    /// page is returned.
    pub fn generate_html(&self) -> (r: Result<String, String>)
        ensures
            r is Ok <==> refs_ok_doc(*self) && fields_ok_doc(*self),
            r is Ok ==> r->Ok_0@ == html_of(*self),
            !refs_ok_doc(*self) ==> r is Err && r->Err_0@ == invalid_ref_msg(),
            refs_ok_doc(*self) && !fields_ok_doc(*self) ==> r is Err && r->Err_0@
                == field_count_msg(),
    {
        let n = self.footprints.len();
        let refs_valid = check_rows(&self.bom_back, n) && check_rows(&self.bom_front, n)
            && check_rows(&self.bom_both, n);
        if !refs_valid {
            return Err("Invalid footprint ID.".to_owned());
        }
        if !check_fields(&self.footprints, self.fields.len()) {
            return Err("Inconsistent number of fields.".to_owned());
        }
        Ok(assemble_page(self))
    }
}

/// Assemble the page from the bundled template, the two variable
/// definitions and the user-supplied texts.
#[verifier::rlimit(100)]
fn assemble_page(doc: &InteractiveHtmlBom) -> (r: String)
    ensures
        r@ == html_of(*doc),
{
    let cfg = config_json(doc);
    let cfgv = config_var(cfg.as_str());
    let pj = payload_json(doc);
    let pv = pcbdata_var(pj.as_str());
    let mut out = String::from_str("<html>");
    out.append("\n<head>\n<meta charset=\"utf-8\">\n<title>Interactive HTML BOM</title>\n<style>\n");
    out.append("body { margin: 0; font-family: sans-serif; }");
    out.append("\n</style>\n</head>\n<body>\n");
    out.append(doc.user_header.as_str());
    out.append("\n<div id=\"bom\"></div>\n<script>\n");
    proof {
        assert(out@ =~= page_prefix(*doc));
    }
    let ghost prefix = out@;
    out.append(cfgv.as_str());
    out.append("\n");
    out.append(pv.as_str());
    let ghost upto_payload = out@;
    proof {
        assert(upto_payload == prefix + config_var_of(config_json_of(*doc)) + "\n"@
            + pcbdata_var_of(payload_json_of(*doc)));
    }
    out.append("\n");
    out.append(doc.user_js.as_str());
    out.append("\n</script>\n");
    out.append(doc.user_footer.as_str());
    out.append("\n</body>\n</html>\n");
    proof {
        assert(out@ =~= upto_payload + page_suffix(*doc));
        assert(out@ =~= html_of(*doc));
    }
    out
}

} // verus!
