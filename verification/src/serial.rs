//! Canonical JSON rendering of the entities, one spec function and one
//! executable emitter per entity, plus the grouped item collectors that
//! the payload document is assembled from.

use vstd::prelude::*;
use vstd::string::StringExecFns;
use crate::model::Drawing;
use crate::model::DrawingKind;
use crate::model::DrawingLayer;
use crate::model::Footprint;
use crate::model::Layer;
use crate::model::Pad;
use crate::model::RefMap;
use crate::model::Track;
use crate::model::Via;
use crate::model::Zone;
use crate::text::dec_digits;
use crate::text::fmt_milli;
use crate::text::fmt_u64;
use crate::text::join_all;
use crate::text::join_comma;
use crate::text::json_str;
use crate::text::jstr;
use crate::text::milli_of;
use crate::text::str_views;

verus! {

/// A point as a 2-element JSON pair.
pub open spec fn point_json(p: (i32, i32)) -> Seq<char> {
    "["@ + milli_of(p.0 as int) + ","@ + milli_of(p.1 as int) + "]"@
}

/// Render a point as a 2-element JSON pair.
pub fn point_json_str(p: (i32, i32)) -> (r: String)
    ensures
        r@ == point_json(p),
{
    let mut out = String::from_str("[");
    let x = fmt_milli(p.0 as i64);
    out.append(x.as_str());
    out.append(",");
    let y = fmt_milli(p.1 as i64);
    out.append(y.as_str());
    out.append("]");
    out
}

/// A JSON boolean.
pub open spec fn bool_json(b: bool) -> Seq<char> {
    if b {
        "true"@
    } else {
        "false"@
    }
}

/// A layer as its JSON string, "F" for the front and "B" for the back.
pub open spec fn layer_json(l: Layer) -> Seq<char> {
    match l {
        Layer::Front => "\"F\""@,
        Layer::Back => "\"B\""@,
    }
}

/// Render a layer as its JSON string.
pub fn layer_json_str(l: Layer) -> (r: &'static str)
    ensures
        r@ == layer_json(l),
{
    match l {
        Layer::Front => "\"F\"",
        Layer::Back => "\"B\"",
    }
}

/// The optional `net` member: present exactly when a net name is set.
pub open spec fn net_suffix(net: Option<String>) -> Seq<char> {
    match net {
        Some(n) => ",\"net\":"@ + jstr(n@),
        None => Seq::<char>::empty(),
    }
}

/// Append the optional `net` member.
pub fn append_net_suffix(out: &mut String, net: &Option<String>)
    ensures
        final(out)@ == old(out)@ + net_suffix(*net),
{
    match net {
        Some(n) => {
            out.append(",\"net\":");
            let j = json_str(n.as_str());
            out.append(j.as_str());
        },
        None => {},
    }
    proof {
        assert(final(out)@ =~= old(out)@ + net_suffix(*net));
    }
}

/// A drawing as a JSON object. The polygon kind carries `type` and
/// `width`, the text kinds carry `thickness` and their `ref`/`val` mark.
pub open spec fn drawing_json(d: Drawing) -> Seq<char> {
    "{\"svgpath\":"@ + jstr(d.svgpath@) + ",\"filled\":"@ + bool_json(d.filled) + match d.kind {
        DrawingKind::Polygon => ",\"type\":\"polygon\",\"width\":"@ + milli_of(d.width as int)
            + "}"@,
        DrawingKind::ReferenceText => ",\"thickness\":"@ + milli_of(d.width as int) + ",\"ref\":1}"@,
        DrawingKind::ValueText => ",\"thickness\":"@ + milli_of(d.width as int) + ",\"val\":1}"@,
    }
}

/// Render a drawing as a JSON object.
pub fn drawing_json_str(d: &Drawing) -> (r: String)
    ensures
        r@ == drawing_json(*d),
{
    let mut out = String::from_str("{\"svgpath\":");
    let p = json_str(d.svgpath.as_str());
    out.append(p.as_str());
    out.append(",\"filled\":");
    if d.filled {
        out.append("true");
    } else {
        out.append("false");
    }
    let w = fmt_milli(d.width as i64);
    match d.kind {
        DrawingKind::Polygon => {
            out.append(",\"type\":\"polygon\",\"width\":");
            out.append(w.as_str());
            out.append("}");
        },
        DrawingKind::ReferenceText => {
            out.append(",\"thickness\":");
            out.append(w.as_str());
            out.append(",\"ref\":1}");
        },
        DrawingKind::ValueText => {
            out.append(",\"thickness\":");
            out.append(w.as_str());
            out.append(",\"val\":1}");
        },
    }
    proof {
        assert(out@ =~= drawing_json(*d));
    }
    out
}

/// A track as a JSON object.
pub open spec fn track_json(t: Track) -> Seq<char> {
    "{\"start\":"@ + point_json(t.start) + ",\"end\":"@ + point_json(t.end) + ",\"width\":"@
        + milli_of(t.width as int) + net_suffix(t.net) + "}"@
}

/// Render a track as a JSON object.
pub fn track_json_str(t: &Track) -> (r: String)
    ensures
        r@ == track_json(*t),
{
    let mut out = String::from_str("{\"start\":");
    let s = point_json_str(t.start);
    out.append(s.as_str());
    out.append(",\"end\":");
    let e = point_json_str(t.end);
    out.append(e.as_str());
    out.append(",\"width\":");
    let w = fmt_milli(t.width as i64);
    out.append(w.as_str());
    append_net_suffix(&mut out, &t.net);
    out.append("}");
    proof {
        assert(out@ =~= track_json(*t));
    }
    out
}

/// A via as a JSON object: a zero-length segment at its center, its outer
/// diameter as the width, and its drill diameter.
pub open spec fn via_json(v: Via) -> Seq<char> {
    "{\"start\":"@ + point_json(v.pos) + ",\"end\":"@ + point_json(v.pos) + ",\"width\":"@
        + milli_of(v.diameter as int) + ",\"drillsize\":"@ + milli_of(v.drill_diameter as int)
        + net_suffix(v.net) + "}"@
}

/// Render a via as a JSON object.
pub fn via_json_str(v: &Via) -> (r: String)
    ensures
        r@ == via_json(*v),
{
    let mut out = String::from_str("{\"start\":");
    let s = point_json_str(v.pos);
    out.append(s.as_str());
    out.append(",\"end\":");
    out.append(s.as_str());
    out.append(",\"width\":");
    let w = fmt_milli(v.diameter as i64);
    out.append(w.as_str());
    out.append(",\"drillsize\":");
    let dd = fmt_milli(v.drill_diameter as i64);
    out.append(dd.as_str());
    append_net_suffix(&mut out, &v.net);
    out.append("}");
    proof {
        assert(out@ =~= via_json(*v));
    }
    out
}

/// A zone as a JSON object.
pub open spec fn zone_json(z: Zone) -> Seq<char> {
    "{\"svgpath\":"@ + jstr(z.svgpath@) + net_suffix(z.net) + "}"@
}

/// Render a zone as a JSON object.
pub fn zone_json_str(z: &Zone) -> (r: String)
    ensures
        r@ == zone_json(*z),
{
    let mut out = String::from_str("{\"svgpath\":");
    let p = json_str(z.svgpath.as_str());
    out.append(p.as_str());
    append_net_suffix(&mut out, &z.net);
    out.append("}");
    proof {
        assert(out@ =~= zone_json(*z));
    }
    out
}

/// The JSON strings of the given layers, in order.
pub open spec fn layer_items(ls: Seq<Layer>) -> Seq<Seq<char>>
    decreases ls.len(),
{
    if ls.len() == 0 {
        Seq::<Seq<char>>::empty()
    } else {
        layer_items(ls.drop_last()) + seq![layer_json(ls.last())]
    }
}

/// Render the given layers as JSON strings.
pub fn layer_strs(ls: &Vec<Layer>) -> (r: Vec<String>)
    ensures
        str_views(r@) == layer_items(ls@),
{
    let mut out: Vec<String> = Vec::new();
    let mut i: usize = 0;
    while i < ls.len()
        invariant
            i <= ls@.len(),
            str_views(out@) == layer_items(ls@.take(i as int)),
        decreases ls@.len() - i,
    {
        proof {
            assert(ls@.take(i + 1).drop_last() =~= ls@.take(i as int));
            assert(ls@.take(i + 1).last() == ls@[i as int]);
        }
        out.push(String::from_str(layer_json_str(ls[i])));
        proof {
            assert(str_views(out@) =~= layer_items(ls@.take(i + 1)));
        }
        i = i + 1;
    }
    proof {
        assert(ls@.take(ls@.len() as int) =~= ls@);
    }
    out
}

/// The drill shape string of a through-hole pad: "oblong" for a drill
/// whose width and height differ, "circle" otherwise.
pub open spec fn drill_shape(w: i32, h: i32) -> Seq<char> {
    if w != h {
        "\"oblong\""@
    } else {
        "\"circle\""@
    }
}

/// The pad-type members: through-hole pads carry `type` "th" with the
/// drill pair and its shape, surface-mount pads carry `type` "smd" and no
/// drill members.
pub open spec fn drill_suffix(d: Option<(i32, i32)>) -> Seq<char> {
    match d {
        Some(wh) => ",\"type\":\"th\",\"drillsize\":["@ + milli_of(wh.0 as int) + ","@ + milli_of(
            wh.1 as int,
        ) + "],\"drillshape\":"@ + drill_shape(wh.0, wh.1),
        None => ",\"type\":\"smd\""@,
    }
}

/// The optional `pin1` mark: present exactly when the flag is set.
pub open spec fn pin1_suffix(b: bool) -> Seq<char> {
    if b {
        ",\"pin1\":1"@
    } else {
        Seq::<char>::empty()
    }
}

/// A pad as a JSON object.
pub open spec fn pad_json(p: Pad) -> Seq<char> {
    "{\"layers\":["@ + join_comma(layer_items(p.layers@)) + "],\"pos\":"@ + point_json(p.pos)
        + ",\"angle\":"@ + milli_of(p.angle as int) + ",\"shape\":\"custom\",\"svgpath\":"@ + jstr(
        p.svgpath@,
    ) + drill_suffix(p.drill_size) + net_suffix(p.net) + pin1_suffix(p.pin1) + "}"@
}

/// Render a pad as a JSON object.
#[verifier::rlimit(60)]
pub fn pad_json_str(p: &Pad) -> (r: String)
    ensures
        r@ == pad_json(*p),
{
    let mut out = String::from_str("{\"layers\":[");
    let ls = layer_strs(&p.layers);
    let lj = join_all(&ls);
    out.append(lj.as_str());
    out.append("],\"pos\":");
    let pos = point_json_str(p.pos);
    out.append(pos.as_str());
    out.append(",\"angle\":");
    let a = fmt_milli(p.angle as i64);
    out.append(a.as_str());
    out.append(",\"shape\":\"custom\",\"svgpath\":");
    let sp = json_str(p.svgpath.as_str());
    out.append(sp.as_str());
    match p.drill_size {
        Some(wh) => {
            out.append(",\"type\":\"th\",\"drillsize\":[");
            let w = fmt_milli(wh.0 as i64);
            out.append(w.as_str());
            out.append(",");
            let h = fmt_milli(wh.1 as i64);
            out.append(h.as_str());
            out.append("],\"drillshape\":");
            if wh.0 != wh.1 {
                out.append("\"oblong\"");
            } else {
                out.append("\"circle\"");
            }
        },
        None => {
            out.append(",\"type\":\"smd\"");
        },
    }
    append_net_suffix(&mut out, &p.net);
    if p.pin1 {
        out.append(",\"pin1\":1");
    }
    out.append("}");
    proof {
        assert(out@ =~= pad_json(*p));
    }
    out
}

/// The JSON objects of the given pads, in order.
pub open spec fn pad_items(ps: Seq<Pad>) -> Seq<Seq<char>>
    decreases ps.len(),
{
    if ps.len() == 0 {
        Seq::<Seq<char>>::empty()
    } else {
        pad_items(ps.drop_last()) + seq![pad_json(ps.last())]
    }
}

/// Render the given pads as JSON objects.
pub fn pad_strs(ps: &Vec<Pad>) -> (r: Vec<String>)
    ensures
        str_views(r@) == pad_items(ps@),
{
    let mut out: Vec<String> = Vec::new();
    let mut i: usize = 0;
    while i < ps.len()
        invariant
            i <= ps@.len(),
            str_views(out@) == pad_items(ps@.take(i as int)),
        decreases ps@.len() - i,
    {
        proof {
            assert(ps@.take(i + 1).drop_last() =~= ps@.take(i as int));
            assert(ps@.take(i + 1).last() == ps@[i as int]);
        }
        let j = pad_json_str(&ps[i]);
        out.push(j);
        proof {
            assert(str_views(out@) =~= pad_items(ps@.take(i + 1)));
        }
        i = i + 1;
    }
    proof {
        assert(ps@.take(ps@.len() as int) =~= ps@);
    }
    out
}

/// A footprint as a JSON object: its bounding box (position, angle,
/// relative corner and extent), an empty drawings list, its layer and its
/// pads.
pub open spec fn footprint_json(f: Footprint) -> Seq<char> {
    "{\"bbox\":{\"pos\":"@ + point_json(f.pos) + ",\"angle\":"@ + milli_of(f.angle as int)
        + ",\"relpos\":"@ + point_json(f.bottom_left) + ",\"size\":["@ + milli_of(
        f.top_right.0 as int - f.bottom_left.0 as int,
    ) + ","@ + milli_of(f.top_right.1 as int - f.bottom_left.1 as int) + "]},\"drawings\":[],\"layer\":"@
        + layer_json(f.layer) + ",\"pads\":["@ + join_comma(pad_items(f.pads@)) + "]}"@
}

/// Render a footprint as a JSON object.
pub fn footprint_json_str(f: &Footprint) -> (r: String)
    ensures
        r@ == footprint_json(*f),
{
    let mut out = String::from_str("{\"bbox\":{\"pos\":");
    let pos = point_json_str(f.pos);
    out.append(pos.as_str());
    out.append(",\"angle\":");
    let a = fmt_milli(f.angle as i64);
    out.append(a.as_str());
    out.append(",\"relpos\":");
    let bl = point_json_str(f.bottom_left);
    out.append(bl.as_str());
    out.append(",\"size\":[");
    let sx = fmt_milli(f.top_right.0 as i64 - f.bottom_left.0 as i64);
    out.append(sx.as_str());
    out.append(",");
    let sy = fmt_milli(f.top_right.1 as i64 - f.bottom_left.1 as i64);
    out.append(sy.as_str());
    out.append("]},\"drawings\":[],\"layer\":");
    out.append(layer_json_str(f.layer));
    out.append(",\"pads\":[");
    let ps = pad_strs(&f.pads);
    let pj = join_all(&ps);
    out.append(pj.as_str());
    out.append("]}");
    proof {
        assert(out@ =~= footprint_json(*f));
    }
    out
}

/// A reference mapping as a 2-element JSON pair of designator and index.
pub open spec fn refmap_json(m: RefMap) -> Seq<char> {
    "["@ + jstr(m.reference@) + ","@ + dec_digits(m.footprint_id as int) + "]"@
}

/// Render a reference mapping as a 2-element JSON pair.
pub fn refmap_json_str(m: &RefMap) -> (r: String)
    ensures
        r@ == refmap_json(*m),
{
    let mut out = String::from_str("[");
    let rf = json_str(m.reference.as_str());
    out.append(rf.as_str());
    out.append(",");
    let id = fmt_u64(m.footprint_id as u64);
    out.append(id.as_str());
    out.append("]");
    proof {
        assert(out@ =~= refmap_json(*m));
    }
    out
}

/// The JSON pairs of the given reference mappings, in order.
pub open spec fn refmap_items(ms: Seq<RefMap>) -> Seq<Seq<char>>
    decreases ms.len(),
{
    if ms.len() == 0 {
        Seq::<Seq<char>>::empty()
    } else {
        refmap_items(ms.drop_last()) + seq![refmap_json(ms.last())]
    }
}

/// A BOM row as a JSON list of reference mappings.
pub open spec fn row_json(row: Seq<RefMap>) -> Seq<char> {
    "["@ + join_comma(refmap_items(row)) + "]"@
}

/// Render a BOM row as a JSON list.
pub fn row_json_str(row: &Vec<RefMap>) -> (r: String)
    ensures
        r@ == row_json(row@),
{
    let mut items: Vec<String> = Vec::new();
    let mut i: usize = 0;
    while i < row.len()
        invariant
            i <= row@.len(),
            str_views(items@) == refmap_items(row@.take(i as int)),
        decreases row@.len() - i,
    {
        proof {
            assert(row@.take(i + 1).drop_last() =~= row@.take(i as int));
            assert(row@.take(i + 1).last() == row@[i as int]);
        }
        let j = refmap_json_str(&row[i]);
        items.push(j);
        proof {
            assert(str_views(items@) =~= refmap_items(row@.take(i + 1)));
        }
        i = i + 1;
    }
    proof {
        assert(row@.take(row@.len() as int) =~= row@);
    }
    let mut out = String::from_str("[");
    let j = join_all(&items);
    out.append(j.as_str());
    out.append("]");
    out
}

/// The JSON lists of the given BOM rows, in order.
pub open spec fn row_items(rows: Seq<Vec<RefMap>>) -> Seq<Seq<char>>
    decreases rows.len(),
{
    if rows.len() == 0 {
        Seq::<Seq<char>>::empty()
    } else {
        row_items(rows.drop_last()) + seq![row_json(rows.last()@)]
    }
}

/// Render the given BOM rows as JSON lists.
pub fn row_strs(rows: &Vec<Vec<RefMap>>) -> (r: Vec<String>)
    ensures
        str_views(r@) == row_items(rows@),
{
    let mut out: Vec<String> = Vec::new();
    let mut i: usize = 0;
    while i < rows.len()
        invariant
            i <= rows@.len(),
            str_views(out@) == row_items(rows@.take(i as int)),
        decreases rows@.len() - i,
    {
        proof {
            assert(rows@.take(i + 1).drop_last() =~= rows@.take(i as int));
            assert(rows@.take(i + 1).last() == rows@[i as int]);
        }
        let j = row_json_str(&rows[i]);
        out.push(j);
        proof {
            assert(str_views(out@) =~= row_items(rows@.take(i + 1)));
        }
        i = i + 1;
    }
    proof {
        assert(rows@.take(rows@.len() as int) =~= rows@);
    }
    out
}

/// The JSON objects of the drawings on one drawing layer, in order.
pub open spec fn drawing_items(ds: Seq<Drawing>, l: DrawingLayer) -> Seq<Seq<char>>
    decreases ds.len(),
{
    if ds.len() == 0 {
        Seq::<Seq<char>>::empty()
    } else {
        drawing_items(ds.drop_last(), l) + if ds.last().layer == l {
            seq![drawing_json(ds.last())]
        } else {
            Seq::<Seq<char>>::empty()
        }
    }
}

/// Render the drawings of one drawing layer as JSON objects.
pub fn drawing_strs(ds: &Vec<Drawing>, l: DrawingLayer) -> (r: Vec<String>)
    ensures
        str_views(r@) == drawing_items(ds@, l),
{
    let mut out: Vec<String> = Vec::new();
    let mut i: usize = 0;
    while i < ds.len()
        invariant
            i <= ds@.len(),
            str_views(out@) == drawing_items(ds@.take(i as int), l),
        decreases ds@.len() - i,
    {
        proof {
            assert(ds@.take(i + 1).drop_last() =~= ds@.take(i as int));
            assert(ds@.take(i + 1).last() == ds@[i as int]);
        }
        if ds[i].layer == l {
            let j = drawing_json_str(&ds[i]);
            out.push(j);
            proof {
                assert(str_views(out@) =~= drawing_items(ds@.take(i + 1), l));
            }
        } else {
            proof {
                assert(str_views(out@) =~= drawing_items(ds@.take(i + 1), l));
            }
        }
        i = i + 1;
    }
    proof {
        assert(ds@.take(ds@.len() as int) =~= ds@);
    }
    out
}

/// The JSON objects of the tracks on one board side, in order.
pub open spec fn track_items(ts: Seq<Track>, l: Layer) -> Seq<Seq<char>>
    decreases ts.len(),
{
    if ts.len() == 0 {
        Seq::<Seq<char>>::empty()
    } else {
        track_items(ts.drop_last(), l) + if ts.last().layer == l {
            seq![track_json(ts.last())]
        } else {
            Seq::<Seq<char>>::empty()
        }
    }
}

/// Render the tracks of one board side as JSON objects.
pub fn track_strs(ts: &Vec<Track>, l: Layer) -> (r: Vec<String>)
    ensures
        str_views(r@) == track_items(ts@, l),
{
    let mut out: Vec<String> = Vec::new();
    let mut i: usize = 0;
    while i < ts.len()
        invariant
            i <= ts@.len(),
            str_views(out@) == track_items(ts@.take(i as int), l),
        decreases ts@.len() - i,
    {
        proof {
            assert(ts@.take(i + 1).drop_last() =~= ts@.take(i as int));
            assert(ts@.take(i + 1).last() == ts@[i as int]);
        }
        if ts[i].layer == l {
            let j = track_json_str(&ts[i]);
            out.push(j);
        }
        proof {
            assert(str_views(out@) =~= track_items(ts@.take(i + 1), l));
        }
        i = i + 1;
    }
    proof {
        assert(ts@.take(ts@.len() as int) =~= ts@);
    }
    out
}

/// Whether the given layer is among the given layers.
pub fn contains_layer(ls: &Vec<Layer>, l: Layer) -> (r: bool)
    ensures
        r == ls@.contains(l),
{
    let mut i: usize = 0;
    while i < ls.len()
        invariant
            i <= ls@.len(),
            forall|k: int| 0 <= k < i ==> ls@[k] != l,
        decreases ls@.len() - i,
    {
        if ls[i] == l {
            return true;
        }
        i = i + 1;
    }
    false
}

/// The JSON objects of the vias present on one board side, in order.
pub open spec fn via_items(vs: Seq<Via>, l: Layer) -> Seq<Seq<char>>
    decreases vs.len(),
{
    if vs.len() == 0 {
        Seq::<Seq<char>>::empty()
    } else {
        via_items(vs.drop_last(), l) + if vs.last().layers@.contains(l) {
            seq![via_json(vs.last())]
        } else {
            Seq::<Seq<char>>::empty()
        }
    }
}

/// Render the vias present on one board side as JSON objects.
pub fn via_strs(vs: &Vec<Via>, l: Layer) -> (r: Vec<String>)
    ensures
        str_views(r@) == via_items(vs@, l),
{
    let mut out: Vec<String> = Vec::new();
    let mut i: usize = 0;
    while i < vs.len()
        invariant
            i <= vs@.len(),
            str_views(out@) == via_items(vs@.take(i as int), l),
        decreases vs@.len() - i,
    {
        proof {
            assert(vs@.take(i + 1).drop_last() =~= vs@.take(i as int));
            assert(vs@.take(i + 1).last() == vs@[i as int]);
        }
        if contains_layer(&vs[i].layers, l) {
            let j = via_json_str(&vs[i]);
            out.push(j);
        }
        proof {
            assert(str_views(out@) =~= via_items(vs@.take(i + 1), l));
        }
        i = i + 1;
    }
    proof {
        assert(vs@.take(vs@.len() as int) =~= vs@);
    }
    out
}

/// The JSON objects of the zones on one board side, in order.
pub open spec fn zone_items(zs: Seq<Zone>, l: Layer) -> Seq<Seq<char>>
    decreases zs.len(),
{
    if zs.len() == 0 {
        Seq::<Seq<char>>::empty()
    } else {
        zone_items(zs.drop_last(), l) + if zs.last().layer == l {
            seq![zone_json(zs.last())]
        } else {
            Seq::<Seq<char>>::empty()
        }
    }
}

/// Render the zones of one board side as JSON objects.
pub fn zone_strs(zs: &Vec<Zone>, l: Layer) -> (r: Vec<String>)
    ensures
        str_views(r@) == zone_items(zs@, l),
{
    let mut out: Vec<String> = Vec::new();
    let mut i: usize = 0;
    while i < zs.len()
        invariant
            i <= zs@.len(),
            str_views(out@) == zone_items(zs@.take(i as int), l),
        decreases zs@.len() - i,
    {
        proof {
            assert(zs@.take(i + 1).drop_last() =~= zs@.take(i as int));
            assert(zs@.take(i + 1).last() == zs@[i as int]);
        }
        if zs[i].layer == l {
            let j = zone_json_str(&zs[i]);
            out.push(j);
        }
        proof {
            assert(str_views(out@) =~= zone_items(zs@.take(i + 1), l));
        }
        i = i + 1;
    }
    proof {
        assert(zs@.take(zs@.len() as int) =~= zs@);
    }
    out
}

/// The JSON objects of all footprints, in order.
pub open spec fn footprint_items(fs: Seq<Footprint>) -> Seq<Seq<char>>
    decreases fs.len(),
{
    if fs.len() == 0 {
        Seq::<Seq<char>>::empty()
    } else {
        footprint_items(fs.drop_last()) + seq![footprint_json(fs.last())]
    }
}

/// Render all footprints as JSON objects.
pub fn footprint_strs(fs: &Vec<Footprint>) -> (r: Vec<String>)
    ensures
        str_views(r@) == footprint_items(fs@),
{
    let mut out: Vec<String> = Vec::new();
    let mut i: usize = 0;
    while i < fs.len()
        invariant
            i <= fs@.len(),
            str_views(out@) == footprint_items(fs@.take(i as int)),
        decreases fs@.len() - i,
    {
        proof {
            assert(fs@.take(i + 1).drop_last() =~= fs@.take(i as int));
            assert(fs@.take(i + 1).last() == fs@[i as int]);
        }
        let j = footprint_json_str(&fs[i]);
        out.push(j);
        proof {
            assert(str_views(out@) =~= footprint_items(fs@.take(i + 1)));
        }
        i = i + 1;
    }
    proof {
        assert(fs@.take(fs@.len() as int) =~= fs@);
    }
    out
}

/// The given strings as JSON string literals, in order.
pub open spec fn jstr_items(ss: Seq<Seq<char>>) -> Seq<Seq<char>>
    decreases ss.len(),
{
    if ss.len() == 0 {
        Seq::<Seq<char>>::empty()
    } else {
        jstr_items(ss.drop_last()) + seq![jstr(ss.last())]
    }
}

/// Render the given strings as JSON string literals.
pub fn jstr_strs(ss: &Vec<String>) -> (r: Vec<String>)
    ensures
        str_views(r@) == jstr_items(str_views(ss@)),
{
    let mut out: Vec<String> = Vec::new();
    let mut i: usize = 0;
    while i < ss.len()
        invariant
            i <= ss@.len(),
            str_views(out@) == jstr_items(str_views(ss@).take(i as int)),
        decreases ss@.len() - i,
    {
        proof {
            let views = str_views(ss@);
            assert(views.take(i + 1).drop_last() =~= views.take(i as int));
            assert(views.take(i + 1).last() == ss@[i as int]@);
        }
        let j = json_str(ss[i].as_str());
        out.push(j);
        proof {
            assert(str_views(out@) =~= jstr_items(str_views(ss@).take(i + 1)));
        }
        i = i + 1;
    }
    proof {
        assert(str_views(ss@).take(ss@.len() as int) =~= str_views(ss@));
    }
    out
}

/// The decimal renderings of the given indices, in order.
pub open spec fn id_items(ids: Seq<usize>) -> Seq<Seq<char>>
    decreases ids.len(),
{
    if ids.len() == 0 {
        Seq::<Seq<char>>::empty()
    } else {
        id_items(ids.drop_last()) + seq![dec_digits(ids.last() as int)]
    }
}

/// Render the given indices in decimal.
pub fn id_strs(ids: &Vec<usize>) -> (r: Vec<String>)
    ensures
        str_views(r@) == id_items(ids@),
{
    let mut out: Vec<String> = Vec::new();
    let mut i: usize = 0;
    while i < ids.len()
        invariant
            i <= ids@.len(),
            str_views(out@) == id_items(ids@.take(i as int)),
        decreases ids@.len() - i,
    {
        proof {
            assert(ids@.take(i + 1).drop_last() =~= ids@.take(i as int));
            assert(ids@.take(i + 1).last() == ids@[i as int]);
        }
        let j = fmt_u64(ids[i] as u64);
        out.push(j);
        proof {
            assert(str_views(out@) =~= id_items(ids@.take(i + 1)));
        }
        i = i + 1;
    }
    proof {
        assert(ids@.take(ids@.len() as int) =~= ids@);
    }
    out
}

/// The field-value entry of one footprint: its index as the member key,
/// its field values as a JSON list.
pub open spec fn field_entry(i: int, f: Footprint) -> Seq<char> {
    "\""@ + dec_digits(i) + "\":["@ + join_comma(jstr_items(str_views(f.fields@))) + "]"@
}

/// The field-value entries of all footprints, keyed by index, in order.
pub open spec fn field_entry_items(fs: Seq<Footprint>) -> Seq<Seq<char>>
    decreases fs.len(),
{
    if fs.len() == 0 {
        Seq::<Seq<char>>::empty()
    } else {
        field_entry_items(fs.drop_last()) + seq![field_entry(fs.len() - 1, fs.last())]
    }
}

/// Render the field-value entries of all footprints.
pub fn field_entry_strs(fs: &Vec<Footprint>) -> (r: Vec<String>)
    ensures
        str_views(r@) == field_entry_items(fs@),
{
    let mut out: Vec<String> = Vec::new();
    let mut i: usize = 0;
    while i < fs.len()
        invariant
            i <= fs@.len(),
            str_views(out@) == field_entry_items(fs@.take(i as int)),
        decreases fs@.len() - i,
    {
        proof {
            assert(fs@.take(i + 1).drop_last() =~= fs@.take(i as int));
            assert(fs@.take(i + 1).last() == fs@[i as int]);
        }
        let mut entry = String::from_str("\"");
        let key = fmt_u64(i as u64);
        entry.append(key.as_str());
        entry.append("\":[");
        let vals = jstr_strs(&fs[i].fields);
        let vj = join_all(&vals);
        entry.append(vj.as_str());
        entry.append("]");
        proof {
            assert(entry@ =~= field_entry(i as int, fs@[i as int]));
        }
        out.push(entry);
        proof {
            assert(str_views(out@) =~= field_entry_items(fs@.take(i + 1)));
        }
        i = i + 1;
    }
    proof {
        assert(fs@.take(fs@.len() as int) =~= fs@);
    }
    out
}

} // verus!
