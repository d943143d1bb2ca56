//! Entity types of the board model.
//!
//! All geometric quantities (positions, widths, diameters, angles) are
//! fixed-point values in thousandths of a unit: a length of `1500` stands
//! for 1.5 mm, an angle of `45000` for 45 degrees. The serializer renders
//! such a value as a decimal number with the trailing zeros of the
//! fraction removed.

use vstd::prelude::*;

verus! {

/// A board side.
#[derive(Clone, Copy, PartialEq, Eq, Structural, Debug)]
pub enum Layer {
    /// Front layer
    Front,
    /// Back layer
    Back,
}

/// Kind of a drawing.
#[derive(Clone, Copy, PartialEq, Eq, Structural, Debug)]
pub enum DrawingKind {
    /// Polygon
    Polygon,
    /// Component reference designator text
    ReferenceText,
    /// Component value text
    ValueText,
}

/// Layer a drawing belongs to; it selects the grouping bucket of the
/// serialized document, not the geometry.
#[derive(Clone, Copy, PartialEq, Eq, Structural, Debug)]
pub enum DrawingLayer {
    /// PCB edge
    Edge,
    /// Silkscreen front
    SilkscreenFront,
    /// Silkscreen back
    SilkscreenBack,
    /// Fabrication front
    FabricationFront,
    /// Fabrication back
    FabricationBack,
}

/// A drawing: an opaque outline path on one drawing layer.
///
/// For the polygon kind `width` is the line width; for the two text kinds
/// the same field is the glyph thickness.
#[non_exhaustive]
pub struct Drawing {
    /// Drawing kind.
    pub kind: DrawingKind,
    /// Drawing layer.
    pub layer: DrawingLayer,
    /// Outline as an SVG path, passed through unmodified.
    pub svgpath: String,
    /// Line width (polygon) or glyph thickness (text kinds).
    pub width: i32,
    /// Whether the shape is filled.
    pub filled: bool,
}

impl Drawing {
    /// Construct a drawing.
    pub fn new(
        kind: DrawingKind,
        layer: DrawingLayer,
        svgpath: &str,
        width: i32,
        filled: bool,
    ) -> (r: Drawing)
        ensures
            r.kind == kind,
            r.layer == layer,
            r.svgpath@ == svgpath@,
            r.width == width,
            r.filled == filled,
    {
        Drawing { kind, layer, svgpath: svgpath.to_owned(), width, filled }
    }
}

/// A track segment on one board side.
#[non_exhaustive]
pub struct Track {
    /// Layer.
    pub layer: Layer,
    /// Start position (x, y).
    pub start: (i32, i32),
    /// End position (x, y).
    pub end: (i32, i32),
    /// Track width.
    pub width: i32,
    /// Net name (optional).
    pub net: Option<String>,
}

impl Track {
    /// Construct a track.
    pub fn new(
        layer: Layer,
        start: (i32, i32),
        end: (i32, i32),
        width: i32,
        net: Option<&str>,
    ) -> (r: Track)
        ensures
            r.layer == layer,
            r.start == start,
            r.end == end,
            r.width == width,
            opt_str_matches(r.net, net),
    {
        Track { layer, start, end, width, net: own_opt_str(net) }
    }
}

/// Relates an owned optional string to the borrowed one it was made from.
pub open spec fn opt_str_matches(owned: Option<String>, borrowed: Option<&str>) -> bool {
    match borrowed {
        Some(s) => owned is Some && owned->0@ == s@,
        None => owned is None,
    }
}

/// Turn an optional borrowed string into an owned one.
pub fn own_opt_str(s: Option<&str>) -> (r: Option<String>)
    ensures
        opt_str_matches(r, s),
{
    match s {
        Some(v) => Some(v.to_owned()),
        None => None,
    }
}

/// A via connecting a set of board sides.
#[non_exhaustive]
pub struct Via {
    /// Layers the via exists on.
    pub layers: Vec<Layer>,
    /// Center position (x, y).
    pub pos: (i32, i32),
    /// Outer diameter.
    pub diameter: i32,
    /// Drill diameter.
    pub drill_diameter: i32,
    /// Net name (optional).
    pub net: Option<String>,
}

impl Via {
    /// Construct a via.
    pub fn new(
        layers: Vec<Layer>,
        pos: (i32, i32),
        diameter: i32,
        drill_diameter: i32,
        net: Option<&str>,
    ) -> (r: Via)
        ensures
            r.layers@ == layers@,
            r.pos == pos,
            r.diameter == diameter,
            r.drill_diameter == drill_diameter,
            opt_str_matches(r.net, net),
    {
        Via { layers, pos, diameter, drill_diameter, net: own_opt_str(net) }
    }
}

/// A copper zone on one board side.
#[non_exhaustive]
pub struct Zone {
    /// Layer.
    pub layer: Layer,
    /// Zone outline as an SVG path, passed through unmodified.
    pub svgpath: String,
    /// Net name (optional).
    pub net: Option<String>,
}

impl Zone {
    /// Construct a zone.
    pub fn new(layer: Layer, svgpath: &str, net: Option<&str>) -> (r: Zone)
        ensures
            r.layer == layer,
            r.svgpath@ == svgpath@,
            opt_str_matches(r.net, net),
    {
        Zone { layer, svgpath: svgpath.to_owned(), net: own_opt_str(net) }
    }
}

/// A footprint pad.
///
/// A pad with a drill pair is a through-hole pad, one without is a
/// surface-mount pad.
#[non_exhaustive]
pub struct Pad {
    /// Layers on which the pad exists.
    pub layers: Vec<Layer>,
    /// Position (x, y).
    pub pos: (i32, i32),
    /// Rotation angle.
    pub angle: i32,
    /// Pad shape as an SVG path.
    pub svgpath: String,
    /// Drill size (w, h), only for through-hole pads.
    pub drill_size: Option<(i32, i32)>,
    /// Net name (optional).
    pub net: Option<String>,
    /// Whether this pad is the pin 1 of its footprint.
    pub pin1: bool,
}

impl Pad {
    /// Construct a pad.
    pub fn new(
        layers: Vec<Layer>,
        pos: (i32, i32),
        angle: i32,
        svgpath: &str,
        drill_size: Option<(i32, i32)>,
        net: Option<&str>,
        pin1: bool,
    ) -> (r: Pad)
        ensures
            r.layers@ == layers@,
            r.pos == pos,
            r.angle == angle,
            r.svgpath@ == svgpath@,
            r.drill_size == drill_size,
            opt_str_matches(r.net, net),
            r.pin1 == pin1,
    {
        Pad {
            layers,
            pos,
            angle,
            svgpath: svgpath.to_owned(),
            drill_size,
            net: own_opt_str(net),
            pin1,
        }
    }
}

/// A footprint: a placed component with its pads and field values.
#[non_exhaustive]
pub struct Footprint {
    /// Placement layer.
    pub layer: Layer,
    /// Position (x, y).
    pub pos: (i32, i32),
    /// Rotation angle.
    pub angle: i32,
    /// Bottom left corner of the bounding box, relative to `pos`.
    pub bottom_left: (i32, i32),
    /// Top right corner of the bounding box, relative to `pos`.
    pub top_right: (i32, i32),
    /// Custom field values, one per declared field name of the document.
    pub fields: Vec<String>,
    /// Footprint pads.
    pub pads: Vec<Pad>,
    /// Whether the footprint is mounted or not.
    pub mount: bool,
}

impl Footprint {
    /// Construct a footprint.
    pub fn new(
        layer: Layer,
        pos: (i32, i32),
        angle: i32,
        bottom_left: (i32, i32),
        top_right: (i32, i32),
        fields: Vec<String>,
        pads: Vec<Pad>,
        mount: bool,
    ) -> (r: Footprint)
        ensures
            r.layer == layer,
            r.pos == pos,
            r.angle == angle,
            r.bottom_left == bottom_left,
            r.top_right == top_right,
            r.fields@ == fields@,
            r.pads@ == pads@,
            r.mount == mount,
    {
        Footprint { layer, pos, angle, bottom_left, top_right, fields, pads, mount }
    }
}

/// A mapping from a component reference designator to a footprint index.
#[non_exhaustive]
pub struct RefMap {
    /// Component reference (e.g. "R1").
    pub reference: String,
    /// Index of the footprint, as returned when it was appended.
    pub footprint_id: usize,
}

impl RefMap {
    /// Construct a reference mapping.
    pub fn new(reference: &str, footprint_id: usize) -> (r: RefMap)
        ensures
            r.reference@ == reference@,
            r.footprint_id == footprint_id,
    {
        RefMap { reference: reference.to_owned(), footprint_id }
    }
}

/// The top-level document: metadata, display configuration, the entity
/// collections and the BOM rows. Built by a caller, then read as a whole
/// by the generation step.
#[non_exhaustive]
pub struct InteractiveHtmlBom {
    /// Project title.
    pub title: String,
    /// Company/author name.
    pub company: String,
    /// Project revision.
    pub revision: String,
    /// Date/time as desired.
    pub date: String,
    /// Bottom left corner of the board bounding box (x, y).
    pub bottom_left: (i32, i32),
    /// Top right corner of the board bounding box (x, y).
    pub top_right: (i32, i32),
    /// Dark mode on/off.
    pub dark_mode: bool,
    /// Silkscreen visibility.
    pub show_silkscreen: bool,
    /// Fabrication layer visibility.
    pub show_fabrication: bool,
    /// Pads visibility.
    pub show_pads: bool,
    /// Checkbox column names.
    pub checkboxes: Vec<String>,
    /// Custom field names, listed as columns.
    pub fields: Vec<String>,
    /// User-defined HTML header, substituted verbatim.
    pub user_header: String,
    /// User-defined HTML footer, substituted verbatim.
    pub user_footer: String,
    /// User-defined JavaScript, substituted verbatim.
    pub user_js: String,
    /// Drawings (PCB edges, silkscreen, fabrication).
    pub drawings: Vec<Drawing>,
    /// PCB tracks.
    pub tracks: Vec<Track>,
    /// PCB vias.
    pub vias: Vec<Via>,
    /// PCB zones.
    pub zones: Vec<Zone>,
    /// Footprints.
    pub footprints: Vec<Footprint>,
    /// BOM rows front side.
    pub bom_front: Vec<Vec<RefMap>>,
    /// BOM rows back side.
    pub bom_back: Vec<Vec<RefMap>>,
    /// BOM rows front+back.
    pub bom_both: Vec<Vec<RefMap>>,
}

impl InteractiveHtmlBom {
    /// Construct a document with the required metadata and bounding box;
    /// every other setting starts at its documented default.
    pub fn new(
        title: &str,
        company: &str,
        revision: &str,
        date: &str,
        bottom_left: (i32, i32),
        top_right: (i32, i32),
    ) -> (r: InteractiveHtmlBom)
        ensures
            r.title@ == title@,
            r.company@ == company@,
            r.revision@ == revision@,
            r.date@ == date@,
            r.bottom_left == bottom_left,
            r.top_right == top_right,
            !r.dark_mode,
            r.show_silkscreen,
            r.show_fabrication,
            r.show_pads,
            r.checkboxes@.len() == 2,
            r.checkboxes@[0]@ == "Sourced"@,
            r.checkboxes@[1]@ == "Placed"@,
            r.fields@.len() == 0,
            r.user_header@.len() == 0,
            r.user_footer@.len() == 0,
            r.user_js@.len() == 0,
            r.drawings@.len() == 0,
            r.tracks@.len() == 0,
            r.vias@.len() == 0,
            r.zones@.len() == 0,
            r.footprints@.len() == 0,
            r.bom_front@.len() == 0,
            r.bom_back@.len() == 0,
            r.bom_both@.len() == 0,
    {
        let mut checkboxes: Vec<String> = Vec::new();
        checkboxes.push("Sourced".to_owned());
        checkboxes.push("Placed".to_owned());
        InteractiveHtmlBom {
            title: title.to_owned(),
            company: company.to_owned(),
            revision: revision.to_owned(),
            date: date.to_owned(),
            bottom_left,
            top_right,
            dark_mode: false,
            show_silkscreen: true,
            show_fabrication: true,
            show_pads: true,
            checkboxes,
            fields: Vec::new(),
            user_header: String::new(),
            user_footer: String::new(),
            user_js: String::new(),
            drawings: Vec::new(),
            tracks: Vec::new(),
            vias: Vec::new(),
            zones: Vec::new(),
            footprints: Vec::new(),
            bom_front: Vec::new(),
            bom_back: Vec::new(),
            bom_both: Vec::new(),
        }
    }

    /// Append a footprint and return the index assigned to it: its
    /// zero-based position, in call order.
    pub fn add_footprint(&mut self, fpt: Footprint) -> (id: usize)
        ensures
            final(self).footprints@ == old(self).footprints@.push(fpt),
            id == old(self).footprints@.len(),
            final(self).title == old(self).title,
            final(self).company == old(self).company,
            final(self).revision == old(self).revision,
            final(self).date == old(self).date,
            final(self).bottom_left == old(self).bottom_left,
            final(self).top_right == old(self).top_right,
            final(self).dark_mode == old(self).dark_mode,
            final(self).show_silkscreen == old(self).show_silkscreen,
            final(self).show_fabrication == old(self).show_fabrication,
            final(self).show_pads == old(self).show_pads,
            final(self).checkboxes == old(self).checkboxes,
            final(self).fields == old(self).fields,
            final(self).user_header == old(self).user_header,
            final(self).user_footer == old(self).user_footer,
            final(self).user_js == old(self).user_js,
            final(self).drawings == old(self).drawings,
            final(self).tracks == old(self).tracks,
            final(self).vias == old(self).vias,
            final(self).zones == old(self).zones,
            final(self).bom_front == old(self).bom_front,
            final(self).bom_back == old(self).bom_back,
            final(self).bom_both == old(self).bom_both,
    {
        let id = self.footprints.len();
        self.footprints.push(fpt);
        id
    }
}

} // verus!
