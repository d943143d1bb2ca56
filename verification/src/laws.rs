//! Proved statements about the derived data and the generated page: what
//! validation rejects, what the net and do-not-place lists hold, how the
//! layer view is chosen, and how pads serialize their drill.

use vstd::prelude::*;
use crate::agg::all_nets;
use crate::agg::dedup_first;
use crate::agg::dnp_of;
use crate::agg::layer_view_of;
use crate::agg::nets_of;
use crate::agg::pad_nets;
use crate::agg::rows_ok;
use crate::model::Footprint;
use crate::model::InteractiveHtmlBom;
use crate::model::Pad;
use crate::model::RefMap;
use crate::page::config_json_of;
use crate::page::field_count_msg;
use crate::page::html_of;
use crate::page::invalid_ref_msg;
use crate::page::page_prefix;
use crate::page::page_suffix;
use crate::page::payload_json_of;
use crate::page::refs_ok_doc;
use crate::pack::config_var_of;
use crate::pack::pcbdata_var_of;
use crate::serial::drill_shape;
use crate::serial::drill_suffix;

verus! {

/// Some row of the collection holds at least one reference mapping.
pub open spec fn some_row_nonempty(rows: Seq<Vec<RefMap>>) -> bool {
    exists|i: int| 0 <= i < rows.len() && (#[trigger] rows[i])@.len() > 0
}

/// A document without footprints fails referential validation as soon as
/// any BOM row holds a reference mapping: every index is invalid against
/// an empty footprint collection.
pub proof fn lemma_no_footprints_invalid(doc: InteractiveHtmlBom)
    requires
        doc.footprints@.len() == 0,
        some_row_nonempty(doc.bom_front@) || some_row_nonempty(doc.bom_back@)
            || some_row_nonempty(doc.bom_both@),
    ensures
        !refs_ok_doc(doc),
{
    if some_row_nonempty(doc.bom_front@) {
        let i = choose|i: int| 0 <= i < doc.bom_front@.len() && (#[trigger] doc.bom_front@[i])@.len() > 0;
        assert(!rows_ok(doc.bom_front@, 0)) by {
            if rows_ok(doc.bom_front@, 0) {
                assert(doc.bom_front@[i]@[0].footprint_id < 0);
            }
        }
    } else if some_row_nonempty(doc.bom_back@) {
        let i = choose|i: int| 0 <= i < doc.bom_back@.len() && (#[trigger] doc.bom_back@[i])@.len() > 0;
        assert(!rows_ok(doc.bom_back@, 0)) by {
            if rows_ok(doc.bom_back@, 0) {
                assert(doc.bom_back@[i]@[0].footprint_id < 0);
            }
        }
    } else {
        let i = choose|i: int| 0 <= i < doc.bom_both@.len() && (#[trigger] doc.bom_both@[i])@.len() > 0;
        assert(!rows_ok(doc.bom_both@, 0)) by {
            if rows_ok(doc.bom_both@, 0) {
                assert(doc.bom_both@[i]@[0].footprint_id < 0);
            }
        }
    }
}

/// Every generated page opens with the root markup tag.
#[verifier::rlimit(100)]
pub proof fn lemma_html_root_tag(doc: InteractiveHtmlBom)
    ensures
        html_of(doc).len() >= 5,
        html_of(doc).subrange(0, 5) == "<html"@,
{
    reveal_strlit("<html>");
    reveal_strlit("<html");
    assert(html_of(doc).subrange(0, 5) =~= "<html"@);
}

/// A middle piece of a concatenation stands whole at its offset.
pub proof fn lemma_concat_middle(a: Seq<char>, b: Seq<char>, c: Seq<char>)
    ensures
        (a + b + c).subrange(a.len() as int, (a.len() + b.len()) as int) == b,
{
    assert((a + b + c).subrange(a.len() as int, (a.len() + b.len()) as int) =~= b);
}

/// The offset of the embedded config definition within the page.
pub open spec fn config_def_offset(doc: InteractiveHtmlBom) -> int {
    page_prefix(doc).len() as int
}

/// The offset of the embedded payload definition within the page.
pub open spec fn payload_def_offset(doc: InteractiveHtmlBom) -> int {
    (page_prefix(doc) + config_var_of(config_json_of(doc)) + "\n"@).len() as int
}

/// The generated page embeds the two variable definitions whole: the
/// config definition and the decompressible payload definition each stand
/// at their computed offset.
pub proof fn lemma_embedded_definitions(doc: InteractiveHtmlBom)
    ensures
        html_of(doc).subrange(
            config_def_offset(doc),
            config_def_offset(doc) + config_var_of(config_json_of(doc)).len(),
        ) == config_var_of(config_json_of(doc)),
        html_of(doc).subrange(
            payload_def_offset(doc),
            payload_def_offset(doc) + pcbdata_var_of(payload_json_of(doc)).len(),
        ) == pcbdata_var_of(payload_json_of(doc)),
{
    let p = page_prefix(doc);
    let c = config_var_of(config_json_of(doc));
    let v = pcbdata_var_of(payload_json_of(doc));
    let tail = "\n"@ + v + page_suffix(doc);
    assert(html_of(doc) =~= p + c + tail);
    lemma_concat_middle(p, c, tail);
    let p2 = p + c + "\n"@;
    assert(html_of(doc) =~= p2 + v + page_suffix(doc));
    lemma_concat_middle(p2, v, page_suffix(doc));
}

/// The two validation error messages are distinct.
pub proof fn lemma_error_messages_differ()
    ensures
        invalid_ref_msg() != field_count_msg(),
{
    reveal_strlit("Invalid footprint ID.");
    reveal_strlit("Inconsistent number of fields.");
    assert(invalid_ref_msg().len() != field_count_msg().len());
}

/// The layer-view mode: front rows only give "F", back rows only give
/// "B", and both or neither give "FB".
pub proof fn lemma_layer_view_cases(nf: nat, nb: nat)
    ensures
        nf > 0 && nb == 0 ==> layer_view_of(nf, nb) == "F"@,
        nf == 0 && nb > 0 ==> layer_view_of(nf, nb) == "B"@,
        (nf > 0 && nb > 0) || (nf == 0 && nb == 0) ==> layer_view_of(nf, nb) == "FB"@,
{
}

/// The index of the first occurrence of an element.
pub open spec fn first_occ(s: Seq<Seq<char>>, x: Seq<char>) -> int
    decreases s.len(),
{
    if s.len() == 0 {
        0
    } else if s[0] == x {
        0
    } else {
        1 + first_occ(s.drop_first(), x)
    }
}

/// The first occurrence of a contained element is a valid index that
/// holds the element.
pub proof fn lemma_first_occ_valid(s: Seq<Seq<char>>, x: Seq<char>)
    requires
        s.contains(x),
    ensures
        0 <= first_occ(s, x) < s.len(),
        s[first_occ(s, x)] == x,
    decreases s.len(),
{
    if s[0] == x {
    } else {
        let k = choose|k: int| 0 <= k < s.len() && s[k] == x;
        assert(s.drop_first()[k - 1] == x);
        lemma_first_occ_valid(s.drop_first(), x);
    }
}

/// Appending more elements does not move an existing first occurrence.
pub proof fn lemma_first_occ_append(s: Seq<Seq<char>>, t: Seq<Seq<char>>, x: Seq<char>)
    requires
        s.contains(x),
    ensures
        first_occ(s + t, x) == first_occ(s, x),
    decreases s.len(),
{
    assert((s + t)[0] == s[0]);
    if s[0] == x {
    } else {
        let k = choose|k: int| 0 <= k < s.len() && s[k] == x;
        assert(s.drop_first()[k - 1] == x);
        assert((s + t).drop_first() =~= s.drop_first() + t);
        lemma_first_occ_append(s.drop_first(), t, x);
    }
}

/// A new element appended behind a sequence that does not hold it has its
/// first occurrence at the old length.
pub proof fn lemma_first_occ_new(s: Seq<Seq<char>>, x: Seq<char>)
    requires
        !s.contains(x),
    ensures
        first_occ(s + seq![x], x) == s.len(),
    decreases s.len(),
{
    if s.len() == 0 {
        assert((s + seq![x])[0] == x);
    } else {
        assert(s[0] != x);
        assert((s + seq![x])[0] == s[0]);
        assert((s + seq![x]).drop_first() =~= s.drop_first() + seq![x]);
        assert(!s.drop_first().contains(x)) by {
            if s.drop_first().contains(x) {
                let k = choose|k: int| 0 <= k < s.drop_first().len() && s.drop_first()[k] == x;
                assert(s[k + 1] == x);
            }
        }
        lemma_first_occ_new(s.drop_first(), x);
    }
}

/// The deduplicated sequence holds exactly the elements of its source.
pub proof fn lemma_dedup_elems(s: Seq<Seq<char>>)
    ensures
        forall|x: Seq<char>| #[trigger] dedup_first(s).contains(x) <==> s.contains(x),
    decreases s.len(),
{
    if s.len() > 0 {
        let t = s.drop_last();
        lemma_dedup_elems(t);
        let d = dedup_first(s);
        let dt = dedup_first(t);
        assert forall|x: Seq<char>| #[trigger] d.contains(x) implies s.contains(x) by {
            if dt.contains(x) {
                let k = choose|k: int| 0 <= k < t.len() && t[k] == x;
                assert(s[k] == x);
            } else {
                assert(x == s.last());
                assert(s[s.len() - 1] == x);
            }
        }
        assert forall|x: Seq<char>| s.contains(x) implies #[trigger] d.contains(x) by {
            let k = choose|k: int| 0 <= k < s.len() && s[k] == x;
            if k < s.len() - 1 {
                assert(t[k] == x);
                assert(dt.contains(x));
                if !dt.contains(s.last()) {
                    let m = choose|m: int| 0 <= m < dt.len() && dt[m] == x;
                    assert(d[m] == x);
                }
            } else {
                assert(x == s.last());
                if dt.contains(x) {
                } else {
                    assert(d[d.len() - 1] == x);
                }
            }
        }
    }
}

/// The deduplicated sequence holds no element twice.
pub proof fn lemma_dedup_distinct(s: Seq<Seq<char>>)
    ensures
        forall|i: int, j: int|
            0 <= i < j < dedup_first(s).len() ==> dedup_first(s)[i] != dedup_first(s)[j],
    decreases s.len(),
{
    if s.len() > 0 {
        let t = s.drop_last();
        lemma_dedup_distinct(t);
        let dt = dedup_first(t);
        let d = dedup_first(s);
        if !dt.contains(s.last()) {
            assert forall|i: int, j: int| 0 <= i < j < d.len() implies d[i] != d[j] by {
                if j < d.len() - 1 {
                    assert(dt[i] != dt[j]);
                } else {
                    assert(d[j] == s.last());
                    assert(d[i] == dt[i]);
                    assert(!dt.contains(s.last()));
                    if d[i] == d[j] {
                        assert(dt.contains(s.last()));
                    }
                }
            }
        }
    }
}

/// The deduplicated sequence lists its elements in the order of their
/// first occurrence in the source.
pub proof fn lemma_dedup_order(s: Seq<Seq<char>>)
    ensures
        forall|i: int, j: int|
            0 <= i < j < dedup_first(s).len() ==> first_occ(s, dedup_first(s)[i]) < first_occ(
                s,
                dedup_first(s)[j],
            ),
    decreases s.len(),
{
    if s.len() > 0 {
        let t = s.drop_last();
        lemma_dedup_order(t);
        lemma_dedup_elems(t);
        let dt = dedup_first(t);
        let d = dedup_first(s);
        assert(s =~= t + seq![s.last()]);
        assert forall|i: int, j: int| 0 <= i < j < d.len() implies first_occ(s, d[i]) < first_occ(
            s,
            d[j],
        ) by {
            if dt.contains(s.last()) {
                assert(d == dt);
                assert(dt.contains(dt[i]) && dt.contains(dt[j]));
                assert(t.contains(dt[i]) && t.contains(dt[j]));
                lemma_first_occ_append(t, seq![s.last()], dt[i]);
                lemma_first_occ_append(t, seq![s.last()], dt[j]);
            } else {
                if j < d.len() - 1 {
                    assert(d[i] == dt[i] && d[j] == dt[j]);
                    assert(dt.contains(dt[i]) && dt.contains(dt[j]));
                    assert(t.contains(dt[i]) && t.contains(dt[j]));
                    lemma_first_occ_append(t, seq![s.last()], dt[i]);
                    lemma_first_occ_append(t, seq![s.last()], dt[j]);
                } else {
                    assert(d[j] == s.last());
                    assert(d[i] == dt[i]);
                    assert(dt.contains(dt[i]));
                    assert(t.contains(dt[i]));
                    lemma_first_occ_append(t, seq![s.last()], dt[i]);
                    lemma_first_occ_valid(t, dt[i]);
                    assert(!t.contains(s.last()));
                    lemma_first_occ_new(t, s.last());
                }
            }
        }
    }
}

/// A pad net sequence holds exactly the net names its pads carry.
pub proof fn lemma_pad_nets_elems(ps: Seq<Pad>)
    ensures
        forall|x: Seq<char>|
            #[trigger] pad_nets(ps).contains(x) <==> exists|j: int|
                0 <= j < ps.len() && (#[trigger] ps[j]).net is Some && ps[j].net->0@ == x,
    decreases ps.len(),
{
    if ps.len() > 0 {
        let t = ps.drop_last();
        lemma_pad_nets_elems(t);
        assert forall|x: Seq<char>| #[trigger] pad_nets(ps).contains(x) implies exists|j: int|
            0 <= j < ps.len() && (#[trigger] ps[j]).net is Some && ps[j].net->0@ == x by {
            let k = choose|k: int| 0 <= k < pad_nets(ps).len() && pad_nets(ps)[k] == x;
            if k < pad_nets(t).len() {
                assert(pad_nets(t).contains(x));
                let j = choose|j: int|
                    0 <= j < t.len() && (#[trigger] t[j]).net is Some && t[j].net->0@ == x;
                assert(ps[j].net is Some && ps[j].net->0@ == x);
            } else {
                assert(ps.last().net is Some && ps.last().net->0@ == x);
                assert(ps[ps.len() - 1].net is Some && ps[ps.len() - 1].net->0@ == x);
            }
        }
        assert forall|x: Seq<char>|
            exists|j: int|
                0 <= j < ps.len() && (#[trigger] ps[j]).net is Some && ps[j].net->0@
                    == x implies #[trigger] pad_nets(ps).contains(x) by {
            let j = choose|j: int|
                0 <= j < ps.len() && (#[trigger] ps[j]).net is Some && ps[j].net->0@ == x;
            if j < ps.len() - 1 {
                assert(t[j].net is Some && t[j].net->0@ == x);
                assert(pad_nets(t).contains(x));
                let k = choose|k: int| 0 <= k < pad_nets(t).len() && pad_nets(t)[k] == x;
                assert(pad_nets(ps)[k] == x);
            } else {
                assert(ps.last().net is Some);
                assert(pad_nets(ps).last() == x);
            }
        }
    }
}

/// The flattened net sequence holds exactly the net names carried by some
/// pad of some footprint.
pub proof fn lemma_all_nets_elems(fps: Seq<Footprint>)
    ensures
        forall|x: Seq<char>|
            #[trigger] all_nets(fps).contains(x) <==> exists|i: int, j: int|
                0 <= i < fps.len() && 0 <= j < fps[i].pads@.len()
                    && (#[trigger] fps[i].pads@[j]).net is Some && fps[i].pads@[j].net->0@ == x,
    decreases fps.len(),
{
    if fps.len() > 0 {
        let t = fps.drop_last();
        lemma_all_nets_elems(t);
        lemma_pad_nets_elems(fps.last().pads@);
        assert forall|x: Seq<char>| #[trigger] all_nets(fps).contains(x) implies exists|
            i: int,
            j: int,
        |
            0 <= i < fps.len() && 0 <= j < fps[i].pads@.len()
                && (#[trigger] fps[i].pads@[j]).net is Some && fps[i].pads@[j].net->0@ == x by {
            let k = choose|k: int| 0 <= k < all_nets(fps).len() && all_nets(fps)[k] == x;
            if k < all_nets(t).len() {
                assert(all_nets(t).contains(x));
                let (i, j) = choose|i: int, j: int|
                    0 <= i < t.len() && 0 <= j < t[i].pads@.len()
                        && (#[trigger] t[i].pads@[j]).net is Some && t[i].pads@[j].net->0@ == x;
                assert(fps[i].pads@[j].net is Some && fps[i].pads@[j].net->0@ == x);
            } else {
                assert(pad_nets(fps.last().pads@)[k - all_nets(t).len()] == x);
                assert(pad_nets(fps.last().pads@).contains(x));
                let j = choose|j: int|
                    0 <= j < fps.last().pads@.len() && (#[trigger] fps.last().pads@[j]).net is Some
                        && fps.last().pads@[j].net->0@ == x;
                assert(fps[fps.len() - 1].pads@[j].net is Some && fps[fps.len() - 1].pads@[j].net->0@
                    == x);
            }
        }
        assert forall|x: Seq<char>|
            exists|i: int, j: int|
                0 <= i < fps.len() && 0 <= j < fps[i].pads@.len()
                    && (#[trigger] fps[i].pads@[j]).net is Some && fps[i].pads@[j].net->0@
                    == x implies #[trigger] all_nets(fps).contains(x) by {
            let (i, j) = choose|i: int, j: int|
                0 <= i < fps.len() && 0 <= j < fps[i].pads@.len()
                    && (#[trigger] fps[i].pads@[j]).net is Some && fps[i].pads@[j].net->0@ == x;
            if i < fps.len() - 1 {
                assert(t[i].pads@[j].net is Some && t[i].pads@[j].net->0@ == x);
                assert(all_nets(t).contains(x));
                let k = choose|k: int| 0 <= k < all_nets(t).len() && all_nets(t)[k] == x;
                assert(all_nets(fps)[k] == x);
            } else {
                assert(fps.last().pads@[j].net is Some && fps.last().pads@[j].net->0@ == x);
                assert(pad_nets(fps.last().pads@).contains(x));
                let k = choose|k: int|
                    0 <= k < pad_nets(fps.last().pads@).len() && pad_nets(fps.last().pads@)[k] == x;
                assert(all_nets(fps)[all_nets(t).len() + k] == x);
            }
        }
    }
}

/// The net list is duplicate-free, holds exactly the net names carried by
/// the pads, and lists them in the order of their first occurrence across
/// footprints in append order and pads in append order within a
/// footprint.
pub proof fn lemma_net_list(fps: Seq<Footprint>)
    ensures
        forall|i: int, j: int| 0 <= i < j < nets_of(fps).len() ==> nets_of(fps)[i] != nets_of(fps)[j],
        forall|x: Seq<char>|
            #[trigger] nets_of(fps).contains(x) <==> exists|i: int, j: int|
                0 <= i < fps.len() && 0 <= j < fps[i].pads@.len()
                    && (#[trigger] fps[i].pads@[j]).net is Some && fps[i].pads@[j].net->0@ == x,
        forall|i: int, j: int|
            0 <= i < j < nets_of(fps).len() ==> first_occ(all_nets(fps), nets_of(fps)[i])
                < first_occ(all_nets(fps), nets_of(fps)[j]),
{
    lemma_dedup_distinct(all_nets(fps));
    lemma_dedup_elems(all_nets(fps));
    lemma_all_nets_elems(fps);
    lemma_dedup_order(all_nets(fps));
}

/// Every entry of the do-not-place list is a valid footprint index.
pub proof fn lemma_dnp_bound(fps: Seq<Footprint>)
    requires
        fps.len() <= usize::MAX,
    ensures
        forall|k: int| 0 <= k < dnp_of(fps).len() ==> dnp_of(fps)[k] < fps.len(),
    decreases fps.len(),
{
    if fps.len() > 0 {
        let t = fps.drop_last();
        lemma_dnp_bound(t);
        let d = dnp_of(fps);
        let dt = dnp_of(t);
        assert forall|k: int| 0 <= k < d.len() implies d[k] < fps.len() by {
            if fps.last().mount {
                assert(d =~= dt);
                assert(dt[k] < t.len());
            } else if k < dt.len() {
                assert(d[k] == dt[k]);
                assert(dt[k] < t.len());
            } else {
                assert(d[k] == (fps.len() - 1) as usize);
            }
        }
    }
}

/// The do-not-place list holds exactly the indices of the footprints
/// whose mount flag is false, in strictly increasing append order.
pub proof fn lemma_dnp_list(fps: Seq<Footprint>)
    requires
        fps.len() <= usize::MAX,
    ensures
        forall|k: usize|
            #[trigger] dnp_of(fps).contains(k) <==> k < fps.len() && !fps[k as int].mount,
        forall|a: int, b: int| 0 <= a < b < dnp_of(fps).len() ==> dnp_of(fps)[a] < dnp_of(fps)[b],
    decreases fps.len(),
{
    if fps.len() > 0 {
        let t = fps.drop_last();
        lemma_dnp_list(t);
        lemma_dnp_bound(t);
        let d = dnp_of(fps);
        let dt = dnp_of(t);
        assert forall|k: usize| #[trigger] d.contains(k) implies k < fps.len() && !fps[k as int].mount by {
            let m = choose|m: int| 0 <= m < d.len() && d[m] == k;
            if m < dt.len() {
                assert(dt.contains(k));
                assert(t[k as int] == fps[k as int]);
            } else {
                assert(!fps.last().mount);
                assert(m == dt.len());
                assert(d[m] == (fps.len() - 1) as usize);
                assert(k == fps.len() - 1);
            }
        }
        assert forall|k: usize| k < fps.len() && !fps[k as int].mount implies #[trigger] d.contains(
            k,
        ) by {
            if k < fps.len() - 1 {
                assert(t[k as int] == fps[k as int]);
                assert(dt.contains(k));
                let m = choose|m: int| 0 <= m < dt.len() && dt[m] == k;
                assert(d[m] == k);
            } else {
                assert(!fps.last().mount);
                assert(d[d.len() - 1] == k);
            }
        }
        assert forall|a: int, b: int| 0 <= a < b < d.len() implies d[a] < d[b] by {
            if fps.last().mount {
                assert(d =~= dt);
                assert(dt[a] < dt[b]);
            } else if b < dt.len() {
                assert(d[a] == dt[a] && d[b] == dt[b]);
                assert(dt[a] < dt[b]);
            } else {
                assert(b == dt.len());
                assert(d[b] == (fps.len() - 1) as usize);
                assert(d[a] == dt[a]);
                assert(dt[a] < t.len());
            }
        }
    }
}

/// Pad drill serialization: a drill pair whose width and height differ
/// gives the oblong shape, an equal pair gives the circular shape, and a
/// pad without a drill pair is a surface-mount pad with no drill members.
pub proof fn lemma_drill_shape(w: i32, h: i32, d: Option<(i32, i32)>)
    ensures
        w != h ==> drill_shape(w, h) == "\"oblong\""@,
        w == h ==> drill_shape(w, h) == "\"circle\""@,
        d is None ==> drill_suffix(d) == ",\"type\":\"smd\""@,
{
}

} // verus!
