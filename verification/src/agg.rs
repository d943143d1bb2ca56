//! Validation checks and derived summary data: referential integrity,
//! field-count consistency, the net list, the do-not-place list and the
//! layer-view mode.

use vstd::prelude::*;
use crate::model::Footprint;
use crate::model::Pad;
use crate::model::RefMap;
use crate::text::str_views;

verus! {

/// Every reference mapping of every row points below `n`.
pub open spec fn rows_ok(rows: Seq<Vec<RefMap>>, n: nat) -> bool {
    forall|i: int, j: int|
        0 <= i < rows.len() && 0 <= j < rows[i]@.len() ==> (#[trigger] rows[i]@[j]).footprint_id
            < n
}

/// Check one BOM row collection for referential integrity.
pub fn check_rows(rows: &Vec<Vec<RefMap>>, n: usize) -> (r: bool)
    ensures
        r == rows_ok(rows@, n as nat),
{
    let mut i: usize = 0;
    while i < rows.len()
        invariant
            i <= rows@.len(),
            forall|a: int, b: int|
                0 <= a < i && 0 <= b < rows@[a]@.len() ==> (#[trigger] rows@[a]@[b]).footprint_id
                    < n,
        decreases rows@.len() - i,
    {
        let row = &rows[i];
        let mut j: usize = 0;
        while j < row.len()
            invariant
                i < rows@.len(),
                j <= row@.len(),
                row == rows@[i as int],
                forall|b: int| 0 <= b < j ==> (#[trigger] row@[b]).footprint_id < n,
            decreases row@.len() - j,
        {
            if row[j].footprint_id >= n {
                return false;
            }
            j = j + 1;
        }
        i = i + 1;
    }
    true
}

/// Every footprint carries exactly `nfields` field values.
pub open spec fn fields_ok(fps: Seq<Footprint>, nfields: nat) -> bool {
    forall|i: int| 0 <= i < fps.len() ==> (#[trigger] fps[i]).fields@.len() == nfields
}

/// Check the field-count consistency of all footprints.
pub fn check_fields(fps: &Vec<Footprint>, nfields: usize) -> (r: bool)
    ensures
        r == fields_ok(fps@, nfields as nat),
{
    let mut i: usize = 0;
    while i < fps.len()
        invariant
            i <= fps@.len(),
            forall|a: int| 0 <= a < i ==> (#[trigger] fps@[a]).fields@.len() == nfields,
        decreases fps@.len() - i,
    {
        if fps[i].fields.len() != nfields {
            return false;
        }
        i = i + 1;
    }
    true
}

/// The layer-view mode derived from the sizes of the front and back BOM
/// row collections: front rows only give "F", back rows only give "B",
/// and both or neither give "FB".
pub open spec fn layer_view_of(nf: nat, nb: nat) -> Seq<char> {
    if nf > 0 && nb == 0 {
        "F"@
    } else if nf == 0 && nb > 0 {
        "B"@
    } else {
        "FB"@
    }
}

/// Derive the layer-view mode from the two side-specific row collections.
pub fn layer_view(front: &Vec<Vec<RefMap>>, back: &Vec<Vec<RefMap>>) -> (r: &'static str)
    ensures
        r@ == layer_view_of(front@.len(), back@.len()),
{
    if front.len() > 0 && back.len() == 0 {
        "F"
    } else if front.len() == 0 && back.len() > 0 {
        "B"
    } else {
        "FB"
    }
}

/// The net names of the given pads, in pad order, one entry per pad that
/// carries a net.
pub open spec fn pad_nets(pads: Seq<Pad>) -> Seq<Seq<char>>
    decreases pads.len(),
{
    if pads.len() == 0 {
        Seq::<Seq<char>>::empty()
    } else {
        pad_nets(pads.drop_last()) + match pads.last().net {
            Some(n) => seq![n@],
            None => Seq::<Seq<char>>::empty(),
        }
    }
}

/// All pad net names of all footprints, in footprint order and pad order,
/// with repetitions.
pub open spec fn all_nets(fps: Seq<Footprint>) -> Seq<Seq<char>>
    decreases fps.len(),
{
    if fps.len() == 0 {
        Seq::<Seq<char>>::empty()
    } else {
        all_nets(fps.drop_last()) + pad_nets(fps.last().pads@)
    }
}

/// Keep the first occurrence of each element and drop the later ones.
pub open spec fn dedup_first(s: Seq<Seq<char>>) -> Seq<Seq<char>>
    decreases s.len(),
{
    if s.len() == 0 {
        Seq::<Seq<char>>::empty()
    } else {
        let r = dedup_first(s.drop_last());
        if r.contains(s.last()) {
            r
        } else {
            r + seq![s.last()]
        }
    }
}

/// The net list: the distinct pad net names in first-seen order.
pub open spec fn nets_of(fps: Seq<Footprint>) -> Seq<Seq<char>> {
    dedup_first(all_nets(fps))
}

/// Whether one of the strings has the given view.
pub fn contains_str(v: &Vec<String>, s: &String) -> (r: bool)
    ensures
        r == str_views(v@).contains(s@),
{
    let mut i: usize = 0;
    while i < v.len()
        invariant
            i <= v@.len(),
            forall|k: int| 0 <= k < i ==> (#[trigger] v@[k])@ != s@,
        decreases v@.len() - i,
    {
        if v[i] == *s {
            proof {
                assert(str_views(v@)[i as int] == s@);
            }
            return true;
        }
        i = i + 1;
    }
    proof {
        assert forall|k: int| 0 <= k < str_views(v@).len() implies str_views(v@)[k] != s@ by {
            assert(v@[k]@ != s@);
        }
    }
    false
}

/// Collect the net list of the given footprints.
pub fn nets(fps: &Vec<Footprint>) -> (r: Vec<String>)
    ensures
        str_views(r@) == nets_of(fps@),
{
    let mut out: Vec<String> = Vec::new();
    let mut i: usize = 0;
    while i < fps.len()
        invariant
            i <= fps@.len(),
            str_views(out@) == dedup_first(all_nets(fps@.take(i as int))),
        decreases fps@.len() - i,
    {
        let fp = &fps[i];
        let mut j: usize = 0;
        proof {
            assert(all_nets(fps@.take(i as int)) + pad_nets(fp.pads@.take(0)) =~= all_nets(
                fps@.take(i as int),
            ));
        }
        while j < fp.pads.len()
            invariant
                j <= fp.pads@.len(),
                fp == &fps@[i as int],
                str_views(out@) == dedup_first(
                    all_nets(fps@.take(i as int)) + pad_nets(fp.pads@.take(j as int)),
                ),
            decreases fp.pads@.len() - j,
        {
            let ghost pre = all_nets(fps@.take(i as int)) + pad_nets(fp.pads@.take(j as int));
            let ghost post = all_nets(fps@.take(i as int)) + pad_nets(fp.pads@.take(j + 1));
            proof {
                assert(fp.pads@.take(j + 1).drop_last() =~= fp.pads@.take(j as int));
                assert(fp.pads@.take(j + 1).last() == fp.pads@[j as int]);
            }
            match &fp.pads[j].net {
                Some(net) => {
                    proof {
                        assert(post =~= pre + seq![net@]);
                        assert((pre + seq![net@]).drop_last() =~= pre);
                        assert((pre + seq![net@]).last() == net@);
                    }
                    if !contains_str(&out, net) {
                        let cloned = net.clone();
                        out.push(cloned);
                        proof {
                            assert(str_views(out@) =~= dedup_first(pre) + seq![net@]);
                        }
                    }
                },
                None => {
                    proof {
                        assert(post =~= pre);
                    }
                },
            }
            j = j + 1;
        }
        proof {
            assert(fp.pads@.take(fp.pads@.len() as int) =~= fp.pads@);
            assert(fps@.take(i + 1).drop_last() =~= fps@.take(i as int));
            assert(fps@.take(i + 1).last() == fps@[i as int]);
        }
        i = i + 1;
    }
    proof {
        assert(fps@.take(fps@.len() as int) =~= fps@);
    }
    out
}

/// The do-not-place list: the indices of the footprints whose mount flag
/// is false, in footprint order.
pub open spec fn dnp_of(fps: Seq<Footprint>) -> Seq<usize>
    decreases fps.len(),
{
    if fps.len() == 0 {
        Seq::<usize>::empty()
    } else {
        dnp_of(fps.drop_last()) + if !fps.last().mount {
            seq![(fps.len() - 1) as usize]
        } else {
            Seq::<usize>::empty()
        }
    }
}

/// Collect the do-not-place list of the given footprints.
pub fn dnp_ids(fps: &Vec<Footprint>) -> (r: Vec<usize>)
    ensures
        r@ == dnp_of(fps@),
{
    let mut out: Vec<usize> = Vec::new();
    let mut i: usize = 0;
    while i < fps.len()
        invariant
            i <= fps@.len(),
            out@ == dnp_of(fps@.take(i as int)),
        decreases fps@.len() - i,
    {
        proof {
            assert(fps@.take(i + 1).drop_last() =~= fps@.take(i as int));
            assert(fps@.take(i + 1).last() == fps@[i as int]);
        }
        if !fps[i].mount {
            out.push(i);
            proof {
                assert(out@ =~= dnp_of(fps@.take(i as int)) + seq![i]);
            }
        } else {
            proof {
                assert(out@ =~= dnp_of(fps@.take(i as int)));
            }
        }
        i = i + 1;
    }
    proof {
        assert(fps@.take(fps@.len() as int) =~= fps@);
    }
    out
}

} // verus!
