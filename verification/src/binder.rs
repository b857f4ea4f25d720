//! The registry-to-map data flow.
//!
//! The map shows one marker per uploaded scan. Re-rendering observes
//! the whole registry snapshot each time it changes, so placement is
//! keyed by object identifier: a scan whose identifier has already
//! been placed is never placed again, however often the snapshot is
//! replayed.
use vstd::prelude::*;
use vstd::string::StringExecFns;

use crate::scan::{ScanRegistry, ScanView};

verus! {

/// A marker-placement instruction for the map renderer: where, and
/// what the marker's popup shows.
pub struct Marker {
    pub lat_micro: i64,
    pub lon_micro: i64,
    pub popup_html: String,
}

/// The mathematical value of a `Marker`.
pub struct MarkerView {
    pub lat_micro: int,
    pub lon_micro: int,
    pub popup_html: Seq<char>,
}

impl View for Marker {
    type V = MarkerView;

    open spec fn view(&self) -> MarkerView {
        MarkerView {
            lat_micro: self.lat_micro as int,
            lon_micro: self.lon_micro as int,
            popup_html: self.popup_html@,
        }
    }
}

/// The popup of a scan's marker: an image served by the storage
/// backend for the scan's object identifier.
pub open spec fn spec_popup_html(id: Seq<char>) -> Seq<char> {
    "<img src=\"https://drive.google.com/uc?id="@ + id + "\" width=\"100\">"@
}

/// Builds the popup markup for an object identifier.
pub fn popup_html(id: &str) -> (r: String)
    ensures
        r@ == spec_popup_html(id@),
{
    let mut s = String::from_str("<img src=\"https://drive.google.com/uc?id=");
    s.append(id);
    s.append("\" width=\"100\">");
    proof {
        assert(s@ =~= spec_popup_html(id@));
    }
    s
}

/// The marker for one scan.
pub open spec fn spec_marker_of(s: ScanView) -> MarkerView {
    MarkerView { lat_micro: s.lat_micro, lon_micro: s.lon_micro, popup_html: spec_popup_html(s.id) }
}

/// The mathematical values of a sequence of markers, element for
/// element.
pub open spec fn marker_views(m: Seq<Marker>) -> Seq<MarkerView> {
    m.map_values(|x: Marker| x@)
}

/// One replay of a snapshot over the identifiers already placed:
/// walks the scans in order, skips every scan whose identifier is
/// already placed, and places each new identifier once. Yields the
/// placed identifiers afterwards and the markers to add, in snapshot
/// order.
pub open spec fn spec_sync(rendered: Seq<Seq<char>>, scans: Seq<ScanView>) -> (
    Seq<Seq<char>>,
    Seq<MarkerView>,
)
    decreases scans.len(),
{
    if scans.len() == 0 {
        (rendered, Seq::<MarkerView>::empty())
    } else {
        let s = scans[0];
        if rendered.contains(s.id) {
            spec_sync(rendered, scans.drop_first())
        } else {
            let r = spec_sync(rendered.push(s.id), scans.drop_first());
            (r.0, seq![spec_marker_of(s)] + r.1)
        }
    }
}

/// The view binder's memory: which object identifiers already carry
/// a marker on the map.
pub struct MapBinder {
    rendered: Vec<String>,
}

impl View for MapBinder {
    type V = Seq<Seq<char>>;

    closed spec fn view(&self) -> Seq<Seq<char>> {
        self.rendered@.map_values(|s: String| s@)
    }
}

fn contains_str(v: &Vec<String>, x: &String) -> (r: bool)
    ensures
        r == v@.map_values(|s: String| s@).contains(x@),
{
    let ghost views = v@.map_values(|s: String| s@);
    let n = v.len();
    let mut i: usize = 0;
    while i < n
        invariant
            n == v@.len(),
            i <= n,
            views == v@.map_values(|s: String| s@),
            forall|j: int| 0 <= j < i as int ==> views[j] != x@,
        decreases n - i,
    {
        if v[i] == *x {
            proof {
                assert(views[i as int] == x@);
            }
            return true;
        }
        i = i + 1;
    }
    proof {
        assert(forall|j: int| 0 <= j < views.len() ==> views[j] != x@);
    }
    false
}

impl MapBinder {
    /// A fresh binder: no marker placed yet.
    pub fn new() -> (r: Self)
        ensures
            r@ == Seq::<Seq<char>>::empty(),
    {
        let r = MapBinder { rendered: Vec::new() };
        proof {
            assert(r@ =~= Seq::<Seq<char>>::empty());
        }
        r
    }

    /// Replays the registry snapshot: returns the marker-placement
    /// instructions for exactly the scans not yet on the map, in
    /// snapshot order, and remembers their identifiers, as
    /// `spec_sync` describes.
    pub fn sync(&mut self, registry: &ScanRegistry) -> (markers: Vec<Marker>)
        ensures
            final(self)@ == spec_sync(old(self)@, registry@).0,
            marker_views(markers@) == spec_sync(old(self)@, registry@).1,
    {
        let ghost orig = self@;
        let ghost scans = registry@;
        let mut markers: Vec<Marker> = Vec::new();
        proof {
            assert(scans.skip(0) =~= scans);
            assert(marker_views(markers@) =~= Seq::<MarkerView>::empty());
            assert(Seq::<MarkerView>::empty() + spec_sync(self@, scans).1 =~= spec_sync(
                self@,
                scans,
            ).1);
        }
        let n = registry.len();
        let mut i: usize = 0;
        while i < n
            invariant
                n == scans.len(),
                i <= n,
                scans == registry@,
                spec_sync(orig, scans).0 == spec_sync(self@, scans.skip(i as int)).0,
                spec_sync(orig, scans).1 == marker_views(markers@) + spec_sync(
                    self@,
                    scans.skip(i as int),
                ).1,
            decreases n - i,
        {
            let ghost pre = self@;
            let ghost rest = scans.skip(i as int);
            proof {
                assert(rest[0] == scans[i as int]);
                assert(rest.drop_first() =~= scans.skip(i as int + 1));
            }
            let scan = registry.get(i);
            let already = contains_str(&self.rendered, &scan.id);
            if !already {
                let marker = Marker {
                    lat_micro: scan.lat_micro,
                    lon_micro: scan.lon_micro,
                    popup_html: popup_html(scan.id.as_str()),
                };
                let ghost prev_markers = markers@;
                let ghost prev_rendered = self.rendered@;
                markers.push(marker);
                self.rendered.push(scan.id.clone());
                proof {
                    assert(self@ =~= pre.push(scans[i as int].id));
                    assert(marker_views(markers@) =~= marker_views(prev_markers) + seq![
                        spec_marker_of(scans[i as int]),
                    ]);
                    assert(marker_views(prev_markers) + (seq![spec_marker_of(scans[i as int])]
                        + spec_sync(self@, rest.drop_first()).1) =~= marker_views(markers@)
                        + spec_sync(self@, rest.drop_first()).1);
                }
            }
            i = i + 1;
        }
        proof {
            assert(scans.skip(n as int) =~= Seq::<ScanView>::empty());
            assert(marker_views(markers@) + Seq::<MarkerView>::empty() =~= marker_views(markers@));
        }
        markers
    }
}

/// After a replay, every identifier in the snapshot is placed.
proof fn lemma_sync_places_all(rendered: Seq<Seq<char>>, scans: Seq<ScanView>)
    ensures
        forall|x: Seq<char>|
            rendered.contains(x) ==> #[trigger] spec_sync(rendered, scans).0.contains(x),
        forall|j: int|
            0 <= j < scans.len() ==> #[trigger] spec_sync(rendered, scans).0.contains(scans[j].id),
    decreases scans.len(),
{
    if scans.len() > 0 {
        let s = scans[0];
        let rest = scans.drop_first();
        if rendered.contains(s.id) {
            lemma_sync_places_all(rendered, rest);
            assert(spec_sync(rendered, scans) == spec_sync(rendered, rest));
            assert forall|x: Seq<char>| rendered.contains(x) implies #[trigger] spec_sync(
                rendered,
                scans,
            ).0.contains(x) by {
                assert(spec_sync(rendered, rest).0.contains(x));
            }
            assert forall|j: int| 0 <= j < scans.len() implies #[trigger] spec_sync(
                rendered,
                scans,
            ).0.contains(scans[j].id) by {
                if j == 0 {
                    assert(spec_sync(rendered, rest).0.contains(s.id));
                } else {
                    assert(rest[j - 1] == scans[j]);
                    assert(spec_sync(rendered, rest).0.contains(rest[j - 1].id));
                }
            }
        } else {
            let r2 = rendered.push(s.id);
            lemma_sync_places_all(r2, rest);
            assert(spec_sync(rendered, scans).0 == spec_sync(r2, rest).0);
            assert(r2[rendered.len() as int] == s.id);
            assert(r2.contains(s.id));
            assert forall|x: Seq<char>| rendered.contains(x) implies #[trigger] spec_sync(
                rendered,
                scans,
            ).0.contains(x) by {
                let k = choose|k: int| 0 <= k < rendered.len() && rendered[k] == x;
                assert(r2[k] == x);
                assert(r2.contains(x));
                assert(spec_sync(r2, rest).0.contains(x));
            }
            assert forall|j: int| 0 <= j < scans.len() implies #[trigger] spec_sync(
                rendered,
                scans,
            ).0.contains(scans[j].id) by {
                if j == 0 {
                    assert(spec_sync(r2, rest).0.contains(s.id));
                } else {
                    assert(rest[j - 1] == scans[j]);
                    assert(spec_sync(r2, rest).0.contains(rest[j - 1].id));
                }
            }
        }
    }
}

/// A replay over a memory that already holds every identifier in the
/// snapshot places nothing and changes nothing.
proof fn lemma_sync_complete_is_empty(rendered: Seq<Seq<char>>, scans: Seq<ScanView>)
    requires
        forall|j: int| 0 <= j < scans.len() ==> rendered.contains(#[trigger] scans[j].id),
    ensures
        spec_sync(rendered, scans).0 == rendered,
        spec_sync(rendered, scans).1 == Seq::<MarkerView>::empty(),
    decreases scans.len(),
{
    if scans.len() > 0 {
        assert(rendered.contains(scans[0].id));
        assert forall|j: int| 0 <= j < scans.drop_first().len() implies rendered.contains(
            #[trigger] scans.drop_first()[j].id,
        ) by {
            assert(scans.drop_first()[j] == scans[j + 1]);
        }
        lemma_sync_complete_is_empty(rendered, scans.drop_first());
    }
}

/// Law: replaying a snapshot is idempotent. Whatever was already on
/// the map, a second replay of the same snapshot right after a first
/// one places no marker at all and leaves the placed identifiers as
/// they were: no duplicate markers, however often the registry is
/// re-observed.
pub proof fn lemma_sync_idempotent(rendered: Seq<Seq<char>>, scans: Seq<ScanView>)
    ensures
        spec_sync(spec_sync(rendered, scans).0, scans).0 == spec_sync(rendered, scans).0,
        spec_sync(spec_sync(rendered, scans).0, scans).1 == Seq::<MarkerView>::empty(),
{
    lemma_sync_places_all(rendered, scans);
    lemma_sync_complete_is_empty(spec_sync(rendered, scans).0, scans);
}

} // verus!
