//! The scan record and the append-only scan registry.
//!
//! A scan is a completed upload: the object identifier assigned by the
//! storage backend, the original file name, and the coordinates the
//! capture was tagged with, held in micro-degrees. The registry is the
//! single shared list of completed scans, in insertion order; it is
//! only ever appended to.
use vstd::prelude::*;

verus! {

/// The mathematical values of a sequence of scans, element for
/// element.
pub open spec fn scan_views(s: Seq<Scan>) -> Seq<ScanView> {
    s.map_values(|x: Scan| x@)
}

/// A completed upload record. Coordinates are held in micro-degrees
/// (millionths of a degree).
pub struct Scan {
    pub id: String,
    pub name: String,
    pub lat_micro: i64,
    pub lon_micro: i64,
}

/// The mathematical value of a `Scan`.
pub struct ScanView {
    pub id: Seq<char>,
    pub name: Seq<char>,
    pub lat_micro: int,
    pub lon_micro: int,
}

impl View for Scan {
    type V = ScanView;

    open spec fn view(&self) -> ScanView {
        ScanView {
            id: self.id@,
            name: self.name@,
            lat_micro: self.lat_micro as int,
            lon_micro: self.lon_micro as int,
        }
    }
}

impl Clone for Scan {
    fn clone(&self) -> (r: Self)
        ensures
            r@ == self@,
    {
        Scan {
            id: self.id.clone(),
            name: self.name.clone(),
            lat_micro: self.lat_micro,
            lon_micro: self.lon_micro,
        }
    }
}

/// An append-only, insertion-ordered collection of completed scans.
/// Entries are never removed, reordered or changed, and equal records
/// are kept as often as they were appended.
pub struct ScanRegistry {
    scans: Vec<Scan>,
}

impl View for ScanRegistry {
    type V = Seq<ScanView>;

    closed spec fn view(&self) -> Seq<ScanView> {
        scan_views(self.scans@)
    }
}

impl ScanRegistry {
    /// An empty registry.
    pub fn new() -> (r: Self)
        ensures
            r@ == Seq::<ScanView>::empty(),
    {
        let r = ScanRegistry { scans: Vec::new() };
        proof {
            assert(r@ =~= Seq::<ScanView>::empty());
        }
        r
    }

    /// Appends one scan at the end; nothing else changes.
    pub fn append(&mut self, scan: Scan)
        ensures
            final(self)@ == old(self)@.push(scan@),
    {
        let ghost s = scan@;
        self.scans.push(scan);
        proof {
            assert(final(self)@ =~= old(self)@.push(s));
        }
    }

    pub fn len(&self) -> (n: usize)
        ensures
            n == self@.len(),
    {
        self.scans.len()
    }

    pub fn get(&self, i: usize) -> (s: &Scan)
        requires
            i < self@.len(),
        ensures
            s@ == self@[i as int],
    {
        &self.scans[i]
    }

    /// A copy of the current contents, in insertion order.
    pub fn snapshot(&self) -> (v: Vec<Scan>)
        ensures
            scan_views(v@) == self@,
    {
        let n = self.scans.len();
        let mut v: Vec<Scan> = Vec::new();
        let mut i: usize = 0;
        while i < n
            invariant
                n == self.scans@.len(),
                i <= n,
                scan_views(v@) == self@.take(i as int),
            decreases n - i,
        {
            let c = self.scans[i].clone();
            let ghost prev = v@;
            v.push(c);
            proof {
                assert(self@.len() == n);
                assert(v@ == prev.push(c));
                assert(scan_views(prev) == self@.take(i as int));
                assert(self@.take(i as int).len() == i as int);
                assert(scan_views(prev).len() == prev.len());
                assert(prev.len() == i as int);
                assert(v@.len() == i + 1);
                assert(c@ == self@[i as int]);
                assert forall|j: int| 0 <= j <= i as int implies scan_views(v@)[j] == self@[j] by {
                    assert(scan_views(v@)[j] == v@[j]@);
                    if j < i as int {
                        assert(v@[j] == prev[j]);
                        assert(scan_views(prev)[j] == prev[j]@);
                        assert(scan_views(prev)[j] == self@.take(i as int)[j]);
                    } else {
                        assert(v@[j] == c);
                    }
                }
                assert(scan_views(v@) =~= self@.take(i + 1));
            }
            i = i + 1;
        }
        proof {
            assert(self@.take(n as int) =~= self@);
        }
        v
    }
}

} // verus!
