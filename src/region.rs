//! The set of video memory regions that currently live in the accelerated
//! render target rather than in video memory.

use vstd::prelude::*;

use crate::vram::{region_contains, region_in_vram, RenderingRegion};

verus! {

broadcast use vstd::seq_lib::group_seq_properties;

/// The two rectangles share at least one pixel: their open intervals
/// intersect on both axes.
pub open spec fn regions_overlap(a: RenderingRegion, b: RenderingRegion) -> bool {
    &&& a.x_start < b.x_end
    &&& b.x_start < a.x_end
    &&& a.y_start < b.y_end
    &&& b.y_start < a.y_end
}

/// No two distinct regions of the set overlap.
pub open spec fn regions_disjoint(set: Set<RenderingRegion>) -> bool {
    forall|a: RenderingRegion, b: RenderingRegion|
        set.contains(a) && set.contains(b) && a != b ==> !#[trigger] regions_overlap(a, b)
}

/// The top-left pixel of `b` lies in `a`.
pub open spec fn holds_first_corner(a: RenderingRegion, b: RenderingRegion) -> bool {
    region_contains(a, b.x_start as int, b.y_start as int)
}

/// The bottom-right pixel of `b` lies in `a`.
pub open spec fn holds_last_corner(a: RenderingRegion, b: RenderingRegion) -> bool {
    region_contains(a, b.x_end - 1, b.y_end - 1)
}

/// Both corners of `b`, and so all of `b`, lie in one region of the set.
pub open spec fn is_resident(set: Set<RenderingRegion>, b: RenderingRegion) -> bool {
    exists|a: RenderingRegion|
        #[trigger] set.contains(a) && holds_first_corner(a, b) && holds_last_corner(a, b)
}

/// Some region of the set holds one corner of `b` and not the other: `b` is
/// partly in the render target and partly in video memory.
pub open spec fn is_half_resident(set: Set<RenderingRegion>, b: RenderingRegion) -> bool {
    exists|a: RenderingRegion|
        #[trigger] set.contains(a) && holds_first_corner(a, b) != holds_last_corner(a, b)
}

/// A non-empty rectangle inside video memory.
pub open spec fn is_block(b: RenderingRegion) -> bool {
    region_in_vram(b) && b.x_start < b.x_end && b.y_start < b.y_end
}

/// The regions of `set` that `r` does not overlap.
pub open spec fn kept_regions(set: Set<RenderingRegion>, r: RenderingRegion) -> Set<RenderingRegion> {
    set.filter(|a: RenderingRegion| !regions_overlap(a, r))
}

/// The regions of `set` that `r` overlaps.
pub open spec fn overlapped_regions(set: Set<RenderingRegion>, r: RenderingRegion) -> Set<
    RenderingRegion,
> {
    set.filter(|a: RenderingRegion| regions_overlap(a, r))
}

proof fn lemma_push_no_duplicates(s: Seq<RenderingRegion>, v: RenderingRegion)
    requires
        s.no_duplicates(),
        !s.contains(v),
    ensures
        s.push(v).no_duplicates(),
{
    let t = s.push(v);
    assert forall|p: int, q: int| 0 <= p < t.len() && 0 <= q < t.len() && p != q implies t[p]
        != t[q] by {
        if p == s.len() {
            assert(t[q] == s[q]);
        } else if q == s.len() {
            assert(t[p] == s[p]);
        } else {
            assert(t[p] == s[p] && t[q] == s[q]);
        }
    }
}

/// The regions that are resident in the render target.
pub struct RegionTracker {
    regions: Vec<RenderingRegion>,
}

impl View for RegionTracker {
    type V = Set<RenderingRegion>;

    closed spec fn view(&self) -> Set<RenderingRegion> {
        self.regions@.to_set()
    }
}

impl RegionTracker {
    /// Each region is stored once, lies in video memory, and overlaps no
    /// other.
    pub closed spec fn wf(&self) -> bool {
        &&& self.regions@.no_duplicates()
        &&& forall|a: RenderingRegion| #[trigger] self@.contains(a) ==> region_in_vram(a)
        &&& regions_disjoint(self@)
    }

    /// No region is resident.
    pub fn new() -> (r: RegionTracker)
        ensures
            r.wf(),
            r@ == Set::<RenderingRegion>::empty(),
    {
        let r = RegionTracker { regions: Vec::new() };
        assert(r@ =~= Set::<RenderingRegion>::empty());
        r
    }

    /// The resident regions never overlap one another. `new` returns a
    /// well-formed tracker and `make_resident` and `evict_overlapping` keep it
    /// well formed, so this holds after any sequence of those calls.
    pub proof fn lemma_regions_disjoint(&self)
        requires
            self.wf(),
        ensures
            regions_disjoint(self@),
            forall|a: RenderingRegion| #[trigger] self@.contains(a) ==> region_in_vram(a),
    {
    }

    /// The regions, each once.
    pub fn regions(&self) -> (r: Vec<RenderingRegion>)
        requires
            self.wf(),
        ensures
            r@.to_set() == self@,
            r@.no_duplicates(),
    {
        self.regions.clone()
    }

    /// Whether all of `b` lies in one resident region. `b` must not be half
    /// resident: a block is never split between the two stores.
    pub fn is_block_in_rendering(&self, b: &RenderingRegion) -> (r: bool)
        requires
            self.wf(),
            is_block(*b),
            !is_half_resident(self@, *b),
        ensures
            r == is_resident(self@, *b),
    {
        let mut k: usize = 0;
        while k < self.regions.len()
            invariant
                k <= self.regions@.len(),
                is_block(*b),
                !is_half_resident(self@, *b),
                forall|j: int|
                    0 <= j < k ==> !holds_first_corner(#[trigger] self.regions@[j], *b),
            decreases self.regions@.len() - k,
        {
            let a = self.regions[k];
            let first = a.x_start <= b.x_start && b.x_start < a.x_end && a.y_start <= b.y_start
                && b.y_start < a.y_end;
            let last = a.x_start <= b.x_end - 1 && b.x_end - 1 < a.x_end && a.y_start <= b.y_end - 1
                && b.y_end - 1 < a.y_end;
            if first || last {
                assert(self.regions@[k as int] == a);
                assert(self@.contains(a));
                return true;
            }
            k = k + 1;
        }
        false
    }

    /// Whether `r` is resident as a region of its own.
    pub fn contains(&self, r: &RenderingRegion) -> (b: bool)
        ensures
            b == self@.contains(*r),
    {
        let mut k: usize = 0;
        while k < self.regions.len()
            invariant
                k <= self.regions@.len(),
                forall|j: int| 0 <= j < k ==> #[trigger] self.regions@[j] != *r,
            decreases self.regions@.len() - k,
        {
            if self.regions[k] == *r {
                assert(self.regions@[k as int] == *r);
                return true;
            }
            k = k + 1;
        }
        false
    }

    /// Stops every resident region that overlaps `b` from being resident,
    /// and returns them, each once.
    pub fn evict_overlapping(&mut self, b: &RenderingRegion) -> (evicted: Vec<RenderingRegion>)
        requires
            old(self).wf(),
        ensures
            final(self).wf(),
            final(self)@ == kept_regions(old(self)@, *b),
            evicted@.to_set() == overlapped_regions(old(self)@, *b),
            evicted@.no_duplicates(),
    {
        let r = *b;
        let ghost s = self.regions@;
        let n = self.regions.len();
        let mut kept: Vec<RenderingRegion> = Vec::new();
        let mut evicted: Vec<RenderingRegion> = Vec::new();
        let mut i: usize = 0;
        while i < n
            invariant
                n == s.len(),
                s == self.regions@,
                s.no_duplicates(),
                i <= n,
                forall|x: RenderingRegion|
                    #[trigger] kept@.contains(x) <==> (s.subrange(0, i as int).contains(x)
                        && !regions_overlap(x, r)),
                forall|x: RenderingRegion|
                    #[trigger] evicted@.contains(x) <==> (s.subrange(0, i as int).contains(x)
                        && regions_overlap(x, r)),
                kept@.no_duplicates(),
                evicted@.no_duplicates(),
            decreases n - i,
        {
            let a = self.regions[i];
            let ghost before = s.subrange(0, i as int);
            assert(s.subrange(0, i + 1) =~= before.push(a));
            assert(!before.contains(a)) by {
                if before.contains(a) {
                    let j = choose|j: int| 0 <= j < before.len() && before[j] == a;
                    assert(s[j] == s[i as int]);
                }
            }
            let overlap = a.x_start < r.x_end && r.x_start < a.x_end && a.y_start < r.y_end
                && r.y_start < a.y_end;
            if overlap {
                proof {
                    lemma_push_no_duplicates(evicted@, a);
                }
                evicted.push(a);
            } else {
                proof {
                    lemma_push_no_duplicates(kept@, a);
                }
                kept.push(a);
            }
            i = i + 1;
        }
        assert(s.subrange(0, n as int) =~= s);
        let ghost old_set = self@;
        self.regions = kept;
        assert(self@ =~= kept_regions(old_set, r));
        assert(evicted@.to_set() =~= overlapped_regions(old_set, r));
        evicted
    }

    /// Makes `r` resident. Nothing changes if `r` already is; otherwise
    /// every resident region that `r` overlaps stops being resident and is
    /// returned, each once, so that its content can be written back to video
    /// memory before `r`'s content moves to the render target.
    pub fn make_resident(&mut self, r: RenderingRegion) -> (evicted: Vec<RenderingRegion>)
        requires
            old(self).wf(),
            region_in_vram(r),
        ensures
            final(self).wf(),
            final(self)@.contains(r),
            old(self)@.contains(r) ==> final(self)@ == old(self)@ && evicted@.len() == 0,
            !old(self)@.contains(r) ==> final(self)@ == kept_regions(old(self)@, r).insert(r),
            !old(self)@.contains(r) ==> evicted@.to_set() == overlapped_regions(old(self)@, r),
            evicted@.no_duplicates(),
    {
        if self.contains(&r) {
            return Vec::new();
        }
        let ghost s = self.regions@;
        assert(!s.contains(r));
        let evicted = self.evict_overlapping(&r);
        let ghost kept_set = self@;
        assert(!self.regions@.contains(r)) by {
            assert(!kept_set.contains(r));
        }
        proof {
            lemma_push_no_duplicates(self.regions@, r);
        }
        self.regions.push(r);
        assert(self@ =~= kept_set.insert(r));
        evicted
    }

    /// Whether `b` lies partly in a resident region and partly outside it.
    pub fn is_block_half_resident(&self, b: &RenderingRegion) -> (r: bool)
        requires
            self.wf(),
            is_block(*b),
        ensures
            r == is_half_resident(self@, *b),
    {
        let mut k: usize = 0;
        while k < self.regions.len()
            invariant
                k <= self.regions@.len(),
                is_block(*b),
                forall|j: int|
                    0 <= j < k ==> holds_first_corner(self.regions@[j], *b) == holds_last_corner(
                        #[trigger] self.regions@[j],
                        *b,
                    ),
            decreases self.regions@.len() - k,
        {
            let a = self.regions[k];
            let first = a.x_start <= b.x_start && b.x_start < a.x_end && a.y_start <= b.y_start
                && b.y_start < a.y_end;
            let last = a.x_start <= b.x_end - 1 && b.x_end - 1 < a.x_end && a.y_start <= b.y_end - 1
                && b.y_end - 1 < a.y_end;
            if first != last {
                assert(self.regions@[k as int] == a);
                assert(self@.contains(a));
                return true;
            }
            k = k + 1;
        }
        false
    }
}

} // verus!
