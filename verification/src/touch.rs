//! Touch-gesture disambiguation state.
//!
//! Raw touch begin, move and end events are classified lazily into a tap, a
//! pinch zoom, a vertical scroll or a drag selection. An extra touch during
//! an active gesture moves the state to `Invalid`, which absorbs every
//! stray touch id until all of them lift, so no stray touch is ever
//! reinterpreted as a new gesture mid-way.

use vstd::prelude::*;

verus! {

/// A bound on touch coordinates, so that squared distances and their
/// differences stay well inside the machine's integer ranges.
pub const MAX_TOUCH_COORD: i32 = 1000000;

/// Distance in pixels before a touch input is considered a drag.
pub const MAX_TAP_DISTANCE: i32 = 20;

/// A single touch point: its platform id and its position in window pixels.
#[derive(Clone, Copy, PartialEq, Eq, Structural, Debug)]
pub struct Touch {
    pub id: u64,
    pub x: i32,
    pub y: i32,
}

/// Whether a touch's coordinates lie within the supported range.
pub open spec fn spec_touch_in_range(t: Touch) -> bool {
    -MAX_TOUCH_COORD <= t.x <= MAX_TOUCH_COORD && -MAX_TOUCH_COORD <= t.y <= MAX_TOUCH_COORD
}

/// Whether `r` is the integer square root of `n`.
pub open spec fn spec_is_sqrt(n: nat, r: nat) -> bool {
    r * r <= n < (r + 1) * (r + 1)
}

/// The integer square root of `n`.
pub open spec fn spec_isqrt(n: nat) -> nat {
    choose|r: nat| spec_is_sqrt(n, r)
}

/// The integer square root is unique.
pub proof fn lemma_sqrt_unique(n: nat, r1: nat, r2: nat)
    requires
        spec_is_sqrt(n, r1),
        spec_is_sqrt(n, r2),
    ensures
        r1 == r2,
{
    if r1 < r2 {
        assert((r1 + 1) * (r1 + 1) <= r2 * r2) by (nonlinear_arith)
            requires
                r1 + 1 <= r2,
        ;
    }
    if r2 < r1 {
        assert((r2 + 1) * (r2 + 1) <= r1 * r1) by (nonlinear_arith)
            requires
                r2 + 1 <= r1,
        ;
    }
}

/// Compute the integer square root of `n`: the largest `r` with
/// `r * r <= n`.
pub fn isqrt64(n: u64) -> (r: u64)
    ensures
        spec_is_sqrt(n as nat, r as nat),
        r == spec_isqrt(n as nat),
{
    let mut lo: u64 = 0;
    let mut hi: u64 = 4294967296;
    assert((hi as nat) * (hi as nat) > n as nat) by (nonlinear_arith)
        requires
            hi == 4294967296,
            n <= u64::MAX,
    ;
    while lo + 1 < hi
        invariant
            lo < hi,
            hi <= 4294967296,
            (lo as nat) * (lo as nat) <= n as nat,
            (hi as nat) * (hi as nat) > n as nat,
        decreases hi - lo,
    {
        let mid = lo + (hi - lo) / 2;
        proof {
            assert((mid as int) * (mid as int) <= 0x10000000000000000) by (nonlinear_arith)
                requires
                    0 <= mid <= 0x100000000,
            ;
        }
        if (mid as u128) * (mid as u128) <= n as u128 {
            lo = mid;
        } else {
            hi = mid;
        }
    }
    proof {
        assert(spec_is_sqrt(n as nat, lo as nat));
        lemma_sqrt_unique(n as nat, lo as nat, spec_isqrt(n as nat));
    }
    lo
}

/// The distance in pixels between two touch points, rounded down.
pub open spec fn spec_touch_distance(a: Touch, b: Touch) -> nat {
    spec_isqrt(((a.x - b.x) * (a.x - b.x) + (a.y - b.y) * (a.y - b.y)) as nat)
}

/// The two live touch points of a pinch-zoom gesture.
#[derive(Clone, Copy, PartialEq, Eq, Structural, Debug)]
pub struct TouchZoom {
    pub first: Touch,
    pub second: Touch,
}

impl TouchZoom {
    pub fn new(first: Touch, second: Touch) -> (r: TouchZoom)
        ensures
            r.first == first && r.second == second,
    {
        TouchZoom { first, second }
    }

    /// The current distance between the two touch points.
    fn distance(&self) -> (r: u64)
        requires
            spec_touch_in_range(self.first),
            spec_touch_in_range(self.second),
        ensures
            r == spec_touch_distance(self.first, self.second),
            r <= 3000000,
    {
        let dx = self.first.x as i64 - self.second.x as i64;
        let dy = self.first.y as i64 - self.second.y as i64;
        proof {
            assert(0 <= dx * dx <= 4000000000000 && 0 <= dy * dy <= 4000000000000)
                by (nonlinear_arith)
                requires
                    -2000000 <= dx <= 2000000,
                    -2000000 <= dy <= 2000000,
            ;
        }
        let sq = (dx * dx + dy * dy) as u64;
        let r = isqrt64(sq);
        proof {
            assert((r as nat) * (r as nat) <= sq as nat);
            assert(sq as nat <= 8000000000000nat) by (nonlinear_arith)
                requires
                    -2000000 <= dx <= 2000000,
                    -2000000 <= dy <= 2000000,
                    sq == dx * dx + dy * dy,
            ;
            assert(r <= 3000000) by (nonlinear_arith)
                requires
                    (r as nat) * (r as nat) <= 8000000000000nat,
            ;
        }
        r
    }

    /// Replace the slot whose id matches `touch` (the second slot when
    /// neither matches) and return the change of the distance between the
    /// two touch points, in pixels.
    pub fn update(&mut self, touch: Touch) -> (delta: i32)
        requires
            spec_touch_in_range(old(self).first),
            spec_touch_in_range(old(self).second),
            spec_touch_in_range(touch),
        ensures
            old(self).first.id == touch.id ==> *final(self) == (TouchZoom {
                first: touch,
                ..*old(self)
            }),
            old(self).first.id != touch.id ==> *final(self) == (TouchZoom {
                second: touch,
                ..*old(self)
            }),
            delta == spec_touch_distance(final(self).first, final(self).second)
                - spec_touch_distance(old(self).first, old(self).second),
    {
        let old_distance = self.distance();
        if self.first.id == touch.id {
            self.first = touch;
        } else {
            self.second = touch;
        }
        let new_distance = self.distance();
        (new_distance as i64 - old_distance as i64) as i32
    }

    /// The ids of the two touch slots, without duplicates.
    pub fn slots(&self) -> (r: Vec<u64>)
        ensures
            r@.contains(self.first.id),
            r@.contains(self.second.id),
            forall|i: int| 0 <= i < r@.len() ==> r@[i] == self.first.id || r@[i] == self.second.id,
            forall|i: int, j: int| 0 <= i < j < r@.len() ==> r@[i] != r@[j],
    {
        let mut v: Vec<u64> = Vec::new();
        v.push(self.first.id);
        if self.second.id != self.first.id {
            v.push(self.second.id);
        }
        proof {
            assert(v@.contains(self.first.id)) by {
                assert(v@[0] == self.first.id);
            }
            if self.second.id != self.first.id {
                assert(v@[1] == self.second.id);
            } else {
                assert(v@[0] == self.second.id);
            }
        }
        v
    }
}

/// The gesture the touch stream has been classified into. Exactly one is
/// active at a time.
#[derive(Clone, PartialEq, Eq, Debug)]
pub enum TouchPurpose {
    /// No touch is down.
    Idle,
    /// One touch is down and has not moved beyond the tap threshold.
    Tap(Touch),
    /// Two touches form a pinch zoom.
    Zoom(TouchZoom),
    /// One touch scrolls vertically; the payload is its last position.
    Scroll(Touch),
    /// One touch drags a selection; the payload is its origin.
    Select(Touch),
    /// Stray touches: the set of ids absorbed until all of them lift.
    Invalid(Vec<u64>),
}

/// Whether an id list holds no duplicates.
pub open spec fn spec_no_dups(ids: Seq<u64>) -> bool {
    forall|i: int, j: int| 0 <= i < j < ids.len() ==> ids[i] != ids[j]
}

/// Insert an id into a duplicate-free id list, if it is not yet there.
pub fn insert_id(ids: &mut Vec<u64>, id: u64)
    requires
        spec_no_dups(old(ids)@),
    ensures
        spec_no_dups(final(ids)@),
        final(ids)@.contains(id),
        forall|x: u64| #[trigger] final(ids)@.contains(x) <==> (old(ids)@.contains(x) || x == id),
{
    let mut i: usize = 0;
    while i < ids.len()
        invariant
            i <= ids@.len(),
            forall|j: int| 0 <= j < i ==> ids@[j] != id,
            ids@ == old(ids)@,
            spec_no_dups(old(ids)@),
        decreases ids@.len() - i,
    {
        if ids[i] == id {
            proof {
                assert(ids@.contains(id));
                assert(forall|x: u64| ids@.contains(x) <==> (old(ids)@.contains(x) || x == id));
            }
            return ;
        }
        i = i + 1;
    }
    let ghost before = ids@;
    ids.push(id);
    proof {
        assert(ids@ == before.push(id));
        assert(ids@[before.len() as int] == id);
        assert(forall|j: int| 0 <= j < before.len() ==> ids@[j] == before[j]);
        assert(ids@.contains(id));
        assert forall|x: u64| #[trigger] ids@.contains(x) implies (before.contains(x) || x == id) by {
            let k = choose|k: int| 0 <= k < ids@.len() && ids@[k] == x;
            if k < before.len() {
                assert(before[k] == x);
            }
        }
        assert forall|x: u64| (before.contains(x) || x == id) implies #[trigger] ids@.contains(
            x,
        ) by {
            if before.contains(x) {
                let k = choose|k: int| 0 <= k < before.len() && before[k] == x;
                assert(ids@[k] == x);
            }
        }
    }
}

/// Remove an id from a duplicate-free id list, if it is there.
pub fn remove_id(ids: &mut Vec<u64>, id: u64)
    requires
        spec_no_dups(old(ids)@),
    ensures
        spec_no_dups(final(ids)@),
        !final(ids)@.contains(id),
        forall|x: u64| #[trigger] final(ids)@.contains(x) <==> (old(ids)@.contains(x) && x != id),
{
    let mut i: usize = 0;
    while i < ids.len()
        invariant
            i <= ids@.len(),
            forall|j: int| 0 <= j < i ==> ids@[j] != id,
            ids@ == old(ids)@,
            spec_no_dups(old(ids)@),
        decreases ids@.len() - i,
    {
        if ids[i] == id {
            let ghost before = ids@;
            ids.remove(i);
            proof {
                before.remove_ensures(i as int);
                assert(ids@ == before.remove(i as int));
                assert forall|x: u64| #[trigger] ids@.contains(x) implies (before.contains(x) && x
                    != id) by {
                    let k = choose|k: int| 0 <= k < ids@.len() && ids@[k] == x;
                    if k < i {
                        assert(ids@[k] == before[k]);
                        assert(before[k] != before[i as int]);
                    } else {
                        assert(ids@[k] == before[k + 1]);
                        assert(before[k + 1] != before[i as int]);
                    }
                }
                assert forall|x: u64| (before.contains(x) && x != id) implies #[trigger] ids@
                    .contains(x) by {
                    let k = choose|k: int| 0 <= k < before.len() && before[k] == x;
                    if k < i {
                        assert(ids@[k] == before[k]);
                    } else {
                        assert(k != i);
                        assert(ids@[k - 1] == before[k]);
                    }
                }
                assert forall|a: int, b: int| 0 <= a < b < ids@.len() implies ids@[a] != ids@[b] by {
                    if b < i {
                        assert(ids@[a] == before[a] && ids@[b] == before[b]);
                    } else if a < i {
                        assert(ids@[a] == before[a] && ids@[b] == before[b + 1]);
                    } else {
                        assert(ids@[a] == before[a + 1] && ids@[b] == before[b + 1]);
                    }
                }
            }
            return ;
        }
        i = i + 1;
    }
    proof {
        assert(!ids@.contains(id));
        assert(forall|x: u64| ids@.contains(x) <==> (old(ids)@.contains(x) && x != id));
    }
}

/// The state after one touch-begin event.
///
/// `Idle` becomes a tap; a second touch turns a tap into a zoom; any touch
/// beyond that, or during a scroll or selection, abandons the gesture into
/// the absorbing `Invalid` state.
pub fn touch_start_transition(purpose: TouchPurpose, touch: Touch) -> (r: TouchPurpose)
    requires
        purpose matches TouchPurpose::Invalid(ids) ==> spec_no_dups(ids@),
    ensures
        purpose is Idle ==> r == TouchPurpose::Tap(touch),
        purpose matches TouchPurpose::Tap(start) ==> r == TouchPurpose::Zoom(
            TouchZoom { first: start, second: touch },
        ),
        purpose matches TouchPurpose::Zoom(z) ==> r matches TouchPurpose::Invalid(ids)
            && spec_no_dups(ids@) && (forall|x: u64|
            #[trigger] ids@.contains(x) <==> (x == z.first.id || x == z.second.id)),
        purpose matches TouchPurpose::Scroll(e) ==> r matches TouchPurpose::Invalid(ids) && ids@
            =~= seq![e.id],
        purpose matches TouchPurpose::Select(e) ==> r matches TouchPurpose::Invalid(ids) && ids@
            =~= seq![e.id],
        purpose matches TouchPurpose::Invalid(ids) ==> (r matches TouchPurpose::Invalid(out)
            && spec_no_dups(out@) && out@.contains(touch.id) && (forall|x: u64|
            #[trigger] out@.contains(x) <==> (ids@.contains(x) || x == touch.id))),
{
    match purpose {
        TouchPurpose::Idle => TouchPurpose::Tap(touch),
        TouchPurpose::Tap(start) => TouchPurpose::Zoom(TouchZoom::new(start, touch)),
        TouchPurpose::Zoom(zoom) => TouchPurpose::Invalid(zoom.slots()),
        TouchPurpose::Scroll(event) | TouchPurpose::Select(event) => {
            let mut ids: Vec<u64> = Vec::new();
            ids.push(event.id);
            TouchPurpose::Invalid(ids)
        },
        TouchPurpose::Invalid(mut ids) => {
            insert_id(&mut ids, touch.id);
            TouchPurpose::Invalid(ids)
        },
    }
}

} // verus!
