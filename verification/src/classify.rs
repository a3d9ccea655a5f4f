//! Pure predicates deciding whether a trip qualifies for duration
//! measurement: pickup in the fixed midtown zone set, dropoff at the JFK
//! airport zone, and pickup on a weekday.

use vstd::prelude::*;

use crate::datetime::ParsedTime;
use crate::datetime::weekday_from_monday;

verus! {

/// The JFK airport zone identifier.
pub const JFK_ZONE: u16 = 132;

/// Membership in the fixed nine-element midtown pickup zone set.
pub open spec fn is_midtown(zone: u16) -> bool {
    zone == 90 || zone == 100 || zone == 161 || zone == 162 || zone == 163 || zone == 164
        || zone == 186 || zone == 230 || zone == 234
}

/// The midtown zone identifiers, in ascending order.
pub open spec fn midtown_seq() -> Seq<u16> {
    seq![90u16, 100u16, 161u16, 162u16, 163u16, 164u16, 186u16, 230u16, 234u16]
}

/// Builds the sorted midtown zone table.
fn midtown_zones() -> (v: Vec<u16>)
    ensures
        v@ == midtown_seq(),
{
    let mut v: Vec<u16> = Vec::new();
    v.push(90);
    v.push(100);
    v.push(161);
    v.push(162);
    v.push(163);
    v.push(164);
    v.push(186);
    v.push(230);
    v.push(234);
    proof {
        assert(v@ =~= midtown_seq());
    }
    v
}

/// True iff `zone` is in the fixed midtown pickup set
/// `{90, 100, 161, 162, 163, 164, 186, 230, 234}`.
///
/// The set is small and static, so membership is decided by binary search
/// over the sorted zone table.
pub fn is_midtown_pickup(zone: u16) -> (r: bool)
    ensures
        r <==> is_midtown(zone),
{
    let v = midtown_zones();
    proof {
        assert(forall|i: int, j: int|
            0 <= i < j < midtown_seq().len() ==> midtown_seq()[i] < midtown_seq()[j]);
    }
    let mut lo: usize = 0;
    let mut hi: usize = v.len();
    while lo < hi
        invariant
            0 <= lo <= hi <= v@.len(),
            v@ == midtown_seq(),
            forall|i: int| 0 <= i < lo ==> v@[i] < zone,
            forall|i: int| hi <= i < v@.len() ==> v@[i] > zone,
        decreases hi - lo,
    {
        let mid = lo + (hi - lo) / 2;
        if v[mid] < zone {
            lo = mid + 1;
        } else if v[mid] > zone {
            hi = mid;
        } else {
            return true;
        }
    }
    false
}

/// True iff `zone` is the JFK airport dropoff zone, identifier 132.
pub fn is_jfk_dropoff(zone: u16) -> (r: bool)
    ensures
        r <==> zone == JFK_ZONE,
{
    zone == JFK_ZONE
}

/// True iff `t` falls on a weekday: Monday (1) through Friday (5)
/// inclusive; Saturday (6) and Sunday (7) are excluded.
pub fn is_weekday(t: &ParsedTime) -> (r: bool)
    requires
        t.wf(),
    ensures
        r <==> weekday_from_monday(*t) <= 5,
{
    t.number_from_monday() <= 5
}

} // verus!
