use vstd::prelude::*;
use crate::units::{Milli, Ratio};

verus! {

/// Standard breaker ratings, in amperes, ascending.
pub open spec fn breaker_sizes() -> Seq<u32> {
    seq![6, 10, 16, 20, 25, 32, 40, 50, 63, 80, 100, 125, 160, 200, 250]
}

/// Maximum current, in amperes, of each standard cable section, ascending.
pub open spec fn cable_capacities() -> Seq<u32> {
    seq![16, 21, 28, 36, 50, 68, 89, 111, 133, 171, 207, 240]
}

/// Standard cable sections, in thousandths of a square millimetre, matching
/// `cable_capacities` entry by entry.
pub open spec fn cable_sections() -> Seq<u32> {
    seq![1500, 2500, 4000, 6000, 10000, 16000, 25000, 35000, 50000, 70000, 95000, 120000]
}

/// A capacity is adequate for a current `num / den` once the 25% margin is
/// added: `capacity >= 1.25 * num / den`. Equality is adequate.
pub open spec fn covers(capacity: int, num: int, den: int) -> bool {
    4 * capacity * den >= 5 * num
}

/// Index of the first entry, from `i` on, that covers the current; the last
/// entry where none does.
pub open spec fn first_fit(caps: Seq<u32>, num: int, den: int, i: int) -> int
    decreases caps.len() - i,
{
    if i >= caps.len() - 1 {
        caps.len() - 1
    } else if covers(caps[i] as int, num, den) {
        i
    } else {
        first_fit(caps, num, den, i + 1)
    }
}

/// The breaker rating recommended for a current `num / den`.
pub open spec fn breaker_for(num: int, den: int) -> u32 {
    breaker_sizes()[first_fit(breaker_sizes(), num, den, 0)]
}

/// The cable section recommended for a current `num / den`, in thousandths of mm².
pub open spec fn cable_for(num: int, den: int) -> u32 {
    cable_sections()[first_fit(cable_capacities(), num, den, 0)]
}

/// Searches the table in order for the first capacity that covers the current.
fn first_fit_index(caps: &Vec<u32>, current: &Ratio) -> (i: usize)
    requires
        caps@.len() > 0,
        forall|j: int| 0 <= j < caps@.len() ==> #[trigger] caps@[j] <= 1000,
        current.wf(),
    ensures
        i == first_fit(caps@, current.num as int, current.den as int, 0),
        i < caps@.len(),
{
    let mut i: usize = 0;
    while i < caps.len() - 1
        invariant
            0 <= i <= caps@.len() - 1,
            caps@.len() > 0,
            forall|j: int| 0 <= j < caps@.len() ==> #[trigger] caps@[j] <= 1000,
            current.wf(),
            first_fit(caps@, current.num as int, current.den as int, 0) == first_fit(
                caps@,
                current.num as int,
                current.den as int,
                i as int,
            ),
        decreases caps@.len() - i,
    {
        let cap = caps[i] as u128;
        assert(4 * cap * current.den <= 4000 * crate::units::RATIO_MAX_DEN) by (nonlinear_arith)
            requires
                cap <= 1000,
                current.den <= crate::units::RATIO_MAX_DEN,
        ;
        if 4 * cap * current.den >= 5 * current.num {
            return i;
        }
        i += 1;
    }
    i
}

/// The smallest standard breaker rating that is at least the current plus a
/// 25% margin; the largest rating where none is.
pub fn recommend_breaker(current: &Ratio) -> (r: u32)
    requires
        current.wf(),
    ensures
        r == breaker_for(current.num as int, current.den as int),
        breaker_sizes().contains(r),
        r > 0,
{
    let sizes: Vec<u32> = vec![6, 10, 16, 20, 25, 32, 40, 50, 63, 80, 100, 125, 160, 200, 250];
    assert(sizes@ =~= breaker_sizes());
    let i = first_fit_index(&sizes, current);
    assert(forall|j: int| 0 <= j < sizes@.len() ==> #[trigger] sizes@[j] > 0);
    assert(breaker_sizes()[i as int] == sizes@[i as int]);
    sizes[i]
}

/// The smallest standard cable section whose maximum current is at least the
/// current plus a 25% margin; the largest section where none is.
pub fn recommend_cable_section(current: &Ratio) -> (r: Milli)
    requires
        current.wf(),
    ensures
        r.thousandths == cable_for(current.num as int, current.den as int),
        cable_sections().contains(r.thousandths),
{
    let capacities: Vec<u32> = vec![16, 21, 28, 36, 50, 68, 89, 111, 133, 171, 207, 240];
    let sections: Vec<u32> = vec![
        1500,
        2500,
        4000,
        6000,
        10000,
        16000,
        25000,
        35000,
        50000,
        70000,
        95000,
        120000,
    ];
    assert(capacities@ =~= cable_capacities());
    assert(sections@ =~= cable_sections());
    let i = first_fit_index(&capacities, current);
    assert(cable_sections()[i as int] == sections@[i as int]);
    Milli { thousandths: sections[i] }
}

} // verus!
