//! What a player sees of the region: the places within the interest radius
//! of where they stand, the routes that touch one of those places, and the
//! settlements at them. The view names what is visible by its position in
//! the region's own lists, in their order, so that the caller can show the
//! full records.
use crate::frontier::Position;
use crate::travel::RouteRecord;
use vstd::prelude::*;

verus! {

/// How far, in tiles walked, a player sees across the region.
pub const INTEREST_RADIUS: u32 = 12;

/// A place of the region and where it lies.
#[derive(Debug, Clone)]
pub struct RegionPlace {
    pub location_id: String,
    pub position: Position,
}

/// The positions, in the region's lists, of what a player sees.
#[derive(Debug, Clone)]
pub struct RegionView {
    pub places: Vec<usize>,
    pub routes: Vec<usize>,
    pub settlements: Vec<usize>,
}

// ---------------------------------------------------------------- specs

pub open spec fn manhattan(a: Position, b: Position) -> int {
    (if a.x >= b.x { a.x - b.x } else { b.x - a.x }) + (if a.y >= b.y { a.y - b.y } else { b.y - a.y })
}

/// `k` is the first place named `id`.
pub open spec fn first_place(places: Seq<RegionPlace>, id: Seq<char>, k: int) -> bool {
    &&& 0 <= k < places.len()
    &&& places[k].location_id@ == id
    &&& forall|q: int| 0 <= q < k ==> (#[trigger] places[q]).location_id@ != id
}

pub open spec fn has_place(places: Seq<RegionPlace>, id: Seq<char>) -> bool {
    exists|k: int| 0 <= k < places.len() && (#[trigger] places[k]).location_id@ == id
}

/// A place within the interest radius of `centre`.
pub open spec fn in_view(p: RegionPlace, centre: Position) -> bool {
    manhattan(p.position, centre) <= INTEREST_RADIUS
}

/// Whether a place named `id` lies within the interest radius of
/// `centre`.
pub open spec fn seen(places: Seq<RegionPlace>, centre: Position, id: Seq<char>) -> bool {
    exists|k: int| 0 <= k < places.len() && in_view(#[trigger] places[k], centre) && places[k].location_id@ == id
}

/// `v` lists, in increasing order, exactly the positions below `n` that
/// `p` picks.
pub open spec fn lists_exactly(v: Seq<usize>, n: int, p: spec_fn(int) -> bool) -> bool {
    &&& forall|i: int, j: int| 0 <= i < j < v.len() ==> v[i] < v[j]
    &&& forall|i: int| 0 <= i < v.len() ==> 0 <= #[trigger] v[i] < n && p(v[i] as int)
    &&& forall|k: int| 0 <= k < n && #[trigger] p(k) ==> v.contains(k as usize)
}

/// The places within the interest radius of `centre`.
pub open spec fn place_pick(places: Seq<RegionPlace>, centre: Position) -> spec_fn(int) -> bool {
    |k: int| in_view(places[k], centre)
}

/// The routes that leave from or arrive at a place in view of `centre`.
pub open spec fn route_pick(places: Seq<RegionPlace>, routes: Seq<RouteRecord>, centre: Position) -> spec_fn(int) -> bool {
    |k: int|
        seen(places, centre, routes[k].origin_location_id@) || seen(
            places,
            centre,
            routes[k].destination_location_id@,
        )
}

/// The settlements at a place in view of `centre`.
pub open spec fn settlement_pick(places: Seq<RegionPlace>, settlement_places: Seq<String>, centre: Position) -> spec_fn(int) -> bool {
    |k: int| seen(places, centre, settlement_places[k]@)
}

/// The view from the place named `here`.
pub open spec fn region_view_of(
    places: Seq<RegionPlace>,
    routes: Seq<RouteRecord>,
    settlement_places: Seq<String>,
    here: Seq<char>,
    v: RegionView,
) -> bool {
    exists|h: int|
        #[trigger] first_place(places, here, h) && {
            let centre = places[h].position;
            &&& lists_exactly(v.places@, places.len() as int, place_pick(places, centre))
            &&& lists_exactly(v.routes@, routes.len() as int, route_pick(places, routes, centre))
            &&& lists_exactly(
                v.settlements@,
                settlement_places.len() as int,
                settlement_pick(places, settlement_places, centre),
            )
        }
}

// ---------------------------------------------------------------- exec

pub(crate) proof fn lemma_list_step(v: Seq<usize>, v2: Seq<usize>, k: int, p: spec_fn(int) -> bool)
    requires
        0 <= k <= usize::MAX,
        lists_exactly(v, k, p),
        v2 == (if p(k) { v.push(k as usize) } else { v }),
    ensures
        lists_exactly(v2, k + 1, p),
{
    assert forall|q: int| 0 <= q < k + 1 && #[trigger] p(q) implies v2.contains(q as usize) by {
        if q < k {
            let j = choose|j: int| 0 <= j < v.len() && v[j] == q as usize;
            assert(v2[j] == v[j]);
        } else {
            assert(v2[v2.len() - 1] == k as usize);
        }
    }
}

fn within_radius(a: Position, b: Position) -> (r: bool)
    ensures
        r == (manhattan(a, b) <= INTEREST_RADIUS),
{
    let dx: i64 = if a.x >= b.x { a.x as i64 - b.x as i64 } else { b.x as i64 - a.x as i64 };
    let dy: i64 = if a.y >= b.y { a.y as i64 - b.y as i64 } else { b.y as i64 - a.y as i64 };
    dx + dy <= INTEREST_RADIUS as i64
}

fn find_place(places: &Vec<RegionPlace>, id: &String) -> (r: usize)
    requires
        has_place(places@, id@),
    ensures
        first_place(places@, id@, r as int),
{
    let n = places.len();
    let mut k: usize = 0;
    while k < n
        invariant
            n == places@.len(),
            k <= n,
            has_place(places@, id@),
            forall|q: int| 0 <= q < k ==> (#[trigger] places@[q]).location_id@ != id@,
        decreases n - k,
    {
        if places[k].location_id == *id {
            return k;
        }
        k = k + 1;
    }
    proof {
        let w = choose|w: int| 0 <= w < places@.len() && (#[trigger] places@[w]).location_id@ == id@;
        assert(places@[w].location_id@ != id@);
    }
    0
}

fn sees(places: &Vec<RegionPlace>, centre: Position, id: &String) -> (r: bool)
    ensures
        r == seen(places@, centre, id@),
{
    let n = places.len();
    for k in 0..n
        invariant
            n == places@.len(),
            forall|q: int|
                0 <= q < k ==> !(in_view(#[trigger] places@[q], centre) && places@[q].location_id@ == id@),
    {
        if places[k].location_id == *id && within_radius(places[k].position, centre) {
            assert(in_view(places@[k as int], centre) && places@[k as int].location_id@ == id@);
            return true;
        }
    }
    false
}

/// What a player standing at the place named `here` sees of the region.
pub fn region_view(
    places: &Vec<RegionPlace>,
    routes: &Vec<RouteRecord>,
    settlement_places: &Vec<String>,
    here: &String,
) -> (v: RegionView)
    requires
        has_place(places@, here@),
    ensures
        region_view_of(places@, routes@, settlement_places@, here@, v),
{
    let h = find_place(places, here);
    let centre = places[h].position;

    let mut shown: Vec<usize> = Vec::new();
    let n = places.len();
    for k in 0..n
        invariant
            n == places@.len(),
            lists_exactly(shown@, k as int, place_pick(places@, centre)),
    {
        let ghost before = shown@;
        if within_radius(places[k].position, centre) {
            shown.push(k);
        }
        proof {
            lemma_list_step(before, shown@, k as int, place_pick(places@, centre));
        }
    }

    let mut touching: Vec<usize> = Vec::new();
    let m = routes.len();
    for k in 0..m
        invariant
            m == routes@.len(),
            lists_exactly(touching@, k as int, route_pick(places@, routes@, centre)),
    {
        let r = &routes[k];
        let ghost before = touching@;
        if sees(places, centre, &r.origin_location_id) || sees(places, centre, &r.destination_location_id) {
            touching.push(k);
        }
        proof {
            lemma_list_step(before, touching@, k as int, route_pick(places@, routes@, centre));
        }
    }

    let mut settled: Vec<usize> = Vec::new();
    let s = settlement_places.len();
    for k in 0..s
        invariant
            s == settlement_places@.len(),
            lists_exactly(settled@, k as int, settlement_pick(places@, settlement_places@, centre)),
    {
        let ghost before = settled@;
        if sees(places, centre, &settlement_places[k]) {
            settled.push(k);
        }
        proof {
            lemma_list_step(before, settled@, k as int, settlement_pick(places@, settlement_places@, centre));
        }
    }
    let v = RegionView { places: shown, routes: touching, settlements: settled };
    assert(first_place(places@, here@, h as int));
    v
}

} // verus!
