//! Where a personal shelter may stand: its footprint must lie on clear
//! meadow inside the world, away from other structures, the Beacon commons
//! and the protected road; its entrance must be open; and every resident
//! must keep a way out, while the entrance itself must reach the road.
use crate::frontier::Position;
use vstd::prelude::*;
use vstd::string::*;

verus! {

/// The Beacon at the centre of the commons.
pub open spec fn beacon() -> Position {
    Position { x: 8, y: 6 }
}

#[derive(Debug, Clone, Copy, PartialEq, Eq, Structural)]
pub enum TileKind {
    /// Clear, walkable ground a shelter may stand on.
    Meadow,
    /// The protected road.
    Path,
    /// Walkable ground too rough to build on.
    Rough,
    /// Ground nobody walks on.
    Blocked,
}

/// The terrain of the world, row by row.
#[derive(Debug, Clone)]
pub struct WorldMap {
    pub width: u32,
    pub height: u32,
    pub tiles: Vec<TileKind>,
}

#[derive(Debug, Clone, Copy, PartialEq, Eq, Structural)]
pub struct Footprint {
    pub width: u8,
    pub height: u8,
}

#[derive(Debug, Clone, Copy, PartialEq, Eq, Structural)]
pub enum Direction {
    North,
    East,
    South,
    West,
}

/// A shelter already standing, as placement sees it.
#[derive(Debug, Clone)]
pub struct PlacedShelter {
    pub property_id: String,
    pub anchor: Position,
    pub footprint: Footprint,
}

/// What surrounds a proposed shelter.
#[derive(Debug, Clone)]
pub struct PlacementScene {
    pub map: WorldMap,
    /// Landmarks, field plots and infrastructure: fixed structures.
    pub fixtures: Vec<Position>,
    pub shelters: Vec<PlacedShelter>,
    /// Where every resident stands, the one asking included.
    pub players: Vec<Position>,
    /// How far the public commons reach from the Beacon.
    pub commons_radius: u32,
}

#[derive(Debug, Clone, Copy, PartialEq, Eq, Structural)]
pub enum PlacementRule {
    InsideWorld,
    ClearTerrain,
    NoStructureOverlap,
    OutsideBeaconCommons,
    OutsideProtectedRoute,
    EntranceClear,
    EscapePathOpen,
}

#[derive(Debug, Clone)]
pub struct PlacementPreview {
    pub anchor: Position,
    pub entrance: Direction,
    pub footprint: Footprint,
    pub accepted: bool,
    pub rejected_rules: Vec<PlacementRule>,
    pub message: String,
}

// ---------------------------------------------------------------- specs

/// A map whose rows hold exactly its tiles.
pub open spec fn map_wf(m: WorldMap) -> bool {
    m.tiles@.len() == m.width * m.height
}

/// An integer held within the range of `i32`.
pub open spec fn sat_i32(v: int) -> i32 {
    if v > i32::MAX {
        i32::MAX
    } else if v < i32::MIN {
        i32::MIN
    } else {
        v as i32
    }
}

pub open spec fn in_world(m: WorldMap, p: Position) -> bool {
    0 <= p.x < m.width && 0 <= p.y < m.height
}

/// The terrain at `p`; outside the world every tile counts as blocked.
pub open spec fn tile_at(m: WorldMap, p: Position) -> TileKind {
    if in_world(m, p) {
        m.tiles@[p.y * m.width + p.x]
    } else {
        TileKind::Blocked
    }
}

pub open spec fn walkable(k: TileKind) -> bool {
    k != TileKind::Blocked
}

pub open spec fn manhattan(a: Position, b: Position) -> int {
    (if a.x >= b.x { a.x - b.x } else { b.x - a.x }) + (if a.y >= b.y { a.y - b.y } else { b.y - a.y })
}

/// The tile `dx` columns right and `dy` rows down of the anchor.
pub open spec fn tile_of(anchor: Position, dx: int, dy: int) -> Position {
    Position { x: sat_i32(anchor.x + dx), y: sat_i32(anchor.y + dy) }
}

pub open spec fn in_range(fp: Footprint, dx: int, dy: int) -> bool {
    0 <= dx < fp.width && 0 <= dy < fp.height
}

/// `p` is one of the tiles a footprint at `anchor` covers.
pub open spec fn in_footprint(anchor: Position, fp: Footprint, p: Position) -> bool {
    exists|dx: int, dy: int| in_range(fp, dx, dy) && #[trigger] tile_of(anchor, dx, dy) == p
}

/// The tile of a shelter's entrance on the side `d`.
pub open spec fn entrance_of(anchor: Position, fp: Footprint, d: Direction) -> Position {
    match d {
        Direction::North => Position { x: sat_i32(anchor.x + fp.width / 2), y: sat_i32(anchor.y - 1) },
        Direction::East => Position { x: sat_i32(anchor.x + fp.width), y: sat_i32(anchor.y + fp.height / 2) },
        Direction::South => Position { x: sat_i32(anchor.x + fp.width / 2), y: sat_i32(anchor.y + fp.height) },
        Direction::West => Position { x: sat_i32(anchor.x - 1), y: sat_i32(anchor.y + fp.height / 2) },
    }
}

/// A shelter other than the one named `ignored` covers `p`.
pub open spec fn shelter_covers(s: Seq<PlacedShelter>, ignored: Option<Seq<char>>, p: Position) -> bool {
    exists|i: int|
        0 <= i < s.len() && ignored != Some((#[trigger] s[i]).property_id@) && in_footprint(
            s[i].anchor,
            s[i].footprint,
            p,
        )
}

/// Something stands on `p`: a fixture, another shelter, or (when
/// `players` holds) a resident.
pub open spec fn occupied(sc: PlacementScene, ignored: Option<Seq<char>>, players: bool, p: Position) -> bool {
    sc.fixtures@.contains(p) || shelter_covers(sc.shelters@, ignored, p) || (players
        && sc.players@.contains(p))
}

/// A resident can step onto `p` once the proposed footprint stands.
pub open spec fn open_tile(sc: PlacementScene, anchor: Position, fp: Footprint, ignored: Option<Seq<char>>, p: Position) -> bool {
    in_world(sc.map, p) && walkable(tile_at(sc.map, p)) && !in_footprint(anchor, fp, p) && !occupied(
        sc,
        ignored,
        false,
        p,
    )
}

/// The four tiles beside `p`.
pub open spec fn neighbours(p: Position) -> Seq<Position> {
    seq![
        Position { x: sat_i32(p.x + 1), y: p.y },
        Position { x: sat_i32(p.x - 1), y: p.y },
        Position { x: p.x, y: sat_i32(p.y + 1) },
        Position { x: p.x, y: sat_i32(p.y - 1) },
    ]
}

/// `w` walks from `start` over open tiles, one step at a time.
pub open spec fn open_walk(sc: PlacementScene, anchor: Position, fp: Footprint, ignored: Option<Seq<char>>, start: Position, w: Seq<Position>) -> bool {
    &&& w.len() > 0
    &&& w[0] == start
    &&& forall|i: int|
        1 <= i < w.len() ==> neighbours(w[i - 1]).contains(#[trigger] w[i]) && open_tile(
            sc,
            anchor,
            fp,
            ignored,
            w[i],
        )
}

/// A walk from `start` reaches the protected road.
pub open spec fn escape_walk(sc: PlacementScene, anchor: Position, fp: Footprint, ignored: Option<Seq<char>>, start: Position, w: Seq<Position>) -> bool {
    open_walk(sc, anchor, fp, ignored, start, w) && tile_at(sc.map, w.last()) == TileKind::Path
}

pub open spec fn escape_exists(sc: PlacementScene, anchor: Position, fp: Footprint, ignored: Option<Seq<char>>, start: Position) -> bool {
    exists|w: Seq<Position>| #[trigger] escape_walk(sc, anchor, fp, ignored, start, w)
}

/// No tile beside `p` is open.
pub open spec fn boxed_in(sc: PlacementScene, anchor: Position, fp: Footprint, ignored: Option<Seq<char>>, p: Position) -> bool {
    forall|k: int| 0 <= k < 4 ==> !open_tile(sc, anchor, fp, ignored, #[trigger] neighbours(p)[k])
}


// ---------------------------------------------------------------- tiles

proof fn lemma_index_in_bounds(x: int, y: int, w: int, h: int)
    requires
        0 <= x < w,
        0 <= y < h,
    ensures
        0 <= y * w + x < w * h,
{
    assert(0 <= y * w) by (nonlinear_arith)
        requires
            0 <= y,
            0 <= w,
    ;
    assert(y * w + x < w * h) by (nonlinear_arith)
        requires
            0 <= x < w,
            0 <= y < h,
    ;
}

/// `a + d`, held within the range of `i32`.
pub fn shift(a: i32, d: i64) -> (r: i32)
    ensures
        r == sat_i32(a + d),
{
    if d > 0x1_0000_0000 {
        return i32::MAX;
    }
    if d < -0x1_0000_0000 {
        return i32::MIN;
    }
    let v: i64 = a as i64 + d;
    if v > i32::MAX as i64 {
        i32::MAX
    } else if v < i32::MIN as i64 {
        i32::MIN
    } else {
        v as i32
    }
}

pub fn is_in_world(m: &WorldMap, p: Position) -> (r: bool)
    ensures
        r == in_world(*m, p),
{
    p.x >= 0 && p.y >= 0 && (p.x as u32) < m.width && (p.y as u32) < m.height
}

/// The terrain at `p`.
pub fn terrain(m: &WorldMap, p: Position) -> (r: TileKind)
    requires
        map_wf(*m),
    ensures
        r == tile_at(*m, p),
{
    if !is_in_world(m, p) {
        return TileKind::Blocked;
    }
    let n = m.tiles.len();
    proof {
        lemma_index_in_bounds(p.x as int, p.y as int, m.width as int, m.height as int);
        assert(0 <= (p.y as int) * (m.width as int)) by (nonlinear_arith)
            requires
                0 <= p.y,
                0 <= m.width,
        ;
    }
    let i: usize = (p.y as usize) * (m.width as usize) + (p.x as usize);
    m.tiles[i]
}

/// Whether the footprint at `anchor` covers `p`.
pub fn covers(anchor: Position, fp: Footprint, p: Position) -> (r: bool)
    ensures
        r == in_footprint(anchor, fp, p),
{
    let mut dy: u8 = 0;
    while dy < fp.height
        invariant
            dy <= fp.height,
            forall|x: int, y: int| 0 <= y < dy && 0 <= x < fp.width ==> #[trigger] tile_of(anchor, x, y) != p,
        decreases fp.height - dy,
    {
        let y = shift(anchor.y, dy as i64);
        let mut dx: u8 = 0;
        while dx < fp.width
            invariant
                dy < fp.height,
                dx <= fp.width,
                y == sat_i32(anchor.y + dy),
                forall|x: int, y: int| 0 <= y < dy && 0 <= x < fp.width ==> #[trigger] tile_of(anchor, x, y) != p,
                forall|x: int| 0 <= x < dx ==> #[trigger] tile_of(anchor, x, dy as int) != p,
            decreases fp.width - dx,
        {
            let x = shift(anchor.x, dx as i64);
            if x == p.x && y == p.y {
                assert(tile_of(anchor, dx as int, dy as int) == p);
                assert(in_range(fp, dx as int, dy as int));
                return true;
            }
            dx = dx + 1;
        }
        dy = dy + 1;
    }
    assert forall|x: int, y: int| in_range(fp, x, y) implies #[trigger] tile_of(anchor, x, y) != p by {}
    false
}

/// The tile of the entrance on the side `d`.
pub fn entrance_tile(anchor: Position, fp: Footprint, d: Direction) -> (r: Position)
    ensures
        r == entrance_of(anchor, fp, d),
{
    match d {
        Direction::North => Position { x: shift(anchor.x, (fp.width / 2) as i64), y: shift(anchor.y, -1) },
        Direction::East => Position { x: shift(anchor.x, fp.width as i64), y: shift(anchor.y, (fp.height / 2) as i64) },
        Direction::South => Position { x: shift(anchor.x, (fp.width / 2) as i64), y: shift(anchor.y, fp.height as i64) },
        Direction::West => Position { x: shift(anchor.x, -1), y: shift(anchor.y, (fp.height / 2) as i64) },
    }
}

fn contains_position(v: &Vec<Position>, p: Position) -> (r: bool)
    ensures
        r == v@.contains(p),
{
    let n = v.len();
    for i in 0..n
        invariant
            n == v@.len(),
            forall|k: int| 0 <= k < i ==> v@[k] != p,
    {
        if v[i] == p {
            assert(v@[i as int] == p);
            return true;
        }
    }
    false
}

fn same_id(ignored: &Option<String>, id: &String) -> (r: bool)
    ensures
        r == (opt_view(*ignored) == Some(id@)),
{
    match ignored {
        Some(s) => s.eq(id),
        None => false,
    }
}

pub open spec fn opt_view(o: Option<String>) -> Option<Seq<char>> {
    match o {
        Some(s) => Some(s@),
        None => None,
    }
}

/// Whether something stands on `p`.
pub fn is_occupied(sc: &PlacementScene, ignored: &Option<String>, players: bool, p: Position) -> (r: bool)
    ensures
        r == occupied(*sc, opt_view(*ignored), players, p),
{
    if contains_position(&sc.fixtures, p) {
        return true;
    }
    let n = sc.shelters.len();
    for i in 0..n
        invariant
            n == sc.shelters@.len(),
            forall|k: int|
                0 <= k < i ==> !(opt_view(*ignored) != Some((#[trigger] sc.shelters@[k]).property_id@)
                    && in_footprint(sc.shelters@[k].anchor, sc.shelters@[k].footprint, p)),
    {
        let s = &sc.shelters[i];
        if !same_id(ignored, &s.property_id) && covers(s.anchor, s.footprint, p) {
            return true;
        }
    }
    players && contains_position(&sc.players, p)
}

/// Whether a resident can step onto `p` once the proposed footprint stands.
pub fn is_open(sc: &PlacementScene, anchor: Position, fp: Footprint, ignored: &Option<String>, p: Position) -> (r: bool)
    requires
        map_wf(sc.map),
    ensures
        r == open_tile(*sc, anchor, fp, opt_view(*ignored), p),
{
    is_in_world(&sc.map, p) && terrain(&sc.map, p) != TileKind::Blocked && !covers(anchor, fp, p)
        && !is_occupied(sc, ignored, false, p)
}

pub fn neighbour_tiles(p: Position) -> (r: [Position; 4])
    ensures
        r@ == neighbours(p),
{
    let r = [
        Position { x: shift(p.x, 1), y: p.y },
        Position { x: shift(p.x, -1), y: p.y },
        Position { x: p.x, y: shift(p.y, 1) },
        Position { x: p.x, y: shift(p.y, -1) },
    ];
    assert(r@ =~= neighbours(p));
    r
}

/// Whether no tile beside `p` is open.
pub fn is_boxed_in(sc: &PlacementScene, anchor: Position, fp: Footprint, ignored: &Option<String>, p: Position) -> (r: bool)
    requires
        map_wf(sc.map),
    ensures
        r == boxed_in(*sc, anchor, fp, opt_view(*ignored), p),
{
    let ns = neighbour_tiles(p);
    for k in 0..4
        invariant
            ns@ == neighbours(p),
            map_wf(sc.map),
            forall|j: int| 0 <= j < k ==> !open_tile(*sc, anchor, fp, opt_view(*ignored), #[trigger] neighbours(p)[j]),
    {
        if is_open(sc, anchor, fp, ignored, ns[k]) {
            return false;
        }
    }
    true
}


// ---------------------------------------------------------------- the escape search

pub open spec fn pos_index(m: WorldMap, p: Position) -> int {
    p.y * m.width + p.x
}

proof fn lemma_index_injective(m: WorldMap, p: Position, q: Position)
    requires
        in_world(m, p),
        in_world(m, q),
        pos_index(m, p) == pos_index(m, q),
    ensures
        p == q,
{
    let w = m.width as int;
    if p.y < q.y {
        assert(p.y * w + p.x < q.y * w + q.x) by (nonlinear_arith)
            requires
                p.y < q.y,
                0 <= p.x < w,
                0 <= q.x,
        ;
    } else if q.y < p.y {
        assert(q.y * w + q.x < p.y * w + p.x) by (nonlinear_arith)
            requires
                q.y < p.y,
                0 <= q.x < w,
                0 <= p.x,
        ;
    }
}

/// The number of cells of `s` not yet marked.
pub open spec fn unmarked(s: Seq<bool>) -> nat
    decreases s.len(),
{
    if s.len() == 0 {
        0
    } else {
        unmarked(s.drop_last()) + if s.last() { 0nat } else { 1nat }
    }
}

proof fn lemma_mark(s: Seq<bool>, j: int)
    requires
        0 <= j < s.len(),
        !s[j],
    ensures
        unmarked(s.update(j, true)) + 1 == unmarked(s),
    decreases s.len(),
{
    let t = s.update(j, true);
    if j == s.len() - 1 {
        assert(t.drop_last() =~= s.drop_last());
    } else {
        assert(t.drop_last() =~= s.drop_last().update(j, true));
        lemma_mark(s.drop_last(), j);
    }
}

proof fn lemma_extend_walk(sc: PlacementScene, anchor: Position, fp: Footprint, ignored: Option<Seq<char>>, start: Position, w: Seq<Position>, q: Position)
    requires
        open_walk(sc, anchor, fp, ignored, start, w),
        neighbours(w.last()).contains(q),
        open_tile(sc, anchor, fp, ignored, q),
    ensures
        open_walk(sc, anchor, fp, ignored, start, w.push(q)),
        w.push(q).last() == q,
{
    let v = w.push(q);
    assert forall|i: int| 1 <= i < v.len() implies neighbours(v[i - 1]).contains(#[trigger] v[i]) && open_tile(sc, anchor, fp, ignored, v[i]) by {
        if i < w.len() {
            assert(v[i] == w[i]);
            assert(v[i - 1] == w[i - 1]);
        }
    }
}

/// Every tile of a walk is one the search has seen, once the seen tiles
/// are closed under open steps.
proof fn lemma_walk_stays_seen(sc: PlacementScene, anchor: Position, fp: Footprint, ignored: Option<Seq<char>>, start: Position, queue: Seq<Position>, w: Seq<Position>, k: int)
    requires
        open_walk(sc, anchor, fp, ignored, start, w),
        queue.len() > 0,
        queue[0] == start,
        forall|i: int, j: int|
            0 <= i < queue.len() && 0 <= j < 4 && open_tile(sc, anchor, fp, ignored, #[trigger] neighbours(queue[i])[j])
                ==> queue.contains(neighbours(queue[i])[j]),
        0 <= k < w.len(),
    ensures
        queue.contains(w[k]),
    decreases k,
{
    if k == 0 {
        assert(queue[0] == w[0]);
    } else {
        lemma_walk_stays_seen(sc, anchor, fp, ignored, start, queue, w, k - 1);
        let i = choose|i: int| 0 <= i < queue.len() && queue[i] == w[k - 1];
        assert(neighbours(w[k - 1]).contains(w[k]));
        let j = choose|j: int| 0 <= j < 4 && neighbours(queue[i])[j] == w[k];
        assert(open_tile(sc, anchor, fp, ignored, neighbours(queue[i])[j]));
    }
}

/// Whether a resident leaving the entrance at `start` can reach the
/// protected road over open tiles once the footprint at `anchor` stands.
/// A breadth-first search over the world's tiles.
pub fn escape_path(sc: &PlacementScene, anchor: Position, fp: Footprint, ignored: &Option<String>, start: Position) -> (r: bool)
    requires
        map_wf(sc.map),
    ensures
        r == escape_exists(*sc, anchor, fp, opt_view(*ignored), start),
{
    let ghost ig = opt_view(*ignored);
    let n = sc.map.tiles.len();
    let mut seen: Vec<bool> = Vec::new();
    for i in 0..n
        invariant
            seen@.len() == i,
            forall|k: int| 0 <= k < i ==> !seen@[k],
    {
        seen.push(false);
    }
    proof {
        assert forall|k: int| 0 <= k < n implies !seen@[k] by {}
    }
    let mut queue: Vec<Position> = Vec::new();
    queue.push(start);
    assert(queue@ =~= seq![start]);
    let ghost mut walks: Seq<Seq<Position>> = seq![seq![start]];
    let ghost blank = seen@;
    if is_in_world(&sc.map, start) {
        proof {
            lemma_index_in_bounds(start.x as int, start.y as int, sc.map.width as int, sc.map.height as int);
            assert(0 <= (start.y as int) * (sc.map.width as int)) by (nonlinear_arith)
                requires
                    0 <= start.y,
                    0 <= sc.map.width,
            ;
        }
        let j: usize = (start.y as usize) * (sc.map.width as usize) + (start.x as usize);
        seen.set(j, true);
    }
    proof {
        assert forall|p: Position| in_world(sc.map, p) implies (#[trigger] seen@[pos_index(sc.map, p)]
            <==> queue@.contains(p)) by {
            lemma_index_in_bounds(p.x as int, p.y as int, sc.map.width as int, sc.map.height as int);
            assert(!blank[pos_index(sc.map, p)]);
            if in_world(sc.map, start) {
                lemma_index_in_bounds(start.x as int, start.y as int, sc.map.width as int, sc.map.height as int);
                assert(seen@ == blank.update(pos_index(sc.map, start), true));
                if pos_index(sc.map, p) == pos_index(sc.map, start) {
                    lemma_index_injective(sc.map, p, start);
                    assert(queue@[0] == p);
                }
            } else {
                assert(seen@ == blank);
            }
            if queue@.contains(p) {
                assert(queue@[0] == p);
            }
        }
        assert(open_walk(*sc, anchor, fp, ig, start, seq![start]));
    }
    let mut head: usize = 0;
    while head < queue.len()
        invariant
            map_wf(sc.map),
            ig == opt_view(*ignored),
            n == sc.map.tiles@.len(),
            seen@.len() == n,
            queue@.len() > 0,
            queue@[0] == start,
            head <= queue@.len(),
            walks.len() == queue@.len(),
            forall|i: int|
                0 <= i < queue@.len() ==> open_walk(*sc, anchor, fp, ig, start, #[trigger] walks[i])
                    && walks[i].last() == queue@[i],
            forall|i: int| 0 < i < queue@.len() ==> in_world(sc.map, #[trigger] queue@[i]),
            forall|p: Position| in_world(sc.map, p) ==> (#[trigger] seen@[pos_index(sc.map, p)]
                <==> queue@.contains(p)),
            forall|i: int, j: int|
                0 <= i < head && 0 <= j < 4 && open_tile(*sc, anchor, fp, ig, #[trigger] neighbours(queue@[i])[j])
                    ==> queue@.contains(neighbours(queue@[i])[j]),
            forall|i: int| 0 <= i < head ==> tile_at(sc.map, #[trigger] queue@[i]) != TileKind::Path,
        decreases 2 * unmarked(seen@) + (queue@.len() - head),
    {
        let p = queue[head];
        if terrain(&sc.map, p) == TileKind::Path {
            proof {
                assert(escape_walk(*sc, anchor, fp, ig, start, walks[head as int]));
            }
            return true;
        }
        let ns = neighbour_tiles(p);
        let ghost q0 = queue@;
        let ghost u0 = unmarked(seen@);
        for k in 0..4
            invariant
                map_wf(sc.map),
                ig == opt_view(*ignored),
                n == sc.map.tiles@.len(),
                seen@.len() == n,
                ns@ == neighbours(p),
                head < queue@.len(),
                queue@[head as int] == p,
                queue@.len() >= q0.len(),
                queue@.subrange(0, q0.len() as int) == q0,
                queue@[0] == start,
                2 * unmarked(seen@) + queue@.len() <= 2 * u0 + q0.len(),
                walks.len() == queue@.len(),
                forall|i: int|
                    0 <= i < queue@.len() ==> open_walk(*sc, anchor, fp, ig, start, #[trigger] walks[i])
                        && walks[i].last() == queue@[i],
                forall|i: int| 0 < i < queue@.len() ==> in_world(sc.map, #[trigger] queue@[i]),
                forall|p: Position| in_world(sc.map, p) ==> (#[trigger] seen@[pos_index(sc.map, p)]
                    <==> queue@.contains(p)),
                forall|j: int|
                    0 <= j < k && open_tile(*sc, anchor, fp, ig, #[trigger] neighbours(p)[j])
                        ==> queue@.contains(neighbours(p)[j]),
        {
            let q = ns[k];
            if is_open(sc, anchor, fp, ignored, q) {
                proof {
                    lemma_index_in_bounds(q.x as int, q.y as int, sc.map.width as int, sc.map.height as int);
                    assert(0 <= (q.y as int) * (sc.map.width as int)) by (nonlinear_arith)
                        requires
                            0 <= q.y,
                            0 <= sc.map.width,
                    ;
                }
                let j: usize = (q.y as usize) * (sc.map.width as usize) + (q.x as usize);
                if !seen[j] {
                    let ghost s0 = seen@;
                    let ghost qb = queue@;
                    proof {
                        lemma_mark(s0, j as int);
                        lemma_extend_walk(*sc, anchor, fp, ig, start, walks[head as int], q);
                    }
                    seen.set(j, true);
                    queue.push(q);
                    proof {
                        walks = walks.push(walks[head as int].push(q));
                        assert(queue@.subrange(0, q0.len() as int) =~= q0);
                        assert forall|r: Position| in_world(sc.map, r) implies (#[trigger] seen@[pos_index(sc.map, r)]
                            <==> queue@.contains(r)) by {
                            lemma_index_in_bounds(r.x as int, r.y as int, sc.map.width as int, sc.map.height as int);
                            if pos_index(sc.map, r) == j {
                                lemma_index_injective(sc.map, r, q);
                                assert(queue@[queue@.len() - 1] == q);
                            } else {
                                assert(s0[pos_index(sc.map, r)] == seen@[pos_index(sc.map, r)]);
                                if queue@.contains(r) {
                                    let t = choose|t: int| 0 <= t < queue@.len() && queue@[t] == r;
                                    if t == queue@.len() - 1 {
                                        assert(r == q);
                                    } else {
                                        assert(qb[t] == r);
                                    }
                                }
                                if qb.contains(r) {
                                    let t = choose|t: int| 0 <= t < qb.len() && qb[t] == r;
                                    assert(queue@[t] == r);
                                }
                            }
                        }
                        assert forall|i: int|
                            0 <= i < queue@.len() implies open_walk(*sc, anchor, fp, ig, start, #[trigger] walks[i])
                                && walks[i].last() == queue@[i] by {
                            if i < qb.len() {
                                assert(queue@[i] == qb[i]);
                            }
                        }
                        assert forall|jj: int|
                            0 <= jj <= k && open_tile(*sc, anchor, fp, ig, #[trigger] neighbours(p)[jj])
                                implies queue@.contains(neighbours(p)[jj]) by {
                            if jj == k {
                                assert(queue@[queue@.len() - 1] == q);
                            } else {
                                let t = choose|t: int| 0 <= t < qb.len() && qb[t] == neighbours(p)[jj];
                                assert(queue@[t] == neighbours(p)[jj]);
                            }
                        }
                    }
                } else {
                    proof {
                        assert(seen@[pos_index(sc.map, q)]);
                    }
                }
            }
        }
        proof {
            assert forall|i: int, j: int|
                0 <= i < head + 1 && 0 <= j < 4 && open_tile(*sc, anchor, fp, ig, #[trigger] neighbours(queue@[i])[j])
                    implies queue@.contains(neighbours(queue@[i])[j]) by {
                if i < head {
                    assert(queue@[i] == q0[i]);
                    let t = choose|t: int| 0 <= t < q0.len() && q0[t] == neighbours(q0[i])[j];
                    assert(queue@[t] == q0[t]);
                }
            }
            assert forall|i: int| 0 <= i < head + 1 implies tile_at(sc.map, #[trigger] queue@[i]) != TileKind::Path by {
                if i < head {
                    assert(queue@[i] == q0[i]);
                }
            }
        }
        head = head + 1;
    }
    proof {
        if escape_exists(*sc, anchor, fp, ig, start) {
            let w = choose|w: Seq<Position>| #[trigger] escape_walk(*sc, anchor, fp, ig, start, w);
            lemma_walk_stays_seen(*sc, anchor, fp, ig, start, queue@, w, w.len() - 1);
            let t = choose|t: int| 0 <= t < queue@.len() && queue@[t] == w[w.len() - 1];
            assert(tile_at(sc.map, queue@[t]) != TileKind::Path);
        }
    }
    false
}


// ---------------------------------------------------------------- the rules

/// Some tile of the footprint in the first `rows` rows, or in row `rows`
/// before column `cols`, satisfies `pred`.
pub open spec fn any_before(anchor: Position, fp: Footprint, rows: int, cols: int, pred: spec_fn(Position) -> bool) -> bool {
    exists|dx: int, dy: int|
        ((0 <= dy < rows && 0 <= dx < fp.width) || (dy == rows && 0 <= dx < cols)) && pred(
            #[trigger] tile_of(anchor, dx, dy),
        )
}

/// Some tile of the footprint satisfies `pred`.
pub open spec fn any_tile(anchor: Position, fp: Footprint, pred: spec_fn(Position) -> bool) -> bool {
    exists|dx: int, dy: int| in_range(fp, dx, dy) && pred(#[trigger] tile_of(anchor, dx, dy))
}

proof fn lemma_any_column(anchor: Position, fp: Footprint, rows: int, cols: int, pred: spec_fn(Position) -> bool)
    requires
        0 <= rows,
        0 <= cols,
    ensures
        any_before(anchor, fp, rows, cols + 1, pred) == (any_before(anchor, fp, rows, cols, pred) || pred(
            tile_of(anchor, cols, rows),
        )),
{
    if pred(tile_of(anchor, cols, rows)) {
        assert(any_before(anchor, fp, rows, cols + 1, pred));
    }
    if any_before(anchor, fp, rows, cols, pred) {
        let (dx, dy) = choose|dx: int, dy: int|
            ((0 <= dy < rows && 0 <= dx < fp.width) || (dy == rows && 0 <= dx < cols)) && pred(
                #[trigger] tile_of(anchor, dx, dy),
            );
        assert(pred(tile_of(anchor, dx, dy)));
    }
}

proof fn lemma_any_row(anchor: Position, fp: Footprint, rows: int, pred: spec_fn(Position) -> bool)
    requires
        0 <= rows,
    ensures
        any_before(anchor, fp, rows, fp.width as int, pred) == any_before(anchor, fp, rows + 1, 0, pred),
{
    if any_before(anchor, fp, rows, fp.width as int, pred) {
        let (dx, dy) = choose|dx: int, dy: int|
            ((0 <= dy < rows && 0 <= dx < fp.width) || (dy == rows && 0 <= dx < fp.width)) && pred(
                #[trigger] tile_of(anchor, dx, dy),
            );
        assert(pred(tile_of(anchor, dx, dy)));
    }
    if any_before(anchor, fp, rows + 1, 0, pred) {
        let (dx, dy) = choose|dx: int, dy: int|
            ((0 <= dy < rows + 1 && 0 <= dx < fp.width) || (dy == rows + 1 && 0 <= dx < 0)) && pred(
                #[trigger] tile_of(anchor, dx, dy),
            );
        assert(pred(tile_of(anchor, dx, dy)));
    }
}

proof fn lemma_any_all(anchor: Position, fp: Footprint, pred: spec_fn(Position) -> bool)
    ensures
        any_before(anchor, fp, fp.height as int, 0, pred) == any_tile(anchor, fp, pred),
{
    if any_tile(anchor, fp, pred) {
        let (dx, dy) = choose|dx: int, dy: int| in_range(fp, dx, dy) && pred(#[trigger] tile_of(anchor, dx, dy));
        assert(pred(tile_of(anchor, dx, dy)));
    }
    if any_before(anchor, fp, fp.height as int, 0, pred) {
        let (dx, dy) = choose|dx: int, dy: int|
            ((0 <= dy < fp.height && 0 <= dx < fp.width) || (dy == fp.height && 0 <= dx < 0)) && pred(
                #[trigger] tile_of(anchor, dx, dy),
            );
        assert(pred(tile_of(anchor, dx, dy)));
    }
}

pub open spec fn off_map(sc: PlacementScene) -> spec_fn(Position) -> bool {
    |t: Position| !in_world(sc.map, t)
}

pub open spec fn not_meadow(sc: PlacementScene) -> spec_fn(Position) -> bool {
    |t: Position| tile_at(sc.map, t) != TileKind::Meadow
}

pub open spec fn taken(sc: PlacementScene, ignored: Option<Seq<char>>) -> spec_fn(Position) -> bool {
    |t: Position| occupied(sc, ignored, true, t)
}

pub open spec fn in_commons(sc: PlacementScene) -> spec_fn(Position) -> bool {
    |t: Position| manhattan(t, beacon()) <= sc.commons_radius
}

pub open spec fn on_road(sc: PlacementScene) -> spec_fn(Position) -> bool {
    |t: Position| tile_at(sc.map, t) == TileKind::Path
}

/// The footprint-wide rules, in their fixed order: outside the world,
/// unclear terrain, an occupied tile, inside the commons, on the road.
pub open spec fn footprint_flags(sc: PlacementScene, ignored: Option<Seq<char>>, anchor: Position, fp: Footprint) -> (bool, bool, bool, bool, bool) {
    (
        any_tile(anchor, fp, off_map(sc)),
        any_tile(anchor, fp, not_meadow(sc)),
        any_tile(anchor, fp, taken(sc, ignored)),
        any_tile(anchor, fp, in_commons(sc)),
        any_tile(anchor, fp, on_road(sc)),
    )
}

fn distance(a: Position, b: Position) -> (r: i64)
    ensures
        r == manhattan(a, b),
{
    let dx: i64 = if a.x >= b.x { a.x as i64 - b.x as i64 } else { b.x as i64 - a.x as i64 };
    let dy: i64 = if a.y >= b.y { a.y as i64 - b.y as i64 } else { b.y as i64 - a.y as i64 };
    dx + dy
}

fn check_footprint(sc: &PlacementScene, ignored: &Option<String>, anchor: Position, fp: Footprint) -> (r: (bool, bool, bool, bool, bool))
    requires
        map_wf(sc.map),
    ensures
        r == footprint_flags(*sc, opt_view(*ignored), anchor, fp),
{
    let ghost ig = opt_view(*ignored);
    let beacon_tile = Position { x: 8, y: 6 };
    let mut f0 = false;
    let mut f1 = false;
    let mut f2 = false;
    let mut f3 = false;
    let mut f4 = false;
    let mut dy: u8 = 0;
    while dy < fp.height
        invariant
            map_wf(sc.map),
            ig == opt_view(*ignored),
            beacon_tile == beacon(),
            dy <= fp.height,
            f0 == any_before(anchor, fp, dy as int, 0, off_map(*sc)),
            f1 == any_before(anchor, fp, dy as int, 0, not_meadow(*sc)),
            f2 == any_before(anchor, fp, dy as int, 0, taken(*sc, ig)),
            f3 == any_before(anchor, fp, dy as int, 0, in_commons(*sc)),
            f4 == any_before(anchor, fp, dy as int, 0, on_road(*sc)),
        decreases fp.height - dy,
    {
        let y = shift(anchor.y, dy as i64);
        let mut dx: u8 = 0;
        while dx < fp.width
            invariant
                map_wf(sc.map),
                ig == opt_view(*ignored),
                beacon_tile == beacon(),
                dy < fp.height,
                dx <= fp.width,
                y == sat_i32(anchor.y + dy),
                f0 == any_before(anchor, fp, dy as int, dx as int, off_map(*sc)),
                f1 == any_before(anchor, fp, dy as int, dx as int, not_meadow(*sc)),
                f2 == any_before(anchor, fp, dy as int, dx as int, taken(*sc, ig)),
                f3 == any_before(anchor, fp, dy as int, dx as int, in_commons(*sc)),
                f4 == any_before(anchor, fp, dy as int, dx as int, on_road(*sc)),
            decreases fp.width - dx,
        {
            let t = Position { x: shift(anchor.x, dx as i64), y };
            assert(t == tile_of(anchor, dx as int, dy as int));
            proof {
                lemma_any_column(anchor, fp, dy as int, dx as int, off_map(*sc));
                lemma_any_column(anchor, fp, dy as int, dx as int, not_meadow(*sc));
                lemma_any_column(anchor, fp, dy as int, dx as int, taken(*sc, ig));
                lemma_any_column(anchor, fp, dy as int, dx as int, in_commons(*sc));
                lemma_any_column(anchor, fp, dy as int, dx as int, on_road(*sc));
            }
            let kind = terrain(&sc.map, t);
            f0 = f0 || !is_in_world(&sc.map, t);
            f1 = f1 || kind != TileKind::Meadow;
            f2 = f2 || is_occupied(sc, ignored, true, t);
            f3 = f3 || distance(t, beacon_tile) <= sc.commons_radius as i64;
            f4 = f4 || kind == TileKind::Path;
            dx = dx + 1;
        }
        proof {
            lemma_any_row(anchor, fp, dy as int, off_map(*sc));
            lemma_any_row(anchor, fp, dy as int, not_meadow(*sc));
            lemma_any_row(anchor, fp, dy as int, taken(*sc, ig));
            lemma_any_row(anchor, fp, dy as int, in_commons(*sc));
            lemma_any_row(anchor, fp, dy as int, on_road(*sc));
        }
        dy = dy + 1;
    }
    proof {
        lemma_any_all(anchor, fp, off_map(*sc));
        lemma_any_all(anchor, fp, not_meadow(*sc));
        lemma_any_all(anchor, fp, taken(*sc, ig));
        lemma_any_all(anchor, fp, in_commons(*sc));
        lemma_any_all(anchor, fp, on_road(*sc));
    }
    (f0, f1, f2, f3, f4)
}


// ---------------------------------------------------------------- the preview

/// The entrance cannot be used: outside the world, not walkable, or
/// occupied by a structure.
pub open spec fn entrance_blocked(sc: PlacementScene, ignored: Option<Seq<char>>, e: Position) -> bool {
    !in_world(sc.map, e) || !walkable(tile_at(sc.map, e)) || occupied(sc, ignored, false, e)
}

/// Some resident outside the footprint would be left with no open step.
pub open spec fn someone_boxed_in(sc: PlacementScene, anchor: Position, fp: Footprint, ignored: Option<Seq<char>>) -> bool {
    exists|i: int|
        0 <= i < sc.players@.len() && !in_footprint(anchor, fp, sc.players@[i]) && boxed_in(
            sc,
            anchor,
            fp,
            ignored,
            #[trigger] sc.players@[i],
        )
}

/// Which of the seven rules a placement breaks, in their fixed order.
pub open spec fn rule_flags(
    sc: PlacementScene,
    ignored: Option<Seq<char>>,
    actor: Position,
    anchor: Position,
    fp: Footprint,
    d: Direction,
    placing: bool,
) -> Seq<bool> {
    let f = footprint_flags(sc, ignored, anchor, fp);
    let e = entrance_of(anchor, fp, d);
    seq![
        f.0,
        f.1,
        f.2,
        f.3 || manhattan(e, beacon()) <= sc.commons_radius,
        f.4,
        entrance_blocked(sc, ignored, e) || (placing && manhattan(actor, anchor) > 1),
        in_footprint(anchor, fp, actor) || !escape_exists(sc, anchor, fp, ignored, e) || someone_boxed_in(
            sc,
            anchor,
            fp,
            ignored,
        ),
    ]
}

pub open spec fn rule_at(k: int) -> PlacementRule {
    if k == 0 {
        PlacementRule::InsideWorld
    } else if k == 1 {
        PlacementRule::ClearTerrain
    } else if k == 2 {
        PlacementRule::NoStructureOverlap
    } else if k == 3 {
        PlacementRule::OutsideBeaconCommons
    } else if k == 4 {
        PlacementRule::OutsideProtectedRoute
    } else if k == 5 {
        PlacementRule::EntranceClear
    } else {
        PlacementRule::EscapePathOpen
    }
}

/// The rules among the first `k` whose flag is raised, in order.
pub open spec fn flagged(flags: Seq<bool>, k: nat) -> Seq<PlacementRule>
    decreases k,
{
    if k == 0 {
        Seq::empty()
    } else {
        let r = flagged(flags, (k - 1) as nat);
        if flags[k - 1] {
            r.push(rule_at(k - 1))
        } else {
            r
        }
    }
}

pub open spec fn rule_label(r: PlacementRule) -> Seq<char> {
    match r {
        PlacementRule::InsideWorld => "the settlement edge"@,
        PlacementRule::ClearTerrain => "unclear terrain"@,
        PlacementRule::NoStructureOverlap => "an occupied space"@,
        PlacementRule::OutsideBeaconCommons => "the public Beacon commons"@,
        PlacementRule::OutsideProtectedRoute => "a protected road"@,
        PlacementRule::EntranceClear => "a blocked entrance"@,
        PlacementRule::EscapePathOpen => "an unsafe escape path"@,
    }
}

/// The labels of `rules`, separated by commas.
pub open spec fn joined_labels(rules: Seq<PlacementRule>) -> Seq<char>
    decreases rules.len(),
{
    if rules.len() == 0 {
        Seq::empty()
    } else if rules.len() == 1 {
        rule_label(rules[0])
    } else {
        joined_labels(rules.drop_last()) + ", "@ + rule_label(rules.last())
    }
}

pub open spec fn preview_message(rules: Seq<PlacementRule>) -> Seq<char> {
    if rules.len() == 0 {
        "This clear ground keeps the commons, road, entrance, and escape paths open."@
    } else {
        "Placement is blocked by "@ + joined_labels(rules) + "."@
    }
}

fn label(r: PlacementRule) -> (s: &'static str)
    ensures
        s@ == rule_label(r),
{
    match r {
        PlacementRule::InsideWorld => "the settlement edge",
        PlacementRule::ClearTerrain => "unclear terrain",
        PlacementRule::NoStructureOverlap => "an occupied space",
        PlacementRule::OutsideBeaconCommons => "the public Beacon commons",
        PlacementRule::OutsideProtectedRoute => "a protected road",
        PlacementRule::EntranceClear => "a blocked entrance",
        PlacementRule::EscapePathOpen => "an unsafe escape path",
    }
}

fn message_for(rules: &Vec<PlacementRule>) -> (m: String)
    ensures
        m@ == preview_message(rules@),
{
    if rules.len() == 0 {
        return String::from_str("This clear ground keeps the commons, road, entrance, and escape paths open.");
    }
    let mut labels = String::from_str(label(rules[0]));
    let n = rules.len();
    let mut i: usize = 1;
    while i < n
        invariant
            1 <= i <= n,
            n == rules@.len(),
            labels@ == joined_labels(rules@.take(i as int)),
        decreases n - i,
    {
        assert(rules@.take(i + 1).drop_last() =~= rules@.take(i as int));
        labels = labels.concat(", ").concat(label(rules[i]));
        i = i + 1;
    }
    assert(rules@.take(n as int) =~= rules@);
    String::from_str("Placement is blocked by ").concat(labels.as_str()).concat(".")
}

/// Whether some resident outside the footprint would be left boxed in.
fn anyone_boxed_in(sc: &PlacementScene, anchor: Position, fp: Footprint, ignored: &Option<String>) -> (r: bool)
    requires
        map_wf(sc.map),
    ensures
        r == someone_boxed_in(*sc, anchor, fp, opt_view(*ignored)),
{
    let n = sc.players.len();
    for i in 0..n
        invariant
            n == sc.players@.len(),
            map_wf(sc.map),
            forall|k: int|
                0 <= k < i ==> !(!in_footprint(anchor, fp, sc.players@[k]) && boxed_in(
                    *sc,
                    anchor,
                    fp,
                    opt_view(*ignored),
                    #[trigger] sc.players@[k],
                )),
    {
        let p = sc.players[i];
        if !covers(anchor, fp, p) && is_boxed_in(sc, anchor, fp, ignored, p) {
            return true;
        }
    }
    false
}

/// `p` previews a footprint at `anchor` (the actor's tile when none is
/// named) with its entrance on side `entrance` (south when none is named).
pub open spec fn is_preview(
    p: PlacementPreview,
    sc: PlacementScene,
    actor: Position,
    anchor: Option<Position>,
    entrance: Option<Direction>,
    placing: bool,
    fp: Footprint,
    ignored: Option<Seq<char>>,
) -> bool {
    let a = match anchor {
        Some(a) => a,
        None => actor,
    };
    let d = match entrance {
        Some(d) => d,
        None => Direction::South,
    };
    &&& p.anchor == a
    &&& p.entrance == d
    &&& p.footprint == fp
    &&& p.rejected_rules@ == flagged(rule_flags(sc, ignored, actor, a, fp, d, placing), 7)
    &&& p.accepted == (p.rejected_rules@.len() == 0)
    &&& p.message@ == preview_message(p.rejected_rules@)
}

/// Previews a footprint at `anchor` (the actor's tile when none is named)
/// with its entrance on side `entrance` (south when none is named). A
/// tent being placed must also be within one step of the actor.
pub fn preview_for_footprint(
    sc: &PlacementScene,
    actor: Position,
    anchor: Option<Position>,
    entrance: Option<Direction>,
    placing: bool,
    fp: Footprint,
    ignored: &Option<String>,
) -> (p: PlacementPreview)
    requires
        map_wf(sc.map),
    ensures
        is_preview(p, *sc, actor, anchor, entrance, placing, fp, opt_view(*ignored)),
{
    let a = match anchor {
        Some(a) => a,
        None => actor,
    };
    let d = match entrance {
        Some(d) => d,
        None => Direction::South,
    };
    let ghost flags = rule_flags(*sc, opt_view(*ignored), actor, a, fp, d, placing);
    let (f0, f1, f2, f3, f4) = check_footprint(sc, ignored, a, fp);
    let e = entrance_tile(a, fp, d);
    let beacon_tile = Position { x: 8, y: 6 };
    let g3 = f3 || distance(e, beacon_tile) <= sc.commons_radius as i64;
    let g5 = !is_in_world(&sc.map, e) || terrain(&sc.map, e) == TileKind::Blocked || is_occupied(
        sc,
        ignored,
        false,
        e,
    ) || (placing && distance(actor, a) > 1);
    let g6 = covers(a, fp, actor) || !escape_path(sc, a, fp, ignored, e) || anyone_boxed_in(sc, a, fp, ignored);
    let fs = [f0, f1, f2, g3, f4, g5, g6];
    let rules = [
        PlacementRule::InsideWorld,
        PlacementRule::ClearTerrain,
        PlacementRule::NoStructureOverlap,
        PlacementRule::OutsideBeaconCommons,
        PlacementRule::OutsideProtectedRoute,
        PlacementRule::EntranceClear,
        PlacementRule::EscapePathOpen,
    ];
    assert(fs@ =~= flags);
    let mut rejected: Vec<PlacementRule> = Vec::new();
    for k in 0..7
        invariant
            fs@ == flags,
            flags.len() == 7,
            forall|j: int| 0 <= j < 7 ==> #[trigger] rules@[j] == rule_at(j),
            rejected@ == flagged(flags, k as nat),
    {
        if fs[k] {
            rejected.push(rules[k]);
        }
    }
    let accepted = rejected.len() == 0;
    let message = message_for(&rejected);
    PlacementPreview { anchor: a, entrance: d, footprint: fp, accepted, rejected_rules: rejected, message }
}

} // verus!
