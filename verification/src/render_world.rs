//! The render-side event pipeline: translates world-level chunk events into
//! mesh-level events. An update meshes the chunk; an unload emits an unload
//! marker and re-meshes the up-to-four loaded cardinal neighbors, because
//! removing a chunk changes the visibility of faces culled against it.
//! Events for one coordinate keep their production order, so a later unload
//! always wins over an earlier update.

use vstd::prelude::*;
use crate::game_render_data::GameRenderData;
use crate::math::Vec2i;
use crate::mesh::Mesh;
use crate::mesher::{is_chunk_mesh, mesh_chunk, world_well_typed};
use crate::world::{ChunkEvent, World};

verus! {

/// A mesh-level event for the render thread: replace a chunk's mesh, or
/// drop it.
pub enum ChunkMeshEvent {
    Update { position: Vec2i, mesh: Mesh },
    Unload(Vec2i),
}

/// The chunk coordinate an event concerns.
pub open spec fn event_position(e: ChunkMeshEvent) -> Vec2i {
    match e {
        ChunkMeshEvent::Update { position, mesh } => position,
        ChunkMeshEvent::Unload(p) => p,
    }
}

/// A chunk coordinate far enough from the i32 range ends that it and its
/// cardinal neighbors are ordinary chunk coordinates.
pub open spec fn event_coord_in_range(p: Vec2i) -> bool {
    -134217726 <= p.x <= 134217725 && -134217726 <= p.y <= 134217725
}

/// The four cardinal neighbor coordinates of `p`, in the order North, East,
/// South, West.
pub open spec fn spec_neighbors(p: Vec2i) -> Seq<Vec2i> {
    seq![
        Vec2i { x: p.x, y: (p.y + 1) as i32 },
        Vec2i { x: (p.x + 1) as i32, y: p.y },
        Vec2i { x: p.x, y: (p.y - 1) as i32 },
        Vec2i { x: (p.x - 1) as i32, y: p.y },
    ]
}

/// The subsequence of `qs` whose coordinates hold a loaded chunk of `w`,
/// in order.
pub open spec fn present_chunks(w: World, qs: Seq<Vec2i>) -> Seq<Vec2i>
    decreases qs.len(),
{
    if qs.len() == 0 {
        Seq::empty()
    } else {
        present_chunks(w, qs.drop_last()) + if w.has_chunk(qs.last()) {
            seq![qs.last()]
        } else {
            Seq::empty()
        }
    }
}

/// Every coordinate of `present_chunks(w, qs)` is a coordinate of `qs` that
/// holds a loaded chunk.
pub proof fn lemma_present_chunks_membership(w: World, qs: Seq<Vec2i>, j: int)
    requires
        0 <= j < present_chunks(w, qs).len(),
    ensures
        qs.contains(present_chunks(w, qs)[j]),
        w.has_chunk(present_chunks(w, qs)[j]),
    decreases qs.len(),
{
    if qs.len() > 0 {
        let prefix = present_chunks(w, qs.drop_last());
        if j < prefix.len() {
            lemma_present_chunks_membership(w, qs.drop_last(), j);
            assert(qs.drop_last().contains(prefix[j]));
            let k = choose|k: int| 0 <= k < qs.drop_last().len() && qs.drop_last()[k] == prefix[j];
            assert(qs[k] == prefix[j]);
        } else {
            assert(w.has_chunk(qs.last()));
            assert(present_chunks(w, qs)[j] == qs.last());
            assert(qs[qs.len() - 1] == qs.last());
        }
    }
}

/// A loaded coordinate of `qs` appears in `present_chunks(w, qs)`.
pub proof fn lemma_present_chunks_contains(w: World, qs: Seq<Vec2i>, k: int)
    requires
        0 <= k < qs.len(),
        w.has_chunk(qs[k]),
    ensures
        present_chunks(w, qs).contains(qs[k]),
    decreases qs.len(),
{
    if k == qs.len() - 1 {
        let pc = present_chunks(w, qs);
        assert(pc[pc.len() - 1] == qs.last());
    } else {
        lemma_present_chunks_contains(w, qs.drop_last(), k);
        let pc0 = present_chunks(w, qs.drop_last());
        let j = choose|j: int| 0 <= j < pc0.len() && pc0[j] == qs.drop_last()[k];
        assert(present_chunks(w, qs)[j] == qs[k]);
    }
}

/// What handling `ChunkEvent::Update(p)` produces: one mesh update for `p`,
/// computed against the current world, or nothing if `p`'s chunk is gone —
/// an expected, benign race with a concurrent unload.
pub open spec fn update_events_ok(
    p: Vec2i,
    w: World,
    rd: GameRenderData,
    out: Seq<ChunkMeshEvent>,
) -> bool {
    if w.has_chunk(p) {
        &&& out.len() == 1
        &&& out[0] matches ChunkMeshEvent::Update { position, mesh } && position == p
            && is_chunk_mesh(mesh, w.chunk_at(p), w, rd)
    } else {
        out.len() == 0
    }
}

/// What handling `ChunkEvent::Unload(p)` produces: first the unload marker
/// for `p`, then one mesh update for each loaded cardinal neighbor of `p`,
/// in the order North, East, South, West, each computed against the world
/// without `p`'s chunk.
pub open spec fn unload_events_ok(
    p: Vec2i,
    w: World,
    rd: GameRenderData,
    out: Seq<ChunkMeshEvent>,
) -> bool {
    let present = present_chunks(w, spec_neighbors(p));
    &&& out.len() == 1 + present.len()
    &&& out[0] == ChunkMeshEvent::Unload(p)
    &&& forall|j: int|
        0 <= j < present.len() ==> (#[trigger] out[j + 1] matches ChunkMeshEvent::Update {
            position,
            mesh,
        } && position == present[j] && is_chunk_mesh(mesh, w.chunk_at(present[j]), w, rd))
}

/// The pipeline's state: the set of chunk coordinates it knows to be
/// loaded.
pub struct RenderWorld {
    chunks: Vec<Vec2i>,
}

impl RenderWorld {
    /// Whether the pipeline knows a chunk at `p`.
    pub closed spec fn spec_knows(self, p: Vec2i) -> bool {
        self.chunks@.contains(p)
    }

    /// The known set holds each coordinate once.
    pub closed spec fn wf(self) -> bool {
        forall|i: int, j: int|
            0 <= i < self.chunks@.len() && 0 <= j < self.chunks@.len() && i != j
                ==> self.chunks@[i] != self.chunks@[j]
    }

    /// A pipeline that knows no chunks yet.
    pub fn new() -> (r: RenderWorld)
        ensures
            r.wf(),
            forall|p: Vec2i| !r.spec_knows(p),
    {
        RenderWorld { chunks: Vec::new() }
    }

    /// Index of `p` in the known set, if present.
    fn find_known(&self, p: Vec2i) -> (r: Option<usize>)
        ensures
            match r {
                Some(i) => i < self.chunks@.len() && self.chunks@[i as int] == p,
                None => !self.spec_knows(p),
            },
    {
        let mut i: usize = 0;
        while i < self.chunks.len()
            invariant
                i <= self.chunks@.len(),
                forall|j: int| 0 <= j < i ==> self.chunks@[j] != p,
            decreases self.chunks@.len() - i,
        {
            if self.chunks[i] == p {
                return Some(i);
            }
            i = i + 1;
        }
        None
    }

    /// Handle one world-level chunk event against the current world state,
    /// updating the known set and returning the mesh events to queue, in
    /// order. `Update(p)` adds `p` to the known set and re-meshes `p`;
    /// `Unload(p)` removes `p`, queues its unload marker first, and
    /// re-meshes the loaded cardinal neighbors of `p`.
    pub fn handle_chunk_event(
        &mut self,
        event: ChunkEvent,
        world: &World,
        render_data: &GameRenderData,
    ) -> (out: Vec<ChunkMeshEvent>)
        requires
            old(self).wf(),
            world.wf(),
            world_well_typed(*world, *render_data),
            match event {
                ChunkEvent::Update(p) => event_coord_in_range(p),
                ChunkEvent::Unload(p) => event_coord_in_range(p),
            },
        ensures
            final(self).wf(),
            match event {
                ChunkEvent::Update(p) => {
                    &&& update_events_ok(p, *world, *render_data, out@)
                    &&& forall|q: Vec2i|
                        #[trigger] final(self).spec_knows(q) == (old(self).spec_knows(q) || q
                            == p)
                },
                ChunkEvent::Unload(p) => {
                    &&& unload_events_ok(p, *world, *render_data, out@)
                    &&& forall|q: Vec2i|
                        #[trigger] final(self).spec_knows(q) == (old(self).spec_knows(q) && q
                            != p)
                },
            },
    {
        let mut out: Vec<ChunkMeshEvent> = Vec::new();
        match event {
            ChunkEvent::Update(position) => {
                match self.find_known(position) {
                    Some(_) => {},
                    None => {
                        self.chunks.push(position);
                        proof {
                            assert forall|q: Vec2i| self.spec_knows(q) == (old(self).spec_knows(q)
                                || q == position) by {
                                if self.spec_knows(q) && q != position {
                                    let i = choose|i: int|
                                        0 <= i < self.chunks@.len() && self.chunks@[i] == q;
                                    assert(old(self).chunks@[i] == q);
                                }
                                if old(self).spec_knows(q) {
                                    let i = choose|i: int|
                                        0 <= i < old(self).chunks@.len() && old(self).chunks@[i]
                                            == q;
                                    assert(self.chunks@[i] == q);
                                }
                                if q == position {
                                    assert(self.chunks@[self.chunks@.len() - 1] == q);
                                }
                            }
                        }
                    },
                }
                match world.get_chunk(position) {
                    Some(chunk) => {
                        let mesh = mesh_chunk(chunk, render_data, world);
                        out.push(ChunkMeshEvent::Update { position, mesh });
                    },
                    None => {},
                }
                out
            },
            ChunkEvent::Unload(position) => {
                match self.find_known(position) {
                    Some(i) => {
                        self.chunks.remove(i);
                        proof {
                            old(self).chunks@.remove_ensures(i as int);
                            assert forall|q: Vec2i| self.spec_knows(q) == (old(self).spec_knows(q)
                                && q != position) by {
                                if self.spec_knows(q) {
                                    let k = choose|k: int|
                                        0 <= k < self.chunks@.len() && self.chunks@[k] == q;
                                    if k < i as int {
                                        assert(old(self).chunks@[k] == q);
                                    } else {
                                        assert(old(self).chunks@[k + 1] == q);
                                    }
                                    assert(old(self).spec_knows(q));
                                    assert(q != position);
                                }
                                if old(self).spec_knows(q) && q != position {
                                    let k = choose|k: int|
                                        0 <= k < old(self).chunks@.len() && old(self).chunks@[k]
                                            == q;
                                    assert(k != i as int);
                                    if k < i as int {
                                        assert(self.chunks@[k] == q);
                                    } else {
                                        assert(self.chunks@[k - 1] == q);
                                    }
                                }
                            }
                        }
                    },
                    None => {
                        proof {
                            assert forall|q: Vec2i| self.spec_knows(q) == (old(self).spec_knows(q)
                                && q != position) by {
                                if q == position && self.spec_knows(q) {
                                    assert(false);
                                }
                            }
                        }
                    },
                }
                out.push(ChunkMeshEvent::Unload(position));
                let neighbors = crate::block_side::BlockSide::cardinal_directions();
                let ghost ns = spec_neighbors(position);
                let mut k: usize = 0;
                while k < 4
                    invariant
                        world.wf(),
                        world_well_typed(*world, *render_data),
                        event_coord_in_range(position),
                        k <= 4,
                        neighbors@ == seq![
                            crate::block_side::BlockSide::North.spec_flat_direction(),
                            crate::block_side::BlockSide::East.spec_flat_direction(),
                            crate::block_side::BlockSide::South.spec_flat_direction(),
                            crate::block_side::BlockSide::West.spec_flat_direction(),
                        ],
                        ns == spec_neighbors(position),
                        out@.len() == 1 + present_chunks(*world, ns.take(k as int)).len(),
                        out@[0] == ChunkMeshEvent::Unload(position),
                        forall|j: int|
                            0 <= j < present_chunks(*world, ns.take(k as int)).len()
                                ==> (#[trigger] out@[j + 1] matches ChunkMeshEvent::Update {
                                position,
                                mesh,
                            } && position == present_chunks(*world, ns.take(k as int))[j]
                                && is_chunk_mesh(
                                mesh,
                                world.chunk_at(present_chunks(*world, ns.take(k as int))[j]),
                                *world,
                                *render_data,
                            )),
                    decreases 4 - k,
                {
                    let d = neighbors[k];
                    let chunk_position = position.plus(d);
                    proof {
                        assert(chunk_position == ns[k as int]);
                    }
                    let ghost pre_out = out@;
                    match world.get_chunk(chunk_position) {
                        Some(chunk) => {
                            let mesh = mesh_chunk(chunk, render_data, world);
                            out.push(ChunkMeshEvent::Update { position: chunk_position, mesh });
                        },
                        None => {},
                    }
                    proof {
                        let taken = ns.take(k as int);
                        let taken1 = ns.take(k as int + 1);
                        assert(taken1.drop_last() =~= taken);
                        assert(taken1.last() == ns[k as int]);
                        assert(present_chunks(*world, taken1) == present_chunks(*world, taken)
                            + if world.has_chunk(ns[k as int]) {
                            seq![ns[k as int]]
                        } else {
                            Seq::<Vec2i>::empty()
                        });
                        if !world.has_chunk(ns[k as int]) {
                            assert(present_chunks(*world, taken1) =~= present_chunks(
                                *world,
                                taken,
                            ));
                        }
                    }
                    k = k + 1;
                }
                proof {
                    assert(ns.take(4) =~= ns);
                }
                out
            },
        }
    }
}

/// After handling `Unload(p)`, the unload marker for `p` comes first and no
/// later event of the batch concerns `p`: within a batch, and across
/// batches delivered in order, the unload is the last event for `p`.
pub proof fn lemma_unload_is_last_for_position(
    p: Vec2i,
    w: World,
    rd: GameRenderData,
    out: Seq<ChunkMeshEvent>,
)
    requires
        event_coord_in_range(p),
        unload_events_ok(p, w, rd, out),
    ensures
        out[0] == ChunkMeshEvent::Unload(p),
        forall|j: int| 1 <= j < out.len() ==> event_position(#[trigger] out[j]) != p,
{
    let present = present_chunks(w, spec_neighbors(p));
    let ns = spec_neighbors(p);
    assert forall|j: int| 1 <= j < out.len() implies event_position(#[trigger] out[j]) != p by {
        let jj = j - 1;
        assert(0 <= jj < present.len());
        assert((out[jj + 1] matches ChunkMeshEvent::Update { position, mesh } && position
            == present[jj] && is_chunk_mesh(mesh, w.chunk_at(present[jj]), w, rd)));
        assert(out[jj + 1] == out[j]);
        lemma_present_chunks_membership(w, ns, jj);
        let q = present[jj];
        assert(ns.contains(q));
        let k = choose|k: int| 0 <= k < ns.len() && ns[k] == q;
        assert(q != p) by {
            if k == 0 {
                assert(q == ns[0] && ns[0].y == p.y + 1);
            } else if k == 1 {
                assert(q == ns[1] && ns[1].x == p.x + 1);
            } else if k == 2 {
                assert(q == ns[2] && ns[2].y == p.y - 1);
            } else {
                assert(q == ns[3] && ns[3].x == p.x - 1);
            }
        }
        assert(event_position(out[j]) == q);
    }
}

/// Pipeline ordering: for `Update(P)`, `Update(P)`, `Unload(P)` issued in
/// that order, the concatenated mesh-event stream ends, for `P`, with the
/// unload marker — draining the stream in order always leaves `P` unloaded,
/// whatever worlds the updates were meshed against.
pub proof fn lemma_pipeline_ordering(
    p: Vec2i,
    w1: World,
    w2: World,
    w3: World,
    rd: GameRenderData,
    out1: Seq<ChunkMeshEvent>,
    out2: Seq<ChunkMeshEvent>,
    out3: Seq<ChunkMeshEvent>,
)
    requires
        event_coord_in_range(p),
        update_events_ok(p, w1, rd, out1),
        update_events_ok(p, w2, rd, out2),
        unload_events_ok(p, w3, rd, out3),
    ensures
        ({
            let all = out1 + out2 + out3;
            &&& all[out1.len() + out2.len() as int] == ChunkMeshEvent::Unload(p)
            &&& forall|j: int|
                out1.len() + out2.len() < j < all.len() ==> event_position(#[trigger] all[j]) != p
        }),
{
    let all = out1 + out2 + out3;
    lemma_unload_is_last_for_position(p, w3, rd, out3);
    assert(all[out1.len() + out2.len() as int] == out3[0]);
    assert forall|j: int| out1.len() + out2.len() < j < all.len() implies event_position(
        #[trigger] all[j],
    ) != p by {
        assert(all[j] == out3[j - out1.len() - out2.len()]);
    }
}

/// Neighbor-unload repair: unloading `p` enqueues a rebuild for every
/// loaded cardinal neighbor `a`, whose mesh is recomputed against the world
/// without `p`'s chunk.
pub proof fn lemma_unload_repairs_neighbor(
    p: Vec2i,
    a: Vec2i,
    w: World,
    rd: GameRenderData,
    out: Seq<ChunkMeshEvent>,
)
    requires
        event_coord_in_range(p),
        unload_events_ok(p, w, rd, out),
        spec_neighbors(p).contains(a),
        w.has_chunk(a),
    ensures
        exists|j: int|
            1 <= j < out.len() && (#[trigger] out[j] matches ChunkMeshEvent::Update {
                position,
                mesh,
            } && position == a && is_chunk_mesh(mesh, w.chunk_at(a), w, rd)),
{
    let ns = spec_neighbors(p);
    let k = choose|k: int| 0 <= k < ns.len() && ns[k] == a;
    lemma_present_chunks_contains(w, ns, k);
    let present = present_chunks(w, ns);
    let j = choose|j: int| 0 <= j < present.len() && present[j] == a;
    assert(out[j + 1] matches ChunkMeshEvent::Update { position, mesh } && position == a
        && is_chunk_mesh(mesh, w.chunk_at(a), w, rd));
}


/// The render thread's view of the world: one mesh per chunk coordinate,
/// kept consistent by applying mesh events in FIFO order.
pub struct ChunkMeshStore {
    entries: Vec<(Vec2i, Mesh)>,
}

/// The store contents after one mesh event: an update binds the
/// coordinate to the new mesh, an unload drops it.
pub open spec fn spec_apply_event(m: Map<Vec2i, Mesh>, e: ChunkMeshEvent) -> Map<Vec2i, Mesh> {
    match e {
        ChunkMeshEvent::Update { position, mesh } => m.insert(position, mesh),
        ChunkMeshEvent::Unload(p) => m.remove(p),
    }
}

/// The store contents after a whole event stream, applied first to last.
pub open spec fn spec_apply_events(m: Map<Vec2i, Mesh>, es: Seq<ChunkMeshEvent>) -> Map<
    Vec2i,
    Mesh,
>
    decreases es.len(),
{
    if es.len() == 0 {
        m
    } else {
        spec_apply_events(spec_apply_event(m, es[0]), es.drop_first())
    }
}

impl ChunkMeshStore {
    /// Whether a mesh is held for the coordinate.
    pub closed spec fn spec_has(self, p: Vec2i) -> bool {
        exists|i: int| 0 <= i < self.entries@.len() && (#[trigger] self.entries@[i]).0 == p
    }

    /// The mesh held for the coordinate.
    pub closed spec fn spec_mesh_at(self, p: Vec2i) -> Mesh {
        self.entries@[choose|i: int|
            0 <= i < self.entries@.len() && (#[trigger] self.entries@[i]).0 == p].1
    }

    /// Coordinates are unique keys.
    pub closed spec fn wf(self) -> bool {
        forall|i: int, j: int|
            0 <= i < self.entries@.len() && 0 <= j < self.entries@.len() && i != j ==> (
            #[trigger] self.entries@[i]).0 != (#[trigger] self.entries@[j]).0
    }

    /// The store as a map from coordinate to mesh.
    pub open spec fn spec_view(self) -> Map<Vec2i, Mesh> {
        Map::new(|p: Vec2i| self.spec_has(p), |p: Vec2i| self.spec_mesh_at(p))
    }

    /// An empty store.
    pub fn new() -> (r: ChunkMeshStore)
        ensures
            r.wf(),
            r.spec_view() == Map::<Vec2i, Mesh>::empty(),
    {
        let r = ChunkMeshStore { entries: Vec::new() };
        proof {
            assert(r.spec_view() =~= Map::<Vec2i, Mesh>::empty());
        }
        r
    }

    /// Number of distinct coordinates held.
    pub closed spec fn spec_len(self) -> int {
        self.entries@.len() as int
    }

    /// Number of chunk meshes held.
    pub fn len(&self) -> (r: usize)
        ensures
            r == self.spec_len(),
    {
        self.entries.len()
    }

    /// The mesh held for a coordinate, if any.
    pub fn get(&self, p: Vec2i) -> (r: Option<&Mesh>)
        requires
            self.wf(),
        ensures
            match r {
                Some(m) => self.spec_has(p) && *m == self.spec_mesh_at(p),
                None => !self.spec_has(p),
            },
    {
        match self.find_entry(p) {
            Some(i) => Some(&self.entries[i].1),
            None => None,
        }
    }

    /// Index of the entry for `p`, if present.
    fn find_entry(&self, p: Vec2i) -> (r: Option<usize>)
        requires
            self.wf(),
        ensures
            match r {
                Some(i) => i < self.entries@.len() && self.entries@[i as int].0 == p
                    && self.spec_has(p) && self.spec_mesh_at(p) == self.entries@[i as int].1,
                None => !self.spec_has(p),
            },
    {
        let mut i: usize = 0;
        while i < self.entries.len()
            invariant
                self.wf(),
                i <= self.entries@.len(),
                forall|j: int| 0 <= j < i ==> (#[trigger] self.entries@[j]).0 != p,
            decreases self.entries@.len() - i,
        {
            if self.entries[i].0 == p {
                proof {
                    let k = choose|k: int|
                        0 <= k < self.entries@.len() && (#[trigger] self.entries@[k]).0 == p;
                    assert(k == i);
                }
                return Some(i);
            }
            i = i + 1;
        }
        None
    }

    /// Apply one mesh event: an update replaces the coordinate's mesh, an
    /// unload drops it; every other coordinate is untouched.
    pub fn apply_mesh_event(&mut self, event: ChunkMeshEvent)
        requires
            old(self).wf(),
        ensures
            final(self).wf(),
            final(self).spec_view() == spec_apply_event(old(self).spec_view(), event),
    {
        let ghost prev = *self;
        match event {
            ChunkMeshEvent::Update { position, mesh } => {
                let found = self.find_entry(position);
                match found {
                    Some(i) => {
                        self.entries.remove(i);
                    },
                    None => {},
                }
                let ghost mid = *self;
                self.entries.push((position, mesh));
                proof {
                    match found {
                        Some(i) => {
                            prev.entries@.remove_ensures(i as int);
                        },
                        None => {},
                    }
                    let n = self.entries@.len() - 1;
                    assert forall|j: int| 0 <= j < n implies (
                    #[trigger] self.entries@[j]).0 != position by {
                        assert(self.entries@[j] == mid.entries@[j]);
                        match found {
                            Some(i) => {
                                if j < i as int {
                                    assert(prev.entries@[j] == mid.entries@[j]);
                                } else {
                                    assert(prev.entries@[j + 1] == mid.entries@[j]);
                                }
                            },
                            None => {
                                if mid.entries@[j].0 == position {
                                    assert(prev.spec_has(position));
                                }
                            },
                        }
                    }
                    assert(self.wf());
                    self.lemma_store_view(prev, mid, position, mesh, found);
                }
            },
            ChunkMeshEvent::Unload(position) => {
                match self.find_entry(position) {
                    Some(i) => {
                        self.entries.remove(i);
                        proof {
                            prev.entries@.remove_ensures(i as int);
                            assert(self.wf());
                            assert forall|q: Vec2i| true implies #[trigger] self.spec_has(q) == (
                            prev.spec_has(q) && q != position) by {
                                if self.spec_has(q) {
                                    let k = choose|k: int|
                                        0 <= k < self.entries@.len() && (
                                        #[trigger] self.entries@[k]).0 == q;
                                    if k < i as int {
                                        assert(prev.entries@[k].0 == q);
                                    } else {
                                        assert(prev.entries@[k + 1].0 == q);
                                    }
                                    if q == position {
                                        if k < i as int {
                                            assert(prev.entries@[k].0 == prev.entries@[
                                                i as int].0);
                                        } else {
                                            assert(prev.entries@[k + 1].0 == prev.entries@[
                                                i as int].0);
                                        }
                                        assert(false);
                                    }
                                }
                                if prev.spec_has(q) && q != position {
                                    let k = choose|k: int|
                                        0 <= k < prev.entries@.len() && (
                                        #[trigger] prev.entries@[k]).0 == q;
                                    assert(k != i as int);
                                    if k < i as int {
                                        assert(self.entries@[k].0 == q);
                                    } else {
                                        assert(self.entries@[k - 1].0 == q);
                                    }
                                }
                            }
                            assert forall|q: Vec2i| self.spec_has(q) implies #[trigger] self
                                .spec_mesh_at(q) == prev.spec_mesh_at(q) by {
                                let k = choose|k: int|
                                    0 <= k < self.entries@.len() && (
                                    #[trigger] self.entries@[k]).0 == q;
                                let k2 = if k < i as int {
                                    k
                                } else {
                                    k + 1
                                };
                                assert(prev.entries@[k2] == self.entries@[k]);
                                let k3 = choose|k3: int|
                                    0 <= k3 < prev.entries@.len() && (
                                    #[trigger] prev.entries@[k3]).0 == q;
                                assert(k3 == k2);
                            }
                            assert(self.spec_view() =~= spec_apply_event(prev.spec_view(), event));
                        }
                    },
                    None => {
                        proof {
                            assert(self.spec_view() =~= spec_apply_event(prev.spec_view(), event));
                        }
                    },
                }
            },
        }
    }

    /// View equation for an insert: the new store maps `position` to `mesh`
    /// and every other coordinate as before.
    proof fn lemma_store_view(
        self,
        prev: ChunkMeshStore,
        mid: ChunkMeshStore,
        position: Vec2i,
        mesh: Mesh,
        found: Option<usize>,
    )
        requires
            self.wf(),
            prev.wf(),
            match found {
                Some(i) => (i as int) < prev.entries@.len() && prev.entries@[i as int].0
                    == position && mid.entries@ == prev.entries@.remove(i as int),
                None => !prev.spec_has(position) && mid.entries@ == prev.entries@,
            },
            self.entries@ == mid.entries@.push((position, mesh)),
        ensures
            self.spec_view() == spec_apply_event(
                prev.spec_view(),
                ChunkMeshEvent::Update { position, mesh },
            ),
    {
        let n = self.entries@.len() - 1;
        assert(self.entries@[n] == (position, mesh));
        assert(self.spec_has(position));
        assert forall|q: Vec2i| q != position implies #[trigger] self.spec_has(q) == prev.spec_has(
            q,
        ) by {
            if self.spec_has(q) {
                let k = choose|k: int|
                    0 <= k < self.entries@.len() && (#[trigger] self.entries@[k]).0 == q;
                assert(k < n);
                assert(mid.entries@[k].0 == q);
                match found {
                    Some(i) => {
                        prev.entries@.remove_ensures(i as int);
                        if k < i as int {
                            assert(prev.entries@[k].0 == q);
                        } else {
                            assert(prev.entries@[k + 1].0 == q);
                        }
                    },
                    None => {
                        assert(prev.entries@[k].0 == q);
                    },
                }
            }
            if prev.spec_has(q) {
                let k = choose|k: int|
                    0 <= k < prev.entries@.len() && (#[trigger] prev.entries@[k]).0 == q;
                match found {
                    Some(i) => {
                        prev.entries@.remove_ensures(i as int);
                        if k < i as int {
                            assert(self.entries@[k].0 == q);
                        } else {
                            assert(self.entries@[k - 1].0 == q);
                        }
                    },
                    None => {
                        assert(self.entries@[k].0 == q);
                    },
                }
            }
        }
        assert forall|q: Vec2i| q != position && self.spec_has(q) implies #[trigger] self
            .spec_mesh_at(q) == prev.spec_mesh_at(q) by {
            let k = choose|k: int|
                0 <= k < self.entries@.len() && (#[trigger] self.entries@[k]).0 == q;
            assert(k < n);
            let k2 = match found {
                Some(i) => if k < i as int {
                    k
                } else {
                    k + 1
                },
                None => k,
            };
            match found {
                Some(i) => {
                    prev.entries@.remove_ensures(i as int);
                },
                None => {},
            }
            assert(prev.entries@[k2] == self.entries@[k]);
            let k3 = choose|k3: int|
                0 <= k3 < prev.entries@.len() && (#[trigger] prev.entries@[k3]).0 == q;
            assert(k3 == k2);
        }
        assert(self.spec_mesh_at(position) == mesh) by {
            let k = choose|k: int|
                0 <= k < self.entries@.len() && (#[trigger] self.entries@[k]).0 == position;
            assert(k == n);
        }
        assert(self.spec_view() =~= spec_apply_event(
            prev.spec_view(),
            ChunkMeshEvent::Update { position, mesh },
        ));
    }

    /// Drain a batch of mesh events in FIFO order, as the render thread
    /// does once per frame.
    pub fn apply_mesh_events(&mut self, events: Vec<ChunkMeshEvent>)
        requires
            old(self).wf(),
        ensures
            final(self).wf(),
            final(self).spec_view() == spec_apply_events(old(self).spec_view(), events@),
    {
        let mut remaining = events;
        while remaining.len() > 0
            invariant
                self.wf(),
                spec_apply_events(old(self).spec_view(), events@) == spec_apply_events(
                    self.spec_view(),
                    remaining@,
                ),
            decreases remaining@.len(),
        {
            let ghost before = remaining@;
            let event = remaining.remove(0);
            proof {
                assert(remaining@ =~= before.drop_first());
                assert(event == before[0]);
            }
            self.apply_mesh_event(event);
        }
    }
}

/// No event of the stream concerns `p`: its binding never changes.
proof fn lemma_apply_events_untouched(m: Map<Vec2i, Mesh>, es: Seq<ChunkMeshEvent>, p: Vec2i)
    requires
        forall|k: int| 0 <= k < es.len() ==> event_position(#[trigger] es[k]) != p,
        !m.dom().contains(p),
    ensures
        !spec_apply_events(m, es).dom().contains(p),
    decreases es.len(),
{
    if es.len() > 0 {
        let m1 = spec_apply_event(m, es[0]);
        assert(!m1.dom().contains(p));
        assert forall|k: int| 0 <= k < es.drop_first().len() implies event_position(
            #[trigger] es.drop_first()[k],
        ) != p by {
            assert(es.drop_first()[k] == es[k + 1]);
        }
        lemma_apply_events_untouched(m1, es.drop_first(), p);
    }
}

/// Draining in FIFO order makes the last event for a coordinate win: if
/// the last event for `p` in the stream is an unload, the store ends with
/// no mesh for `p`, whatever it held before.
pub proof fn lemma_last_unload_wins(m: Map<Vec2i, Mesh>, es: Seq<ChunkMeshEvent>, j: int, p: Vec2i)
    requires
        0 <= j < es.len(),
        es[j] == ChunkMeshEvent::Unload(p),
        forall|k: int| j < k < es.len() ==> event_position(#[trigger] es[k]) != p,
    ensures
        !spec_apply_events(m, es).dom().contains(p),
    decreases es.len(),
{
    let m1 = spec_apply_event(m, es[0]);
    if j == 0 {
        assert(!m1.dom().contains(p));
        assert forall|k: int| 0 <= k < es.drop_first().len() implies event_position(
            #[trigger] es.drop_first()[k],
        ) != p by {
            assert(es.drop_first()[k] == es[k + 1]);
        }
        lemma_apply_events_untouched(m1, es.drop_first(), p);
    } else {
        assert(es.drop_first()[j - 1] == es[j]);
        assert forall|k: int| j - 1 < k < es.drop_first().len() implies event_position(
            #[trigger] es.drop_first()[k],
        ) != p by {
            assert(es.drop_first()[k] == es[k + 1]);
        }
        lemma_last_unload_wins(m1, es.drop_first(), j - 1, p);
    }
}

/// Pipeline ordering, end to end: after `Update(P)`, `Update(P)`,
/// `Unload(P)` in that order, draining the produced mesh events in FIFO
/// order leaves the render thread's store with no mesh for `P`, whatever
/// worlds the updates were meshed against and whatever the store held
/// before.
pub proof fn lemma_pipeline_ends_unloaded(
    p: Vec2i,
    w1: World,
    w2: World,
    w3: World,
    rd: GameRenderData,
    out1: Seq<ChunkMeshEvent>,
    out2: Seq<ChunkMeshEvent>,
    out3: Seq<ChunkMeshEvent>,
    m: Map<Vec2i, Mesh>,
)
    requires
        event_coord_in_range(p),
        update_events_ok(p, w1, rd, out1),
        update_events_ok(p, w2, rd, out2),
        unload_events_ok(p, w3, rd, out3),
    ensures
        !spec_apply_events(m, out1 + out2 + out3).dom().contains(p),
{
    let all = out1 + out2 + out3;
    lemma_pipeline_ordering(p, w1, w2, w3, rd, out1, out2, out3);
    lemma_last_unload_wins(m, all, out1.len() + out2.len() as int, p);
}

} // verus!
