//! Indexed vertex buffers in whole pixels, and how they are joined and moved.
use vstd::prelude::*;

verus! {

/// The largest magnitude of a coordinate that a transform accepts.
pub const POSITION_LIMIT: i64 = 0x20_0000_0000_0000;

/// A point or offset in the plane, in pixels.
#[derive(Debug, Clone, Copy, PartialEq, Eq, Structural)]
pub struct Vec2 {
    pub x: i64,
    pub y: i64,
}

/// A point or offset in space, in pixels; `y` points up.
#[derive(Debug, Clone, Copy, PartialEq, Eq, Structural)]
pub struct Vec3 {
    pub x: i64,
    pub y: i64,
    pub z: i64,
}

/// One mesh vertex: where it is and where it samples the texture.
#[derive(Debug, Clone, Copy, PartialEq, Eq, Structural)]
pub struct Attribute {
    pub space_coord_px: Vec3,
    pub tex_coord_px: Vec2,
}

/// A mesh as values: its vertices and the vertex positions that its
/// triangles refer to, three per triangle.
pub struct MeshModel {
    pub attributes: Seq<Attribute>,
    pub indices: Seq<int>,
}

/// Every index refers to a vertex of the mesh.
pub open spec fn indices_in_range(m: MeshModel) -> bool {
    forall|i: int| 0 <= i < m.indices.len() ==> 0 <= #[trigger] m.indices[i] < m.attributes.len()
}

/// `b` appended to `a`: the vertices of `b` follow those of `a`, so the
/// indices of `b` move up by the number of vertices of `a`.
pub open spec fn cat(a: MeshModel, b: MeshModel) -> MeshModel {
    MeshModel {
        attributes: a.attributes + b.attributes,
        indices: a.indices + b.indices.map_values(|i: int| i + a.attributes.len()),
    }
}

pub open spec fn empty_mesh() -> MeshModel {
    MeshModel { attributes: Seq::empty(), indices: Seq::empty() }
}

/// All meshes of `ms` appended in order.
pub open spec fn cat_all(ms: Seq<MeshModel>) -> MeshModel
    decreases ms.len(),
{
    if ms.len() == 0 {
        empty_mesh()
    } else {
        cat(cat_all(ms.drop_last()), ms.last())
    }
}

/// A mesh chunk: vertices and triangle indices into them.
#[derive(Debug)]
pub struct RelativeBuffers {
    pub attributes: Vec<Attribute>,
    pub indices: Vec<u32>,
}

impl View for RelativeBuffers {
    type V = MeshModel;

    open spec fn view(&self) -> MeshModel {
        MeshModel {
            attributes: self.attributes@,
            indices: self.indices@.map_values(|i: u32| i as int),
        }
    }
}

impl RelativeBuffers {
    /// The buffers with the vertices of `b` after those of `self`, and the
    /// indices of `b` shifted to match.
    pub fn concat(&self, b: &Self) -> (r: Self)
        requires
            indices_in_range(b@),
            self.attributes.len() + b.attributes.len() <= u32::MAX,
        ensures
            r@ == cat(self@, b@),
    {
        let mut r = Self { attributes: self.attributes.clone(), indices: self.indices.clone() };
        assert(r.attributes@ =~= self.attributes@);
        assert(r.indices@ =~= self.indices@);
        r.append(b);
        r
    }
}


/// A quarter turn about the vertical axis, taking `(x, y, z)` to
/// `(x cos a + z sin a, y, z cos a - x sin a)` for the angle `a`.
#[derive(Debug, Clone, Copy, PartialEq, Eq, Structural)]
pub enum YRotation {
    Deg0,
    Deg90,
    Deg180,
    DegMinus90,
}

/// A rotation about the vertical axis, then a shift by `translation`.
#[derive(Debug, Clone, Copy, PartialEq, Eq, Structural)]
pub struct Transform {
    pub rotation: YRotation,
    pub translation: Vec3,
}

pub open spec fn bounded(p: Vec3) -> bool {
    -POSITION_LIMIT <= p.x <= POSITION_LIMIT && -POSITION_LIMIT <= p.y <= POSITION_LIMIT
        && -POSITION_LIMIT <= p.z <= POSITION_LIMIT
}

pub open spec fn rotated(r: YRotation, p: Vec3) -> (int, int, int) {
    match r {
        YRotation::Deg0 => (p.x as int, p.y as int, p.z as int),
        YRotation::Deg90 => (p.z as int, p.y as int, -p.x),
        YRotation::Deg180 => (-p.x, p.y as int, -p.z),
        YRotation::DegMinus90 => (-p.z, p.y as int, p.x as int),
    }
}

/// Where `t` takes the point `p`.
pub open spec fn moved(t: Transform, p: Vec3) -> Vec3 {
    let q = rotated(t.rotation, p);
    Vec3 {
        x: (q.0 + t.translation.x) as i64,
        y: (q.1 + t.translation.y) as i64,
        z: (q.2 + t.translation.z) as i64,
    }
}

pub open spec fn moved_attribute(t: Transform, a: Attribute) -> Attribute {
    Attribute { space_coord_px: moved(t, a.space_coord_px), tex_coord_px: a.tex_coord_px }
}

/// The mesh with every vertex moved by `t`; texture coordinates and indices
/// stay as they are.
pub open spec fn transformed(m: MeshModel, t: Transform) -> MeshModel {
    MeshModel {
        attributes: m.attributes.map_values(|a: Attribute| moved_attribute(t, a)),
        indices: m.indices,
    }
}

/// Every vertex position is within the bound that a transform accepts.
pub open spec fn positions_bounded(m: MeshModel) -> bool {
    forall|i: int| 0 <= i < m.attributes.len() ==> bounded(#[trigger] m.attributes[i].space_coord_px)
}

impl Transform {
    /// Where this transform takes `p`.
    pub fn apply(&self, p: Vec3) -> (r: Vec3)
        requires
            bounded(p),
            bounded(self.translation),
        ensures
            r == moved(*self, p),
    {
        let (x, y, z) = match self.rotation {
            YRotation::Deg0 => (p.x, p.y, p.z),
            YRotation::Deg90 => (p.z, p.y, -p.x),
            YRotation::Deg180 => (-p.x, p.y, -p.z),
            YRotation::DegMinus90 => (-p.z, p.y, p.x),
        };
        Vec3 {
            x: x + self.translation.x,
            y: y + self.translation.y,
            z: z + self.translation.z,
        }
    }
}

impl RelativeBuffers {
    /// Appends `b` to `self` in place, as `concat` would.
    fn append(&mut self, b: &Self)
        requires
            indices_in_range(b@),
            old(self).attributes.len() + b.attributes.len() <= u32::MAX,
        ensures
            final(self)@ == cat(old(self)@, b@),
    {
        let ghost a0 = self@;
        let offset = self.attributes.len() as u32;
        let ghost i0 = self.indices@;
        let mut n: usize = 0;
        while n < b.indices.len()
            invariant
                n <= b.indices.len(),
                offset == a0.attributes.len(),
                self.attributes@ == a0.attributes,
                indices_in_range(b@),
                a0.attributes.len() + b.attributes.len() <= u32::MAX,
                self.indices@.len() == i0.len() + n,
                i0.map_values(|i: u32| i as int) == a0.indices,
                forall|m: int| 0 <= m < i0.len() ==> self.indices@[m] == i0[m],
                forall|m: int|
                    0 <= m < n ==> self.indices@[i0.len() + m] as int == b.indices@[m] as int
                        + offset,
            decreases b.indices.len() - n,
        {
            assert(b@.indices[n as int] == b.indices@[n as int] as int);
            self.indices.push(b.indices[n] + offset);
            n = n + 1;
        }
        let ghost idx1 = self.indices@;
        let mut j: usize = 0;
        while j < b.attributes.len()
            invariant
                j <= b.attributes.len(),
                self.indices@ == idx1,
                self.attributes@ == a0.attributes + b.attributes@.take(j as int),
            decreases b.attributes.len() - j,
        {
            self.attributes.push(b.attributes[j]);
            j = j + 1;
            assert(self.attributes@ =~= a0.attributes + b.attributes@.take(j as int));
        }
        assert(b.attributes@.take(b.attributes.len() as int) =~= b.attributes@);
        assert forall|m: int| 0 <= m < self@.indices.len() implies self@.indices[m] == cat(
            a0,
            b@,
        ).indices[m] by {
            if m < i0.len() {
                assert(a0.indices[m] == i0[m] as int);
            } else {
                assert(b@.indices[m - i0.len()] == b.indices@[m - i0.len()] as int);
            }
        }
        assert(self@.indices =~= cat(a0, b@).indices);
        assert(self@.attributes =~= cat(a0, b@).attributes);
    }

    /// All of `parts` appended in order, each one's indices shifted by the
    /// number of vertices before it.
    pub fn concat_all(parts: Vec<RelativeBuffers>) -> (r: Self)
        requires
            forall|i: int| 0 <= i < parts.len() ==> indices_in_range(#[trigger] parts@[i]@),
            cat_all(models(parts@)).attributes.len() <= u32::MAX,
        ensures
            r@ == cat_all(models(parts@)),
    {
        let mut acc = RelativeBuffers { attributes: Vec::new(), indices: Vec::new() };
        assert(acc@.attributes =~= empty_mesh().attributes);
        assert(acc@.indices =~= empty_mesh().indices);
        let mut k: usize = 0;
        while k < parts.len()
            invariant
                k <= parts.len(),
                forall|i: int| 0 <= i < parts.len() ==> indices_in_range(#[trigger] parts@[i]@),
                cat_all(models(parts@)).attributes.len() <= u32::MAX,
                acc@ == cat_all(models(parts@).take(k as int)),
            decreases parts.len() - k,
        {
            let ghost ms = models(parts@);
            proof {
                lemma_cat_all_step(ms, k as int);
                lemma_cat_all_prefix_len(ms, k as int + 1);
            }
            acc.append(&parts[k]);
            k = k + 1;
        }
        assert(models(parts@).take(parts.len() as int) =~= models(parts@));
        acc
    }

    /// The buffers with every vertex moved by `t`; the indices are kept as
    /// they are.
    pub fn transform(self, t: Transform) -> (r: Self)
        requires
            positions_bounded(self@),
            bounded(t.translation),
        ensures
            r@ == transformed(self@, t),
            r.indices@ == self.indices@,
    {
        let ghost old_attributes = self.attributes@;
        let RelativeBuffers { attributes, indices } = self;
        assert(attributes@ == old_attributes);
        assert forall|m: int| 0 <= m < attributes.len() implies bounded(
            #[trigger] attributes@[m].space_coord_px,
        ) by {
            assert(bounded(self@.attributes[m].space_coord_px));
        }
        let mut moved_attributes: Vec<Attribute> = Vec::new();
        let mut i: usize = 0;
        while i < attributes.len()
            invariant
                i <= attributes.len(),
                forall|m: int|
                    0 <= m < attributes.len() ==> bounded(#[trigger] attributes@[m].space_coord_px),
                bounded(t.translation),
                moved_attributes@ == attributes@.take(i as int).map_values(
                    |a: Attribute| moved_attribute(t, a),
                ),
            decreases attributes.len() - i,
        {
            let a = attributes[i];
            assert(bounded(attributes@[i as int].space_coord_px));
            moved_attributes.push(
                Attribute { space_coord_px: t.apply(a.space_coord_px), tex_coord_px: a.tex_coord_px },
            );
            i = i + 1;
            assert(moved_attributes@ =~= attributes@.take(i as int).map_values(
                |a: Attribute| moved_attribute(t, a),
            ));
        }
        assert(attributes@.take(attributes.len() as int) =~= attributes@);
        RelativeBuffers { attributes: moved_attributes, indices }
    }
}

/// The meshes that a list of buffers holds.
pub open spec fn models(bs: Seq<RelativeBuffers>) -> Seq<MeshModel> {
    bs.map_values(|b: RelativeBuffers| b@)
}

pub(crate) proof fn lemma_cat_all_step(ms: Seq<MeshModel>, k: int)
    requires
        0 <= k < ms.len(),
    ensures
        cat_all(ms.take(k + 1)) == cat(cat_all(ms.take(k)), ms[k]),
{
    assert(ms.take(k + 1).drop_last() =~= ms.take(k));
}

/// Appending more meshes never removes vertices.
proof fn lemma_cat_all_prefix_len(ms: Seq<MeshModel>, k: int)
    requires
        0 <= k <= ms.len(),
    ensures
        cat_all(ms.take(k)).attributes.len() <= cat_all(ms).attributes.len(),
    decreases ms.len(),
{
    if k == ms.len() {
        assert(ms.take(k) =~= ms);
    } else {
        assert(ms.drop_last().take(k) =~= ms.take(k));
        lemma_cat_all_prefix_len(ms.drop_last(), k);
    }
}

/// Appending is associative: the vertices come out in the same order and
/// every triangle refers to the same vertices, however the appends are
/// grouped.
pub proof fn lemma_cat_associative(a: MeshModel, b: MeshModel, c: MeshModel)
    ensures
        cat(cat(a, b), c) == cat(a, cat(b, c)),
{
    let l = cat(cat(a, b), c);
    let r = cat(a, cat(b, c));
    assert(l.attributes =~= r.attributes);
    assert(l.indices =~= r.indices);
}

/// Appending keeps every triangle on the same vertices: each index of the
/// result, resolved to a vertex, gives the vertex that the index it came
/// from gave in its own mesh.
pub proof fn lemma_cat_resolves_same_vertices(a: MeshModel, b: MeshModel)
    requires
        indices_in_range(a),
        indices_in_range(b),
    ensures
        forall|i: int|
            0 <= i < a.indices.len() ==> cat(a, b).attributes[#[trigger] cat(a, b).indices[i]]
                == a.attributes[a.indices[i]],
        forall|j: int|
            0 <= j < b.indices.len() ==> cat(a, b).attributes[cat(a, b).indices[a.indices.len()
                + j]] == b.attributes[#[trigger] b.indices[j]],
{
    let c = cat(a, b);
    assert forall|i: int| 0 <= i < a.indices.len() implies c.attributes[#[trigger] c.indices[i]]
        == a.attributes[a.indices[i]] by {
        assert(0 <= a.indices[i] < a.attributes.len());
    }
    assert forall|j: int| 0 <= j < b.indices.len() implies c.attributes[c.indices[a.indices.len()
        + j]] == b.attributes[#[trigger] b.indices[j]] by {
        assert(0 <= b.indices[j] < b.attributes.len());
        assert(c.indices[a.indices.len() + j] == b.indices[j] + a.attributes.len());
    }
}

/// The numbers of vertices and of indices of all meshes of `ms` together.
pub open spec fn counts(ms: Seq<MeshModel>) -> (nat, nat)
    decreases ms.len(),
{
    if ms.len() == 0 {
        (0, 0)
    } else {
        let c = counts(ms.drop_last());
        (c.0 + ms.last().attributes.len(), c.1 + ms.last().indices.len())
    }
}

/// Appending meshes loses and adds nothing: the result has as many vertices
/// and as many indices as the meshes together.
pub proof fn lemma_cat_all_counts(ms: Seq<MeshModel>)
    ensures
        cat_all(ms).attributes.len() == counts(ms).0,
        cat_all(ms).indices.len() == counts(ms).1,
    decreases ms.len(),
{
    if ms.len() > 0 {
        lemma_cat_all_counts(ms.drop_last());
    }
}

/// Appending meshes whose indices are in range gives a mesh whose indices
/// are in range.
pub proof fn lemma_cat_in_range(a: MeshModel, b: MeshModel)
    requires
        indices_in_range(a),
        indices_in_range(b),
    ensures
        indices_in_range(cat(a, b)),
{
    let c = cat(a, b);
    assert forall|i: int| 0 <= i < c.indices.len() implies 0 <= #[trigger] c.indices[i]
        < c.attributes.len() by {
        if i >= a.indices.len() {
            assert(c.indices[i] == b.indices[i - a.indices.len()] + a.attributes.len());
        }
    }
}

/// Appending any number of meshes whose indices are in range gives one whose
/// indices are in range.
pub proof fn lemma_cat_all_in_range(ms: Seq<MeshModel>)
    requires
        forall|i: int| 0 <= i < ms.len() ==> indices_in_range(#[trigger] ms[i]),
    ensures
        indices_in_range(cat_all(ms)),
    decreases ms.len(),
{
    if ms.len() > 0 {
        lemma_cat_all_in_range(ms.drop_last());
        lemma_cat_in_range(cat_all(ms.drop_last()), ms.last());
    }
}

/// Moving a mesh leaves its indices, and so whether they are in range, as
/// they were.
pub proof fn lemma_transform_keeps_indices(m: MeshModel, t: Transform)
    ensures
        transformed(m, t).indices == m.indices,
        transformed(m, t).attributes.len() == m.attributes.len(),
        indices_in_range(m) ==> indices_in_range(transformed(m, t)),
{
}

/// Buffers are fixed by their mesh: two with the same mesh hold the same
/// vertices and the same indices, in the same order.
pub proof fn lemma_same_model_same_buffers(a: RelativeBuffers, b: RelativeBuffers)
    requires
        a@ == b@,
    ensures
        a.attributes@ == b.attributes@,
        a.indices@ == b.indices@,
{
    assert(a@.indices.len() == a.indices@.len());
    assert(b@.indices.len() == b.indices@.len());
    assert forall|i: int| 0 <= i < a.indices.len() implies a.indices@[i] == b.indices@[i] by {
        assert(a@.indices[i] == a.indices@[i] as int);
        assert(b@.indices[i] == b.indices@[i] as int);
    }
    assert(a.indices@ =~= b.indices@);
}

/// Joining is deterministic: joining two lists of buffers that hold the same
/// meshes gives the same vertices and the same indices, in the same order.
pub proof fn lemma_concat_all_deterministic(
    parts_a: Seq<RelativeBuffers>,
    parts_b: Seq<RelativeBuffers>,
    a: RelativeBuffers,
    b: RelativeBuffers,
)
    requires
        models(parts_a) == models(parts_b),
        a@ == cat_all(models(parts_a)),
        b@ == cat_all(models(parts_b)),
    ensures
        a.attributes@ == b.attributes@,
        a.indices@ == b.indices@,
{
    lemma_same_model_same_buffers(a, b);
}

} // verus!
