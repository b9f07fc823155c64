//! The transform buffer that the cartridge writes to upper memory, and the
//! triangles that its vertex transforms draw.
//!
//! Each transform is 8 bytes: x, y, z as little-endian `i16`, then `u` and
//! `v`. The two low bits of `u` select the mode: meta (0), vertex (1),
//! point (2) or unused (3). Vertex transforms draw triangles in fans: after
//! one triangle is drawn, its last two vertices are reused for the next one,
//! and a fan stops at the first transform that is not a vertex. A point
//! transform draws one shape at its position. A meta transform with bit 2 of
//! `u` set switches the render space (bits 6..8 of `u`: headset, world, left
//! or right controller) of what is drawn after it; drawing starts in the
//! world.

use vstd::prelude::*;
use crate::bytes::{i16_from_le, i16_to_le, le_i16, i16_lo, i16_hi};
use crate::constants::{VR_MAX_TRANSFORMS, VR_TRANSBUFFER_SIZE, VR_TRANS_STRIDE};

verus! {

#[derive(Clone, Copy, Debug, PartialEq, Eq, Structural)]
pub struct Transform {
    pub x: i16,
    pub y: i16,
    pub z: i16,
    pub u: u8,
    pub v: u8,
}

#[derive(Clone, Copy, Debug)]
pub struct TransBuffer {
    pub transforms: [Transform; VR_MAX_TRANSFORMS],
}

/// What a transform does, from the two low bits of its `u` byte.
#[derive(Clone, Copy, Debug, PartialEq, Eq, Structural)]
pub enum TransType {
    Meta,
    Vertex,
    Point,
    Unused,
}

/// The attributes of one vertex of a triangle.
#[derive(Clone, Copy, Debug, PartialEq, Eq, Structural)]
pub struct VertexAttributes {
    pub x: i16,
    pub y: i16,
    pub z: i16,
    /// Bits 2..8 of `u`: the U coordinate, 0 to 63 in half-tile steps.
    pub u: u8,
    /// Bits 2..8 of `v`: the V coordinate, 0 to 63 in half-tile steps.
    pub v: u8,
    /// Bits 4..8 of `u`: the colour.
    pub colour: u8,
    /// Bit 0 of `v`: the vertex colour/UV switch.
    pub colour_uv_switch: bool,
    /// Bit 1 of `v`: the blend switch.
    pub blend: bool,
}

/// A triangle handed to the renderer: its vertices, and the colour and blend
/// state, which the last transform determines.
#[derive(Clone, Debug)]
pub struct DrawnTriangle {
    pub vertices: Vec<VertexAttributes>,
    pub colour: u8,
    pub blend: bool,
}

/// Where drawn items are placed: relative to the headset, the world, or
/// one of the controllers.
#[derive(Clone, Copy, Debug, PartialEq, Eq, Structural)]
pub enum RenderSpace {
    Hmd,
    World,
    Left,
    Right,
}

/// The shape of a point transform, from bits 2..4 of its `u` byte.
#[derive(Clone, Copy, Debug, PartialEq, Eq, Structural)]
pub enum ShapeKind {
    Circle,
    SmallBillboard,
    LargeBillboard,
    Unused,
}

/// A shape drawn at a point transform's position.
#[derive(Clone, Copy, Debug, PartialEq, Eq, Structural)]
pub struct DrawnShape {
    pub kind: ShapeKind,
    pub x: i16,
    pub y: i16,
    pub z: i16,
    /// The `v` byte: the radius of a circle, the sprite of a billboard.
    pub value: u8,
    /// Bits 4..8 of `u`: the colour.
    pub colour: u8,
    /// Size in cm of a billboard: `colour + 1` for a small one, 20 times
    /// that for a large one; 0 for other shapes.
    pub size_cm: u16,
    pub space: RenderSpace,
}

/// An item that the renderer draws.
pub enum Drawn {
    Triangle { triangle: DrawnTriangle, space: RenderSpace },
    Shape(DrawnShape),
}

impl Transform {
    /// The mode of this transform.
    pub open spec fn spec_trans_type(self) -> TransType {
        if self.u % 4 == 0 {
            TransType::Meta
        } else if self.u % 4 == 1 {
            TransType::Vertex
        } else if self.u % 4 == 2 {
            TransType::Point
        } else {
            TransType::Unused
        }
    }

    pub open spec fn is_vertex(self) -> bool {
        self.u % 4 == 1
    }

    pub open spec fn is_point(self) -> bool {
        self.u % 4 == 2
    }

    /// A meta transform with its render-space flag (bit 2 of `u`) set.
    pub open spec fn sets_space(self) -> bool {
        self.u % 4 == 0 && (self.u / 4) % 2 == 1
    }

    /// The render space in bits 6..8 of `u`: headset, world, left, right.
    pub open spec fn spec_space(self) -> RenderSpace {
        if self.u / 64 == 0 {
            RenderSpace::Hmd
        } else if self.u / 64 == 1 {
            RenderSpace::World
        } else if self.u / 64 == 2 {
            RenderSpace::Left
        } else {
            RenderSpace::Right
        }
    }

    /// The shape that this point transform draws in render space `space`.
    pub open spec fn spec_shape(self, space: RenderSpace) -> DrawnShape {
        let kind = if (self.u / 4) % 4 == 0 {
            ShapeKind::Circle
        } else if (self.u / 4) % 4 == 1 {
            ShapeKind::SmallBillboard
        } else if (self.u / 4) % 4 == 2 {
            ShapeKind::LargeBillboard
        } else {
            ShapeKind::Unused
        };
        DrawnShape {
            kind,
            x: self.x,
            y: self.y,
            z: self.z,
            value: self.v,
            colour: self.u / 16,
            size_cm: (if kind == ShapeKind::SmallBillboard {
                self.u / 16 + 1
            } else if kind == ShapeKind::LargeBillboard {
                20 * (self.u / 16 + 1)
            } else {
                0
            }) as u16,
            space,
        }
    }

    /// Whether this is a meta transform with its render-space flag set.
    pub fn sets_render_space(&self) -> (r: bool)
        ensures
            r == self.sets_space(),
    {
        self.u % 4 == 0 && (self.u / 4) % 2 == 1
    }

    /// The render space in bits 6..8 of `u`.
    pub fn render_space(&self) -> (r: RenderSpace)
        ensures
            r == self.spec_space(),
    {
        let k = self.u / 64;
        if k == 0 {
            RenderSpace::Hmd
        } else if k == 1 {
            RenderSpace::World
        } else if k == 2 {
            RenderSpace::Left
        } else {
            RenderSpace::Right
        }
    }

    /// The shape that this point transform draws in render space `space`.
    pub fn shape(&self, space: RenderSpace) -> (r: DrawnShape)
        ensures
            r == self.spec_shape(space),
    {
        let k = (self.u / 4) % 4;
        let colour = self.u / 16;
        let (kind, size_cm) = if k == 0 {
            (ShapeKind::Circle, 0u16)
        } else if k == 1 {
            (ShapeKind::SmallBillboard, colour as u16 + 1)
        } else if k == 2 {
            (ShapeKind::LargeBillboard, 20 * (colour as u16 + 1))
        } else {
            (ShapeKind::Unused, 0u16)
        };
        DrawnShape { kind, x: self.x, y: self.y, z: self.z, value: self.v, colour, size_cm, space }
    }

    /// The vertex attributes that this transform carries.
    pub open spec fn spec_attributes(self) -> VertexAttributes {
        VertexAttributes {
            x: self.x,
            y: self.y,
            z: self.z,
            u: self.u / 4,
            v: self.v / 4,
            colour: self.u / 16,
            colour_uv_switch: self.v % 2 == 1,
            blend: (self.v / 2) % 2 == 1,
        }
    }

    /// The 8 bytes of this transform in the buffer.
    pub open spec fn spec_bytes(self) -> Seq<u8> {
        seq![
            i16_lo(self.x), i16_hi(self.x),
            i16_lo(self.y), i16_hi(self.y),
            i16_lo(self.z), i16_hi(self.z),
            self.u, self.v,
        ]
    }

    /// The transform that the 8 bytes of `b` from `off` hold.
    pub open spec fn spec_from_bytes(b: Seq<u8>, off: int) -> Transform {
        Transform {
            x: le_i16(b[off], b[off + 1]) as i16,
            y: le_i16(b[off + 2], b[off + 3]) as i16,
            z: le_i16(b[off + 4], b[off + 5]) as i16,
            u: b[off + 6],
            v: b[off + 7],
        }
    }

    /// The mode of this transform.
    pub fn trans_type(&self) -> (r: TransType)
        ensures
            r == self.spec_trans_type(),
    {
        let mode = self.u % 4;
        if mode == 0 {
            TransType::Meta
        } else if mode == 1 {
            TransType::Vertex
        } else if mode == 2 {
            TransType::Point
        } else {
            TransType::Unused
        }
    }

    /// The vertex attributes that this transform carries.
    pub fn attributes(&self) -> (r: VertexAttributes)
        ensures
            r == self.spec_attributes(),
    {
        VertexAttributes {
            x: self.x,
            y: self.y,
            z: self.z,
            u: self.u / 4,
            v: self.v / 4,
            colour: self.u / 16,
            colour_uv_switch: self.v % 2 == 1,
            blend: (self.v / 2) % 2 == 1,
        }
    }

    /// The 8 bytes of this transform in the buffer.
    pub fn to_bytes(&self) -> (r: [u8; 8])
        ensures
            r@ == self.spec_bytes(),
    {
        let (x0, x1) = i16_to_le(self.x);
        let (y0, y1) = i16_to_le(self.y);
        let (z0, z1) = i16_to_le(self.z);
        let r = [x0, x1, y0, y1, z0, z1, self.u, self.v];
        assert(r@ =~= self.spec_bytes());
        r
    }

    /// Reads the transform that the 8 bytes of `b` from `off` hold.
    pub fn from_bytes(b: &[u8], off: usize) -> (r: Transform)
        requires
            off + 8 <= b@.len(),
        ensures
            r == Transform::spec_from_bytes(b@, off as int),
    {
        Transform {
            x: i16_from_le(b[off], b[off + 1]),
            y: i16_from_le(b[off + 2], b[off + 3]),
            z: i16_from_le(b[off + 4], b[off + 5]),
            u: b[off + 6],
            v: b[off + 7],
        }
    }
}

impl View for DrawnTriangle {
    type V = (Seq<VertexAttributes>, u8, bool);

    open spec fn view(&self) -> (Seq<VertexAttributes>, u8, bool) {
        (self.vertices@, self.colour, self.blend)
    }
}

/// What the transforms `ts` draw: one vertex per transform, and the colour
/// and blend state of the last one (colour 0 and no blending when there is
/// none).
pub open spec fn spec_draw(ts: Seq<Transform>) -> (Seq<VertexAttributes>, u8, bool) {
    (
        ts.map_values(|t: Transform| t.spec_attributes()),
        if ts.len() > 0 { ts.last().spec_attributes().colour } else { 0 },
        ts.len() > 0 && ts.last().spec_attributes().blend,
    )
}

/// Decodes the vertex attributes of `transforms`: the triangle that
/// `draw_tri` hands to the renderer.
pub fn decode_tri(transforms: Vec<Transform>) -> (r: DrawnTriangle)
    ensures
        r@ == spec_draw(transforms@),
{
    let mut vertices: Vec<VertexAttributes> = Vec::new();
    let mut colour: u8 = 0;
    let mut blend = false;
    let n = transforms.len();
    for i in 0..n
        invariant
            n == transforms@.len(),
            vertices@ == transforms@.take(i as int).map_values(|t: Transform| t.spec_attributes()),
            colour == (if i > 0 { transforms@[i - 1].spec_attributes().colour } else { 0 }),
            blend == (i > 0 && transforms@[i - 1].spec_attributes().blend),
    {
        let a = transforms[i].attributes();
        vertices.push(a);
        colour = a.colour;
        blend = a.blend;
        assert(transforms@.take(i + 1) =~= transforms@.take(i as int).push(transforms@[i as int]));
    }
    assert(transforms@.take(n as int) =~= transforms@);
    DrawnTriangle { vertices, colour, blend }
}

/// Number of vertex transforms at the end of `s`, counted back to the last
/// transform that is not a vertex.
pub open spec fn fan_run(s: Seq<Transform>) -> nat
    decreases s.len(),
{
    if s.len() == 0 {
        0
    } else if s.last().is_vertex() {
        fan_run(s.drop_last()) + 1
    } else {
        0
    }
}

/// The triangles that the transforms `s` draw, in order: one for each
/// vertex transform that ends a run of at least three consecutive vertex
/// transforms, made of that vertex and the two before it.
pub open spec fn spec_fans(s: Seq<Transform>) -> Seq<Seq<Transform>>
    decreases s.len(),
{
    if s.len() == 0 {
        seq![]
    } else if fan_run(s) >= 3 {
        spec_fans(s.drop_last()).push(s.subrange(s.len() - 3, s.len() as int))
    } else {
        spec_fans(s.drop_last())
    }
}

/// The last `min(fan_run(s), 2)` transforms of `s`: the vertices that the
/// next vertex transform would form a triangle with.
pub open spec fn fan_tail(s: Seq<Transform>) -> Seq<Transform> {
    let k = if fan_run(s) < 2 { fan_run(s) as int } else { 2 };
    s.subrange(s.len() - k, s.len() as int)
}

proof fn lemma_fan_run_bound(s: Seq<Transform>)
    ensures
        fan_run(s) <= s.len(),
    decreases s.len(),
{
    if s.len() > 0 {
        lemma_fan_run_bound(s.drop_last());
    }
}

/// What one drawn item is, as a mathematical value.
pub enum SpecDrawn {
    /// A triangle as `decode_tri` makes it, in a render space.
    Triangle((Seq<VertexAttributes>, u8, bool), RenderSpace),
    /// A shape of a point transform.
    Shape(DrawnShape),
}

impl View for Drawn {
    type V = SpecDrawn;

    open spec fn view(&self) -> SpecDrawn {
        match *self {
            Drawn::Triangle { triangle, space } => SpecDrawn::Triangle(triangle@, space),
            Drawn::Shape(shape) => SpecDrawn::Shape(shape),
        }
    }
}

/// The render space after the transforms `s`: that of the last meta
/// transform with its render-space flag set, or the world before any.
pub open spec fn space_after(s: Seq<Transform>) -> RenderSpace
    decreases s.len(),
{
    if s.len() == 0 {
        RenderSpace::World
    } else if s.last().sets_space() {
        s.last().spec_space()
    } else {
        space_after(s.drop_last())
    }
}

/// What the transforms `s` draw, in order: for each vertex transform that
/// ends a run of at least three vertices, the triangle of that vertex and the
/// two before it; for each point transform, its shape; each in the render
/// space then in force.
pub open spec fn spec_render(s: Seq<Transform>) -> Seq<SpecDrawn>
    decreases s.len(),
{
    if s.len() == 0 {
        seq![]
    } else if s.last().is_vertex() && fan_run(s) >= 3 {
        spec_render(s.drop_last()).push(
            SpecDrawn::Triangle(spec_draw(s.subrange(s.len() - 3, s.len() as int)), space_after(s)),
        )
    } else if s.last().is_point() {
        spec_render(s.drop_last()).push(SpecDrawn::Shape(s.last().spec_shape(space_after(s))))
    } else {
        spec_render(s.drop_last())
    }
}

/// The triangles among drawn items, in order.
pub open spec fn drawn_triangles(items: Seq<SpecDrawn>) -> Seq<(Seq<VertexAttributes>, u8, bool)>
    decreases items.len(),
{
    if items.len() == 0 {
        seq![]
    } else {
        match items.last() {
            SpecDrawn::Triangle(t, _) => drawn_triangles(items.drop_last()).push(t),
            SpecDrawn::Shape(_) => drawn_triangles(items.drop_last()),
        }
    }
}

/// What a transform buffer draws: in order, each triangle of its vertex
/// fans as `decode_tri` makes it and the shape of each point transform, each
/// with the render space that the meta transforms before it set.
pub fn render_items(buffer: TransBuffer) -> (r: Vec<Drawn>)
    ensures
        r@.map_values(|d: Drawn| d@) == spec_render(buffer.transforms@),
{
    let ghost s = buffer.transforms@;
    let mut tri_buff: Vec<Transform> = Vec::new();
    let mut drawn: Vec<Drawn> = Vec::new();
    let mut space = RenderSpace::World;
    for i in 0..VR_MAX_TRANSFORMS
        invariant
            s == buffer.transforms@,
            s.len() == VR_MAX_TRANSFORMS,
            tri_buff@ == fan_tail(s.take(i as int)),
            space == space_after(s.take(i as int)),
            drawn@.map_values(|d: Drawn| d@) == spec_render(s.take(i as int)),
    {
        let t = buffer.transforms[i];
        let ghost p = s.take(i as int);
        let ghost q = s.take(i + 1);
        assert(q.drop_last() =~= p);
        assert(q.last() == t);
        proof {
            lemma_fan_run_bound(p);
        }
        let ghost before = drawn@;
        match t.trans_type() {
            TransType::Vertex => {
                tri_buff.push(t);
                if tri_buff.len() >= 3 {
                    let ghost w = q.subrange(q.len() - 3, q.len() as int);
                    assert(tri_buff@ =~= w);
                    let triangle = decode_tri(tri_buff.clone());
                    let item = Drawn::Triangle { triangle, space };
                    drawn.push(item);
                    tri_buff.remove(0);
                    assert(tri_buff@ =~= fan_tail(q));
                    assert(drawn@ == before.push(item));
                    assert(drawn@.map_values(|d: Drawn| d@) =~= before.map_values(|d: Drawn| d@).push(item@));
                    assert(spec_render(q) =~= spec_render(p).push(
                        SpecDrawn::Triangle(spec_draw(w), space_after(q)),
                    ));
                } else {
                    assert(spec_render(q) == spec_render(p));
                    assert(tri_buff@ =~= fan_tail(q));
                }
            },
            TransType::Point => {
                tri_buff.clear();
                assert(tri_buff@ =~= fan_tail(q));
                let item = Drawn::Shape(t.shape(space));
                drawn.push(item);
                assert(drawn@ == before.push(item));
                assert(drawn@.map_values(|d: Drawn| d@) =~= before.map_values(|d: Drawn| d@).push(item@));
                assert(spec_render(q) =~= spec_render(p).push(SpecDrawn::Shape(t.spec_shape(space))));
            },
            TransType::Meta => {
                tri_buff.clear();
                assert(tri_buff@ =~= fan_tail(q));
                if t.sets_render_space() {
                    space = t.render_space();
                }
                assert(spec_render(q) == spec_render(p));
            },
            TransType::Unused => {
                tri_buff.clear();
                assert(tri_buff@ =~= fan_tail(q));
                assert(spec_render(q) == spec_render(p));
            },
        }
    }
    assert(s.take(VR_MAX_TRANSFORMS as int) =~= s);
    drawn
}

/// Draws a triangle: decodes the vertex attributes of `transforms` and hands
/// them to the renderer, which has no drawing of its own yet.
pub fn draw_tri(transforms: Vec<Transform>) {
    let _triangle = decode_tri(transforms);
}

/// Renders a transform buffer: works out what it draws (`render_items`)
/// and hands that to the renderer. Always succeeds.
pub fn render_buffer(buffer: TransBuffer) -> (r: bool)
    ensures
        r,
{
    let _drawn = render_items(buffer);
    true
}

/// The triangles that `render_items` lists are, in order, what `decode_tri`
/// makes of the triangles of the vertex fans.
pub proof fn lemma_render_triangles(s: Seq<Transform>)
    ensures
        drawn_triangles(spec_render(s)) == spec_fans(s).map_values(|ts: Seq<Transform>| spec_draw(ts)),
    decreases s.len(),
{
    if s.len() == 0 {
        assert(spec_fans(s).map_values(|ts: Seq<Transform>| spec_draw(ts)) =~= Seq::<(Seq<VertexAttributes>, u8, bool)>::empty());
    } else {
        let p = s.drop_last();
        lemma_render_triangles(p);
        let fp = spec_fans(p).map_values(|ts: Seq<Transform>| spec_draw(ts));
        let r = spec_render(s);
        if s.last().is_vertex() && fan_run(s) >= 3 {
            let w = s.subrange(s.len() - 3, s.len() as int);
            assert(r.drop_last() =~= spec_render(p));
            assert(spec_fans(s) == spec_fans(p).push(w));
            assert(spec_fans(s).map_values(|ts: Seq<Transform>| spec_draw(ts)) =~= fp.push(spec_draw(w)));
        } else {
            assert(fan_run(s) < 3) by {
                if !s.last().is_vertex() {
                    assert(fan_run(s) == 0);
                }
            }
            assert(spec_fans(s) == spec_fans(p));
            if s.last().is_point() {
                assert(r.drop_last() =~= spec_render(p));
                assert(drawn_triangles(r) == drawn_triangles(spec_render(p)));
            }
        }
    }
}

impl TransBuffer {
    /// The transforms that a buffer of `b`'s bytes holds.
    pub open spec fn spec_transforms(b: Seq<u8>) -> Seq<Transform> {
        Seq::new(VR_MAX_TRANSFORMS as nat, |i: int| Transform::spec_from_bytes(b, 8 * i))
    }

    /// Decodes the transform buffer read from upper memory; `None` unless
    /// `b` is exactly as long as the buffer.
    pub fn from_bytes(b: &[u8]) -> (r: Option<TransBuffer>)
        ensures
            r is Some <==> b@.len() == VR_TRANSBUFFER_SIZE,
            r matches Some(buf) ==> buf.transforms@ == TransBuffer::spec_transforms(b@),
    {
        if b.len() != VR_TRANSBUFFER_SIZE {
            return None;
        }
        let zero = Transform { x: 0, y: 0, z: 0, u: 0, v: 0 };
        let mut transforms = [zero; VR_MAX_TRANSFORMS];
        for i in 0..VR_MAX_TRANSFORMS
            invariant
                b@.len() == VR_TRANSBUFFER_SIZE,
                forall|j: int| 0 <= j < i ==> transforms@[j] == Transform::spec_from_bytes(b@, 8 * j),
        {
            transforms[i] = Transform::from_bytes(b, i * VR_TRANS_STRIDE);
        }
        assert(transforms@ =~= TransBuffer::spec_transforms(b@));
        Some(TransBuffer { transforms })
    }
}

/// A point transform draws exactly one shape, placed at its position in the
/// render space in force, draws no triangle and ends the current fan.
pub proof fn lemma_point_draws_one_shape(a: Seq<Transform>, p: Transform)
    requires
        p.is_point(),
    ensures
        spec_render(a.push(p)) == spec_render(a).push(SpecDrawn::Shape(p.spec_shape(space_after(a)))),
        p.spec_shape(space_after(a)).x == p.x,
        p.spec_shape(space_after(a)).y == p.y,
        p.spec_shape(space_after(a)).z == p.z,
        p.spec_shape(space_after(a)).value == p.v,
        fan_run(a.push(p)) == 0,
{
    assert(a.push(p).drop_last() =~= a);
}

/// A meta transform draws nothing and ends the current fan; with its
/// render-space flag set it puts what is drawn after it, up to the next such
/// transform, in its render space, and without the flag it leaves the render
/// space as it was.
pub proof fn lemma_meta_sets_space(a: Seq<Transform>, m: Transform, b: Seq<Transform>)
    requires
        m.spec_trans_type() == TransType::Meta,
        forall|i: int| 0 <= i < b.len() ==> !(#[trigger] b[i].sets_space()),
    ensures
        spec_render(a.push(m)) == spec_render(a),
        fan_run(a.push(m)) == 0,
        m.sets_space() ==> space_after(a.push(m) + b) == m.spec_space(),
        !m.sets_space() ==> space_after(a.push(m) + b) == space_after(a),
    decreases b.len(),
{
    assert(a.push(m).drop_last() =~= a);
    if b.len() == 0 {
        assert(a.push(m) + b =~= a.push(m));
    } else {
        let b0 = b.drop_last();
        assert forall|i: int| 0 <= i < b0.len() implies !(#[trigger] b0[i].sets_space()) by {
            assert(b0[i] == b[i]);
        }
        lemma_meta_sets_space(a, m, b0);
        assert((a.push(m) + b).drop_last() =~= a.push(m) + b0);
        assert((a.push(m) + b).last() == b[b.len() - 1]);
    }
}

/// Small billboards are 1 to 16 cm in 1 cm steps; large ones are 20 to
/// 320 cm in 20 cm steps.
pub proof fn lemma_billboard_sizes(p: Transform, space: RenderSpace)
    ensures
        p.spec_shape(space).kind == ShapeKind::SmallBillboard ==> 1 <= p.spec_shape(space).size_cm <= 16,
        p.spec_shape(space).kind == ShapeKind::LargeBillboard ==> 20 <= p.spec_shape(space).size_cm <= 320
            && p.spec_shape(space).size_cm % 20 == 0,
{
}

/// The U and V coordinates of a vertex lie in 0 to 63 and its colour in 0 to
/// 15; the mode is one of the four.
pub proof fn lemma_attribute_ranges(t: Transform)
    ensures
        t.spec_attributes().u < 64,
        t.spec_attributes().v < 64,
        t.spec_attributes().colour < 16,
        t.is_vertex() <==> t.spec_trans_type() == TransType::Vertex,
{
}

/// Every attribute of a vertex comes from fixed bits of its `u` and `v`
/// bytes: U is bits 2..8 of `u`, the colour bits 4..8 of `u`, V bits 2..8 of
/// `v`, the colour/UV switch bit 0 of `v` and the blend switch bit 1 of `v`;
/// the mode is bits 0..2 of `u`, 1 for a vertex.
pub proof fn lemma_attribute_bits(t: Transform)
    ensures
        t.spec_attributes().u == t.u >> 2u8,
        t.spec_attributes().colour == t.u >> 4u8,
        t.spec_attributes().v == t.v >> 2u8,
        t.spec_attributes().colour_uv_switch <==> (t.v & 1u8 == 1u8),
        t.spec_attributes().blend <==> (t.v & 2u8 == 2u8),
        t.spec_attributes().x == t.x && t.spec_attributes().y == t.y && t.spec_attributes().z == t.z,
        t.is_vertex() <==> (t.u & 3u8 == 1u8),
        t.is_point() <==> (t.u & 3u8 == 2u8),
{
    let (u, v) = (t.u, t.v);
    assert(u / 4 == u >> 2u8 && u / 16 == u >> 4u8 && v / 4 == v >> 2u8) by (bit_vector);
    assert((v % 2 == 1) <==> (v & 1u8 == 1u8)) by (bit_vector);
    assert(((v / 2) % 2 == 1) <==> (v & 2u8 == 2u8)) by (bit_vector);
    assert((u % 4 == 1) <==> (u & 3u8 == 1u8)) by (bit_vector);
    assert((u % 4 == 2) <==> (u & 3u8 == 2u8)) by (bit_vector);
}

/// The mode of a transform is bits 0..2 of `u`, in the order meta (0),
/// vertex (1), point (2), unused (3).
pub proof fn lemma_mode_bits(t: Transform)
    ensures
        t.u & 3u8 == 0 ==> t.spec_trans_type() == TransType::Meta,
        t.u & 3u8 == 1 ==> t.spec_trans_type() == TransType::Vertex,
        t.u & 3u8 == 2 ==> t.spec_trans_type() == TransType::Point,
        t.u & 3u8 == 3 ==> t.spec_trans_type() == TransType::Unused,
{
    let u = t.u;
    assert(u % 4 == u & 3u8) by (bit_vector);
}

/// A point transform's shape is bits 2..4 of `u`, in the order circle (0),
/// small billboard (1), large billboard (2), unused (3); it stands at the
/// transform's position, its value is the `v` byte, its colour bits 4..8 of
/// `u`, and a billboard's size is `colour + 1` cm when small and 20 times
/// that when large.
pub proof fn lemma_shape_bits(t: Transform, space: RenderSpace)
    ensures
        (t.u >> 2u8) & 3u8 == 0 ==> t.spec_shape(space).kind == ShapeKind::Circle,
        (t.u >> 2u8) & 3u8 == 1 ==> t.spec_shape(space).kind == ShapeKind::SmallBillboard,
        (t.u >> 2u8) & 3u8 == 2 ==> t.spec_shape(space).kind == ShapeKind::LargeBillboard,
        (t.u >> 2u8) & 3u8 == 3 ==> t.spec_shape(space).kind == ShapeKind::Unused,
        t.spec_shape(space).x == t.x && t.spec_shape(space).y == t.y && t.spec_shape(space).z == t.z,
        t.spec_shape(space).value == t.v,
        t.spec_shape(space).colour == t.u >> 4u8,
        t.spec_shape(space).space == space,
        t.spec_shape(space).kind == ShapeKind::SmallBillboard ==> t.spec_shape(space).size_cm == (t.u >> 4u8) + 1,
        t.spec_shape(space).kind == ShapeKind::LargeBillboard ==> t.spec_shape(space).size_cm == 20 * ((t.u >> 4u8) + 1),
        t.spec_shape(space).kind == ShapeKind::Circle ==> t.spec_shape(space).size_cm == 0,
{
    let u = t.u;
    assert((u / 4) % 4 == (u >> 2u8) & 3u8 && u / 16 == u >> 4u8) by (bit_vector);
}

/// Before any meta transform with its flag set, items are drawn in the
/// world.
pub proof fn lemma_space_starts_in_world(s: Seq<Transform>)
    requires
        forall|i: int| 0 <= i < s.len() ==> !(#[trigger] s[i].sets_space()),
    ensures
        space_after(s) == RenderSpace::World,
    decreases s.len(),
{
    if s.len() > 0 {
        let p = s.drop_last();
        assert forall|i: int| 0 <= i < p.len() implies !(#[trigger] p[i].sets_space()) by {
            assert(p[i] == s[i]);
        }
        lemma_space_starts_in_world(p);
        assert(s.last() == s[s.len() - 1]);
    }
}

/// A meta transform's render space is given by bits 6..8 of `u`, in the
/// order headset (0), world (1), left controller (2), right controller (3);
/// distinct space bits give distinct render spaces, and the flag is bit 2.
pub proof fn lemma_render_space_bits(t: Transform, o: Transform)
    ensures
        t.u >> 6u8 == 0 ==> t.spec_space() == RenderSpace::Hmd,
        t.u >> 6u8 == 1 ==> t.spec_space() == RenderSpace::World,
        t.u >> 6u8 == 2 ==> t.spec_space() == RenderSpace::Left,
        t.u >> 6u8 == 3 ==> t.spec_space() == RenderSpace::Right,
        (t.u >> 6u8 != o.u >> 6u8) ==> t.spec_space() != o.spec_space(),
        t.sets_space() <==> (t.u & 3u8 == 0 && t.u & 4u8 == 4u8),
{
    let (u, w) = (t.u, o.u);
    assert(u / 64 == u >> 6u8 && w / 64 == w >> 6u8 && u >> 6u8 < 4) by (bit_vector);
    assert(((u % 4 == 0) && (u / 4) % 2 == 1) <==> (u & 3u8 == 0 && u & 4u8 == 4u8)) by (bit_vector);
}

/// After a meta transform with its flag set and space bits 1, everything
/// drawn up to the next such transform is drawn in the world; with space
/// bits 0 in the headset's space.
pub proof fn lemma_meta_world_and_hmd(a: Seq<Transform>, m: Transform, b: Seq<Transform>)
    requires
        m.u & 3u8 == 0,
        m.u & 4u8 == 4u8,
        forall|i: int| 0 <= i < b.len() ==> !(#[trigger] b[i].sets_space()),
    ensures
        m.u >> 6u8 == 1 ==> space_after(a.push(m) + b) == RenderSpace::World,
        m.u >> 6u8 == 0 ==> space_after(a.push(m) + b) == RenderSpace::Hmd,
{
    lemma_render_space_bits(m, m);
    lemma_meta_sets_space(a, m, b);
}

/// A triangle's colour and blend state are those of its last transform
/// alone: the colour is bits 4..8 of its `u`, blending is bit 1 of its `v`,
/// and changing any earlier transform changes neither.
pub proof fn lemma_draw_style_from_last(ts: Seq<Transform>, k: int, other: Transform)
    requires
        ts.len() > 0,
        0 <= k < ts.len() - 1,
    ensures
        spec_draw(ts).1 == ts.last().u >> 4u8,
        spec_draw(ts).2 <==> (ts.last().v & 2u8 == 2u8),
        spec_draw(ts.update(k, other)).1 == spec_draw(ts).1,
        spec_draw(ts.update(k, other)).2 == spec_draw(ts).2,
        spec_draw(ts).0.len() == ts.len(),
        spec_draw(ts).0[k] == ts[k].spec_attributes(),
{
    lemma_attribute_bits(ts.last());
    assert(ts.update(k, other).last() == ts.last());
}

/// The x, y and z of a transform are little-endian in its 8 bytes: bytes
/// 0 and 1, 2 and 3, 4 and 5 hold each coordinate's two's complement, low
/// byte first.
pub proof fn lemma_transform_little_endian(t: Transform, b: Seq<u8>, off: int)
    requires
        0 <= off,
        off + 8 <= b.len(),
    ensures
        t.spec_bytes()[0] + 256 * t.spec_bytes()[1] == (t.x + 0x10000) % 0x10000,
        t.spec_bytes()[2] + 256 * t.spec_bytes()[3] == (t.y + 0x10000) % 0x10000,
        t.spec_bytes()[4] + 256 * t.spec_bytes()[5] == (t.z + 0x10000) % 0x10000,
        t.spec_bytes()[6] == t.u && t.spec_bytes()[7] == t.v,
        (Transform::spec_from_bytes(b, off).x + 0x10000) % 0x10000 == b[off] + 256 * b[off + 1],
        (Transform::spec_from_bytes(b, off).y + 0x10000) % 0x10000 == b[off + 2] + 256 * b[off + 3],
        (Transform::spec_from_bytes(b, off).z + 0x10000) % 0x10000 == b[off + 4] + 256 * b[off + 5],
        Transform::spec_from_bytes(b, off).u == b[off + 6],
        Transform::spec_from_bytes(b, off).v == b[off + 7],
{
}

/// Reading the bytes of a transform gives it back.
pub proof fn lemma_transform_roundtrip(t: Transform)
    ensures
        Transform::spec_from_bytes(t.spec_bytes(), 0) == t,
{
}

/// Writing a transform read from 8 bytes gives the same bytes back.
pub proof fn lemma_transform_bytes_roundtrip(b: Seq<u8>, off: int)
    requires
        0 <= off,
        off + 8 <= b.len(),
    ensures
        Transform::spec_from_bytes(b, off).spec_bytes() == b.subrange(off, off + 8),
{
    crate::bytes::lemma_le_i16_roundtrip(b[off], b[off + 1]);
    crate::bytes::lemma_le_i16_roundtrip(b[off + 2], b[off + 3]);
    crate::bytes::lemma_le_i16_roundtrip(b[off + 4], b[off + 5]);
    assert(Transform::spec_from_bytes(b, off).spec_bytes() =~= b.subrange(off, off + 8));
}

/// A transform that is not a vertex ends a fan: the triangles of
/// `a`, then `t`, then `b` are those of `a` followed by those of `b`.
pub proof fn lemma_fan_stops_at_non_vertex(a: Seq<Transform>, t: Transform, b: Seq<Transform>)
    requires
        !t.is_vertex(),
    ensures
        spec_fans(a.push(t) + b) == spec_fans(a) + spec_fans(b),
    decreases b.len(),
{
    let c = a.push(t) + b;
    if b.len() == 0 {
        assert(c =~= a.push(t));
        assert(c.drop_last() =~= a);
        assert(spec_fans(b) =~= Seq::<Seq<Transform>>::empty());
        assert(spec_fans(a) + spec_fans(b) =~= spec_fans(a));
    } else {
        let b0 = b.drop_last();
        lemma_fan_stops_at_non_vertex(a, t, b0);
        assert(c.drop_last() =~= a.push(t) + b0);
        lemma_fan_run_after_non_vertex(a, t, b);
        if fan_run(b) >= 3 {
            assert(c.subrange(c.len() - 3, c.len() as int) =~= b.subrange(b.len() - 3, b.len() as int));
            assert(spec_fans(a) + spec_fans(b) =~= (spec_fans(a) + spec_fans(b0)).push(
                b.subrange(b.len() - 3, b.len() as int),
            ));
        }
    }
}

/// The run of vertices at the end of `a`, `t`, `b` lies within `b` when `t`
/// is not a vertex.
proof fn lemma_fan_run_after_non_vertex(a: Seq<Transform>, t: Transform, b: Seq<Transform>)
    requires
        !t.is_vertex(),
    ensures
        fan_run(a.push(t) + b) == fan_run(b),
        fan_run(b) <= b.len(),
    decreases b.len(),
{
    let c = a.push(t) + b;
    if b.len() == 0 {
        assert(c =~= a.push(t));
    } else {
        assert(c.drop_last() =~= a.push(t) + b.drop_last());
        lemma_fan_run_after_non_vertex(a, t, b.drop_last());
    }
}

/// Every triangle is three consecutive vertex transforms of the buffer: the
/// `k`-th one ends at the returned index.
pub proof fn lemma_fans_are_vertex_triples(s: Seq<Transform>, k: int) -> (i: int)
    requires
        0 <= k < spec_fans(s).len(),
    ensures
        2 <= i < s.len(),
        spec_fans(s)[k] == s.subrange(i - 2, i + 1),
        s[i - 2].is_vertex(),
        s[i - 1].is_vertex(),
        s[i].is_vertex(),
    decreases s.len(),
{
    let p = s.drop_last();
    if k < spec_fans(p).len() {
        let i = lemma_fans_are_vertex_triples(p, k);
        assert(p.subrange(i - 2, i + 1) =~= s.subrange(i - 2, i + 1));
        assert(s[i - 2] == p[i - 2] && s[i - 1] == p[i - 1] && s[i] == p[i]);
        i
    } else {
        let i = s.len() - 1;
        lemma_fan_run_bound(s);
        lemma_fan_run_bound(p);
        lemma_fan_run_bound(p.drop_last());
        assert(p.drop_last().len() > 0);
        assert(s[i] == s.last());
        assert(s[i - 1] == p.last());
        assert(s[i - 2] == p.drop_last().last());
        i
    }
}

/// A run of `n >= 2` vertex transforms alone draws `n - 2` triangles, each
/// reusing the last two vertices of the one before.
pub proof fn lemma_fan_count(s: Seq<Transform>)
    requires
        s.len() >= 2,
        forall|i: int| 0 <= i < s.len() ==> #[trigger] s[i].is_vertex(),
    ensures
        spec_fans(s).len() == s.len() - 2,
        fan_run(s) == s.len(),
    decreases s.len(),
{
    let p = s.drop_last();
    assert(s.last() == s[s.len() - 1]);
    if s.len() == 2 {
        assert(p.last() == s[0]);
        assert(p.drop_last().len() == 0);
        assert(fan_run(p.drop_last()) == 0);
        assert(fan_run(p) == 1);
        assert(fan_run(s) == 2);
        assert(spec_fans(p.drop_last()) =~= Seq::<Seq<Transform>>::empty());
        assert(spec_fans(p) =~= Seq::<Seq<Transform>>::empty());
    } else {
        assert forall|i: int| 0 <= i < p.len() implies #[trigger] p[i].is_vertex() by {
            assert(p[i] == s[i]);
        }
        lemma_fan_count(p);
    }
}

/// After a triangle is drawn, the next vertex draws a triangle with the last
/// two vertices of that one.
pub proof fn lemma_fan_reuses_last_two(s: Seq<Transform>, t: Transform)
    requires
        fan_run(s) >= 2,
        t.is_vertex(),
    ensures
        spec_fans(s.push(t)) == spec_fans(s).push(seq![s[s.len() - 2], s[s.len() - 1], t]),
{
    let q = s.push(t);
    lemma_fan_run_bound(s);
    assert(q.drop_last() =~= s);
    assert(q.subrange(q.len() - 3, q.len() as int) =~= seq![s[s.len() - 2], s[s.len() - 1], t]);
}

} // verus!
