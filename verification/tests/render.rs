use vrp8::constants::{VR_MAX_TRANSFORMS, VR_TRANSBUFFER_SIZE};
use vrp8::transform::{
    decode_tri, draw_tri, render_buffer, render_items, Drawn, DrawnShape, RenderSpace, ShapeKind, TransBuffer, TransType,
    Transform,
};

fn t(x: i16, u: u8, v: u8) -> Transform {
    Transform { x, y: 0, z: 0, u, v }
}

fn buffer_of(prefix: &[Transform]) -> TransBuffer {
    let mut transforms = [t(0, 0, 0); VR_MAX_TRANSFORMS];
    transforms[..prefix.len()].copy_from_slice(prefix);
    TransBuffer { transforms }
}

/// The x coordinates and render space of each drawn triangle.
fn triangles(drawn: &[Drawn]) -> Vec<(Vec<i16>, RenderSpace)> {
    drawn
        .iter()
        .filter_map(|d| match d {
            Drawn::Triangle { triangle, space } => {
                Some((triangle.vertices.iter().map(|v| v.x).collect(), *space))
            }
            Drawn::Shape(_) => None,
        })
        .collect()
}

fn shapes(drawn: &[Drawn]) -> Vec<DrawnShape> {
    drawn
        .iter()
        .filter_map(|d| match d {
            Drawn::Shape(s) => Some(*s),
            Drawn::Triangle { .. } => None,
        })
        .collect()
}

#[test]
fn modes() {
    assert_eq!(t(0, 0b100, 0).trans_type(), TransType::Meta);
    assert_eq!(t(0, 0b101, 0).trans_type(), TransType::Vertex);
    assert_eq!(t(0, 0b110, 0).trans_type(), TransType::Point);
    assert_eq!(t(0, 0b111, 0).trans_type(), TransType::Unused);
}

#[test]
fn vertex_attributes() {
    let a = Transform { x: 1, y: -2, z: 3, u: 0b1011_0101, v: 0b1100_0111 }.attributes();
    assert_eq!((a.x, a.y, a.z), (1, -2, 3));
    assert_eq!(a.u, 0b10_1101);
    assert_eq!(a.colour, 0b1011);
    assert_eq!(a.v, 0b11_0001);
    assert!(a.colour_uv_switch);
    assert!(a.blend);
    let b = t(0, 1, 0b10).attributes();
    assert!(!b.colour_uv_switch);
    assert!(b.blend);
}

#[test]
fn draw_tri_colour_from_last() {
    let d = decode_tri(vec![t(1, 0x11, 0), t(2, 0x21, 0), t(3, 0xf1, 0b10)]);
    assert_eq!(d.vertices.len(), 3);
    assert_eq!(d.vertices[1].x, 2);
    assert_eq!(d.colour, 15);
    assert!(d.blend);
    let e = decode_tri(vec![]);
    assert!(e.vertices.is_empty());
    assert_eq!(e.colour, 0);
    assert!(!e.blend);
}

#[test]
fn full_buffer_of_vertices_is_one_fan() {
    let b = TransBuffer { transforms: [Transform { x: 0, y: 0, z: 0, u: 1, v: 1 }; VR_MAX_TRANSFORMS] };
    let drawn = render_items(b);
    assert_eq!(drawn.len(), VR_MAX_TRANSFORMS - 2);
    assert!(triangles(&drawn).iter().all(|(_, s)| *s == RenderSpace::World));
}

#[test]
fn fan_reuses_last_two_vertices() {
    let vs: Vec<Transform> = (1..=5).map(|i| t(i, 1, 0)).collect();
    let drawn = render_items(buffer_of(&vs));
    let tris: Vec<Vec<i16>> = triangles(&drawn).into_iter().map(|(xs, _)| xs).collect();
    assert_eq!(tris, vec![vec![1, 2, 3], vec![2, 3, 4], vec![3, 4, 5]]);
}

#[test]
fn non_vertex_stops_fan() {
    let vs = [t(1, 1, 0), t(2, 1, 0), t(3, 1, 0), t(0, 0, 0), t(4, 1, 0), t(5, 1, 0), t(6, 3, 0), t(7, 1, 0)];
    let drawn = render_items(buffer_of(&vs));
    assert_eq!(drawn.len(), 1);
    assert_eq!(triangles(&drawn), vec![(vec![1, 2, 3], RenderSpace::World)]);
}

#[test]
fn empty_buffer_draws_nothing() {
    assert!(render_items(buffer_of(&[])).is_empty());
}

#[test]
fn meta_switches_render_space() {
    // meta with flag, space 2 (left): u = 0b10_000_1_00
    let left = t(0, 0b1000_0100, 0);
    // meta without flag but space bits set: does nothing
    let inert = t(0, 0b1100_0000, 0);
    // meta with flag, space 0 (hmd)
    let hmd = t(0, 0b0000_0100, 0);
    let vs = [
        t(1, 1, 0), t(2, 1, 0), t(3, 1, 0),
        left,
        t(4, 1, 0), t(5, 1, 0), t(6, 1, 0),
        inert,
        t(7, 1, 0), t(8, 1, 0), t(9, 1, 0),
        hmd,
        t(10, 1, 0), t(11, 1, 0), t(12, 1, 0),
    ];
    let drawn = render_items(buffer_of(&vs));
    assert_eq!(
        triangles(&drawn),
        vec![
            (vec![1, 2, 3], RenderSpace::World),
            (vec![4, 5, 6], RenderSpace::Left),
            (vec![7, 8, 9], RenderSpace::Left),
            (vec![10, 11, 12], RenderSpace::Hmd),
        ]
    );
}

#[test]
fn points_draw_shapes() {
    let right = t(0, 0b1100_0100, 0);
    let circle = Transform { x: 5, y: 6, z: 7, u: 0b0011_0010, v: 40 };
    let small = Transform { x: 1, y: 1, z: 1, u: 0b1111_0110, v: 9 };
    let large = Transform { x: 2, y: 2, z: 2, u: 0b0100_1010, v: 12 };
    let other = Transform { x: 3, y: 3, z: 3, u: 0b0000_1110, v: 1 };
    let vs = [t(1, 1, 0), t(2, 1, 0), circle, t(3, 1, 0), right, small, large, other];
    let drawn = render_items(buffer_of(&vs));
    assert!(triangles(&drawn).is_empty());
    assert_eq!(
        shapes(&drawn),
        vec![
            DrawnShape { kind: ShapeKind::Circle, x: 5, y: 6, z: 7, value: 40, colour: 3, size_cm: 0, space: RenderSpace::World },
            DrawnShape { kind: ShapeKind::SmallBillboard, x: 1, y: 1, z: 1, value: 9, colour: 15, size_cm: 16, space: RenderSpace::Right },
            DrawnShape { kind: ShapeKind::LargeBillboard, x: 2, y: 2, z: 2, value: 12, colour: 4, size_cm: 100, space: RenderSpace::Right },
            DrawnShape { kind: ShapeKind::Unused, x: 3, y: 3, z: 3, value: 1, colour: 0, size_cm: 0, space: RenderSpace::Right },
        ]
    );
}

#[test]
fn transform_bytes() {
    let x = Transform { x: -2, y: 300, z: 0, u: 9, v: 200 };
    let b = x.to_bytes();
    assert_eq!(b, [0xfe, 0xff, 0x2c, 0x01, 0, 0, 9, 200]);
    assert_eq!(Transform::from_bytes(&b, 0), x);
}

#[test]
fn buffer_from_bytes() {
    assert!(TransBuffer::from_bytes(&[0u8; 8]).is_none());
    assert!(TransBuffer::from_bytes(&vec![0u8; VR_TRANSBUFFER_SIZE + 1]).is_none());
    let mut bytes = vec![0u8; VR_TRANSBUFFER_SIZE];
    let x = Transform { x: 10, y: -20, z: 30, u: 0x45, v: 3 };
    bytes[8..16].copy_from_slice(&x.to_bytes());
    let last = Transform { x: -1, y: 1, z: 2, u: 1, v: 0 };
    bytes[VR_TRANSBUFFER_SIZE - 8..].copy_from_slice(&last.to_bytes());
    let buf = TransBuffer::from_bytes(&bytes).unwrap();
    assert_eq!(buf.transforms[0], t(0, 0, 0));
    assert_eq!(buf.transforms[1], x);
    assert_eq!(buf.transforms[VR_MAX_TRANSFORMS - 1], last);
}

#[test]
fn render_buffer_and_draw_tri_succeed() {
    let b = TransBuffer { transforms: [Transform { x: 0, y: 0, z: 0, u: 1, v: 1 }; VR_MAX_TRANSFORMS] };
    assert!(render_buffer(b));
    assert!(render_buffer(buffer_of(&[])));
    draw_tri(vec![t(1, 1, 0), t(2, 1, 0), t(3, 1, 0)]);
    draw_tri(vec![]);
}
