use christmas_star::geometry::Vec3i;
use christmas_star::mesh::{
    add_partial_vertices, flatten_vertices, generate_vertices, is_wf_geometry, Geometry, Vertex,
};
use christmas_star::normal::calculate_normal;
use christmas_star::sqrt::isqrt;
use christmas_star::star::{ChristmasStar, ControlState, GlResource, Parameter};

fn default_star() -> ChristmasStar {
    ChristmasStar::new()
}

fn idle_controls() -> ControlState {
    ControlState { move_up: false, move_down: false, move_left: false, move_right: false }
}

fn norm_sq_of(v: Vec3i) -> i64 {
    v.x * v.x + v.y * v.y + v.z * v.z
}

#[test]
fn generates_exactly_48_vertices() {
    let star = default_star();
    let vertices = generate_vertices(&star.geometry);
    assert_eq!(vertices.len(), 48);
}

#[test]
fn generation_is_deterministic() {
    let star = default_star();
    let a = generate_vertices(&star.geometry);
    let b = generate_vertices(&star.geometry);
    assert_eq!(a, b);
}

#[test]
fn first_apex_sits_half_a_thickness_up() {
    // Default parameters: long 0.8, short 0.3, thickness 0.1 in units,
    // so the apex of the first face is (0, 0, 0.05) = (0, 0, 50) milli.
    let star = default_star();
    let vertices = generate_vertices(&star.geometry);
    assert_eq!(vertices[0].position, Vec3i { x: 0, y: 0, z: 50 });
}

#[test]
fn first_face_normal_exact_value() {
    // Face (apex, left canyon, left long tip) of the default star:
    // cross = (35000, 2500, 40000), length floor 53209, so the
    // fixed-point unit normal is (657, 46, 751).
    let star = default_star();
    let vertices = generate_vertices(&star.geometry);
    assert_eq!(vertices[0].normal, Vec3i { x: 657, y: 46, z: 751 });
    assert_eq!(vertices[1].normal, Vec3i { x: 657, y: 46, z: 751 });
    assert_eq!(vertices[2].normal, Vec3i { x: 657, y: 46, z: 751 });
}

#[test]
fn long_spike_tips_mirror_through_center() {
    let star = default_star();
    let vertices = generate_vertices(&star.geometry);
    // Top-right quadrant's y-axis long tip and the bottom-left
    // quadrant's mirror image of it.
    assert_eq!(vertices[1].position, Vec3i { x: 0, y: 800, z: 0 });
    assert_eq!(vertices[25].position, Vec3i { x: 0, y: -800, z: 0 });
}

#[test]
fn long_spike_tips_mirror_with_shifted_center() {
    let geometry = Geometry {
        center: Vec3i { x: 10, y: 20, z: 30 },
        left_canyon_offset: Vec3i { x: 50, y: 100, z: 0 },
        right_canyon_offset: Vec3i { x: 100, y: 50, z: 0 },
        long_spike_length: 800,
        short_spike_length: 300,
        thickness: 100,
    };
    assert!(is_wf_geometry(&geometry));
    let vertices = generate_vertices(&geometry);
    assert_eq!(vertices.len(), 48);
    assert_eq!(vertices[1].position, Vec3i { x: 10, y: 820, z: 30 });
    assert_eq!(vertices[25].position, Vec3i { x: 10, y: -780, z: 30 });
    // Translating the star leaves the face shapes alone, so every
    // normal still has unit length within tolerance.
    for v in &vertices {
        let q = norm_sq_of(v.normal);
        assert!(q >= 1_000_000 - 6_000 - 3);
        assert!(q <= 1_000_000 + 2_000);
    }
}

#[test]
fn all_default_normals_are_unit_length_within_tolerance() {
    // MILLI^2 - 6*MILLI - 3 .. MILLI^2 + 2*MILLI, the proved envelope.
    let star = default_star();
    let vertices = generate_vertices(&star.geometry);
    for v in &vertices {
        let q = norm_sq_of(v.normal);
        assert!(q >= 1_000_000 - 6_000 - 3, "normal too short: {:?}", v.normal);
        assert!(q <= 1_000_000 + 2_000, "normal too long: {:?}", v.normal);
    }
}

#[test]
fn degenerate_geometry_collapses_without_error() {
    // All-zero parameters collapse every face; the mesh still has its
    // 48 vertices and the normals fall back to the zero vector.
    let geometry = Geometry {
        center: Vec3i { x: 0, y: 0, z: 0 },
        left_canyon_offset: Vec3i { x: 0, y: 0, z: 0 },
        right_canyon_offset: Vec3i { x: 0, y: 0, z: 0 },
        long_spike_length: 0,
        short_spike_length: 0,
        thickness: 0,
    };
    assert!(is_wf_geometry(&geometry));
    let vertices = generate_vertices(&geometry);
    assert_eq!(vertices.len(), 48);
    for v in &vertices {
        assert_eq!(v.position, Vec3i { x: 0, y: 0, z: 0 });
        assert_eq!(v.normal, Vec3i { x: 0, y: 0, z: 0 });
    }
}

#[test]
fn degenerate_triangle_normal_is_zero() {
    let a = Vec3i { x: 1, y: 2, z: 3 };
    let b = Vec3i { x: 2, y: 4, z: 6 };
    let n = calculate_normal(&a, &a, &b);
    assert_eq!(n, Vec3i { x: 0, y: 0, z: 0 });
}

#[test]
fn every_vertex_shares_the_diffuse_yellow() {
    let star = default_star();
    let vertices = generate_vertices(&star.geometry);
    for v in &vertices {
        assert_eq!(v.diffuse_color.r, 900);
        assert_eq!(v.diffuse_color.g, 900);
        assert_eq!(v.diffuse_color.b, 0);
        assert_eq!(v.diffuse_color.a, 1000);
    }
}

#[test]
fn flattened_stream_has_ten_scalars_per_vertex() {
    let star = default_star();
    let vertices = generate_vertices(&star.geometry);
    let flat = flatten_vertices(&vertices);
    assert_eq!(flat.len(), 480);
    // Record 0: position, normal, color in order.
    assert_eq!(&flat[0..3], &[0, 0, 50]);
    assert_eq!(&flat[3..6], &[657, 46, 751]);
    assert_eq!(&flat[6..10], &[900, 900, 0, 1000]);
    // Record 1 starts at the fixed stride of ten scalars.
    assert_eq!(flat[10], vertices[1].position.x);
    assert_eq!(flat[11], vertices[1].position.y);
    assert_eq!(flat[12], vertices[1].position.z);
}

#[test]
fn one_quadrant_appends_twelve_vertices() {
    let mut vertices: Vec<Vertex> = Vec::new();
    add_partial_vertices(
        Vec3i { x: 0, y: 0, z: 0 },
        Vec3i { x: 50, y: 100, z: 0 },
        Vec3i { x: 100, y: 50, z: 0 },
        Vec3i { x: 0, y: 800, z: 0 },
        Vec3i { x: 800, y: 0, z: 0 },
        Vec3i { x: 300, y: 300, z: 0 },
        50,
        &mut vertices,
    );
    assert_eq!(vertices.len(), 12);
    // Matches the first quadrant of the default star.
    let star = default_star();
    let full = generate_vertices(&star.geometry);
    assert_eq!(&full[0..12], &vertices[..]);
}

#[test]
fn flattening_nothing_yields_nothing() {
    let vertices: Vec<Vertex> = Vec::new();
    let flat = flatten_vertices(&vertices);
    assert_eq!(flat.len(), 0);
}

#[test]
fn update_up_raises_y_by_one_step() {
    let mut star = default_star();
    let before = star.directional.position;
    let cs = ControlState { move_up: true, ..idle_controls() };
    let r = star.update(&cs);
    assert!(r.is_ok());
    assert_eq!(star.directional.position, Vec3i { x: before.x, y: before.y + 10, z: before.z });
}

#[test]
fn update_up_and_down_cancel() {
    let mut star = default_star();
    let before = star.directional.position;
    let cs = ControlState { move_up: true, move_down: true, ..idle_controls() };
    let r = star.update(&cs);
    assert!(r.is_ok());
    assert_eq!(star.directional.position, before);
}

#[test]
fn update_left_and_right_move_x_only() {
    let mut star = default_star();
    let before = star.directional.position;
    let left = ControlState { move_left: true, ..idle_controls() };
    star.update(&left).unwrap();
    assert_eq!(star.directional.position, Vec3i { x: before.x - 10, y: before.y, z: before.z });
    let right = ControlState { move_right: true, ..idle_controls() };
    star.update(&right).unwrap();
    star.update(&right).unwrap();
    assert_eq!(star.directional.position, Vec3i { x: before.x + 10, y: before.y, z: before.z });
}

#[test]
fn update_saturates_at_the_integer_edge() {
    let mut star = default_star();
    star.directional.position = Vec3i { x: 0, y: i64::MAX - 5, z: 0 };
    let cs = ControlState { move_up: true, ..idle_controls() };
    star.update(&cs).unwrap();
    assert_eq!(star.directional.position.y, i64::MAX);
}

#[test]
fn new_star_holds_no_gpu_handles() {
    let star = default_star();
    assert_eq!(star.resource, GlResource { shader_program: 0, vao: 0, vbo: 0, indice_num: 0 });
    assert_eq!(star.directional.name, "direction_to_light");
    assert_eq!(star.directional.position, Vec3i { x: 400, y: 500, z: 500 });
}

#[test]
fn reinstalling_hands_back_the_first_handles() {
    let mut star = default_star();
    let freed0 = star.install_resource(1, 2, 3, 48);
    assert_eq!(freed0, GlResource { shader_program: 0, vao: 0, vbo: 0, indice_num: 0 });
    let freed1 = star.install_resource(7, 8, 9, 48);
    assert_eq!(freed1, GlResource { shader_program: 1, vao: 2, vbo: 3, indice_num: 48 });
    assert_eq!(star.resource, GlResource { shader_program: 7, vao: 8, vbo: 9, indice_num: 48 });
}

#[test]
fn close_after_partial_init_zeroes_everything() {
    // A shader program was made but buffer creation failed part way:
    // only the program handle is live.
    let mut star = default_star();
    star.install_resource(5, 0, 0, 0);
    let freed = star.close();
    assert_eq!(freed, GlResource { shader_program: 5, vao: 0, vbo: 0, indice_num: 0 });
    assert_eq!(star.resource, GlResource { shader_program: 0, vao: 0, vbo: 0, indice_num: 0 });
    // Closing again is harmless and frees only zeros.
    let freed_again = star.close();
    assert_eq!(freed_again, GlResource { shader_program: 0, vao: 0, vbo: 0, indice_num: 0 });
}

#[test]
fn light_direction_points_from_center_to_light() {
    let star = default_star();
    let d = star.light_direction();
    assert_eq!(d, Vec3i { x: 400, y: 500, z: 500 });
}

#[test]
fn light_direction_follows_updates() {
    let mut star = default_star();
    let cs = ControlState { move_up: true, move_right: true, ..idle_controls() };
    star.update(&cs).unwrap();
    let d = star.light_direction();
    assert_eq!(d, Vec3i { x: 410, y: 510, z: 500 });
}

#[test]
fn isqrt_exact_values() {
    assert_eq!(isqrt(0), 0);
    assert_eq!(isqrt(1), 1);
    assert_eq!(isqrt(3), 1);
    assert_eq!(isqrt(4), 2);
    assert_eq!(isqrt(2_831_250_000), 53_209);
    assert_eq!(isqrt(u128::MAX), u64::MAX);
}

#[test]
fn parameter_carries_the_shader_paths() {
    let param = Parameter {
        vertex_shader_path: "shaders/star.vert",
        fragment_shader_path: "shaders/star.frag",
    };
    assert_eq!(param.vertex_shader_path, "shaders/star.vert");
    assert_eq!(param.fragment_shader_path, "shaders/star.frag");
}

#[test]
fn rejects_out_of_range_geometry() {
    let mut geometry = default_star().geometry;
    geometry.long_spike_length = -1;
    assert!(!is_wf_geometry(&geometry));
}

#[test]
fn vertex_new_keeps_its_fields() {
    let position = Vec3i { x: 1, y: 2, z: 3 };
    let normal = Vec3i { x: 0, y: 0, z: 1000 };
    let color = christmas_star::geometry::Col4i { r: 900, g: 900, b: 0, a: 1000 };
    let vertex = Vertex::new(position, normal, color);
    assert_eq!(vertex.position, position);
    assert_eq!(vertex.normal, normal);
    assert_eq!(vertex.diffuse_color, color);
}
