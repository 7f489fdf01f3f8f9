use rmat::mat::Mat;
use rmat::polygon::Poly;
use rmat::renderer::Renderer;
use rmat::scalar::{Fx, Scalar};
use rmat::transform::{pitch_mat, roll_mat, rotation2, rotation_mat, yaw_mat};
use rmat::vct::{Scale, Vct};

fn fx(n: i64) -> Fx {
    Fx::from_int(n)
}

fn fxf(x: f64) -> Fx {
    Fx { v: (x * 4294967296.0).round() as i64 }
}

fn to_f(a: Fx) -> f64 {
    a.v as f64 / 4294967296.0
}

fn close(a: Fx, b: f64, tol: f64) -> bool {
    (to_f(a) - b).abs() <= tol
}

fn vert(x: f64, y: f64, z: f64, w: f64) -> Vct<Fx, 4> {
    Vct::from_array(vec![fxf(x), fxf(y), fxf(z), fxf(w)])
}

fn rot2(theta: f64) -> Mat<Fx, 2, 2> {
    rotation2(fxf(theta.cos()), fxf(theta.sin()))
}

#[test]
fn rotation2_quarter_turn() {
    let theta = std::f64::consts::FRAC_PI_2;
    let r = rot2(theta);
    let v: Vct<Fx, 2> = Vct::from_array(vec![fx(1), fx(0)]);
    let out = r.times_vector(&v);
    assert!(close(out.at(0), 0.0, 1e-5));
    assert!(close(out.at(1), 1.0, 1e-5));
}

#[test]
fn rotation_is_orthogonal() {
    let r = rot2(0.7);
    let p = r.multiply(&r.transpose());
    assert!(close(p.at(0, 0), 1.0, 1e-5));
    assert!(close(p.at(0, 1), 0.0, 1e-5));
    assert!(close(p.at(1, 0), 0.0, 1e-5));
    assert!(close(p.at(1, 1), 1.0, 1e-5));
    let det = to_f(r.at(0, 0)) * to_f(r.at(1, 1)) - to_f(r.at(0, 1)) * to_f(r.at(1, 0));
    assert!((det - 1.0).abs() <= 1e-5);
}

#[test]
fn rotate_twice_matches_double_angle() {
    let theta = 0.3f64;
    let r = rot2(theta);
    let r2 = rot2(2.0 * theta);
    let v: Vct<Fx, 2> = Vct::from_array(vec![fx(1), fx(0)]);
    let once_then_again = r.times_vector(&r.times_vector(&v));
    let doubled = r2.times_vector(&v);
    assert!((to_f(once_then_again.at(0)) - to_f(doubled.at(0))).abs() <= 1e-4);
    assert!((to_f(once_then_again.at(1)) - to_f(doubled.at(1))).abs() <= 1e-4);
}

#[test]
fn homogenize_makes_w_one() {
    let mut v = vert(4.0, 6.0, 2.0, 2.0);
    v.homogenize();
    assert_eq!(v.at(0), fx(2));
    assert_eq!(v.at(1), fx(3));
    assert_eq!(v.at(2), fx(1));
    assert_eq!(v.at(3), fx(1));
}

#[test]
fn homogenize_leaves_degenerate_untouched() {
    let mut v = vert(1.0, 2.0, 3.0, 0.0);
    v.homogenize();
    assert_eq!(v.at(0), fx(1));
    assert_eq!(v.at(1), fx(2));
    assert_eq!(v.at(2), fx(3));
    assert_eq!(v.at(3), fx(0));
}

#[test]
fn poly_identity_transform_keeps_coordinates() {
    let p = Poly::new(vec![
        vert(0.0, 200.0, 0.0, 1.0),
        vert(200.0, 0.0, 0.0, 1.0),
        vert(-200.0, 0.0, 0.0, 1.0),
    ]);
    let id = Mat::<Fx, 4, 4>::identity();
    let segs = p.draw(&id);
    assert_eq!(segs.len(), 3);
    // Edge (0, 1)
    assert_eq!(segs[0].0.at(0), fx(0));
    assert_eq!(segs[0].0.at(1), fx(200));
    assert_eq!(segs[0].1.at(0), fx(200));
    assert_eq!(segs[0].1.at(1), fx(0));
    // Edge (1, 2)
    assert_eq!(segs[1].0.at(0), fx(200));
    assert_eq!(segs[1].1.at(0), fx(-200));
    // Edge (2, 0)
    assert_eq!(segs[2].0.at(0), fx(-200));
    assert_eq!(segs[2].1.at(1), fx(200));
}

#[test]
fn degenerate_vertex_skips_both_edges() {
    let p = Poly::new(vec![
        vert(0.0, 200.0, 0.0, 0.0),
        vert(200.0, 0.0, 0.0, 1.0),
        vert(-200.0, 0.0, 0.0, 1.0),
    ]);
    let id = Mat::<Fx, 4, 4>::identity();
    let segs = p.draw(&id);
    // Vertex 0 is degenerate, so the edges (0,1) and (2,0) are skipped.
    assert_eq!(segs.len(), 1);
    assert_eq!(segs[0].0.at(0), fx(200));
    assert_eq!(segs[0].0.at(1), fx(0));
    assert_eq!(segs[0].1.at(0), fx(-200));
    assert_eq!(segs[0].1.at(1), fx(0));
}

#[test]
fn poly_new_keeps_caller_w() {
    let p = Poly::new(vec![
        vert(1.0, 2.0, 3.0, 0.0),
        vert(4.0, 5.0, 6.0, 1.0),
        vert(7.0, 8.0, 9.0, 2.0),
    ]);
    assert_eq!(p.vertices[0].at(3), fx(0));
    assert_eq!(p.vertices[1].at(3), fx(1));
    assert_eq!(p.vertices[2].at(3), fx(2));
}

#[test]
fn poly_transform_in_place() {
    let mut p = Poly::new(vec![
        vert(1.0, 0.0, 0.0, 1.0),
        vert(0.0, 1.0, 0.0, 1.0),
        vert(0.0, 0.0, 1.0, 1.0),
    ]);
    // Doubling matrix on x, y, z; w kept.
    let m: Mat<Fx, 4, 4> = Mat::from_arrays(vec![
        vec![fx(2), fx(0), fx(0), fx(0)],
        vec![fx(0), fx(2), fx(0), fx(0)],
        vec![fx(0), fx(0), fx(2), fx(0)],
        vec![fx(0), fx(0), fx(0), fx(1)],
    ]);
    p.transform(&m);
    assert_eq!(p.vertices[0].at(0), fx(2));
    assert_eq!(p.vertices[1].at(1), fx(2));
    assert_eq!(p.vertices[2].at(2), fx(2));
    assert_eq!(p.vertices[0].at(3), fx(1));
}

#[test]
fn poly_scale_doubles_vertices() {
    let mut p = Poly::new(vec![
        vert(1.0, 2.0, 3.0, 1.0),
        vert(-1.0, 0.0, 2.0, 1.0),
        vert(0.5, 0.5, 0.5, 1.0),
    ]);
    p.scale(fx(2));
    assert_eq!(p.vertices[0].at(0), fx(2));
    assert_eq!(p.vertices[1].at(0), fx(-2));
    assert_eq!(p.vertices[2].at(0), fx(1));
    assert_eq!(p.vertices[0].at(3), fx(2));
}

#[test]
fn renderer_view_transform_flips_y_and_centers() {
    let center: Vct<Fx, 2> = Vct::from_array(vec![fx(400), fx(300)]);
    let r = Renderer::new(Vec::new(), center);
    let m = r.transform_matrix();
    assert_eq!(m.at(0, 0), fx(1));
    assert_eq!(m.at(1, 1), fx(-1));
    assert_eq!(m.at(0, 3), fx(400));
    assert_eq!(m.at(1, 3), fx(300));
    assert_eq!(m.at(2, 2), fx(1));
    assert_eq!(m.at(3, 3), fx(1));
    assert_eq!(m.at(0, 1), fx(0));
}

#[test]
fn renderer_set_center_replaces_transform() {
    let center: Vct<Fx, 2> = Vct::from_array(vec![fx(400), fx(300)]);
    let mut r: Renderer<Fx> = Renderer::new(Vec::new(), center);
    let other: Vct<Fx, 2> = Vct::from_array(vec![fx(10), fx(20)]);
    r.set_center(other);
    let m = r.transform_matrix();
    assert_eq!(m.at(0, 3), fx(10));
    assert_eq!(m.at(1, 3), fx(20));
    assert_eq!(m.at(1, 1), fx(-1));
}

#[test]
fn renderer_draw_flips_and_translates() {
    let p = Poly::new(vec![
        vert(10.0, 20.0, 0.0, 1.0),
        vert(0.0, 0.0, 0.0, 1.0),
        vert(5.0, 5.0, 0.0, 1.0),
    ]);
    let center: Vct<Fx, 2> = Vct::from_array(vec![fx(100), fx(100)]);
    let r = Renderer::new(vec![p], center);
    let segs = r.draw();
    assert_eq!(segs.len(), 3);
    // Vertex (10, 20) lands on (10 + 100, -20 + 100) = (110, 80).
    assert_eq!(segs[0].0.at(0), fx(110));
    assert_eq!(segs[0].0.at(1), fx(80));
    // Vertex (0, 0) lands on the center.
    assert_eq!(segs[0].1.at(0), fx(100));
    assert_eq!(segs[0].1.at(1), fx(100));
}

#[test]
fn renderer_draw_preserves_stored_polys() {
    let p = Poly::new(vec![
        vert(0.0, 200.0, 0.0, 1.0),
        vert(200.0, 0.0, 0.0, 1.0),
        vert(-200.0, 0.0, 0.0, 1.0),
    ]);
    let center: Vct<Fx, 2> = Vct::from_array(vec![fx(400), fx(400)]);
    let r = Renderer::new(vec![p], center);
    let mut before: Vec<Fx> = Vec::new();
    for v in 0..3 {
        for c in 0..4 {
            before.push(r.polys()[0].vertices[v].at(c));
        }
    }
    let _segs = r.draw();
    let _segs2 = r.draw();
    let mut after: Vec<Fx> = Vec::new();
    for v in 0..3 {
        for c in 0..4 {
            after.push(r.polys()[0].vertices[v].at(c));
        }
    }
    assert_eq!(before, after);
}

#[test]
fn renderer_modify_polys_applies_callback() {
    let p = Poly::new(vec![
        vert(1.0, 2.0, 3.0, 1.0),
        vert(4.0, 5.0, 6.0, 1.0),
        vert(7.0, 8.0, 9.0, 1.0),
    ]);
    let center: Vct<Fx, 2> = Vct::from_array(vec![fx(0), fx(0)]);
    let mut r = Renderer::new(vec![p], center);
    r.modify_polys(|mut q: Poly<Fx>| {
        q.scale(fx(3));
        q
    });
    assert_eq!(r.polys()[0].vertices[0].at(0), fx(3));
    assert_eq!(r.polys()[0].vertices[2].at(2), fx(27));
}

#[test]
fn rotation_mat_with_flat_yaw_and_pitch_is_roll() {
    let theta = 0.4f64;
    let (c, s) = (fxf(theta.cos()), fxf(theta.sin()));
    let composite = rotation_mat(fx(1), fx(0), fx(1), fx(0), c, s);
    let roll = roll_mat(c, s);
    for i in 0..4 {
        for j in 0..4 {
            assert_eq!(composite.at(i, j), roll.at(i, j));
        }
    }
}

#[test]
fn rotation_mat_composes_all_three() {
    let (ya, pa, ra) = (0.2f64, 0.3f64, 0.4f64);
    let composite = rotation_mat(
        fxf(ya.cos()),
        fxf(ya.sin()),
        fxf(pa.cos()),
        fxf(pa.sin()),
        fxf(ra.cos()),
        fxf(ra.sin()),
    );
    // The same composite, written out in floating point by hand.
    let yaw = [
        [1.0, 0.0, 0.0, 0.0],
        [0.0, ya.cos(), -ya.sin(), 0.0],
        [0.0, ya.sin(), ya.cos(), 0.0],
        [0.0, 0.0, 0.0, 1.0],
    ];
    let pitch = [
        [pa.cos(), 0.0, pa.sin(), 0.0],
        [0.0, 1.0, 0.0, 0.0],
        [-pa.sin(), 0.0, pa.cos(), 0.0],
        [0.0, 0.0, 0.0, 1.0],
    ];
    let roll = [
        [ra.cos(), -ra.sin(), 0.0, 0.0],
        [ra.sin(), ra.cos(), 0.0, 0.0],
        [0.0, 0.0, 1.0, 0.0],
        [0.0, 0.0, 0.0, 1.0],
    ];
    let mut pr = [[0.0f64; 4]; 4];
    for i in 0..4 {
        for j in 0..4 {
            for k in 0..4 {
                pr[i][j] += pitch[i][k] * roll[k][j];
            }
        }
    }
    let mut ypr = [[0.0f64; 4]; 4];
    for i in 0..4 {
        for j in 0..4 {
            for k in 0..4 {
                ypr[i][j] += yaw[i][k] * pr[k][j];
            }
        }
    }
    for i in 0..4 {
        for j in 0..4 {
            assert!(close(composite.at(i, j), ypr[i][j], 1e-5));
        }
    }
}

#[test]
fn single_axis_builders_embed_identity() {
    let (c, s) = (fxf(0.5f64.cos()), fxf(0.5f64.sin()));
    let p = pitch_mat(c, s);
    assert_eq!(p.at(1, 1), fx(1));
    assert_eq!(p.at(3, 3), fx(1));
    assert_eq!(p.at(0, 0), c);
    assert_eq!(p.at(2, 0), s.neg());
    let y = yaw_mat(c, s);
    assert_eq!(y.at(0, 0), fx(1));
    assert_eq!(y.at(1, 1), c);
    assert_eq!(y.at(1, 2), s.neg());
    assert_eq!(y.at(3, 3), fx(1));
}
