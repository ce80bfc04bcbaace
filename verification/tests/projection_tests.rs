use renderer_2d::depth::{
    create_depth_texture, depth_sampler, AddressMode, DepthFormat, DepthTexture, FilterMode,
};
use renderer_2d::pipeline::DepthCompare;
use renderer_2d::projection::{compute_proj_matrix, Projection, Scale};

fn value(s: Scale) -> f32 {
    s.num as f32 / s.den as f32
}

fn float_formula(w: u32, h: u32) -> (f32, f32) {
    let (w, h) = (w as f32, h as f32);
    if w < h {
        (1.0, w / h)
    } else {
        (h / w, 1.0)
    }
}

#[test]
fn projection_wide_window() {
    let p = compute_proj_matrix((800, 600));
    assert_eq!(p, Projection { x: Scale { num: 600, den: 800 }, y: Scale { num: 1, den: 1 } });
    assert_eq!(value(p.x), 0.75);
    assert_eq!(value(p.y), 1.0);
}

#[test]
fn projection_tall_window() {
    let p = compute_proj_matrix((600, 800));
    assert_eq!(p, Projection { x: Scale { num: 1, den: 1 }, y: Scale { num: 600, den: 800 } });
    assert_eq!(value(p.x), 1.0);
    assert_eq!(value(p.y), 0.75);
}

#[test]
fn projection_square_window() {
    for side in [500u32, 1, 0, 7, u32::MAX] {
        let p = compute_proj_matrix((side, side));
        assert_eq!(p, Projection { x: Scale { num: 1, den: 1 }, y: Scale { num: 1, den: 1 } });
        assert_eq!(value(p.x), 1.0);
        assert_eq!(value(p.y), 1.0);
    }
}

#[test]
fn projection_extreme_windows() {
    let p = compute_proj_matrix((1, u32::MAX));
    assert_eq!(p.x, Scale { num: 1, den: 1 });
    assert_eq!(p.y, Scale { num: 1, den: u32::MAX });
    let q = compute_proj_matrix((u32::MAX, 1));
    assert_eq!(q.x, Scale { num: 1, den: u32::MAX });
    assert_eq!(q.y, Scale { num: 1, den: 1 });
    let z = compute_proj_matrix((0, 10));
    assert_eq!(value(z.x), 1.0);
    assert_eq!(value(z.y), 0.0);
    let e = compute_proj_matrix((0, 0));
    assert_eq!(value(e.x), 1.0);
    assert_eq!(value(e.y), 1.0);
    let w = compute_proj_matrix((5, 0));
    assert_eq!(value(w.x), 0.0);
    assert_eq!(value(w.y), 1.0);
}

#[test]
fn projection_agrees_with_float_formula() {
    let sizes = [
        (800u32, 600u32),
        (600, 800),
        (500, 500),
        (1920, 1080),
        (1, 1),
        (3, 7),
        (16_777_216, 16_777_217),
        (16_777_217, 16_777_216),
        (u32::MAX, u32::MAX - 1),
        (0, 5),
        (5, 0),
    ];
    for (w, h) in sizes {
        let p = compute_proj_matrix((w, h));
        let (x, y) = float_formula(w, h);
        assert_eq!(value(p.x), x);
        assert_eq!(value(p.y), y);
        let m = cgmath::Matrix3::from_nonuniform_scale(value(p.x), value(p.y));
        assert_eq!(m.x.x, x);
        assert_eq!(m.y.y, y);
        assert_eq!(m.z.z, 1.0);
    }
}

#[test]
fn projection_never_stretches() {
    for (w, h) in [(800u64, 600u64), (600, 800), (500, 500), (1, 4000), (4000, 1)] {
        let p = compute_proj_matrix((w as u32, h as u32));
        let across = p.x.num as u64 * w * p.y.den as u64;
        let down = p.y.num as u64 * h * p.x.den as u64;
        assert_eq!(across, down);
        assert!(p.x.num <= p.x.den);
        assert!(p.y.num <= p.y.den);
    }
}

#[test]
fn depth_texture_has_surface_size() {
    let d = create_depth_texture((1280, 720));
    assert_eq!(
        d,
        DepthTexture {
            width: 1280,
            height: 720,
            depth_or_array_layers: 1,
            mip_level_count: 1,
            sample_count: 1,
            format: DepthFormat::Depth32Float,
        }
    );
    let e = create_depth_texture((0, u32::MAX));
    assert_eq!((e.width, e.height), (0, u32::MAX));
}

#[test]
fn every_scale_has_a_value() {
    for (w, h) in [(0u32, 0u32), (0, 9), (9, 0), (1, 1), (2, 3), (u32::MAX, 0), (0, u32::MAX)] {
        let p = compute_proj_matrix((w, h));
        assert!(p.x.den != 0 && p.y.den != 0);
        assert!(!value(p.x).is_nan() && !value(p.y).is_nan());
        assert!(value(p.x) <= 1.0 && value(p.y) <= 1.0);
    }
}

#[test]
fn depth_sampler_is_fixed() {
    let s = depth_sampler();
    assert_eq!(s.address_mode_u, AddressMode::ClampToEdge);
    assert_eq!(s.address_mode_v, AddressMode::ClampToEdge);
    assert_eq!(s.address_mode_w, AddressMode::ClampToEdge);
    assert_eq!(s.mag_filter, FilterMode::Linear);
    assert_eq!(s.min_filter, FilterMode::Linear);
    assert_eq!(s.mipmap_filter, FilterMode::Nearest);
    assert_eq!(s.compare, DepthCompare::LessEqual);
    assert_eq!(f32::from_bits(s.lod_min_clamp), 0.0);
    assert_eq!(f32::from_bits(s.lod_max_clamp), 100.0);
}
