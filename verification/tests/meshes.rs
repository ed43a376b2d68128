use forma::basics::circle;
use forma::basics::cylinder;
use forma::basics::debug_circle;
use forma::basics::level::grid_position;
use forma::basics::sphere;
use forma::basics::uniforms::TextureUniform;

#[test]
fn sphere_index_buffer() {
    let indices = sphere::calculate_indices();
    assert_eq!(indices.len(), 702);
    // First stack: only the lower triangle of each quad (k1 + 1, k2 + 1, k2).
    assert_eq!(&indices[0..6], &[1, 14, 13, 2, 15, 14]);
    // Second stack: both triangles of the first quad, k1 = 13, k2 = 26.
    assert_eq!(&indices[36..42], &[13, 14, 26, 14, 27, 26]);
    // Last stack: only the upper triangle, k1 = 91, k2 = 104.
    assert_eq!(&indices[468..471], &[91, 92, 104]);
    assert_eq!(&indices[501..504], &[102, 103, 115]);
    assert!(indices[504..].iter().all(|i| *i == 0));
    assert!(indices.iter().all(|i| (*i as usize) < sphere::VERTEX_COUNT));
    assert_eq!(indices.iter().copied().max(), Some(115));
}

#[test]
fn cylinder_index_buffer_for_three_sectors() {
    let indices = cylinder::calculate_indices_dynamic(3);
    let expected: Vec<u16> = vec![
        // top fan around vertex 3
        0, 1, 3, 1, 2, 3, 2, 0, 3,
        // bottom fan around vertex 7
        5, 4, 7, 6, 5, 7, 4, 6, 7,
        // sides, top ring 8..10 and bottom ring 11..13
        9, 8, 12, 11, 12, 8,
        10, 9, 13, 12, 13, 9,
        8, 10, 11, 13, 11, 10,
    ];
    assert_eq!(indices, expected);
}

#[test]
fn cylinder_index_buffers_stay_inside_the_mesh() {
    for n in [1usize, 2, 5, 36, 100] {
        let indices = cylinder::calculate_indices_dynamic(n);
        assert_eq!(indices.len(), 12 * n);
        assert!(indices.iter().all(|i| (*i as usize) < 4 * n + 2));
    }
    assert!(cylinder::calculate_indices_dynamic(0).is_empty());
    let fixed = cylinder::calculate_indices();
    assert_eq!(fixed, cylinder::calculate_indices_dynamic(36));
    assert_eq!(fixed.len(), 432);
}

#[test]
fn cylinder_indices_wrap_to_sixteen_bits() {
    // 20000 sectors: 80002 vertices, more than 16 bits can name.
    let n = 20000usize;
    let indices = cylinder::calculate_indices_dynamic(n);
    let last_side = indices[12 * n - 1] as usize;
    assert_eq!(last_side, (n - 1 + 2 * (n + 1)) % 65536);
}

#[test]
fn debug_circle_closes_its_loop() {
    let indices = debug_circle::calculate_indices();
    assert_eq!(indices.len(), 61);
    for (p, i) in indices.iter().enumerate().take(60) {
        assert_eq!(*i as usize, p);
    }
    assert_eq!(indices[60], 0);
}

#[test]
fn circle_indices_are_all_zero() {
    assert_eq!(circle::calculate_indices(), vec![0u16; 10]);
}

#[test]
fn level_grid() {
    assert_eq!(grid_position(0), (-4, -4));
    assert_eq!(grid_position(4), (4, -4));
    assert_eq!(grid_position(5), (-4, -2));
    assert_eq!(grid_position(24), (4, 4));
    let mut seen = Vec::new();
    for i in 0..25 {
        let p = grid_position(i);
        assert!(!seen.contains(&p));
        seen.push(p);
    }
}

#[test]
fn texture_uniform_is_empty() {
    assert_eq!(TextureUniform::new(), TextureUniform {});
    assert_eq!(std::mem::size_of::<TextureUniform>(), 0);
}
