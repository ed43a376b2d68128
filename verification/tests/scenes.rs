use forma::basics::scene::{group_by_material, material_from_name, mesh_from_name, MeshKind};
use forma::basics::text::str_equals;
use forma::cpu_path_tracer;
use forma::cpu_ray_tracer::scenes::{get_plane_scene, get_simple_scene};
use forma::cpu_ray_tracer::shapes::{FixedVec3, Shape, LAMBERTIAN, METAL};
use forma::material::Material;

#[test]
fn ray_tracer_simple_scene() {
    let objects = get_simple_scene();
    assert_eq!(objects.len(), 4);
    assert_eq!(
        objects[0],
        Shape::Plane {
            position: FixedVec3::new(-1000, 0, 0),
            orientation: FixedVec3::new(0, 0, 0),
            size: FixedVec3::new(5000, 5000, 5000),
            material: METAL,
            color: FixedVec3::new(1000, 300, 300),
            fuzz: 50,
        }
    );
    assert_eq!(
        objects[3],
        Shape::Sphere {
            center: FixedVec3::new(0, -1000500, 0),
            radius: 1000000,
            material: LAMBERTIAN,
            color: FixedVec3::new(300, 300, 300),
            fuzz: 1000,
        }
    );
}

#[test]
fn ray_tracer_plane_scene() {
    let objects = get_plane_scene();
    assert_eq!(objects.len(), 1);
    match objects[0] {
        Shape::Plane { size, color, material, .. } => {
            assert_eq!(size, FixedVec3::new(100000, 100000, 100000));
            assert_eq!(color, FixedVec3::new(100, 900, 100));
            assert_eq!(material, METAL);
        }
        _ => panic!("expected a plane"),
    }
}

#[test]
fn path_tracer_plane_scene_panels() {
    let objects = cpu_path_tracer::scenes::get_plane_scene();
    assert_eq!(objects.len(), 5);
    for i in 0..3i32 {
        match objects[1 + i as usize] {
            Shape::Plane { position, color, .. } => {
                assert_eq!(position, FixedVec3::new(1000, 0, -2000 + 2000 * i));
                assert_eq!(color, FixedVec3::new(9, 200 + 100 * i, 900));
            }
            _ => panic!("expected a panel"),
        }
    }
    assert!(matches!(objects[4], Shape::Sphere { radius: 500, fuzz: 100, .. }));
}

#[test]
fn path_tracer_simple_scene() {
    let objects = cpu_path_tracer::scenes::get_simple_scene();
    assert_eq!(objects.len(), 3);
    assert!(objects.iter().all(|o| matches!(o, Shape::Sphere { material: LAMBERTIAN, .. })));
    assert!(matches!(objects[2], Shape::Sphere { radius: 100000, .. }));
}

#[test]
fn string_comparison() {
    assert!(str_equals("cube", "cube"));
    assert!(!str_equals("cube", "cubes"));
    assert!(!str_equals("cube", "tube"));
    assert!(str_equals("", ""));
    assert!(str_equals("fōrma", "fōrma"));
}

#[test]
fn meshes_by_name() {
    assert_eq!(mesh_from_name("cube"), MeshKind::Cube);
    assert_eq!(mesh_from_name("sphere"), MeshKind::Sphere);
    assert_eq!(mesh_from_name("triangle"), MeshKind::Triangle);
    assert_eq!(mesh_from_name("circle"), MeshKind::Circle);
    assert_eq!(mesh_from_name("cylinder"), MeshKind::Cylinder);
    assert_eq!(mesh_from_name("teapot"), MeshKind::Quad);
    assert_eq!(mesh_from_name("Cube"), MeshKind::Quad);
}

#[test]
fn materials_by_name() {
    assert_eq!(material_from_name("DiffuseColorMaterial"), Material::DiffuseColor);
    assert_eq!(material_from_name("EqualizerMaterial"), Material::Equalizer);
    assert_eq!(material_from_name("UnlitColorMaterial"), Material::UnlitColor);
    assert_eq!(material_from_name("WaveMaterial"), Material::Wave);
    assert_eq!(material_from_name("Texture"), Material::Texture);
    assert_eq!(material_from_name("Marble"), Material::DiffuseColor);
}

#[test]
fn grouping_objects_by_material() {
    let materials = vec![
        Material::Wave,
        Material::DiffuseColor,
        Material::Wave,
        Material::Texture,
        Material::DiffuseColor,
        Material::Wave,
    ];
    let groups = group_by_material(&materials);
    assert_eq!(
        groups,
        vec![
            (Material::Wave, vec![0, 2, 5]),
            (Material::DiffuseColor, vec![1, 4]),
            (Material::Texture, vec![3]),
        ]
    );
    assert!(group_by_material(&Vec::new()).is_empty());
}
