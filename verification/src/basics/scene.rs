use crate::basics::text::str_equals;
use crate::material::Material;
use vstd::prelude::*;

verus! {

/// The meshes a scene file can ask for.
#[derive(Clone, Copy, Debug, PartialEq, Eq, Hash, Structural)]
pub enum MeshKind {
    Cube,
    Sphere,
    Triangle,
    Circle,
    Cylinder,
    Quad,
}

/// The mesh a scene file's mesh name selects; unknown names give a quad.
pub open spec fn mesh_of_name(name: Seq<char>) -> MeshKind {
    if name == "cube"@ {
        MeshKind::Cube
    } else if name == "sphere"@ {
        MeshKind::Sphere
    } else if name == "triangle"@ {
        MeshKind::Triangle
    } else if name == "circle"@ {
        MeshKind::Circle
    } else if name == "cylinder"@ {
        MeshKind::Cylinder
    } else {
        MeshKind::Quad
    }
}

/// The material a scene file's material name selects; unknown names give
/// the diffuse colour material. ("DiffuseTexture" has no material yet.)
pub open spec fn material_of_name(name: Seq<char>) -> Material {
    if name == "DiffuseColorMaterial"@ {
        Material::DiffuseColor
    } else if name == "EqualizerMaterial"@ {
        Material::Equalizer
    } else if name == "UnlitColorMaterial"@ {
        Material::UnlitColor
    } else if name == "WaveMaterial"@ {
        Material::Wave
    } else if name == "Texture"@ {
        Material::Texture
    } else {
        Material::DiffuseColor
    }
}

/// Reads the mesh a scene object names.
pub fn mesh_from_name(name: &str) -> (m: MeshKind)
    ensures
        m == mesh_of_name(name@),
{
    if str_equals(name, "cube") {
        MeshKind::Cube
    } else if str_equals(name, "sphere") {
        MeshKind::Sphere
    } else if str_equals(name, "triangle") {
        MeshKind::Triangle
    } else if str_equals(name, "circle") {
        MeshKind::Circle
    } else if str_equals(name, "cylinder") {
        MeshKind::Cylinder
    } else {
        MeshKind::Quad
    }
}

/// Reads the material a scene object names. The name "DiffuseTexture"
/// stands for a material that does not exist yet and is not accepted.
pub fn material_from_name(name: &str) -> (m: Material)
    requires
        name@ != "DiffuseTexture"@,
    ensures
        m == material_of_name(name@),
{
    if str_equals(name, "DiffuseColorMaterial") {
        Material::DiffuseColor
    } else if str_equals(name, "EqualizerMaterial") {
        Material::Equalizer
    } else if str_equals(name, "UnlitColorMaterial") {
        Material::UnlitColor
    } else if str_equals(name, "WaveMaterial") {
        Material::Wave
    } else if str_equals(name, "Texture") {
        Material::Texture
    } else {
        Material::DiffuseColor
    }
}

/// Whether object `k` is listed in some group.
pub open spec fn is_listed(groups: Seq<(Material, Vec<usize>)>, k: int) -> bool {
    exists|g: int, j: int|
        0 <= g < groups.len() && 0 <= j < groups[g].1@.len() && #[trigger] groups[g].1@[j] == k
}

/// Whether `groups` sorts the objects whose materials `materials` lists by
/// material: each group names a different material and lists, in
/// increasing order, at least one object of that material; every object
/// is listed in the group of its material; and the groups come in the
/// order in which their materials first appear.
pub open spec fn groups_objects_by_material(
    materials: Seq<Material>,
    groups: Seq<(Material, Vec<usize>)>,
) -> bool {
    &&& forall|g: int, h: int|
        0 <= g < h < groups.len() ==> #[trigger] groups[g].0 != #[trigger] groups[h].0
    &&& forall|g: int| 0 <= g < groups.len() ==> #[trigger] groups[g].1@.len() > 0
    &&& forall|g: int, j: int|
        0 <= g < groups.len() && 0 <= j < groups[g].1@.len() ==> {
            &&& #[trigger] groups[g].1@[j] < materials.len()
            &&& materials[groups[g].1@[j] as int] == groups[g].0
        }
    &&& forall|g: int, i: int, j: int|
        0 <= g < groups.len() && 0 <= i < j < groups[g].1@.len() ==> #[trigger] groups[g].1@[i]
            < #[trigger] groups[g].1@[j]
    &&& forall|k: int| 0 <= k < materials.len() ==> #[trigger] is_listed(groups, k)
    &&& forall|g: int, h: int|
        0 <= g < h < groups.len() ==> #[trigger] groups[g].1@[0] < #[trigger] groups[h].1@[0]
}

/// The position in `groups` of the group for `material`, if there is one.
fn find_group(groups: &Vec<(Material, Vec<usize>)>, material: Material) -> (r: Option<usize>)
    ensures
        match r {
            Some(g) => g < groups@.len() && groups@[g as int].0 == material,
            Option::None => forall|g: int| 0 <= g < groups@.len() ==> #[trigger] groups@[g].0 != material,
        },
{
    let mut g: usize = 0;
    while g < groups.len()
        invariant
            g <= groups@.len(),
            forall|h: int| 0 <= h < g ==> #[trigger] groups@[h].0 != material,
        decreases groups@.len() - g,
    {
        if groups[g].0 == material {
            return Some(g);
        }
        g += 1;
    }
    Option::None
}

/// Sorts scene objects into groups by material, so that each material's
/// objects can be drawn together: given the material of every object, the
/// indices of the objects of each material, one group per material.
pub fn group_by_material(materials: &Vec<Material>) -> (groups: Vec<(Material, Vec<usize>)>)
    ensures
        groups_objects_by_material(materials@, groups@),
{
    let mut groups: Vec<(Material, Vec<usize>)> = Vec::new();
    let n: usize = materials.len();
    let mut k: usize = 0;
    while k < n
        invariant
            k <= n,
            n == materials@.len(),
            groups_objects_by_material(materials@.take(k as int), groups@),
            forall|g: int, j: int|
                0 <= g < groups@.len() && 0 <= j < groups@[g].1@.len() ==> #[trigger] groups@[g].1@[j] < k,
        decreases n - k,
    {
        let material: Material = materials[k];
        let ghost before = groups@;
        let ghost next = materials@.take(k + 1);
        match find_group(&groups, material) {
            Some(g) => {
                groups[g].1.push(k);
                assert forall|h: int, j: int|
                    0 <= h < groups@.len() && 0 <= j < groups@[h].1@.len() implies {
                    &&& #[trigger] groups@[h].1@[j] < next.len()
                    &&& next[groups@[h].1@[j] as int] == groups@[h].0
                } by {
                    if h != g || j < before[h].1@.len() {
                        assert(groups@[h].1@[j] == before[h].1@[j]);
                    }
                }
                assert forall|i: int| 0 <= i < next.len() implies #[trigger] is_listed(groups@, i) by {
                    if i < k {
                        assert(is_listed(before, i));
                        let (h, j) = choose|h: int, j: int|
                            0 <= h < before.len() && 0 <= j < before[h].1@.len() && #[trigger] before[h].1@[j] == i;
                        assert(groups@[h].1@[j] == i);
                    } else {
                        assert(groups@[g as int].1@[before[g as int].1@.len() as int] == i);
                    }
                }
            },
            Option::None => {
                let mut members: Vec<usize> = Vec::new();
                members.push(k);
                groups.push((material, members));
                assert forall|i: int| 0 <= i < next.len() implies #[trigger] is_listed(groups@, i) by {
                    if i < k {
                        assert(is_listed(before, i));
                        let (h, j) = choose|h: int, j: int|
                            0 <= h < before.len() && 0 <= j < before[h].1@.len() && #[trigger] before[h].1@[j] == i;
                        assert(groups@[h].1@[j] == i);
                    } else {
                        assert(groups@[before.len() as int].1@[0] == i);
                    }
                }
            },
        }
        k += 1;
    }
    assert(materials@.take(n as int) =~= materials@);
    groups
}

} // verus!
