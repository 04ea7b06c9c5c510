use pbr_viewer::material::{MapKind, BINDING_COUNT, UNIFORM_BINDING};

const MAPS: [MapKind; 4] = [
    MapKind::Albedo,
    MapKind::Roughness,
    MapKind::Metalness,
    MapKind::Normal,
];

#[test]
fn map_suffixes() {
    assert_eq!(MapKind::Albedo.suffix(), "_Color");
    assert_eq!(MapKind::Roughness.suffix(), "_Roughness");
    assert_eq!(MapKind::Metalness.suffix(), "_Metalness");
    assert_eq!(MapKind::Normal.suffix(), "_Normal");
}

#[test]
fn map_paths() {
    assert_eq!(
        MapKind::Albedo.texture_path("MetalPlates006_1K"),
        "./assets/MetalPlates006_1K_Color.png"
    );
    assert_eq!(
        MapKind::Roughness.texture_path("MetalPlates006_1K"),
        "./assets/MetalPlates006_1K_Roughness.png"
    );
    assert_eq!(
        MapKind::Metalness.texture_path("MetalPlates006_1K"),
        "./assets/MetalPlates006_1K_Metalness.png"
    );
    assert_eq!(
        MapKind::Normal.texture_path("MetalPlates006_1K"),
        "./assets/MetalPlates006_1K_Normal.png"
    );
    assert_eq!(MapKind::Normal.texture_path(""), "./assets/_Normal.png");
}

#[test]
fn map_bindings_follow_the_uniform_buffer() {
    assert_eq!(UNIFORM_BINDING, 0);
    assert_eq!(BINDING_COUNT, 5);
    assert_eq!(MapKind::Albedo.binding(), 1);
    assert_eq!(MapKind::Roughness.binding(), 2);
    assert_eq!(MapKind::Metalness.binding(), 3);
    assert_eq!(MapKind::Normal.binding(), 4);
}

#[test]
fn map_bindings_are_distinct_and_invertible() {
    for a in MAPS {
        assert_eq!(MapKind::from_binding(a.binding()), Some(a));
        for b in MAPS {
            assert_eq!(a.binding() == b.binding(), a == b);
        }
    }
    assert_eq!(MapKind::from_binding(UNIFORM_BINDING), None);
    assert_eq!(MapKind::from_binding(BINDING_COUNT), None);
    assert_eq!(MapKind::from_binding(u32::MAX), None);
}
