use raytracer::{EmptyMaterial, SpherePdf};

#[test]
fn marker_types_are_constructible() {
    let _m = EmptyMaterial;
    let _p = SpherePdf;
    assert_eq!(std::mem::size_of::<EmptyMaterial>(), 0);
    assert_eq!(std::mem::size_of::<SpherePdf>(), 0);
}
