use vk_obj::fit::build_fit;
use vk_obj::geometry::Extent;
use vk_obj::geometry::Vertex;

fn extent(max: (i64, i64, i64), min: (i64, i64, i64)) -> Extent {
    Extent { max: Vertex { position: max }, min: Vertex { position: min } }
}

#[test]
fn symmetric_extent_centers_and_halves() {
    let fit = build_fit(&extent((2, 0, 0), (-2, 0, 0)));
    assert_eq!(fit.translation_doubled.position, (0, 0, 0));
    assert_eq!(fit.largest, 2);
    // With the default target size the uniform scale is 0.3 / 2 = 0.15,
    // and the translation is the zero vector.
    let scale = 0.3f32 / fit.largest as f32;
    assert_eq!(scale, 0.15);
    let tx = fit.translation_doubled.position.0 as f32 / 2.0;
    assert_eq!(tx, 0.0);
}

#[test]
fn largest_uses_raw_not_recentered_components() {
    // The midpoint is (3, 0, 0), so the recentered extent would span only
    // one unit — but the scale divisor is taken over the raw components.
    let fit = build_fit(&extent((4, 0, 0), (2, 0, 0)));
    assert_eq!(fit.translation_doubled.position, (-6, 0, 0));
    assert_eq!(fit.largest, 4);
    let translation = (
        fit.translation_doubled.position.0 as f32 / 2.0,
        fit.translation_doubled.position.1 as f32 / 2.0,
        fit.translation_doubled.position.2 as f32 / 2.0,
    );
    assert_eq!(translation, (-3.0, 0.0, 0.0));
}

#[test]
fn negative_component_can_dominate() {
    let fit = build_fit(&extent((3, 1, 2), (-5, 1, 2)));
    assert_eq!(fit.largest, 5);
    assert_eq!(fit.translation_doubled.position, (2, -2, -4));
}

#[test]
fn all_zero_extent_has_no_scale() {
    let fit = build_fit(&extent((0, 0, 0), (0, 0, 0)));
    assert_eq!(fit.largest, 0);
    assert_eq!(fit.translation_doubled.position, (0, 0, 0));
}
