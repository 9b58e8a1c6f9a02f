use buzz_ui::brush::{BrushKind, PatternShape};

#[test]
fn both_outlined_brushes_share_the_outline_settings() {
    assert!(BrushKind::Fluid.is_outlined());
    assert!(BrushKind::Normal.is_outlined());
    for other in [
        BrushKind::Pattern,
        BrushKind::Art,
        BrushKind::Raster,
        BrushKind::Effect,
        BrushKind::Wave,
    ] {
        assert!(!other.is_outlined(), "{other:?} does not draw an outline");
    }
}

#[test]
fn brush_kinds_describe_themselves_for_the_tool_options() {
    for kind in BrushKind::ALL {
        assert!(!kind.label().is_empty());
        assert!(!kind.description().is_empty());
    }
    assert!(!BrushKind::Fluid.uses_pattern());
    assert!(BrushKind::Pattern.uses_pattern());
    assert!(BrushKind::Art.uses_pattern());
}

#[test]
fn the_type_picker_offers_every_brush_kind() {
    for kind in [
        BrushKind::Fluid,
        BrushKind::Pattern,
        BrushKind::Art,
        BrushKind::Raster,
        BrushKind::Effect,
        BrushKind::Wave,
    ] {
        assert!(BrushKind::ALL.contains(&kind), "{kind:?} is not offered in the Type picker");
    }
}

#[test]
fn the_generated_brushes_composite_themselves() {
    assert!(BrushKind::Effect.composites_itself());
    assert!(BrushKind::Wave.composites_itself());
    for other in [
        BrushKind::Fluid,
        BrushKind::Normal,
        BrushKind::Pattern,
        BrushKind::Art,
        BrushKind::Raster,
    ] {
        assert!(!other.composites_itself(), "{other:?}");
    }
}

#[test]
fn the_default_brush_is_the_fluid_one_with_a_dot() {
    assert_eq!(BrushKind::default(), BrushKind::Fluid);
    assert_eq!(PatternShape::default(), PatternShape::Dot);
}

#[test]
fn the_soft_brush_is_offered_under_its_own_name() {
    assert_eq!(BrushKind::Raster.label(), "Soft");
    assert_eq!(BrushKind::ALL[2], BrushKind::Raster);
}

#[test]
fn built_in_patterns_are_named_and_exclude_the_custom_one() {
    for shape in PatternShape::BUILT_IN {
        assert!(!shape.label().is_empty());
        assert_ne!(shape, PatternShape::Custom);
    }
    assert_eq!(PatternShape::Custom.label(), "From Selection");
}
