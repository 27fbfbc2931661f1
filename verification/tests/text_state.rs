use parang::text_state::RenderingMode;

#[test]
fn test_rendering_mode() {
    assert!(RenderingMode::Fill.is_fill());
    assert!(!RenderingMode::Fill.is_stroke());
    assert!(!RenderingMode::Fill.is_clip());

    assert!(RenderingMode::FillStrokeClip.is_fill());
    assert!(RenderingMode::FillStrokeClip.is_stroke());
    assert!(RenderingMode::FillStrokeClip.is_clip());

    assert!(!RenderingMode::Neither.is_fill());
    assert!(!RenderingMode::Neither.is_stroke());
    assert!(!RenderingMode::Neither.is_clip());
}

#[test]
fn test_rendering_mode_from_i64() {
    assert_eq!(RenderingMode::from_i64(0), RenderingMode::Fill);
    assert_eq!(RenderingMode::from_i64(2), RenderingMode::FillStroke);
    assert_eq!(RenderingMode::from_i64(7), RenderingMode::NeitherClip);
    assert_eq!(RenderingMode::from_i64(99), RenderingMode::Fill); // invalid → default
}

#[test]
fn every_code_decodes_to_a_distinct_mode() {
    let modes: Vec<RenderingMode> = (0..8).map(RenderingMode::from_i64).collect();
    for i in 0..8 {
        for j in 0..8 {
            assert_eq!(i == j, modes[i] == modes[j]);
        }
    }
    assert_eq!(RenderingMode::from_i64(-1), RenderingMode::Fill);
    assert_eq!(RenderingMode::from_i64(8), RenderingMode::Fill);
}

#[test]
fn stroke_and_clip_modes() {
    assert!(RenderingMode::Stroke.is_stroke());
    assert!(!RenderingMode::Stroke.is_fill());
    assert!(RenderingMode::StrokeClip.is_clip());
    assert!(RenderingMode::FillClip.is_fill());
    assert!(RenderingMode::NeitherClip.is_clip());
    assert!(!RenderingMode::NeitherClip.is_fill());
}
