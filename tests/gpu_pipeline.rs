use vr_overlay_native::error::OverlayError;
use vr_overlay_native::texture::{
    probe_requires_swap, ConverterState, PixelProgram, ResourcePlan, PROBE_REFERENCE_PIXEL,
};
use vr_overlay_native::upload::{copy_rows, plan_upload, UploadPlan};

fn ready(width: u32, height: u32) -> ConverterState {
    let mut s = ConverterState::new();
    s.textures_created(width, height);
    s
}

#[test]
fn ensuring_same_size_twice_keeps_resources() {
    let mut s = ConverterState::new();
    assert_eq!(s.plan_resources(64, 32), ResourcePlan::Rebuild);
    s.textures_created(64, 32);
    assert_eq!(s.plan_resources(64, 32), ResourcePlan::Keep);
    assert_eq!(s.plan_resources(64, 33), ResourcePlan::Rebuild);
    assert_eq!(s.plan_resources(65, 32), ResourcePlan::Rebuild);
}

#[test]
fn zero_size_releases_resources() {
    let mut s = ready(8, 8);
    assert_eq!(s.plan_resources(0, 8), ResourcePlan::Release);
    s.reset_texture();
    assert!(!s.textures_ready);
    assert_eq!((s.texture_width, s.texture_height), (0, 0));
    assert_eq!(s.plan_resources(0, 8), ResourcePlan::Release);
    assert_eq!(s.plan_resources(8, 8), ResourcePlan::Rebuild);
}

#[test]
fn probe_reads_blue_brighter_than_red_as_swapped() {
    assert!(probe_requires_swap(&[0, 0, 255, 255]));
    assert!(!probe_requires_swap(&[255, 0, 0, 255]));
    assert!(!probe_requires_swap(&[9, 0, 9, 255]));
    assert_eq!(PROBE_REFERENCE_PIXEL, [0, 0, 255, 255]);
}

#[test]
fn probe_result_is_stable_for_one_pipeline() {
    let mut s = ConverterState::new();
    assert!(s.shaders_need_build());
    s.shaders_created();
    assert!(s.shaders_need_build());
    s.record_probe([0, 0, 255, 255]);
    assert!(!s.shaders_need_build());
    let first = s.swap_rb_required;
    s.textures_created(4, 4);
    s.reset_texture();
    assert_eq!(s.swap_rb_required, first);
    assert!(first);
    let mut t = ConverterState::new();
    t.shaders_created();
    t.record_probe([0, 0, 255, 255]);
    assert_eq!(t.swap_rb_required, first);
}

#[test]
fn conversion_needs_textures_and_shaders() {
    let mut s = ConverterState::new();
    assert_eq!(s.convert_program(), Err(OverlayError::TexturesNotReady));
    s.textures_created(2, 2);
    assert_eq!(s.convert_program(), Err(OverlayError::ShadersNotReady));
    s.shaders_created();
    s.record_probe([255, 0, 0, 255]);
    assert_eq!(s.convert_program(), Ok(PixelProgram::Passthrough));
    s.record_probe([0, 0, 255, 255]);
    assert_eq!(s.convert_program(), Ok(PixelProgram::Swizzle));
}

#[test]
fn short_upload_buffer_fails_before_mapping() {
    let s = ready(4, 4);
    assert_eq!(
        plan_upload(&s, 63, 16, 4, 4),
        Err(OverlayError::SourceBufferTooSmall { required: 64, actual: 63 })
    );
    assert_eq!(plan_upload(&s, 10, usize::MAX, 4, 4), Err(OverlayError::SourceSizeOverflow));
    let none = ConverterState::new();
    assert_eq!(plan_upload(&none, 64, 16, 4, 4), Err(OverlayError::TexturesNotReady));
    assert_eq!(
        plan_upload(&s, 64, 16, 4, 4),
        Ok(UploadPlan { src_row_pitch: 16, row_bytes: 16, rows: 4 })
    );
    assert_eq!(plan_upload(&s, 64, 12, 4, 4), Err(OverlayError::RowPitchTooSmall));
}

#[test]
fn rows_are_copied_into_wider_mapped_pitch() {
    let plan = UploadPlan { src_row_pitch: 4, row_bytes: 4, rows: 2 };
    let src: Vec<u8> = vec![1, 2, 3, 4, 5, 6, 7, 8];
    let mut dst = vec![0xAAu8; 12];
    assert_eq!(copy_rows(&plan, &src, &mut dst, 6), Ok(()));
    assert_eq!(dst, vec![1, 2, 3, 4, 0xAA, 0xAA, 5, 6, 7, 8, 0xAA, 0xAA]);
}

#[test]
fn mapped_pitch_below_source_pitch_is_rejected() {
    let plan = UploadPlan { src_row_pitch: 8, row_bytes: 8, rows: 2 };
    let src = vec![7u8; 16];
    let mut dst = vec![0u8; 16];
    assert_eq!(copy_rows(&plan, &src, &mut dst, 4), Err(OverlayError::MappedPitchTooSmall));
    assert_eq!(dst, vec![0u8; 16]);
}

#[test]
fn mapped_region_too_small_is_rejected() {
    let plan = UploadPlan { src_row_pitch: 4, row_bytes: 4, rows: 3 };
    let src = vec![7u8; 12];
    let mut dst = vec![0u8; 11];
    assert_eq!(copy_rows(&plan, &src, &mut dst, 4), Err(OverlayError::MappedRegionTooSmall));
    let short_src = vec![7u8; 11];
    let mut dst2 = vec![0u8; 12];
    assert_eq!(
        copy_rows(&plan, &short_src, &mut dst2, 4),
        Err(OverlayError::SourceBufferTooSmall { required: 12, actual: 11 })
    );
}
