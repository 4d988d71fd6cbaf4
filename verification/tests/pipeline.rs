use quartet::pipeline::{
    Blend, Face, FrontFace, IndexFormat, PipelineConfig, PrimitiveTopology, CAMERA_BYTES,
    INDEX_BYTES, VERTEX_STRIDE,
};
use quartet::renderer::Renderer;
use quartet::surface::PixelFormat;

#[test]
fn pipeline_draws_unlit_triangles_without_their_backs() {
    let config = PipelineConfig::new(PixelFormat::Rgba8UnormSrgb);
    assert_eq!(
        config,
        PipelineConfig {
            vertex_stride: 12,
            position_offset: 0,
            position_location: 0,
            camera_binding: 0,
            camera_bytes: 64,
            topology: PrimitiveTopology::TriangleList,
            front_face: FrontFace::Ccw,
            cull_mode: Some(Face::Back),
            index_format: IndexFormat::Uint32,
            depth_stencil: None,
            sample_count: 1,
            blend: Blend::Replace,
            format: PixelFormat::Rgba8UnormSrgb,
        }
    );
}

#[test]
fn sizes_are_those_of_the_numbers_uploaded() {
    assert_eq!(VERTEX_STRIDE as usize, std::mem::size_of::<[f32; 3]>());
    assert_eq!(INDEX_BYTES as usize, std::mem::size_of::<u32>());
    assert_eq!(CAMERA_BYTES as usize, std::mem::size_of::<[[f32; 4]; 4]>());
}

#[test]
fn buffers_match_the_pipeline() {
    let renderer = Renderer::new(640, 480);
    let config = renderer.pipeline();
    assert_eq!(config, PipelineConfig::new(renderer.get_widget_required().format));
    assert_eq!(renderer.vertex_bytes().len() as u64, config.vertex_stride * 4);
    assert_eq!(renderer.index_bytes().len() as u64, INDEX_BYTES * renderer.draw_count() as u64);
}
