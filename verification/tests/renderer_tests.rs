use renderer_2d::depth::create_depth_texture;
use renderer_2d::instance::{encode_batch, SpriteInstance};
use renderer_2d::projection::compute_proj_matrix;
use renderer_2d::renderer::{
    frame_commands, sprite_instance_buf_size, staging_chunk_size, staging_request, BufferName,
    Command, DrawError, DrawIndexed, SpriteRenderer, StagingError, MAX_BATCHES,
    MAX_SPRITES_PER_BATCH, QUAD_INDEX_COUNT,
};

fn numbered(n: u32) -> SpriteInstance {
    SpriteInstance::new(
        [[n, n + 1, n + 2], [n + 3, n + 4, n + 5], [n + 6, n + 7, n + 8]],
        [n + 9, n + 10],
        [n + 11, n + 12],
        [n + 13, n + 14, n + 15],
        (n as f32).to_bits(),
    )
}

#[test]
fn new_renderer_is_empty() {
    let r = SpriteRenderer::new((800, 600));
    assert!(r.is_empty());
    assert!(!r.is_full());
    assert_eq!(r.len(), 0);
    assert_eq!(r.capacity(), 5000);
    assert_eq!(r.projection(), compute_proj_matrix((800, 600)));
    assert_eq!(r.depth_texture(), create_depth_texture((800, 600)));
}

#[test]
fn draw_appends_one_record() {
    let mut r = SpriteRenderer::new((640, 480));
    r.draw(numbered(7));
    assert_eq!(r.len(), 1);
    assert!(!r.is_empty());
    r.draw(numbered(8));
    assert_eq!(r.len(), 2);
    assert_eq!(r.projection(), compute_proj_matrix((640, 480)));
    assert_eq!(r.depth_texture(), create_depth_texture((640, 480)));
}

#[test]
fn batch_has_every_draw_in_order() {
    for n in [1usize, 2, 3, 17, 256, 4999] {
        let mut r = SpriteRenderer::new((800, 600));
        let drawn: Vec<SpriteInstance> = (0..n).map(|i| numbered(i as u32 * 3)).collect();
        for x in &drawn {
            r.draw(*x);
        }
        let batch = r.submit().unwrap();
        assert_eq!(batch.len(), n);
        assert_eq!(batch.instances, drawn);
        assert_eq!(batch.bytes(), encode_batch(&drawn));
    }
}

#[test]
fn submit_on_empty_queue_does_nothing() {
    let mut r = SpriteRenderer::new((300, 900));
    assert!(r.submit().is_none());
    assert!(r.is_empty());
    assert_eq!(r.len(), 0);
    assert_eq!(r.capacity(), 5000);
    assert_eq!(r.projection(), compute_proj_matrix((300, 900)));
    assert_eq!(r.depth_texture(), create_depth_texture((300, 900)));
}

#[test]
fn submit_resets_the_queue() {
    let mut r = SpriteRenderer::new((800, 600));
    r.draw(numbered(1));
    r.draw(numbered(2));
    let first = r.submit().unwrap();
    assert_eq!(first.instances, vec![numbered(1), numbered(2)]);
    assert!(r.is_empty());
    assert_eq!(r.capacity(), 5000);
    assert!(r.submit().is_none());
    assert!(r.submit().is_none());
    r.draw(numbered(3));
    let second = r.submit().unwrap();
    assert_eq!(second.instances, vec![numbered(3)]);
    assert_eq!(r.projection(), compute_proj_matrix((800, 600)));
}

#[test]
fn queue_fills_to_capacity() {
    let mut r = SpriteRenderer::new((800, 600));
    for i in 0..5000u32 {
        assert!(!r.is_full());
        r.draw(numbered(i));
    }
    assert!(r.is_full());
    assert_eq!(r.len(), r.capacity());
    let batch = r.submit().unwrap();
    assert_eq!(batch.len(), 5000);
    assert_eq!(batch.byte_size(), 340_000);
    assert_eq!(batch.byte_size(), staging_chunk_size());
    assert_eq!(batch.bytes().len(), 340_000);
    assert_eq!(batch.instances[4999], numbered(4999));
    assert!(!r.is_full());
    assert!(r.is_empty());
}

#[test]
fn full_queue_refuses_loudly() {
    let mut r = SpriteRenderer::new((800, 600));
    for i in 0..5000u32 {
        assert_eq!(r.try_draw(numbered(i)), Ok(()));
    }
    assert_eq!(r.try_draw(numbered(5000)), Err(DrawError::QueueFull));
    assert_eq!(r.len(), 5000);
    let batch = r.submit().unwrap();
    assert_eq!(batch.len(), 5000);
    assert_eq!(batch.instances[0], numbered(0));
    assert_eq!(batch.instances[4999], numbered(4999));
    assert_eq!(r.try_draw(numbered(5000)), Ok(()));
    assert_eq!(r.submit().unwrap().instances, vec![numbered(5000)]);
}

#[test]
fn resize_replaces_projection_and_depth_target() {
    let mut r = SpriteRenderer::new((800, 600));
    r.draw(numbered(1));
    r.resize((600, 800));
    assert_eq!(r.len(), 1);
    assert_eq!(r.projection(), compute_proj_matrix((600, 800)));
    assert_eq!(r.depth_texture(), create_depth_texture((600, 800)));
    assert_eq!(r.depth_texture().width, 600);
    assert_eq!(r.depth_texture().height, 800);
    r.draw(numbered(2));
    assert_eq!(r.projection(), compute_proj_matrix((600, 800)));
    let batch = r.submit().unwrap();
    assert_eq!(batch.instances, vec![numbered(1), numbered(2)]);
    assert_eq!(r.projection(), compute_proj_matrix((600, 800)));
    assert_eq!(r.depth_texture(), create_depth_texture((600, 800)));
    assert!(r.projection() != compute_proj_matrix((800, 600)));
}

#[test]
fn batch_describes_upload_and_draw() {
    let mut r = SpriteRenderer::new((800, 600));
    for i in 0..3u32 {
        r.draw(numbered(10 * i));
    }
    let batch = r.submit().unwrap();
    assert_eq!(batch.byte_size(), 204);
    assert_eq!(batch.buffer_offset(), 0);
    assert_eq!(batch.bytes().len() as u64, batch.byte_size());
    assert_eq!(
        batch.draw_command(),
        DrawIndexed {
            index_start: 0,
            index_end: 6,
            base_vertex: 0,
            instance_start: 0,
            instance_end: 3,
        }
    );
    assert_eq!(QUAD_INDEX_COUNT, 6);
}

#[test]
fn empty_submit_issues_no_commands() {
    let mut r = SpriteRenderer::new((800, 600));
    let nothing = r.submit();
    assert!(nothing.is_none());
    assert!(frame_commands(&nothing).is_empty());
    r.draw(numbered(1));
    let first = r.submit();
    assert_eq!(frame_commands(&first).len(), 13);
    let again = r.submit();
    assert!(frame_commands(&again).is_empty());
}

#[test]
fn frame_commands_are_exact() {
    let mut r = SpriteRenderer::new((800, 600));
    for i in 0..250u32 {
        r.draw(numbered(i));
    }
    let batch = r.submit();
    let commands = frame_commands(&batch);
    let draw = DrawIndexed {
        index_start: 0,
        index_end: 6,
        base_vertex: 0,
        instance_start: 0,
        instance_end: 250,
    };
    assert_eq!(
        commands,
        vec![
            Command::CreateEncoder,
            Command::RecallStaging,
            Command::WriteInstances { offset: 0, size: 17_000 },
            Command::FinishStaging,
            Command::BeginPass {
                clear_gray: 0.01f32.to_bits(),
                clear_depth: 1.0f32.to_bits(),
            },
            Command::SetPipeline,
            Command::SetVertexBuffer { slot: 0, buffer: BufferName::QuadVertices },
            Command::SetVertexBuffer { slot: 1, buffer: BufferName::Instances },
            Command::SetAtlas { group: 0 },
            Command::SetIndexBuffer,
            Command::Draw(draw),
            Command::EndPass,
            Command::SubmitEncoder,
        ]
    );
    let upload = commands.iter().position(|c| matches!(c, Command::WriteInstances { .. }));
    let pass = commands.iter().position(|c| matches!(c, Command::BeginPass { .. }));
    assert!(upload.unwrap() < pass.unwrap());
    let draws = commands.iter().filter(|c| matches!(c, Command::Draw(_))).count();
    assert_eq!(draws, 1);
}

#[test]
fn uploaded_bytes_keep_draw_order() {
    let mut r = SpriteRenderer::new((1024, 768));
    let drawn: Vec<SpriteInstance> = (0..40).map(|i| numbered(1000 - i)).collect();
    for x in &drawn {
        r.draw(*x);
    }
    let bytes = r.submit().unwrap().bytes();
    for (i, x) in drawn.iter().enumerate() {
        assert_eq!(&bytes[68 * i..68 * (i + 1)], x.to_bytes().as_slice());
    }
}

#[test]
fn staging_request_sizes_and_refusals() {
    assert_eq!(staging_request(0), Err(StagingError::ZeroLength));
    assert_eq!(staging_request(1), Ok(68));
    assert_eq!(staging_request(2), Ok(136));
    assert_eq!(staging_request(5000), Ok(340_000));
    assert_eq!(staging_request(5001), Err(StagingError::ExceedsCapacity));
    assert_eq!(staging_request(usize::MAX), Err(StagingError::ExceedsCapacity));
}

#[test]
fn buffer_sizes() {
    assert_eq!(MAX_BATCHES, 100);
    assert_eq!(MAX_SPRITES_PER_BATCH, 5_000);
    assert_eq!(staging_chunk_size(), 340_000);
    assert_eq!(sprite_instance_buf_size(), 34_000_000);
    assert_eq!(sprite_instance_buf_size(), staging_chunk_size() * MAX_BATCHES);
}
