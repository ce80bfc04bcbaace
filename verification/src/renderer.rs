//! The instance queue and its submission protocol.
//!
//! A renderer collects the instance records of one frame in a bounded queue.
//! `draw` appends one record. `submit` hands the whole queue out as the
//! frame's batch and leaves an empty queue behind, or does nothing at all
//! when nothing was drawn. The renderer also keeps the projection and the
//! description of the depth target, both of which follow the window size.

use vstd::prelude::*;
use crate::depth::{create_depth_texture, depth_texture_of, DepthTexture};
use crate::instance::{batch_bytes, encode_batch, SpriteInstance};
use crate::pipeline::{ATLAS_BIND_GROUP, CLEAR_DEPTH, CLEAR_GRAY, INSTANCE_SLOT, QUAD_VERTEX_SLOT};
use crate::projection::{compute_proj_matrix, projection_of, Projection};

verus! {

/// Number of batches the device-resident instance buffer is sized for.
pub const MAX_BATCHES: u64 = 100;

/// Largest number of instance records in one batch.
pub const MAX_SPRITES_PER_BATCH: u64 = 5_000;

/// Number of indices that draw the shared quad.
pub const QUAD_INDEX_COUNT: u32 = 6;

/// Size in bytes of one staging region: room for one full batch.
pub fn staging_chunk_size() -> (n: u64)
    ensures
        n == 68 * MAX_SPRITES_PER_BATCH,
{
    68 * MAX_SPRITES_PER_BATCH
}

/// Size in bytes of the device-resident instance buffer: room for
/// `MAX_BATCHES` full batches.
pub fn sprite_instance_buf_size() -> (n: u64)
    ensures
        n == MAX_SPRITES_PER_BATCH * MAX_BATCHES * 68,
{
    MAX_SPRITES_PER_BATCH * MAX_BATCHES * 68
}

/// Why a staging region cannot be had.
#[derive(Clone, Copy, Debug, PartialEq, Eq, Structural)]
pub enum StagingError {
    /// The request is for no bytes at all.
    ZeroLength,
    /// The request is for more bytes than one staging region holds.
    ExceedsCapacity,
}

/// The answer to a request for a staging region for `count` records: the
/// region's size in bytes, or the reason for the refusal.
pub open spec fn staging_request_of(count: nat) -> Result<u64, StagingError> {
    if count == 0 {
        Err(StagingError::ZeroLength)
    } else if count > MAX_SPRITES_PER_BATCH {
        Err(StagingError::ExceedsCapacity)
    } else {
        Ok((68 * count) as u64)
    }
}

/// Sizes the staging region for a batch of `count` records. The region is
/// exactly as long as the batch's encoding.
pub fn staging_request(count: usize) -> (r: Result<u64, StagingError>)
    ensures
        r == staging_request_of(count as nat),
{
    if count == 0 {
        Err(StagingError::ZeroLength)
    } else if count as u64 > MAX_SPRITES_PER_BATCH {
        Err(StagingError::ExceedsCapacity)
    } else {
        Ok(68 * (count as u64))
    }
}

/// Why a record cannot be drawn.
#[derive(Clone, Copy, Debug, PartialEq, Eq, Structural)]
pub enum DrawError {
    /// The queue already holds as many records as a batch may have.
    QueueFull,
}

/// One indexed, instanced draw: the range of indices, the offset added to
/// each index, and the range of instances.
#[derive(Clone, Copy, Debug, PartialEq, Eq, Structural)]
pub struct DrawIndexed {
    pub index_start: u32,
    pub index_end: u32,
    pub base_vertex: i32,
    pub instance_start: u32,
    pub instance_end: u32,
}

/// The draw that renders `count` instances of the quad.
pub open spec fn draw_of(count: nat) -> DrawIndexed {
    DrawIndexed {
        index_start: 0,
        index_end: QUAD_INDEX_COUNT,
        base_vertex: 0,
        instance_start: 0,
        instance_end: count as u32,
    }
}

/// The records of one frame, in the order in which they were drawn.
#[derive(Clone, Debug)]
pub struct Batch {
    pub instances: Vec<SpriteInstance>,
}

impl Batch {
    /// A batch is never empty and never larger than the queue it came from.
    pub open spec fn wf(self) -> bool {
        0 < self.instances@.len() <= MAX_SPRITES_PER_BATCH
    }

    /// Number of records in the batch.
    pub fn len(&self) -> (n: usize)
        ensures
            n == self.instances@.len(),
    {
        self.instances.len()
    }

    /// Length in bytes of the batch's encoding, which is the length of the
    /// staging region to request. For a well-formed batch the request is
    /// always granted.
    pub fn byte_size(&self) -> (n: u64)
        requires
            self.wf(),
        ensures
            n == 68 * self.instances@.len(),
            n > 0,
            staging_request_of(self.instances@.len()) == Ok::<u64, StagingError>(n),
    {
        68 * (self.instances.len() as u64)
    }

    /// Offset in the instance buffer at which the batch is written.
    pub fn buffer_offset(&self) -> (n: u64)
        ensures
            n == 0,
    {
        0
    }

    /// The bytes to upload: the records' encodings in batch order.
    pub fn bytes(&self) -> (b: Vec<u8>)
        ensures
            b@ == batch_bytes(self.instances@),
            b@.len() == 68 * self.instances@.len(),
            forall|i: int|
                0 <= i < self.instances@.len() ==> b@.subrange(68 * i, 68 * i + 68)
                    == (#[trigger] self.instances@[i]).bytes(),
    {
        encode_batch(&self.instances)
    }

    /// The single draw that renders the batch: the quad's six indices, once
    /// for every record.
    pub fn draw_command(&self) -> (d: DrawIndexed)
        requires
            self.wf(),
        ensures
            d == draw_of(self.instances@.len()),
            d.instance_end - d.instance_start == self.instances@.len(),
    {
        DrawIndexed {
            index_start: 0,
            index_end: QUAD_INDEX_COUNT,
            base_vertex: 0,
            instance_start: 0,
            instance_end: self.instances.len() as u32,
        }
    }
}

/// A buffer on the device.
#[derive(Clone, Copy, Debug, PartialEq, Eq, Structural)]
pub enum BufferName {
    QuadVertices,
    QuadIndices,
    Instances,
}

/// One step of a frame on the device.
#[derive(Clone, Copy, Debug, PartialEq, Eq, Structural)]
pub enum Command {
    /// Open a command encoder; every later step up to `SubmitEncoder`
    /// records into it.
    CreateEncoder,
    /// Take back the staging regions whose uploads have completed.
    RecallStaging,
    /// Get a staging region of `size` bytes, fill it with the batch's
    /// encoding, and schedule its copy to `offset` in the instance buffer.
    WriteInstances { offset: u64, size: u64 },
    /// Close the staging regions written in this frame.
    FinishStaging,
    /// Begin the render pass: clear the colour target to the grey level
    /// and the depth target to the depth, both given as bit patterns.
    BeginPass { clear_gray: u32, clear_depth: u32 },
    /// Bind the sprite pipeline.
    SetPipeline,
    /// Bind a whole buffer to a vertex buffer slot.
    SetVertexBuffer { slot: u32, buffer: BufferName },
    /// Bind the atlas texture and sampler as the given bind group.
    SetAtlas { group: u32 },
    /// Bind the quad's 16-bit index buffer.
    SetIndexBuffer,
    /// Draw.
    Draw(DrawIndexed),
    /// End the render pass.
    EndPass,
    /// Close the encoder and hand its commands to the device queue.
    SubmitEncoder,
}

/// The steps of a frame whose batch has `count` records, in the order in
/// which they are issued. A frame without records has no steps. Otherwise
/// the upload is recorded before the render pass and into the same
/// encoder, so the copy is complete before the draw reads the instance
/// buffer; the pass consists of a single draw.
pub open spec fn frame_commands_of(count: nat) -> Seq<Command> {
    if count == 0 {
        Seq::empty()
    } else {
        seq![
            Command::CreateEncoder,
            Command::RecallStaging,
            Command::WriteInstances { offset: 0, size: (68 * count) as u64 },
            Command::FinishStaging,
            Command::BeginPass { clear_gray: CLEAR_GRAY, clear_depth: CLEAR_DEPTH },
            Command::SetPipeline,
            Command::SetVertexBuffer { slot: QUAD_VERTEX_SLOT, buffer: BufferName::QuadVertices },
            Command::SetVertexBuffer { slot: INSTANCE_SLOT, buffer: BufferName::Instances },
            Command::SetAtlas { group: ATLAS_BIND_GROUP },
            Command::SetIndexBuffer,
            Command::Draw(draw_of(count)),
            Command::EndPass,
            Command::SubmitEncoder,
        ]
    }
}

/// Number of records in what a submission handed out.
pub open spec fn batch_count(batch: Option<Batch>) -> nat {
    match batch {
        Some(b) => b.instances@.len(),
        None => 0,
    }
}

/// The steps to issue for what a submission handed out: none at all when it
/// handed out nothing.
pub fn frame_commands(batch: &Option<Batch>) -> (c: Vec<Command>)
    requires
        batch.is_some() ==> batch.unwrap().wf(),
    ensures
        c@ == frame_commands_of(batch_count(*batch)),
        batch.is_none() ==> c@.len() == 0,
{
    match batch {
        None => Vec::new(),
        Some(b) => {
            let c = vec![
                Command::CreateEncoder,
                Command::RecallStaging,
                Command::WriteInstances { offset: b.buffer_offset(), size: b.byte_size() },
                Command::FinishStaging,
                Command::BeginPass { clear_gray: CLEAR_GRAY, clear_depth: CLEAR_DEPTH },
                Command::SetPipeline,
                Command::SetVertexBuffer {
                    slot: QUAD_VERTEX_SLOT,
                    buffer: BufferName::QuadVertices,
                },
                Command::SetVertexBuffer { slot: INSTANCE_SLOT, buffer: BufferName::Instances },
                Command::SetAtlas { group: ATLAS_BIND_GROUP },
                Command::SetIndexBuffer,
                Command::Draw(b.draw_command()),
                Command::EndPass,
                Command::SubmitEncoder,
            ];
            assert(c@ =~= frame_commands_of(b.instances@.len()));
            c
        },
    }
}

/// What a renderer holds, as mathematical values.
pub struct RendererState {
    pub projection: Projection,
    pub depth_texture: DepthTexture,
    pub queue: Seq<SpriteInstance>,
}

impl RendererState {
    /// The queue is within its capacity, and projection and depth target
    /// both belong to one and the same window size.
    pub open spec fn wf(self) -> bool {
        &&& self.queue.len() <= MAX_SPRITES_PER_BATCH
        &&& self.depth_texture == depth_texture_of(
            self.depth_texture.width,
            self.depth_texture.height,
        )
        &&& self.projection == projection_of(self.depth_texture.width, self.depth_texture.height)
    }

    /// A new renderer for a window of the given size.
    pub open spec fn init(window_size: (u32, u32)) -> RendererState {
        RendererState {
            projection: projection_of(window_size.0, window_size.1),
            depth_texture: depth_texture_of(window_size.0, window_size.1),
            queue: Seq::empty(),
        }
    }

    /// Whether another record can be drawn.
    pub open spec fn has_room(self) -> bool {
        self.queue.len() < MAX_SPRITES_PER_BATCH
    }

    /// The state after drawing one record.
    pub open spec fn draw(self, instance: SpriteInstance) -> RendererState {
        RendererState { queue: self.queue.push(instance), ..self }
    }

    /// The state after drawing the given records one after the other.
    pub open spec fn draw_all(self, instances: Seq<SpriteInstance>) -> RendererState
        decreases instances.len(),
    {
        if instances.len() == 0 {
            self
        } else {
            self.draw_all(instances.drop_last()).draw(instances.last())
        }
    }

    /// The state after the window took a new size.
    pub open spec fn resize(self, window_size: (u32, u32)) -> RendererState {
        RendererState {
            projection: projection_of(window_size.0, window_size.1),
            depth_texture: depth_texture_of(window_size.0, window_size.1),
            queue: self.queue,
        }
    }

    /// The batch that a submission hands out: none when nothing was drawn.
    pub open spec fn batch(self) -> Option<Seq<SpriteInstance>> {
        if self.queue.len() == 0 {
            None
        } else {
            Some(self.queue)
        }
    }

    /// The state after a submission.
    pub open spec fn submit(self) -> RendererState {
        RendererState { queue: Seq::empty(), ..self }
    }
}

/// The CPU side of a sprite renderer.
pub struct SpriteRenderer {
    proj_matrix: Projection,
    depth_texture: DepthTexture,
    queue: Vec<SpriteInstance>,
}

impl View for SpriteRenderer {
    type V = RendererState;

    closed spec fn view(&self) -> RendererState {
        RendererState {
            projection: self.proj_matrix,
            depth_texture: self.depth_texture,
            queue: self.queue@,
        }
    }
}

impl SpriteRenderer {
    /// Creates a renderer with an empty queue for a window of the given size
    /// (width, height).
    pub fn new(window_size: (u32, u32)) -> (r: SpriteRenderer)
        ensures
            r@ == RendererState::init(window_size),
            r@.wf(),
    {
        SpriteRenderer {
            proj_matrix: compute_proj_matrix(window_size),
            depth_texture: create_depth_texture(window_size),
            queue: Vec::with_capacity(MAX_SPRITES_PER_BATCH as usize),
        }
    }

    /// Appends one record to the queue. Nothing else changes. The queue must
    /// have room for it.
    pub fn draw(&mut self, instance: SpriteInstance)
        requires
            old(self)@.wf(),
            old(self)@.has_room(),
        ensures
            final(self)@ == old(self)@.draw(instance),
            final(self)@.wf(),
    {
        self.queue.push(instance);
    }

    /// Appends one record to the queue if there is room for it. A full queue
    /// is left as it is and reported; the record is never dropped silently.
    pub fn try_draw(&mut self, instance: SpriteInstance) -> (r: Result<(), DrawError>)
        requires
            old(self)@.wf(),
        ensures
            final(self)@.wf(),
            r.is_ok() <==> old(self)@.has_room(),
            r.is_ok() ==> final(self)@ == old(self)@.draw(instance),
            r.is_err() ==> final(self)@ == old(self)@ && r == Err::<(), DrawError>(
                DrawError::QueueFull,
            ),
    {
        if self.is_full() {
            return Err(DrawError::QueueFull);
        }
        self.draw(instance);
        Ok(())
    }

    /// Adopts a new window size: projection and depth target are both
    /// replaced by those of the new size. The queue is left as it is.
    pub fn resize(&mut self, window_size: (u32, u32))
        requires
            old(self)@.wf(),
        ensures
            final(self)@ == old(self)@.resize(window_size),
            final(self)@.wf(),
    {
        self.proj_matrix = compute_proj_matrix(window_size);
        self.depth_texture = create_depth_texture(window_size);
    }

    /// Ends the frame. With an empty queue this returns `None` and changes
    /// nothing. Otherwise it returns the queued records as the frame's
    /// batch, in the order in which they were drawn, and leaves an empty
    /// queue of the same capacity behind.
    pub fn submit(&mut self) -> (batch: Option<Batch>)
        requires
            old(self)@.wf(),
        ensures
            final(self)@ == old(self)@.submit(),
            final(self)@.wf(),
            batch.is_none() <==> old(self)@.queue.len() == 0,
            batch.is_none() ==> final(self)@ == old(self)@,
            batch.is_some() ==> batch.unwrap().instances@ == old(self)@.queue,
            batch.is_some() ==> batch.unwrap().wf(),
    {
        if self.queue.len() == 0 {
            assert(self.queue@ =~= Seq::empty());
            return None;
        }
        let mut taken: Vec<SpriteInstance> = Vec::with_capacity(MAX_SPRITES_PER_BATCH as usize);
        std::mem::swap(&mut self.queue, &mut taken);
        assert(self.queue@ =~= Seq::empty());
        Some(Batch { instances: taken })
    }

    /// Number of records in the queue.
    pub fn len(&self) -> (n: usize)
        ensures
            n == self@.queue.len(),
    {
        self.queue.len()
    }

    /// Whether nothing was drawn since the last submission.
    pub fn is_empty(&self) -> (b: bool)
        ensures
            b == (self@.queue.len() == 0),
    {
        self.queue.len() == 0
    }

    /// Whether the queue has reached its capacity, so that `draw` may not be
    /// called.
    pub fn is_full(&self) -> (b: bool)
        ensures
            b == !self@.has_room(),
    {
        self.queue.len() as u64 >= MAX_SPRITES_PER_BATCH
    }

    /// Largest number of records that the queue takes.
    pub fn capacity(&self) -> (n: usize)
        ensures
            n == MAX_SPRITES_PER_BATCH,
    {
        MAX_SPRITES_PER_BATCH as usize
    }

    /// The projection for the current window size.
    pub fn projection(&self) -> (p: Projection)
        ensures
            p == self@.projection,
    {
        self.proj_matrix
    }

    /// The description of the depth target for the current window size.
    pub fn depth_texture(&self) -> (d: DepthTexture)
        ensures
            d == self@.depth_texture,
    {
        self.depth_texture
    }
}

/// Drawing any `n` records into an empty queue, with `n` within the
/// capacity, never meets a full queue, and the queue then holds exactly
/// these records in the order in which they were drawn.
pub proof fn lemma_draws_accumulate(s: RendererState, instances: Seq<SpriteInstance>)
    requires
        s.wf(),
        s.queue.len() == 0,
        instances.len() <= MAX_SPRITES_PER_BATCH,
    ensures
        s.draw_all(instances).wf(),
        s.draw_all(instances).queue == instances,
        s.draw_all(instances).projection == s.projection,
        s.draw_all(instances).depth_texture == s.depth_texture,
        forall|k: int|
            0 <= k < instances.len() ==> (#[trigger] s.draw_all(instances.take(k))).has_room(),
    decreases instances.len(),
{
    if instances.len() == 0 {
        assert(s.queue =~= instances);
    } else {
        let front = instances.drop_last();
        lemma_draws_accumulate(s, front);
        assert(s.draw_all(instances).queue =~= instances);
        assert forall|k: int| 0 <= k < instances.len() implies (#[trigger] s.draw_all(
            instances.take(k),
        )).has_room() by {
            if k < front.len() {
                assert(instances.take(k) =~= front.take(k));
            } else {
                assert(instances.take(k) =~= front);
            }
        }
    }
}

/// The batch submitted after `n` draws into an empty queue, `n` within the
/// capacity, is exactly the drawn records in drawing order; it is absent
/// only when `n` is zero.
pub proof fn lemma_submitted_batch(s: RendererState, instances: Seq<SpriteInstance>)
    requires
        s.wf(),
        s.queue.len() == 0,
        instances.len() <= MAX_SPRITES_PER_BATCH,
    ensures
        instances.len() > 0 ==> s.draw_all(instances).batch() == Some(instances),
        instances.len() == 0 ==> s.draw_all(instances).batch().is_none(),
        batch_bytes(s.draw_all(instances).queue) == batch_bytes(instances),
{
    lemma_draws_accumulate(s, instances);
}

/// Submitting an empty queue hands out nothing, changes nothing, and has
/// no step issued to the device.
pub proof fn lemma_submit_empty(s: RendererState)
    requires
        s.queue.len() == 0,
    ensures
        s.batch().is_none(),
        s.submit() == s,
        frame_commands_of(s.queue.len()) == Seq::<Command>::empty(),
{
    assert(s.queue =~= Seq::empty());
}

/// After any submission the queue is empty, everything else is as before,
/// and a second submission right away hands out nothing and changes
/// nothing.
pub proof fn lemma_submit_resets(s: RendererState)
    requires
        s.wf(),
    ensures
        s.submit().wf(),
        s.submit().queue.len() == 0,
        s.submit().projection == s.projection,
        s.submit().depth_texture == s.depth_texture,
        s.submit().batch().is_none(),
        s.submit().submit() == s.submit(),
{
}

/// After a resize, every record drawn and every submission made work with
/// the projection and the depth target of the new window size, whatever the
/// size was before and however many records follow.
pub proof fn lemma_resize_then_frame(
    s: RendererState,
    window_size: (u32, u32),
    instances: Seq<SpriteInstance>,
)
    requires
        s.wf(),
    ensures
        s.resize(window_size).wf(),
        s.resize(window_size).has_room() == s.has_room(),
        s.resize(window_size).draw_all(instances).projection == projection_of(
            window_size.0,
            window_size.1,
        ),
        s.resize(window_size).draw_all(instances).depth_texture == depth_texture_of(
            window_size.0,
            window_size.1,
        ),
        s.resize(window_size).draw_all(instances).depth_texture.width == window_size.0,
        s.resize(window_size).draw_all(instances).depth_texture.height == window_size.1,
        s.resize(window_size).draw_all(instances).queue == s.queue + instances,
        s.resize(window_size).draw_all(instances).submit().projection == projection_of(
            window_size.0,
            window_size.1,
        ),
        s.resize(window_size).draw_all(instances).submit().depth_texture == depth_texture_of(
            window_size.0,
            window_size.1,
        ),
        s.queue.len() + instances.len() <= MAX_SPRITES_PER_BATCH ==> s.resize(
            window_size,
        ).draw_all(instances).wf(),
    decreases instances.len(),
{
    let r = s.resize(window_size);
    if instances.len() == 0 {
        assert(r.draw_all(instances).queue =~= s.queue + instances);
    } else {
        lemma_resize_then_frame(s, window_size, instances.drop_last());
        assert(r.draw_all(instances).queue =~= s.queue + instances);
    }
}

} // verus!
