//! The two commands of a frame: one write into the parameter buffer, one draw.
//!
//! The renderer decides the commands; the host performs them on its queue
//! and in its render pass, in the order in which they are handed out.
use crate::app_state::{AppState, BIND_GROUP, INSTANCE_COUNT, VERTEX_COUNT};
use crate::fv_render_callback::FvRenderCallback;
use crate::uniforms::{Uniforms, UNIFORMS_SIZE};
use vstd::prelude::*;

verus! {

/// A command for the host to perform.
#[derive(Debug, PartialEq, Eq)]
pub enum GpuCommand {
    /// Copy `data` into the parameter buffer, from byte `offset` on.
    WriteBuffer { offset: u64, data: Vec<u8> },
    /// Bind the pipeline, bind the parameter buffer's group at index
    /// `bind_group` without dynamic offsets, and draw `vertex_count` vertices
    /// from `first_vertex` on, `instance_count` times from `first_instance`
    /// on.
    Draw {
        bind_group: u32,
        first_vertex: u32,
        vertex_count: u32,
        first_instance: u32,
        instance_count: u32,
    },
}

/// A command as a mathematical value.
pub enum Command {
    Write { offset: u64, data: Seq<u8> },
    Draw {
        bind_group: u32,
        first_vertex: u32,
        vertex_count: u32,
        first_instance: u32,
        instance_count: u32,
    },
}

impl View for GpuCommand {
    type V = Command;

    open spec fn view(&self) -> Command {
        match *self {
            GpuCommand::WriteBuffer { offset, data } => Command::Write { offset, data: data@ },
            GpuCommand::Draw {
                bind_group,
                first_vertex,
                vertex_count,
                first_instance,
                instance_count,
            } => Command::Draw {
                bind_group,
                first_vertex,
                vertex_count,
                first_instance,
                instance_count,
            },
        }
    }
}

/// The commands of a recorded stream as mathematical values.
pub open spec fn commands(stream: Seq<GpuCommand>) -> Seq<Command> {
    stream.map_values(|command: GpuCommand| command@)
}

/// The write of a frame: the whole block, from the start of the buffer.
pub open spec fn write_of(block: Uniforms) -> Command {
    Command::Write { offset: 0, data: block.bytes() }
}

/// The draw of a frame. It is the same for every frame and every renderer:
/// the parameter buffer's group at index 0, six vertices from the first on,
/// drawn once.
pub open spec fn draw_of() -> Command {
    Command::Draw {
        bind_group: BIND_GROUP,
        first_vertex: 0,
        vertex_count: VERTEX_COUNT,
        first_instance: 0,
        instance_count: INSTANCE_COUNT,
    }
}

/// The commands of one frame that shows `block`: its write, then the draw.
pub open spec fn frame(block: Uniforms) -> Seq<Command> {
    seq![write_of(block), draw_of()]
}

/// The commands of the frames that show `blocks`, one frame after the other.
pub open spec fn frames(blocks: Seq<Uniforms>) -> Seq<Command>
    decreases blocks.len(),
{
    if blocks.len() == 0 {
        Seq::empty()
    } else {
        frames(blocks.drop_last()) + frame(blocks.last())
    }
}

/// What a buffer holds after a command, if it held `before`. A write that
/// lies within the buffer replaces the bytes that it covers; a write that
/// does not, and a draw, leave the buffer as it is.
pub open spec fn buffer_after(before: Seq<u8>, command: Command) -> Seq<u8> {
    match command {
        Command::Write { offset, data } => if offset + data.len() <= before.len() {
            before.subrange(0, offset as int) + data + before.subrange(
                offset + data.len(),
                before.len() as int,
            )
        } else {
            before
        },
        Command::Draw { .. } => before,
    }
}

/// What a buffer holds after the commands of `stream`, if it held `before`.
pub open spec fn buffer_after_all(before: Seq<u8>, stream: Seq<Command>) -> Seq<u8>
    decreases stream.len(),
{
    if stream.len() == 0 {
        before
    } else {
        buffer_after(buffer_after_all(before, stream.drop_last()), stream.last())
    }
}

/// The renderer of the fractal: the objects that it draws with.
#[derive(Clone, Copy, Debug, PartialEq, Eq)]
pub struct FvRenderer {
    pub state: AppState,
}

impl FvRenderer {
    /// The write that brings the callback's block into the parameter buffer.
    pub fn prepare(&self, callback: &FvRenderCallback) -> (command: GpuCommand)
        ensures
            command@ == write_of(callback.uniforms),
    {
        GpuCommand::WriteBuffer { offset: 0, data: callback.uniforms.to_bytes() }
    }

    /// The draw of the fractal: group 0, six vertices, once, whatever the
    /// renderer holds.
    pub fn paint(&self) -> (command: GpuCommand)
        ensures
            command@ == draw_of(),
            command@ == (Command::Draw {
                bind_group: 0,
                first_vertex: 0,
                vertex_count: 6,
                first_instance: 0,
                instance_count: 1,
            }),
    {
        GpuCommand::Draw {
            bind_group: BIND_GROUP,
            first_vertex: 0,
            vertex_count: VERTEX_COUNT,
            first_instance: 0,
            instance_count: INSTANCE_COUNT,
        }
    }

    /// Records the commands of one frame at the end of `stream`: the write of
    /// the callback's block, then the draw.
    pub fn render_frame(&self, callback: &FvRenderCallback, stream: &mut Vec<GpuCommand>)
        ensures
            commands(final(stream)@) == commands(old(stream)@) + frame(callback.uniforms),
    {
        let write = callback.prepare(self);
        let draw = callback.paint(self);
        stream.push(write);
        stream.push(draw);
        assert(commands(stream@) =~= commands(old(stream)@) + frame(callback.uniforms));
    }
}

/// Every frame is one write directly followed by one draw, and the write is
/// that of the frame's own block: in the commands of any run of frames, the
/// two commands at the places of frame `i` are the write of block `i` and the
/// draw, and there are no other commands.
pub proof fn lemma_frames_alternate(blocks: Seq<Uniforms>)
    ensures
        frames(blocks).len() == 2 * blocks.len(),
        forall|i: int|
            0 <= i < blocks.len() ==> frames(blocks)[2 * i] == write_of(#[trigger] blocks[i])
                && frames(blocks)[2 * i + 1] == draw_of(),
    decreases blocks.len(),
{
    if blocks.len() > 0 {
        let earlier = blocks.drop_last();
        lemma_frames_alternate(earlier);
        assert forall|i: int| 0 <= i < blocks.len() implies frames(blocks)[2 * i] == write_of(
            #[trigger] blocks[i],
        ) && frames(blocks)[2 * i + 1] == draw_of() by {
            if i < earlier.len() {
                assert(earlier[i] == blocks[i]);
            }
        }
    }
}

/// The commands of a run of frames start with the commands of each shorter
/// run.
pub proof fn lemma_frames_prefix(blocks: Seq<Uniforms>, n: int)
    requires
        0 <= n <= blocks.len(),
    ensures
        frames(blocks.take(n)) == frames(blocks).take(2 * n),
    decreases blocks.len(),
{
    lemma_frames_alternate(blocks);
    if n == blocks.len() {
        assert(blocks.take(n) =~= blocks);
        assert(frames(blocks).take(2 * n) =~= frames(blocks));
    } else {
        let earlier = blocks.drop_last();
        lemma_frames_prefix(earlier, n);
        lemma_frames_alternate(earlier);
        assert(earlier.take(n) =~= blocks.take(n));
        assert(frames(earlier).take(2 * n) =~= frames(blocks).take(2 * n));
    }
}

/// No frame is drawn with another frame's parameters: when the draw of frame
/// `i` is reached, a buffer of the block's size holds the bytes of block `i`,
/// whatever it held at the start.
pub proof fn lemma_draw_sees_own_block(blocks: Seq<Uniforms>, before: Seq<u8>, i: int)
    requires
        before.len() == UNIFORMS_SIZE,
        0 <= i < blocks.len(),
    ensures
        frames(blocks)[2 * i + 1] == draw_of(),
        buffer_after_all(before, frames(blocks).take(2 * i + 1)) == blocks[i].bytes(),
{
    lemma_frames_alternate(blocks);
    let stream = frames(blocks).take(2 * i + 1);
    assert(stream.last() == write_of(blocks[i]));
    let held = buffer_after_all(before, stream.drop_last());
    lemma_buffer_keeps_size(before, stream.drop_last());
    assert(buffer_after(held, write_of(blocks[i])) =~= blocks[i].bytes());
}

/// No command changes the size of the buffer.
pub proof fn lemma_buffer_keeps_size(before: Seq<u8>, stream: Seq<Command>)
    ensures
        buffer_after_all(before, stream).len() == before.len(),
    decreases stream.len(),
{
    if stream.len() > 0 {
        lemma_buffer_keeps_size(before, stream.drop_last());
    }
}

} // verus!
