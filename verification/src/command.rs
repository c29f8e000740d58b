//! The GPU calls that the rendering core issues, as plain values.
//!
//! The core never talks to the GPU itself. It plans each call as a
//! [`GlCommand`]; whoever owns the GPU context carries the commands out in
//! the order given.

use vstd::prelude::*;
use crate::layout::ElementType;

verus! {

/// How often uploaded buffer data is expected to change.
#[derive(Clone, Copy, Debug, PartialEq, Eq, Structural)]
pub enum UsageHint {
    StreamDraw,
    StaticDraw,
    DynamicDraw,
}

/// A colour with 8 bits per channel.
#[derive(Clone, Copy, Debug, PartialEq, Eq, Structural)]
pub struct Rgba {
    pub red: u8,
    pub green: u8,
    pub blue: u8,
    pub alpha: u8,
}

/// One call into the GPU interface.
#[derive(Clone, Debug, PartialEq, Eq)]
pub enum GlCommand {
    /// Bind the vertex array object `array`; zero unbinds.
    BindVertexArray { array: u32 },
    /// Bind the buffer object `buffer` as the array buffer; zero unbinds.
    BindArrayBuffer { buffer: u32 },
    /// Upload `data`, which is `bytes` bytes, into the bound array buffer.
    ArrayBufferData { bytes: i64, data: Vec<u32>, usage: UsageHint },
    /// Enable the attribute slot `index` of the bound vertex array.
    EnableVertexAttribArray { index: u32 },
    /// Describe the attribute in slot `index`: `size` elements of
    /// `element_type`, `offset` bytes into each vertex, vertices `stride`
    /// bytes apart.
    VertexAttribPointer {
        index: u32,
        size: i32,
        element_type: ElementType,
        normalized: bool,
        stride: i32,
        offset: usize,
    },
    /// Draw `count` vertices of the bound vertex array as a triangle list,
    /// starting at vertex `first`.
    DrawTriangles { first: i32, count: i32 },
    /// Set the viewport rectangle in pixels.
    Viewport { x: i32, y: i32, width: i32, height: i32 },
    /// Set the colour that clearing fills the colour buffer with.
    ClearColor { color: Rgba },
    /// Clear the colour buffer.
    ClearColorBuffer,
    /// Release the buffer object `buffer`.
    DeleteBuffer { buffer: u32 },
    /// Release the vertex array object `array`.
    DeleteVertexArray { array: u32 },
}

/// The two binding points that geometry setup and drawing touch.
pub struct Bindings {
    pub vertex_array: u32,
    pub array_buffer: u32,
}

impl GlCommand {
    /// Whether this command draws.
    pub open spec fn is_draw_call(self) -> bool {
        self is DrawTriangles
    }

    /// The binding points after this command, given those before it.
    pub open spec fn rebind(self, before: Bindings) -> Bindings {
        match self {
            GlCommand::BindVertexArray { array } => Bindings { vertex_array: array, ..before },
            GlCommand::BindArrayBuffer { buffer } => Bindings { array_buffer: buffer, ..before },
            _ => before,
        }
    }
}

/// Number of draw calls among `commands`.
pub open spec fn draw_call_count(commands: Seq<GlCommand>) -> nat
    decreases commands.len(),
{
    if commands.len() == 0 {
        0
    } else {
        draw_call_count(commands.drop_last()) + if commands.last().is_draw_call() {
            1nat
        } else {
            0nat
        }
    }
}

/// The binding points after `commands` have run in order, given those
/// before the first of them.
pub open spec fn bindings_after(before: Bindings, commands: Seq<GlCommand>) -> Bindings
    decreases commands.len(),
{
    if commands.len() == 0 {
        before
    } else {
        commands.last().rebind(bindings_after(before, commands.drop_last()))
    }
}

/// Running two runs of commands one after the other rebinds as the first
/// run and then the second.
pub proof fn lemma_bindings_after_concat(
    before: Bindings,
    first: Seq<GlCommand>,
    second: Seq<GlCommand>,
)
    ensures
        bindings_after(before, first + second) == bindings_after(
            bindings_after(before, first),
            second,
        ),
    decreases second.len(),
{
    if second.len() == 0 {
        assert(first + second =~= first);
    } else {
        lemma_bindings_after_concat(before, first, second.drop_last());
        assert((first + second).drop_last() =~= first + second.drop_last());
        assert((first + second).last() == second.last());
    }
}

/// The draw calls of two runs of commands add up.
pub proof fn lemma_draw_call_count_concat(first: Seq<GlCommand>, second: Seq<GlCommand>)
    ensures
        draw_call_count(first + second) == draw_call_count(first) + draw_call_count(second),
    decreases second.len(),
{
    if second.len() == 0 {
        assert(first + second =~= first);
    } else {
        lemma_draw_call_count_concat(first, second.drop_last());
        assert((first + second).drop_last() =~= first + second.drop_last());
        assert((first + second).last() == second.last());
    }
}

} // verus!
