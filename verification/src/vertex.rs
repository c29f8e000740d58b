//! The geometry buffer: one vertex array object and its backing buffer
//! object, with the command plans that configure, draw and release them.

use vstd::prelude::*;
use crate::command::{
    bindings_after, draw_call_count, lemma_bindings_after_concat, lemma_draw_call_count_concat,
    Bindings, GlCommand, UsageHint,
};
use crate::layout::{
    attribute_offset, data_matches, layout_representable, layout_stride, lemma_offset_bounds,
    lemma_offset_step, Attribute, AttributeLayout, WORD_BYTES,
};

verus! {

/// Why the GPU resources of a geometry buffer could not be created. Nothing
/// can be rendered without them.
#[derive(Clone, Copy, Debug, PartialEq, Eq, Structural)]
pub enum FatalInitError {
    /// The GPU handed out no vertex array object.
    ArrayObject,
    /// The GPU handed out no buffer object.
    BufferObject,
}

/// What a geometry buffer is: its two GPU handles, the number of vertices it
/// draws and the layout of one vertex.
pub struct VertexView {
    pub array_handle: u32,
    pub buffer_handle: u32,
    pub vertex_count: i32,
    pub layout: Seq<Attribute>,
}

/// Static geometry on the GPU. Owns its vertex array object and buffer
/// object; both live until [`Vertex::destroy`].
#[derive(Debug, PartialEq, Eq)]
pub struct Vertex {
    vao: u32,
    vbo: u32,
    vertex_num: i32,
    layout: AttributeLayout,
}

impl View for Vertex {
    type V = VertexView;

    closed spec fn view(&self) -> VertexView {
        VertexView {
            array_handle: self.vao,
            buffer_handle: self.vbo,
            vertex_count: self.vertex_num,
            layout: self.layout@,
        }
    }
}

impl VertexView {
    /// Both handles name GPU objects, there is a vertex to draw, and the
    /// layout is one the GPU interface can take.
    pub open spec fn well_formed(self) -> bool {
        &&& self.array_handle != 0
        &&& self.buffer_handle != 0
        &&& self.vertex_count > 0
        &&& layout_representable(self.layout)
    }
}

/// The two commands that bind attribute slot `index`: enable the slot, then
/// describe it.
pub open spec fn attribute_binding(layout: Seq<Attribute>, index: int) -> Seq<GlCommand> {
    seq![
        GlCommand::EnableVertexAttribArray { index: index as u32 },
        GlCommand::VertexAttribPointer {
            index: index as u32,
            size: layout[index].element_count as i32,
            element_type: layout[index].element_type,
            normalized: false,
            stride: layout_stride(layout) as i32,
            offset: attribute_offset(layout, index) as usize,
        },
    ]
}

/// The bindings of the first `count` attribute slots, in declaration order.
pub open spec fn attribute_bindings(layout: Seq<Attribute>, count: int) -> Seq<GlCommand>
    decreases count,
{
    if count <= 0 {
        Seq::empty()
    } else {
        attribute_bindings(layout, count - 1) + attribute_binding(layout, count - 1)
    }
}

/// Everything that configures a geometry buffer: bind both objects, upload
/// the raw data, bind every attribute slot in declaration order, unbind the
/// buffer and the array.
pub open spec fn setup_commands(
    array_handle: u32,
    buffer_handle: u32,
    raw_data: Vec<u32>,
    usage: UsageHint,
    layout: Seq<Attribute>,
) -> Seq<GlCommand> {
    seq![
        GlCommand::BindVertexArray { array: array_handle },
        GlCommand::BindArrayBuffer { buffer: buffer_handle },
        GlCommand::ArrayBufferData {
            bytes: (WORD_BYTES * raw_data@.len()) as i64,
            data: raw_data,
            usage,
        },
    ] + attribute_bindings(layout, layout.len() as int) + seq![
        GlCommand::BindArrayBuffer { buffer: 0 },
        GlCommand::BindVertexArray { array: 0 },
    ]
}

/// Everything that draws a geometry buffer: bind the array, draw all its
/// vertices as one triangle list from vertex 0, unbind.
pub open spec fn draw_commands(vertex: VertexView) -> Seq<GlCommand> {
    seq![
        GlCommand::BindVertexArray { array: vertex.array_handle },
        GlCommand::DrawTriangles { first: 0, count: vertex.vertex_count },
        GlCommand::BindVertexArray { array: 0 },
    ]
}

/// Everything that releases a geometry buffer: the buffer object, then the
/// vertex array object.
pub open spec fn destroy_commands(vertex: VertexView) -> Seq<GlCommand> {
    seq![
        GlCommand::DeleteBuffer { buffer: vertex.buffer_handle },
        GlCommand::DeleteVertexArray { array: vertex.array_handle },
    ]
}

/// The bindings of `count` attribute slots are two commands per slot, and
/// slot `index` is enabled and then described.
proof fn lemma_attribute_bindings_index(layout: Seq<Attribute>, count: int, index: int)
    requires
        0 <= index < count,
    ensures
        attribute_bindings(layout, count).len() == 2 * count,
        attribute_bindings(layout, count)[2 * index] == attribute_binding(layout, index)[0],
        attribute_bindings(layout, count)[2 * index + 1] == attribute_binding(layout, index)[1],
    decreases count,
{
    lemma_attribute_bindings_len(layout, count - 1);
    if index < count - 1 {
        lemma_attribute_bindings_index(layout, count - 1, index);
    }
}

proof fn lemma_attribute_bindings_len(layout: Seq<Attribute>, count: int)
    requires
        0 <= count,
    ensures
        attribute_bindings(layout, count).len() == 2 * count,
    decreases count,
{
    if count > 0 {
        lemma_attribute_bindings_len(layout, count - 1);
    }
}

proof fn lemma_attribute_bindings_inert(before: Bindings, layout: Seq<Attribute>, count: int)
    requires
        0 <= count,
    ensures
        bindings_after(before, attribute_bindings(layout, count)) == before,
        draw_call_count(attribute_bindings(layout, count)) == 0,
    decreases count,
{
    if count > 0 {
        let front = attribute_bindings(layout, count - 1);
        let slot = attribute_binding(layout, count - 1);
        lemma_attribute_bindings_inert(before, layout, count - 1);
        lemma_bindings_after_concat(before, front, slot);
        lemma_draw_call_count_concat(front, slot);
        reveal_with_fuel(bindings_after, 3);
        reveal_with_fuel(draw_call_count, 3);
        assert(slot.drop_last() =~= seq![slot[0]]);
        assert(slot.drop_last().drop_last() =~= Seq::<GlCommand>::empty());
    }
}

/// Configuration is five commands and two more per attribute. For every
/// attribute, in declaration order, it enables the slot of that ordinal and
/// then describes it with the attribute's element type and count, the stride
/// of the whole layout, and the byte offset of everything declared before
/// the attribute.
pub proof fn setup_binds_every_attribute(
    array_handle: u32,
    buffer_handle: u32,
    raw_data: Vec<u32>,
    usage: UsageHint,
    layout: Seq<Attribute>,
    index: int,
)
    requires
        layout_representable(layout),
        0 <= index < layout.len(),
    ensures
        ({
            let commands = setup_commands(array_handle, buffer_handle, raw_data, usage, layout);
            &&& commands.len() == 5 + 2 * layout.len()
            &&& commands[3 + 2 * index] matches GlCommand::EnableVertexAttribArray { index: slot }
            &&& slot == index
            &&& commands[4 + 2 * index] matches GlCommand::VertexAttribPointer {
                index: described,
                size,
                element_type,
                normalized,
                stride,
                offset,
            }
            &&& described == index
            &&& size == layout[index].element_count
            &&& element_type == layout[index].element_type
            &&& !normalized
            &&& stride == layout_stride(layout)
            &&& offset == attribute_offset(layout, index)
        }),
{
    lemma_attribute_bindings_index(layout, layout.len() as int, index);
    lemma_offset_bounds(layout, index);
    lemma_offset_bounds(layout, index + 1);
    lemma_offset_step(layout, index);
    let attribute = layout[index];
    assert(attribute.element_count <= attribute.byte_size()) by (nonlinear_arith)
        requires
            attribute.byte_size() == attribute.element_count * attribute.element_type.size_spec(),
            attribute.element_type.size_spec() >= 1,
    ;
}

/// Configuration starts by binding the array and the buffer and uploading
/// the raw data as it is, four bytes per word, and ends with both binding
/// points unbound, whatever was bound before.
pub proof fn setup_leaves_nothing_bound(
    before: Bindings,
    array_handle: u32,
    buffer_handle: u32,
    raw_data: Vec<u32>,
    usage: UsageHint,
    layout: Seq<Attribute>,
)
    requires
        WORD_BYTES * raw_data@.len() <= i64::MAX,
    ensures
        ({
            let commands = setup_commands(array_handle, buffer_handle, raw_data, usage, layout);
            &&& commands[0] == GlCommand::BindVertexArray { array: array_handle }
            &&& commands[1] == GlCommand::BindArrayBuffer { buffer: buffer_handle }
            &&& commands[2] matches GlCommand::ArrayBufferData { bytes, data, usage: hint }
            &&& bytes == WORD_BYTES * raw_data@.len()
            &&& data@ == raw_data@
            &&& hint == usage
            &&& bindings_after(before, commands) == Bindings { vertex_array: 0, array_buffer: 0 }
            &&& draw_call_count(commands) == 0
        }),
{
    let head = seq![
        GlCommand::BindVertexArray { array: array_handle },
        GlCommand::BindArrayBuffer { buffer: buffer_handle },
        GlCommand::ArrayBufferData {
            bytes: (WORD_BYTES * raw_data@.len()) as i64,
            data: raw_data,
            usage,
        },
    ];
    let slots = attribute_bindings(layout, layout.len() as int);
    let tail = seq![
        GlCommand::BindArrayBuffer { buffer: 0 },
        GlCommand::BindVertexArray { array: 0 },
    ];
    lemma_bindings_after_concat(before, head + slots, tail);
    lemma_bindings_after_concat(before, head, slots);
    lemma_draw_call_count_concat(head + slots, tail);
    lemma_draw_call_count_concat(head, slots);
    lemma_attribute_bindings_inert(bindings_after(before, head), layout, layout.len() as int);
    reveal_with_fuel(bindings_after, 3);
    reveal_with_fuel(draw_call_count, 4);
    assert(tail.drop_last() =~= seq![tail[0]]);
    assert(tail.drop_last().drop_last() =~= Seq::<GlCommand>::empty());
    assert(head.drop_last() =~= seq![head[0], head[1]]);
    assert(head.drop_last().drop_last() =~= seq![head[0]]);
    assert(head.drop_last().drop_last().drop_last() =~= Seq::<GlCommand>::empty());
}

/// A draw is exactly one draw call, of the triangle list of all the
/// buffer's vertices from vertex 0, between binding its array and unbinding
/// it. The layout has no part in it: two buffers that differ in nothing but
/// their layout draw alike.
pub proof fn draw_is_one_call(before: Bindings, vertex: VertexView, other_layout: Seq<Attribute>)
    ensures
        draw_call_count(draw_commands(vertex)) == 1,
        draw_commands(vertex).len() == 3,
        draw_commands(vertex)[0] == (GlCommand::BindVertexArray { array: vertex.array_handle }),
        draw_commands(vertex)[1] == (GlCommand::DrawTriangles {
            first: 0,
            count: vertex.vertex_count,
        }),
        bindings_after(before, draw_commands(vertex)) == (Bindings { vertex_array: 0, ..before }),
        draw_commands(VertexView { layout: other_layout, ..vertex }) == draw_commands(vertex),
{
    let commands = draw_commands(vertex);
    reveal_with_fuel(bindings_after, 4);
    reveal_with_fuel(draw_call_count, 4);
    assert(commands.drop_last() =~= seq![commands[0], commands[1]]);
    assert(commands.drop_last().drop_last() =~= seq![commands[0]]);
    assert(commands.drop_last().drop_last().drop_last() =~= Seq::<GlCommand>::empty());
}

impl Vertex {
    #[verifier::type_invariant]
    spec fn handles_valid(&self) -> bool {
        &&& self.vao != 0
        &&& self.vbo != 0
        &&& self.vertex_num > 0
        &&& layout_representable(self.layout@)
    }

    /// Makes the geometry buffer for `vertex_count` vertices of `layout`
    /// held in `raw_data`, and plans its configuration.
    ///
    /// `array_handle` and `buffer_handle` are what the GPU handed out for one
    /// vertex array object and one buffer object; zero means that it handed
    /// out none, and construction fails. `raw_data` holds the vertex data as
    /// 32-bit words, uploaded as they are.
    pub fn new(
        array_handle: u32,
        buffer_handle: u32,
        raw_data: Vec<u32>,
        usage: UsageHint,
        layout: AttributeLayout,
        vertex_count: i32,
    ) -> (created: Result<(Vertex, Vec<GlCommand>), FatalInitError>)
        requires
            vertex_count > 0,
            data_matches(layout@, raw_data@.len() as int, vertex_count as int),
        ensures
            array_handle == 0 ==> created == Err::<(Vertex, Vec<GlCommand>), _>(
                FatalInitError::ArrayObject,
            ),
            array_handle != 0 && buffer_handle == 0 ==> created == Err::<
                (Vertex, Vec<GlCommand>),
                _,
            >(FatalInitError::BufferObject),
            array_handle != 0 && buffer_handle != 0 ==> created is Ok,
            created matches Ok((vertex, commands)) ==> {
                &&& vertex@ == (VertexView {
                    array_handle,
                    buffer_handle,
                    vertex_count,
                    layout: layout@,
                })
                &&& vertex@.well_formed()
                &&& commands@ == setup_commands(
                    array_handle,
                    buffer_handle,
                    raw_data,
                    usage,
                    layout@,
                )
            },
    {
        if array_handle == 0 {
            return Err(FatalInitError::ArrayObject);
        }
        if buffer_handle == 0 {
            return Err(FatalInitError::BufferObject);
        }
        let stride: i32 = layout.stride();
        let count: usize = layout.len();
        let words: usize = raw_data.len();
        assert(0 <= vertex_count * stride <= 0x4000_0000_0000_0000) by (nonlinear_arith)
            requires
                0 < vertex_count <= 0x7fff_ffff,
                0 <= stride <= 0x7fff_ffff,
        ;
        let bytes: i64 = 4 * (words as i64);
        let ghost head = seq![
            GlCommand::BindVertexArray { array: array_handle },
            GlCommand::BindArrayBuffer { buffer: buffer_handle },
            GlCommand::ArrayBufferData { bytes, data: raw_data, usage },
        ];
        let mut commands: Vec<GlCommand> = Vec::new();
        commands.push(GlCommand::BindVertexArray { array: array_handle });
        commands.push(GlCommand::BindArrayBuffer { buffer: buffer_handle });
        commands.push(GlCommand::ArrayBufferData { bytes, data: raw_data, usage });
        assert(commands@ =~= head);

        let mut offset: usize = 0;
        let mut index: usize = 0;
        proof {
            lemma_offset_bounds(layout@, 0);
        }
        while index < count
            invariant
                count == layout@.len(),
                index <= count,
                layout_representable(layout@),
                stride == layout_stride(layout@),
                offset == attribute_offset(layout@, index as int),
                commands@ == head + attribute_bindings(layout@, index as int),
            decreases count - index,
        {
            let attribute: Attribute = layout.attribute(index);
            let width: u64 = attribute.size_bytes();
            proof {
                lemma_offset_step(layout@, index as int);
                lemma_offset_bounds(layout@, index as int + 1);
                assert(attribute.element_count <= attribute.byte_size()) by (nonlinear_arith)
                    requires
                        attribute.byte_size() == attribute.element_count
                            * attribute.element_type.size_spec(),
                        attribute.element_type.size_spec() >= 1,
                ;
            }
            commands.push(GlCommand::EnableVertexAttribArray { index: index as u32 });
            commands.push(
                GlCommand::VertexAttribPointer {
                    index: index as u32,
                    size: attribute.element_count as i32,
                    element_type: attribute.element_type,
                    normalized: false,
                    stride,
                    offset,
                },
            );
            assert(commands@ =~= head + attribute_bindings(layout@, index as int + 1));
            offset = offset + width as usize;
            index = index + 1;
        }

        commands.push(GlCommand::BindArrayBuffer { buffer: 0 });
        commands.push(GlCommand::BindVertexArray { array: 0 });
        assert(commands@ =~= setup_commands(
            array_handle,
            buffer_handle,
            raw_data,
            usage,
            layout@,
        ));
        let vertex = Vertex { vao: array_handle, vbo: buffer_handle, vertex_num: vertex_count, layout };
        Ok((vertex, commands))
    }

    /// Plans one draw of the whole buffer.
    pub fn draw(&self) -> (commands: Vec<GlCommand>)
        ensures
            commands@ == draw_commands(self@),
            self@.well_formed(),
    {
        proof {
            use_type_invariant(self);
        }
        let mut commands: Vec<GlCommand> = Vec::new();
        commands.push(GlCommand::BindVertexArray { array: self.vao });
        commands.push(GlCommand::DrawTriangles { first: 0, count: self.vertex_num });
        commands.push(GlCommand::BindVertexArray { array: 0 });
        assert(commands@ =~= draw_commands(self@));
        commands
    }

    /// Gives up the buffer and plans the release of its GPU objects.
    pub fn destroy(self) -> (commands: Vec<GlCommand>)
        ensures
            commands@ == destroy_commands(self@),
    {
        let mut commands: Vec<GlCommand> = Vec::new();
        commands.push(GlCommand::DeleteBuffer { buffer: self.vbo });
        commands.push(GlCommand::DeleteVertexArray { array: self.vao });
        assert(commands@ =~= destroy_commands(self@));
        commands
    }

    /// Handle of the vertex array object.
    pub fn array_handle(&self) -> (handle: u32)
        ensures
            handle == self@.array_handle,
            handle != 0,
    {
        proof {
            use_type_invariant(self);
        }
        self.vao
    }

    /// Handle of the buffer object.
    pub fn buffer_handle(&self) -> (handle: u32)
        ensures
            handle == self@.buffer_handle,
            handle != 0,
    {
        proof {
            use_type_invariant(self);
        }
        self.vbo
    }

    /// Number of vertices that one draw covers.
    pub fn vertex_count(&self) -> (count: i32)
        ensures
            count == self@.vertex_count,
            count > 0,
    {
        proof {
            use_type_invariant(self);
        }
        self.vertex_num
    }

    /// Layout of one vertex.
    pub fn layout(&self) -> (layout: &AttributeLayout)
        ensures
            layout@ == self@.layout,
    {
        &self.layout
    }
}

} // verus!
