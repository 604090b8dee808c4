//! Vertex arrays and typed buffers.
//!
//! A buffer has a kind: the target that it binds to, the type of its elements and
//! the hint under which it is filled. Not every target takes every element type.
//! The kind is checked when it is made, so that no buffer of a kind outside the
//! relation exists and none is ever put before the driver.

use vstd::prelude::*;
use crate::attributes::AttributeType;
use crate::codes;
use crate::command::{CallerError, Command};
use crate::exchange::{planned, Exchange, ExchangeView};
use crate::generation::{generation, planned_generation, Generated, Generation};
use crate::handle::released;

verus! {

/// The target that a buffer binds to.
#[derive(Copy, Clone, PartialEq, Eq, Structural, Debug)]
pub enum BufferType {
    ArrayBuffer,
    AtomicCounterBuffer,
    CopyReadBuffer,
    CopyWriteBuffer,
    DispatchIndirectBuffer,
    DrawIndirectBuffer,
    ElementArrayBuffer,
    PixelPackBuffer,
    PixelUnpackBuffer,
    QueryBuffer,
    ShaderStorageBuffer,
    TextureBuffer,
    TransformFeedbackBuffer,
    UniformBuffer,
}

impl BufferType {
    /// The code by which the driver knows the target.
    pub open spec fn code(self) -> u32 {
        match self {
            BufferType::ArrayBuffer => codes::ARRAY_BUFFER,
            BufferType::AtomicCounterBuffer => codes::ATOMIC_COUNTER_BUFFER,
            BufferType::CopyReadBuffer => codes::COPY_READ_BUFFER,
            BufferType::CopyWriteBuffer => codes::COPY_WRITE_BUFFER,
            BufferType::DispatchIndirectBuffer => codes::DISPATCH_INDIRECT_BUFFER,
            BufferType::DrawIndirectBuffer => codes::DRAW_INDIRECT_BUFFER,
            BufferType::ElementArrayBuffer => codes::ELEMENT_ARRAY_BUFFER,
            BufferType::PixelPackBuffer => codes::PIXEL_PACK_BUFFER,
            BufferType::PixelUnpackBuffer => codes::PIXEL_UNPACK_BUFFER,
            BufferType::QueryBuffer => codes::QUERY_BUFFER,
            BufferType::ShaderStorageBuffer => codes::SHADER_STORAGE_BUFFER,
            BufferType::TextureBuffer => codes::TEXTURE_BUFFER,
            BufferType::TransformFeedbackBuffer => codes::TRANSFORM_FEEDBACK_BUFFER,
            BufferType::UniformBuffer => codes::UNIFORM_BUFFER,
        }
    }

    /// The relation between targets and element types. An array buffer holds vertex
    /// attributes and takes floats only; an element array buffer holds indices and
    /// takes unsigned integers only; the other targets take every element type.
    pub open spec fn permits(self, element: AttributeType) -> bool {
        match self {
            BufferType::ArrayBuffer => element.is_floating(),
            BufferType::ElementArrayBuffer => element.is_unsigned(),
            _ => true,
        }
    }

    #[verifier::when_used_as_spec(code)]
    pub fn to_gl_code(self) -> (code: u32)
        ensures
            code == self.code(),
    {
        match self {
            BufferType::ArrayBuffer => codes::ARRAY_BUFFER,
            BufferType::AtomicCounterBuffer => codes::ATOMIC_COUNTER_BUFFER,
            BufferType::CopyReadBuffer => codes::COPY_READ_BUFFER,
            BufferType::CopyWriteBuffer => codes::COPY_WRITE_BUFFER,
            BufferType::DispatchIndirectBuffer => codes::DISPATCH_INDIRECT_BUFFER,
            BufferType::DrawIndirectBuffer => codes::DRAW_INDIRECT_BUFFER,
            BufferType::ElementArrayBuffer => codes::ELEMENT_ARRAY_BUFFER,
            BufferType::PixelPackBuffer => codes::PIXEL_PACK_BUFFER,
            BufferType::PixelUnpackBuffer => codes::PIXEL_UNPACK_BUFFER,
            BufferType::QueryBuffer => codes::QUERY_BUFFER,
            BufferType::ShaderStorageBuffer => codes::SHADER_STORAGE_BUFFER,
            BufferType::TextureBuffer => codes::TEXTURE_BUFFER,
            BufferType::TransformFeedbackBuffer => codes::TRANSFORM_FEEDBACK_BUFFER,
            BufferType::UniformBuffer => codes::UNIFORM_BUFFER,
        }
    }

    /// The place of the target among the targets: 0 for the first, 13 for the last.
    pub open spec fn ordinal(self) -> int {
        match self {
            BufferType::ArrayBuffer => 0,
            BufferType::AtomicCounterBuffer => 1,
            BufferType::CopyReadBuffer => 2,
            BufferType::CopyWriteBuffer => 3,
            BufferType::DispatchIndirectBuffer => 4,
            BufferType::DrawIndirectBuffer => 5,
            BufferType::ElementArrayBuffer => 6,
            BufferType::PixelPackBuffer => 7,
            BufferType::PixelUnpackBuffer => 8,
            BufferType::QueryBuffer => 9,
            BufferType::ShaderStorageBuffer => 10,
            BufferType::TextureBuffer => 11,
            BufferType::TransformFeedbackBuffer => 12,
            BufferType::UniformBuffer => 13,
        }
    }

    pub fn index(self) -> (index: usize)
        ensures
            index == self.ordinal(),
            index < 14,
    {
        match self {
            BufferType::ArrayBuffer => 0,
            BufferType::AtomicCounterBuffer => 1,
            BufferType::CopyReadBuffer => 2,
            BufferType::CopyWriteBuffer => 3,
            BufferType::DispatchIndirectBuffer => 4,
            BufferType::DrawIndirectBuffer => 5,
            BufferType::ElementArrayBuffer => 6,
            BufferType::PixelPackBuffer => 7,
            BufferType::PixelUnpackBuffer => 8,
            BufferType::QueryBuffer => 9,
            BufferType::ShaderStorageBuffer => 10,
            BufferType::TextureBuffer => 11,
            BufferType::TransformFeedbackBuffer => 12,
            BufferType::UniformBuffer => 13,
        }
    }

    /// The target that the driver knows by `code`, if there is one.
    pub fn from_gl_code(code: u32) -> (target: Option<BufferType>)
        ensures
            target matches Some(found) ==> found.code() == code,
            target is None ==> forall|other: BufferType| other.code() != code,
    {
        if code == codes::ARRAY_BUFFER {
            Some(BufferType::ArrayBuffer)
        } else if code == codes::ATOMIC_COUNTER_BUFFER {
            Some(BufferType::AtomicCounterBuffer)
        } else if code == codes::COPY_READ_BUFFER {
            Some(BufferType::CopyReadBuffer)
        } else if code == codes::COPY_WRITE_BUFFER {
            Some(BufferType::CopyWriteBuffer)
        } else if code == codes::DISPATCH_INDIRECT_BUFFER {
            Some(BufferType::DispatchIndirectBuffer)
        } else if code == codes::DRAW_INDIRECT_BUFFER {
            Some(BufferType::DrawIndirectBuffer)
        } else if code == codes::ELEMENT_ARRAY_BUFFER {
            Some(BufferType::ElementArrayBuffer)
        } else if code == codes::PIXEL_PACK_BUFFER {
            Some(BufferType::PixelPackBuffer)
        } else if code == codes::PIXEL_UNPACK_BUFFER {
            Some(BufferType::PixelUnpackBuffer)
        } else if code == codes::QUERY_BUFFER {
            Some(BufferType::QueryBuffer)
        } else if code == codes::SHADER_STORAGE_BUFFER {
            Some(BufferType::ShaderStorageBuffer)
        } else if code == codes::TEXTURE_BUFFER {
            Some(BufferType::TextureBuffer)
        } else if code == codes::TRANSFORM_FEEDBACK_BUFFER {
            Some(BufferType::TransformFeedbackBuffer)
        } else if code == codes::UNIFORM_BUFFER {
            Some(BufferType::UniformBuffer)
        } else {
            None
        }
    }

    /// Whether the target takes elements of type `element`.
    pub fn is_permitted(self, element: AttributeType) -> (permitted: bool)
        ensures
            permitted == self.permits(element),
    {
        match self {
            BufferType::ArrayBuffer => match element {
                AttributeType::Float => true,
                AttributeType::Double => true,
                _ => false,
            },
            BufferType::ElementArrayBuffer => match element {
                AttributeType::UnsignedByte => true,
                AttributeType::UnsignedShort => true,
                AttributeType::UnsignedInt => true,
                _ => false,
            },
            _ => true,
        }
    }
}

/// How a buffer's contents are expected to be used.
#[derive(Copy, Clone, PartialEq, Eq, Structural, Debug)]
pub enum BufferUsage {
    StreamDraw,
    StreamRead,
    StreamCopy,
    StaticDraw,
    StaticRead,
    StaticCopy,
    DynamicDraw,
    DynamicRead,
    DynamicCopy,
}

impl BufferUsage {
    /// The code by which the driver knows the hint.
    pub open spec fn code(self) -> u32 {
        match self {
            BufferUsage::StreamDraw => codes::STREAM_DRAW,
            BufferUsage::StreamRead => codes::STREAM_READ,
            BufferUsage::StreamCopy => codes::STREAM_COPY,
            BufferUsage::StaticDraw => codes::STATIC_DRAW,
            BufferUsage::StaticRead => codes::STATIC_READ,
            BufferUsage::StaticCopy => codes::STATIC_COPY,
            BufferUsage::DynamicDraw => codes::DYNAMIC_DRAW,
            BufferUsage::DynamicRead => codes::DYNAMIC_READ,
            BufferUsage::DynamicCopy => codes::DYNAMIC_COPY,
        }
    }

    #[verifier::when_used_as_spec(code)]
    pub fn to_gl_code(self) -> (code: u32)
        ensures
            code == self.code(),
    {
        match self {
            BufferUsage::StreamDraw => codes::STREAM_DRAW,
            BufferUsage::StreamRead => codes::STREAM_READ,
            BufferUsage::StreamCopy => codes::STREAM_COPY,
            BufferUsage::StaticDraw => codes::STATIC_DRAW,
            BufferUsage::StaticRead => codes::STATIC_READ,
            BufferUsage::StaticCopy => codes::STATIC_COPY,
            BufferUsage::DynamicDraw => codes::DYNAMIC_DRAW,
            BufferUsage::DynamicRead => codes::DYNAMIC_READ,
            BufferUsage::DynamicCopy => codes::DYNAMIC_COPY,
        }
    }
}

/// No two targets share a code.
pub proof fn lemma_target_codes_are_distinct(a: BufferType, b: BufferType)
    ensures
        a.code() == b.code() <==> a == b,
{
}

/// No two usage hints share a code.
pub proof fn lemma_usage_codes_are_distinct(a: BufferUsage, b: BufferUsage)
    ensures
        a.code() == b.code() <==> a == b,
{
}

/// The kind of a buffer: target, element type and usage hint, with the element type
/// among those that the target takes.
#[derive(Copy, Clone, PartialEq, Eq, Structural, Debug)]
pub struct BufferKind {
    buffer_type: BufferType,
    data_type: AttributeType,
    usage: BufferUsage,
}

impl BufferKind {
    #[verifier::type_invariant]
    spec fn permitted(self) -> bool {
        self.buffer_type.permits(self.data_type)
    }

    pub closed spec fn spec_buffer_type(self) -> BufferType {
        self.buffer_type
    }

    pub closed spec fn spec_data_type(self) -> AttributeType {
        self.data_type
    }

    pub closed spec fn spec_usage(self) -> BufferUsage {
        self.usage
    }

    /// Makes the kind, if the target takes the element type. This is where a buffer
    /// that the driver would take and misread is turned away.
    pub fn new(buffer_type: BufferType, data_type: AttributeType, usage: BufferUsage) -> (result:
        Result<BufferKind, CallerError>)
        ensures
            buffer_type.permits(data_type) ==> result is Ok && result->Ok_0.spec_buffer_type()
                == buffer_type && result->Ok_0.spec_data_type() == data_type
                && result->Ok_0.spec_usage() == usage,
            !buffer_type.permits(data_type) ==> result == Err::<BufferKind, CallerError>(
                CallerError::NotPermitted { target: buffer_type, element: data_type },
            ),
    {
        if buffer_type.is_permitted(data_type) {
            Ok(BufferKind { buffer_type, data_type, usage })
        } else {
            Err(CallerError::NotPermitted { target: buffer_type, element: data_type })
        }
    }

    /// The target, which takes the kind's element type.
    #[verifier::when_used_as_spec(spec_buffer_type)]
    pub fn buffer_type(self) -> (buffer_type: BufferType)
        ensures
            buffer_type == self.spec_buffer_type(),
            buffer_type.permits(self.spec_data_type()),
    {
        proof {
            use_type_invariant(self);
        }
        self.buffer_type
    }

    /// The element type, which the kind's target takes.
    #[verifier::when_used_as_spec(spec_data_type)]
    pub fn data_type(self) -> (data_type: AttributeType)
        ensures
            data_type == self.spec_data_type(),
            self.spec_buffer_type().permits(data_type),
    {
        proof {
            use_type_invariant(self);
        }
        self.data_type
    }

    #[verifier::when_used_as_spec(spec_usage)]
    pub fn usage(self) -> (usage: BufferUsage)
        ensures
            usage == self.spec_usage(),
    {
        self.usage
    }
}

/// A vertex array of the driver. The value owns the driver's object: it is not
/// copied, and `release` gives the deletion that ends it.
#[derive(Debug)]
pub struct VertexArrayObject {
    vao_id: u32,
}

impl VertexArrayObject {
    /// The driver's name of the vertex array; zero names none.
    pub closed spec fn spec_id(&self) -> u32 {
        self.vao_id
    }

    /// The vertex array that the driver generated under `vao_id`.
    pub fn new(vao_id: u32) -> (vao: VertexArrayObject)
        ensures
            vao.spec_id() == vao_id,
    {
        VertexArrayObject { vao_id }
    }

    /// The vertex arrays that the driver generated under `names`, one for each name,
    /// in their order.
    pub fn from_names(names: Vec<u32>) -> (arrays: Vec<VertexArrayObject>)
        ensures
            arrays@.len() == names@.len(),
            forall|i: int| 0 <= i < names@.len() ==> (#[trigger] arrays@[i]).spec_id() == names@[i],
    {
        let mut arrays: Vec<VertexArrayObject> = Vec::new();
        let mut i: usize = 0;
        while i < names.len()
            invariant
                i <= names@.len(),
                arrays@.len() == i,
                forall|j: int| 0 <= j < i ==> (#[trigger] arrays@[j]).spec_id() == names@[j],
            decreases names@.len() - i,
        {
            arrays.push(VertexArrayObject::new(names[i]));
            i += 1;
        }
        arrays
    }

    #[verifier::when_used_as_spec(spec_id)]
    pub fn id(&self) -> (id: u32)
        ensures
            id == self.spec_id(),
    {
        self.vao_id
    }

    /// Gives up the driver's object. A vertex array that names one yields its
    /// deletion, once, and names none from then on; one that names none yields
    /// nothing and stays as it is.
    pub fn release(&mut self) -> (deletion: Option<Command>)
        ensures
            (final(self).spec_id(), deletion) == released(
                old(self).spec_id(),
                |name: u32| Command::DeleteVertexArrays { array: name },
            ),
            old(self).spec_id() == 0 ==> *final(self) == *old(self),
    {
        if self.vao_id == 0 {
            None
        } else {
            let array: u32 = self.vao_id;
            self.vao_id = 0;
            Some(Command::DeleteVertexArrays { array })
        }
    }
}

/// A buffer of the driver, of one kind. The value owns the driver's object: it is
/// not copied, and `release` gives the deletion that ends it.
#[derive(Debug)]
pub struct BufferObject {
    buffer_id: u32,
    kind: BufferKind,
}

impl BufferObject {
    /// The driver's name of the buffer; zero names none.
    pub closed spec fn spec_id(&self) -> u32 {
        self.buffer_id
    }

    /// The kind of the buffer.
    pub closed spec fn spec_kind(&self) -> BufferKind {
        self.kind
    }

    /// The buffer of `kind` that the driver generated under `buffer_id`.
    pub fn new(kind: BufferKind, buffer_id: u32) -> (buffer: BufferObject)
        ensures
            buffer.spec_id() == buffer_id,
            buffer.spec_kind() == kind,
    {
        BufferObject { buffer_id, kind }
    }

    /// The buffers of `kind` that the driver generated under `names`, one for each
    /// name, in their order.
    pub fn from_names(kind: BufferKind, names: Vec<u32>) -> (buffers: Vec<BufferObject>)
        ensures
            buffers@.len() == names@.len(),
            forall|i: int|
                0 <= i < names@.len() ==> (#[trigger] buffers@[i]).spec_id() == names@[i]
                    && buffers@[i].spec_kind() == kind,
    {
        let mut buffers: Vec<BufferObject> = Vec::new();
        let mut i: usize = 0;
        while i < names.len()
            invariant
                i <= names@.len(),
                buffers@.len() == i,
                forall|j: int|
                    0 <= j < i ==> (#[trigger] buffers@[j]).spec_id() == names@[j]
                        && buffers@[j].spec_kind() == kind,
            decreases names@.len() - i,
        {
            buffers.push(BufferObject::new(kind, names[i]));
            i += 1;
        }
        buffers
    }

    #[verifier::when_used_as_spec(spec_id)]
    pub fn id(&self) -> (id: u32)
        ensures
            id == self.spec_id(),
    {
        self.buffer_id
    }

    #[verifier::when_used_as_spec(spec_kind)]
    pub fn kind(&self) -> (kind: BufferKind)
        ensures
            kind == self.spec_kind(),
    {
        self.kind
    }

    /// Gives up the driver's object. A buffer that names one yields its deletion,
    /// once, and names none from then on; one that names none yields nothing and
    /// stays as it is.
    pub fn release(&mut self) -> (deletion: Option<Command>)
        ensures
            (final(self).spec_id(), deletion) == released(
                old(self).spec_id(),
                |name: u32| Command::DeleteBuffers { buffer: name },
            ),
            final(self).spec_kind() == old(self).spec_kind(),
            old(self).spec_id() == 0 ==> *final(self) == *old(self),
    {
        if self.buffer_id == 0 {
            None
        } else {
            let buffer: u32 = self.buffer_id;
            self.buffer_id = 0;
            Some(Command::DeleteBuffers { buffer })
        }
    }
}

/// The names of `arrays`, in their order.
pub open spec fn array_names(arrays: Seq<VertexArrayObject>) -> Seq<u32> {
    arrays.map_values(|array: VertexArrayObject| array.spec_id())
}

/// The names of `buffers`, in their order.
pub open spec fn buffer_names(buffers: Seq<BufferObject>) -> Seq<u32> {
    buffers.map_values(|buffer: BufferObject| buffer.spec_id())
}

/// Generates `num` vertex arrays. A count below one is the caller's mistake, and
/// nothing is asked of the driver. `Generation::arrays` gives the vertex arrays
/// once the generation is over.
pub fn gen_vertex_arrays(num: i32) -> (result: Result<Generation, CallerError>)
    ensures
        planned_generation(result) == generation(Generated::VertexArrays, num),
{
    Generation::start(Generated::VertexArrays, num)
}

/// Makes `vao_option` the current vertex array; `None` leaves none current: the
/// driver is given the name zero.
pub fn bind_vertex_array(vao_option: Option<&VertexArrayObject>) -> (exchange: Exchange<()>)
    ensures
        exchange@ == ExchangeView::<()>::Call(
            Command::BindVertexArray {
                array: match vao_option {
                    Some(vao) => vao.spec_id(),
                    None => 0,
                },
            },
        ),
{
    match vao_option {
        Some(vao) => Exchange::call(Command::BindVertexArray { array: vao.id() }),
        None => Exchange::call(Command::BindVertexArray { array: 0 }),
    }
}

/// Generates `num` buffers of `kind`. A count below one is the caller's mistake, and
/// nothing is asked of the driver. `Generation::buffers` gives the buffers, all of
/// `kind`, once the generation is over.
pub fn gen_buffers(kind: BufferKind, num: i32) -> (result: Result<Generation, CallerError>)
    ensures
        planned_generation(result) == generation(Generated::Buffers(kind), num),
{
    Generation::start(Generated::Buffers(kind), num)
}

/// What binding `buffer` to the target of `kind` comes to.
pub open spec fn binding(kind: BufferKind, buffer: Option<&BufferObject>) -> Result<
    ExchangeView<()>,
    CallerError,
> {
    match buffer {
        None => Ok(
            ExchangeView::Call(
                Command::BindBuffer { target: kind.spec_buffer_type().code(), buffer: 0 },
            ),
        ),
        Some(buffer) => if buffer.spec_kind() == kind {
            Ok(
                ExchangeView::Call(
                    Command::BindBuffer {
                        target: kind.spec_buffer_type().code(),
                        buffer: buffer.spec_id(),
                    },
                ),
            )
        } else {
            Err(CallerError::KindMismatch)
        },
    }
}

/// Makes `buffer_option` the current buffer of the target of `kind`; `None` leaves
/// none current: the driver is given the name zero. A buffer of another kind is
/// refused.
pub fn bind_buffer(kind: BufferKind, buffer_option: Option<&BufferObject>) -> (result: Result<
    Exchange<()>,
    CallerError,
>)
    ensures
        planned(result) == binding(kind, buffer_option),
{
    let target: u32 = kind.buffer_type().to_gl_code();
    match buffer_option {
        Some(buffer) => {
            if buffer.kind() == kind {
                Ok(Exchange::call(Command::BindBuffer { target, buffer: buffer.id() }))
            } else {
                Err(CallerError::KindMismatch)
            }
        },
        None => Ok(Exchange::call(Command::BindBuffer { target, buffer: 0 })),
    }
}

/// What filling `buffer` with `len` elements of `data_type` comes to. The byte length
/// that the driver is told is `len` times the width of an element.
pub open spec fn upload(buffer: &BufferObject, data_type: AttributeType, len: usize) -> Result<
    ExchangeView<()>,
    CallerError,
> {
    if data_type != buffer.spec_kind().spec_data_type() {
        Err(CallerError::ElementMismatch)
    } else if len == 0 {
        Err(CallerError::EmptyData)
    } else if len * data_type.width() > isize::MAX {
        Err(CallerError::TooLong { length: len })
    } else {
        Ok(
            ExchangeView::Call(
                Command::NamedBufferData {
                    buffer: buffer.spec_id(),
                    size: (len * data_type.width()) as isize,
                    usage: buffer.spec_kind().spec_usage().code(),
                },
            ),
        )
    }
}

/// Fills `buffer` with `len` elements of caller data of type `data_type`, under the
/// buffer's usage hint. Data of another element type than the buffer's, no data, and
/// more data than a byte length can say are refused.
pub fn named_buffer_data(buffer: &BufferObject, data_type: AttributeType, len: usize) -> (result:
    Result<Exchange<()>, CallerError>)
    ensures
        planned(result) == upload(buffer, data_type, len),
{
    if data_type != buffer.kind().data_type() {
        return Err(CallerError::ElementMismatch);
    }
    if len == 0 {
        return Err(CallerError::EmptyData);
    }
    if len > isize::MAX as usize {
        assert(len * data_type.width() > isize::MAX) by (nonlinear_arith)
            requires
                len > isize::MAX,
                data_type.width() >= 1,
        ;
        return Err(CallerError::TooLong { length: len });
    }
    let width: isize = data_type.size() as isize;
    match (len as isize).checked_mul(width) {
        Some(size) => Ok(
            Exchange::call(
                Command::NamedBufferData {
                    buffer: buffer.id(),
                    size,
                    usage: buffer.kind().usage().to_gl_code(),
                },
            ),
        ),
        None => Err(CallerError::TooLong { length: len }),
    }
}

} // verus!
