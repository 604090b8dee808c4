use rgl::attributes::{AttributeType, AttributeVector};
use rgl::buffer::{BufferType, BufferUsage};
use rgl::codes;
use rgl::draw::{ElementIndexType, Primitive};
use rgl::error::{get_error, get_error_unchecked, Error};
use rgl::primitive;
use rgl::primitive::Primitive as Marker;
use rgl::shader::{ShaderObjectParameter, ShaderProgramObjectParameter, ShaderType};

#[test]
fn error_codes_are_those_of_the_driver_interface() {
    assert_eq!(codes::NO_ERROR, gl::NO_ERROR);
    assert_eq!(codes::INVALID_ENUM, gl::INVALID_ENUM);
    assert_eq!(codes::INVALID_VALUE, gl::INVALID_VALUE);
    assert_eq!(codes::INVALID_OPERATION, gl::INVALID_OPERATION);
    assert_eq!(codes::INVALID_FRAMEBUFFER_OPERATION, gl::INVALID_FRAMEBUFFER_OPERATION);
    assert_eq!(codes::OUT_OF_MEMORY, gl::OUT_OF_MEMORY);
    assert_eq!(codes::STACK_UNDERFLOW, gl::STACK_UNDERFLOW);
    assert_eq!(codes::STACK_OVERFLOW, gl::STACK_OVERFLOW);
    assert_eq!(codes::CONTEXT_LOST, gl::CONTEXT_LOST);
}

#[test]
fn every_error_state_is_read_from_its_code() {
    assert_eq!(get_error(gl::NO_ERROR), Ok(Error::NoError));
    assert_eq!(get_error(gl::INVALID_ENUM), Ok(Error::InvalidEnum));
    assert_eq!(get_error(gl::INVALID_VALUE), Ok(Error::InvalidValue));
    assert_eq!(get_error(gl::INVALID_OPERATION), Ok(Error::InvalidOperation));
    assert_eq!(
        get_error(gl::INVALID_FRAMEBUFFER_OPERATION),
        Ok(Error::InvalidFramebufferOperation)
    );
    assert_eq!(get_error(gl::OUT_OF_MEMORY), Ok(Error::OutOfMemory));
    assert_eq!(get_error(gl::STACK_UNDERFLOW), Ok(Error::StackUnderflow));
    assert_eq!(get_error(gl::STACK_OVERFLOW), Ok(Error::StackOverflow));
    assert_eq!(get_error(gl::CONTEXT_LOST), Ok(Error::ContextLost));
    assert_eq!(Error::from_gl_code(0x0501), Ok(Error::InvalidValue));
}

#[test]
fn a_code_outside_the_interface_is_no_error_state() {
    assert_eq!(get_error(1), Err(()));
    assert_eq!(get_error(0x04FF), Err(()));
    assert_eq!(get_error(0x0508), Err(()));
    assert_eq!(get_error(u32::MAX), Err(()));
    assert_eq!(Error::from_gl_code(0x8892), Err(()));
}

#[test]
fn a_known_code_is_read_without_a_check() {
    assert_eq!(get_error_unchecked(0), Error::NoError);
    assert_eq!(get_error_unchecked(0x0502), Error::InvalidOperation);
    assert_eq!(get_error_unchecked(0x0507), Error::ContextLost);
}

#[test]
fn clear_bits_are_those_of_the_driver_interface() {
    assert_eq!(rgl::BufferType::ColorBuffer.to_gl_bit(), gl::COLOR_BUFFER_BIT);
    assert_eq!(rgl::BufferType::DepthBuffer.to_gl_bit(), gl::DEPTH_BUFFER_BIT);
    assert_eq!(rgl::BufferType::StencilBuffer.to_gl_bit(), gl::STENCIL_BUFFER_BIT);
    assert_eq!(rgl::BufferType::ColorBuffer.to_gl_bit(), 0x4000);
}

#[test]
fn buffer_target_codes_are_those_of_the_driver_interface() {
    assert_eq!(BufferType::ArrayBuffer.to_gl_code(), gl::ARRAY_BUFFER);
    assert_eq!(BufferType::AtomicCounterBuffer.to_gl_code(), gl::ATOMIC_COUNTER_BUFFER);
    assert_eq!(BufferType::CopyReadBuffer.to_gl_code(), gl::COPY_READ_BUFFER);
    assert_eq!(BufferType::CopyWriteBuffer.to_gl_code(), gl::COPY_WRITE_BUFFER);
    assert_eq!(BufferType::DispatchIndirectBuffer.to_gl_code(), gl::DISPATCH_INDIRECT_BUFFER);
    assert_eq!(BufferType::DrawIndirectBuffer.to_gl_code(), gl::DRAW_INDIRECT_BUFFER);
    assert_eq!(BufferType::ElementArrayBuffer.to_gl_code(), gl::ELEMENT_ARRAY_BUFFER);
    assert_eq!(BufferType::PixelPackBuffer.to_gl_code(), gl::PIXEL_PACK_BUFFER);
    assert_eq!(BufferType::PixelUnpackBuffer.to_gl_code(), gl::PIXEL_UNPACK_BUFFER);
    assert_eq!(BufferType::QueryBuffer.to_gl_code(), gl::QUERY_BUFFER);
    assert_eq!(BufferType::ShaderStorageBuffer.to_gl_code(), gl::SHADER_STORAGE_BUFFER);
    assert_eq!(BufferType::TextureBuffer.to_gl_code(), gl::TEXTURE_BUFFER);
    assert_eq!(BufferType::TransformFeedbackBuffer.to_gl_code(), gl::TRANSFORM_FEEDBACK_BUFFER);
    assert_eq!(BufferType::UniformBuffer.to_gl_code(), gl::UNIFORM_BUFFER);
    assert_eq!(BufferType::ArrayBuffer.to_gl_code(), 0x8892);
}

fn all_buffer_targets() -> Vec<BufferType> {
    vec![
        BufferType::ArrayBuffer,
        BufferType::AtomicCounterBuffer,
        BufferType::CopyReadBuffer,
        BufferType::CopyWriteBuffer,
        BufferType::DispatchIndirectBuffer,
        BufferType::DrawIndirectBuffer,
        BufferType::ElementArrayBuffer,
        BufferType::PixelPackBuffer,
        BufferType::PixelUnpackBuffer,
        BufferType::QueryBuffer,
        BufferType::ShaderStorageBuffer,
        BufferType::TextureBuffer,
        BufferType::TransformFeedbackBuffer,
        BufferType::UniformBuffer,
    ]
}

#[test]
fn a_buffer_target_is_found_again_by_its_code() {
    let targets = all_buffer_targets();
    for (place, target) in targets.iter().enumerate() {
        assert_eq!(BufferType::from_gl_code(target.to_gl_code()), Some(*target));
        assert_eq!(target.index(), place);
    }
    assert_eq!(BufferType::from_gl_code(0), None);
    assert_eq!(BufferType::from_gl_code(gl::STATIC_DRAW), None);
    assert_eq!(BufferType::from_gl_code(0x8894), None);
}

#[test]
fn usage_codes_are_those_of_the_driver_interface() {
    assert_eq!(BufferUsage::StreamDraw.to_gl_code(), gl::STREAM_DRAW);
    assert_eq!(BufferUsage::StreamRead.to_gl_code(), gl::STREAM_READ);
    assert_eq!(BufferUsage::StreamCopy.to_gl_code(), gl::STREAM_COPY);
    assert_eq!(BufferUsage::StaticDraw.to_gl_code(), gl::STATIC_DRAW);
    assert_eq!(BufferUsage::StaticRead.to_gl_code(), gl::STATIC_READ);
    assert_eq!(BufferUsage::StaticCopy.to_gl_code(), gl::STATIC_COPY);
    assert_eq!(BufferUsage::DynamicDraw.to_gl_code(), gl::DYNAMIC_DRAW);
    assert_eq!(BufferUsage::DynamicRead.to_gl_code(), gl::DYNAMIC_READ);
    assert_eq!(BufferUsage::DynamicCopy.to_gl_code(), gl::DYNAMIC_COPY);
    assert_eq!(BufferUsage::StaticDraw.to_gl_code(), 0x88E4);
}

#[test]
fn element_type_codes_are_those_of_the_driver_interface() {
    assert_eq!(AttributeType::Byte.to_gl_code(), gl::BYTE);
    assert_eq!(AttributeType::UnsignedByte.to_gl_code(), gl::UNSIGNED_BYTE);
    assert_eq!(AttributeType::Short.to_gl_code(), gl::SHORT);
    assert_eq!(AttributeType::UnsignedShort.to_gl_code(), gl::UNSIGNED_SHORT);
    assert_eq!(AttributeType::Int.to_gl_code(), gl::INT);
    assert_eq!(AttributeType::UnsignedInt.to_gl_code(), gl::UNSIGNED_INT);
    assert_eq!(AttributeType::Float.to_gl_code(), gl::FLOAT);
    assert_eq!(AttributeType::Double.to_gl_code(), gl::DOUBLE);
    assert_eq!(ElementIndexType::UnsignedByte.to_gl_code(), gl::UNSIGNED_BYTE);
    assert_eq!(ElementIndexType::UnsignedShort.to_gl_code(), gl::UNSIGNED_SHORT);
    assert_eq!(ElementIndexType::UnsignedInt.to_gl_code(), gl::UNSIGNED_INT);
    assert_eq!(AttributeType::UnsignedInt.to_gl_code(), 0x1405);
}

#[test]
fn element_sizes_are_those_of_the_machine_types() {
    assert_eq!(AttributeType::Byte.size() as usize, std::mem::size_of::<i8>());
    assert_eq!(AttributeType::UnsignedByte.size() as usize, std::mem::size_of::<u8>());
    assert_eq!(AttributeType::Short.size() as usize, std::mem::size_of::<i16>());
    assert_eq!(AttributeType::UnsignedShort.size() as usize, std::mem::size_of::<u16>());
    assert_eq!(AttributeType::Int.size() as usize, std::mem::size_of::<i32>());
    assert_eq!(AttributeType::UnsignedInt.size() as usize, std::mem::size_of::<u32>());
    assert_eq!(AttributeType::Float.size() as usize, std::mem::size_of::<f32>());
    assert_eq!(AttributeType::Double.size() as usize, std::mem::size_of::<f64>());
    assert_eq!(AttributeVector::Vec1.len(), 1);
    assert_eq!(AttributeVector::Vec2.len(), 2);
    assert_eq!(AttributeVector::Vec3.len(), 3);
    assert_eq!(AttributeVector::Vec4.len(), 4);
}

#[test]
fn primitive_codes_are_those_of_the_driver_interface() {
    assert_eq!(Primitive::Points.to_gl_code(), gl::POINTS);
    assert_eq!(Primitive::LineStrip.to_gl_code(), gl::LINE_STRIP);
    assert_eq!(Primitive::LineLoop.to_gl_code(), gl::LINE_LOOP);
    assert_eq!(Primitive::Lines.to_gl_code(), gl::LINES);
    assert_eq!(Primitive::LineStripAdjacency.to_gl_code(), gl::LINE_STRIP_ADJACENCY);
    assert_eq!(Primitive::LinesAdjacency.to_gl_code(), gl::LINES_ADJACENCY);
    assert_eq!(Primitive::TriangleStrip.to_gl_code(), gl::TRIANGLE_STRIP);
    assert_eq!(Primitive::TriangleFan.to_gl_code(), gl::TRIANGLE_FAN);
    assert_eq!(Primitive::Triangles.to_gl_code(), gl::TRIANGLES);
    assert_eq!(Primitive::TriangleStripAdjacency.to_gl_code(), gl::TRIANGLE_STRIP_ADJACENCY);
    assert_eq!(Primitive::TrianglesAdjacency.to_gl_code(), gl::TRIANGLES_ADJACENCY);
    assert_eq!(Primitive::Patches.to_gl_code(), gl::PATCHES);
    assert_eq!(Primitive::Triangles.to_gl_code(), 4);
}

#[test]
fn primitive_marker_types_have_the_codes_of_their_topologies() {
    assert_eq!(<primitive::Points as Marker>::to_gl_code(), gl::POINTS);
    assert_eq!(<primitive::LineStrip as Marker>::to_gl_code(), gl::LINE_STRIP);
    assert_eq!(<primitive::LineLoop as Marker>::to_gl_code(), gl::LINE_LOOP);
    assert_eq!(<primitive::Lines as Marker>::to_gl_code(), gl::LINES);
    assert_eq!(<primitive::LineStripAdjacency as Marker>::to_gl_code(), gl::LINE_STRIP_ADJACENCY);
    assert_eq!(<primitive::LinesAdjacency as Marker>::to_gl_code(), gl::LINES_ADJACENCY);
    assert_eq!(<primitive::TriangleStrip as Marker>::to_gl_code(), gl::TRIANGLE_STRIP);
    assert_eq!(<primitive::TriangleFan as Marker>::to_gl_code(), gl::TRIANGLE_FAN);
    assert_eq!(<primitive::Triangles as Marker>::to_gl_code(), gl::TRIANGLES);
    assert_eq!(
        <primitive::TriangleStripAdjacency as Marker>::to_gl_code(),
        gl::TRIANGLE_STRIP_ADJACENCY
    );
    assert_eq!(<primitive::TrianglesAdjacency as Marker>::to_gl_code(), gl::TRIANGLES_ADJACENCY);
    assert_eq!(<primitive::Patches as Marker>::to_gl_code(), gl::PATCHES);
}

#[test]
fn shader_codes_are_those_of_the_driver_interface() {
    assert_eq!(ShaderType::VertexShaderType.to_gl_code(), gl::VERTEX_SHADER);
    assert_eq!(ShaderType::FragmentShaderType.to_gl_code(), gl::FRAGMENT_SHADER);
    assert_eq!(ShaderObjectParameter::ShaderType.to_gl_code(), gl::SHADER_TYPE);
    assert_eq!(ShaderObjectParameter::DeleteStatus.to_gl_code(), gl::DELETE_STATUS);
    assert_eq!(ShaderObjectParameter::CompileStatus.to_gl_code(), gl::COMPILE_STATUS);
    assert_eq!(ShaderObjectParameter::InfoLogLength.to_gl_code(), gl::INFO_LOG_LENGTH);
    assert_eq!(ShaderObjectParameter::ShaderSourceLength.to_gl_code(), gl::SHADER_SOURCE_LENGTH);
    assert_eq!(ShaderType::VertexShaderType.to_gl_code(), 0x8B31);
}

#[test]
fn program_parameter_codes_are_those_of_the_driver_interface() {
    assert_eq!(ShaderProgramObjectParameter::DeleteStatus.to_gl_code(), gl::DELETE_STATUS);
    assert_eq!(ShaderProgramObjectParameter::LinkStatus.to_gl_code(), gl::LINK_STATUS);
    assert_eq!(ShaderProgramObjectParameter::ValidateStatus.to_gl_code(), gl::VALIDATE_STATUS);
    assert_eq!(ShaderProgramObjectParameter::InfoLogLength.to_gl_code(), gl::INFO_LOG_LENGTH);
    assert_eq!(ShaderProgramObjectParameter::AttachedShaders.to_gl_code(), gl::ATTACHED_SHADERS);
    assert_eq!(ShaderProgramObjectParameter::ActiveAttributes.to_gl_code(), gl::ACTIVE_ATTRIBUTES);
    assert_eq!(
        ShaderProgramObjectParameter::ActiveAttributeMaxLength.to_gl_code(),
        gl::ACTIVE_ATTRIBUTE_MAX_LENGTH
    );
    assert_eq!(ShaderProgramObjectParameter::ActiveUniforms.to_gl_code(), gl::ACTIVE_UNIFORMS);
    assert_eq!(
        ShaderProgramObjectParameter::ActiveUniformMaxLength.to_gl_code(),
        gl::ACTIVE_UNIFORM_MAX_LENGTH
    );
    assert_eq!(ShaderProgramObjectParameter::LinkStatus.to_gl_code(), 0x8B82);
}
