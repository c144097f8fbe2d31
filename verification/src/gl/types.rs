use vstd::prelude::*;

verus! {

/// Graphics-pipeline capabilities that can be enabled or disabled.
#[derive(Debug, Copy, Clone)]
pub enum Capability {
    /// Blend pixels.
    Blend,
    /// Perform depth comparisons and update the depth buffer.
    DepthTest,
    /// Cull polygons based on their winding in window coordinates.
    CullFace,
    /// Discard fragments outside of the scissor rectangle.
    ScissorTest,
    /// Dither when merging fragment colors and depth values.
    Dither,
    /// Smooth lines.
    LineSmooth,
    /// Smooth polygons.
    PolygonSmooth,
    /// Update the stencil buffer.
    StencilTest,
}

/// Integer state parameters a graphics context can be queried for.
#[derive(Debug, Copy, Clone)]
pub enum GlGetParameter {
    MaxTextureSize,
    MaxVertexAttribs,
    Viewport,
    MaxCombinedTextureImageUnits,
    MaxTextureImageUnits,
    MaxVertexTextureImageUnits,
    MaxFragmentUniformComponents,
    MaxVertexUniformComponents,
    MaxVaryingComponents,
    MaxDrawBuffers,
    MaxElementsIndices,
    MaxElementsVertices,
    Max3DTextureSize,
    VertexArrayBinding,
    ArrayBufferBinding,
}

/// Kinds of buffer object a graphics context offers.
#[derive(Debug, Copy, Clone)]
pub enum BufferType {
    /// Stores vertex attributes like coordinates, normals and texture
    /// coordinates.
    ArrayBuffer,
    /// Indexes vertices so vertex data can serve multiple primitives.
    ElementArrayBuffer,
    /// Stores uniform data shared between shaders.
    UniformBuffer,
    /// Backs a buffer texture, read with texel fetches in shaders.
    TextureBuffer,
    /// Render target holding color, depth and stencil attachments.
    Framebuffer,
    /// Offscreen rendering destination.
    Renderbuffer,
    /// Source side of buffer-to-buffer copies.
    CopyReadBuffer,
    /// Destination side of buffer-to-buffer copies.
    CopyWriteBuffer,
    /// Pixel transfer out of textures.
    PixelPackBuffer,
    /// Pixel transfer into textures.
    PixelUnpackBuffer,
    /// Captures output of the vertex or geometry shader.
    TransformFeedbackBuffer,
    /// Stores atomic counters shared across shader invocations.
    AtomicCounterBuffer,
    /// Stores indirect drawing commands.
    DrawIndirectBuffer,
    /// Stores compute-shader dispatch commands.
    DispatchIndirectBuffer,
    /// Read-write storage accessed by shaders.
    ShaderStorageBuffer,
}

/// How buffer contents will be supplied and consumed.
#[derive(Debug, Copy, Clone)]
pub enum BufferUsage {
    /// Written rarely, drawn from many times.
    StaticDraw,
    /// Written frequently, drawn from many times.
    DynamicDraw,
    /// Written on every draw.
    StreamDraw,
    /// Written once by the application, read by the GPU.
    StaticRead,
    /// Written frequently by the application, read by the GPU.
    DynamicRead,
    /// Written and read once.
    StreamRead,
    /// Written once, used for buffer-to-buffer copies.
    StaticCopy,
    /// Written frequently, used for buffer-to-buffer copies.
    DynamicCopy,
    /// Written and copied once.
    StreamCopy,
}

} // verus!
