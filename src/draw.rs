//! The fixed geometry of the draw programs, and the commands each one issues
//! per frame.
//!
//! A frame never creates a buffer or a program: every command below only binds
//! objects made at construction, refills a dynamic buffer's contents, pushes a
//! uniform or draws.
use vstd::prelude::*;

verus! {

/// A buffer owned by one of the draw programs.
#[derive(Debug, Clone, Copy, PartialEq, Eq, Structural)]
pub enum BufferRole {
    /// Corners of the unit rectangle, two coordinates each.
    RectangleVertices,
    /// One RGBA colour per rectangle corner.
    RectangleColors,
    /// The rectangle's two triangles, as corner indices.
    RectangleIndices,
    /// Grid lattice points, three coordinates each.
    GridPositions,
    /// The grid's triangles, as lattice indices.
    GridIndices,
    /// One height per lattice point, refilled every frame.
    Heights,
    /// One normal (three components) per lattice point, refilled every frame.
    Normals,
}

/// A uniform that a draw program pushes every frame.
#[derive(Debug, Clone, Copy, PartialEq, Eq, Structural)]
pub enum UniformRole {
    /// Flat RGBA colour.
    Color,
    /// Scalar opacity.
    Opacity,
    /// 2D placement matrix.
    Transform,
    /// 3D projection matrix.
    Projection,
    /// Matrix that re-orients surface normals.
    NormalsRotation,
}

/// One call into the graphics context during a frame.
#[derive(Debug, Clone, Copy, PartialEq, Eq, Structural)]
pub enum DrawCommand {
    /// Makes the program the active one.
    UseProgram,
    /// Binds `buffer` as the source of attribute `location`, read as
    /// `components` tightly packed floats per vertex, and enables it.
    BindAttribute { buffer: BufferRole, location: u32, components: u32 },
    /// Overwrites the whole contents of the bound `buffer` with this frame's data.
    Refill { buffer: BufferRole },
    /// Binds `buffer` as the index source of the next draw.
    BindIndices { buffer: BufferRole },
    /// Pushes this frame's value of `uniform`.
    SetUniform { uniform: UniformRole },
    /// Draws `vertex_count` vertices as triangles.
    DrawArrays { vertex_count: usize },
    /// Draws `index_count` 16-bit indices as triangles.
    DrawElements { index_count: usize },
}

/// Why a frame could not be drawn.
#[derive(Debug, Clone, Copy, PartialEq, Eq, Structural)]
pub enum RenderError {
    /// The height field does not have one value per lattice point.
    InvalidHeightFieldLength { expected: usize, actual: usize },
}

/// The unit rectangle as two triangles, two coordinates per vertex.
pub open spec fn rectangle_triangles() -> Seq<u8> {
    seq![0u8, 1, 0, 0, 1, 1, 1, 1, 0, 0, 1, 0]
}

/// The unit rectangle's corners, two coordinates each: top-left, bottom-left,
/// top-right, bottom-right.
pub open spec fn rectangle_corners() -> Seq<u8> {
    seq![0u8, 1, 0, 0, 1, 1, 1, 0]
}

/// The rectangle's two triangles over its four corners.
pub open spec fn rectangle_corner_indices() -> Seq<u16> {
    seq![0u16, 1, 2, 2, 1, 3]
}

/// One 8-bit RGBA colour per corner: red, green, blue, white.
pub open spec fn rectangle_corner_colors() -> Seq<u8> {
    seq![255u8, 0, 0, 255, 0, 255, 0, 255, 0, 0, 255, 255, 255, 255, 255, 255]
}

/// Six vertices, two coordinates each, covering the unit rectangle.
pub fn rectangle_triangle_vertices() -> (r: Vec<u8>)
    ensures
        r@ == rectangle_triangles(),
{
    let r: Vec<u8> = vec![0u8, 1, 0, 0, 1, 1, 1, 1, 0, 0, 1, 0];
    assert(r@ =~= rectangle_triangles());
    r
}

/// The four corners of the unit rectangle.
pub fn rectangle_corner_vertices() -> (r: Vec<u8>)
    ensures
        r@ == rectangle_corners(),
{
    let r: Vec<u8> = vec![0u8, 1, 0, 0, 1, 1, 1, 0];
    assert(r@ =~= rectangle_corners());
    r
}

/// The two triangles of the rectangle, as indices into its corners.
pub fn rectangle_indices() -> (r: Vec<u16>)
    ensures
        r@ == rectangle_corner_indices(),
        forall|i: int| 0 <= i < r@.len() ==> #[trigger] r@[i] < 4,
{
    let r: Vec<u16> = vec![0u16, 1, 2, 2, 1, 3];
    assert(r@ =~= rectangle_corner_indices());
    r
}

/// The gradient's corner colours, four 8-bit channels per corner.
pub fn rectangle_colors() -> (r: Vec<u8>)
    ensures
        r@ == rectangle_corner_colors(),
        r@.len() == 4 * 4,
{
    let r: Vec<u8> = vec![255u8, 0, 0, 255, 0, 255, 0, 255, 0, 0, 255, 255, 255, 255, 255, 255];
    assert(r@ =~= rectangle_corner_colors());
    r
}

/// A frame of the flat-colour rectangle.
pub open spec fn color_2d_plan(vertex_count: usize) -> Seq<DrawCommand> {
    seq![
        DrawCommand::UseProgram,
        DrawCommand::BindAttribute {
            buffer: BufferRole::RectangleVertices,
            location: 0,
            components: 2,
        },
        DrawCommand::SetUniform { uniform: UniformRole::Color },
        DrawCommand::SetUniform { uniform: UniformRole::Opacity },
        DrawCommand::SetUniform { uniform: UniformRole::Transform },
        DrawCommand::DrawArrays { vertex_count },
    ]
}

/// A frame of the gradient rectangle.
pub open spec fn color_2d_gradient_plan(index_count: usize) -> Seq<DrawCommand> {
    seq![
        DrawCommand::UseProgram,
        DrawCommand::BindAttribute {
            buffer: BufferRole::RectangleVertices,
            location: 0,
            components: 2,
        },
        DrawCommand::BindAttribute {
            buffer: BufferRole::RectangleColors,
            location: 1,
            components: 4,
        },
        DrawCommand::SetUniform { uniform: UniformRole::Opacity },
        DrawCommand::SetUniform { uniform: UniformRole::Transform },
        DrawCommand::BindIndices { buffer: BufferRole::RectangleIndices },
        DrawCommand::DrawElements { index_count },
    ]
}

/// A frame of the height-field surface.
pub open spec fn graph_3d_plan(index_count: usize) -> Seq<DrawCommand> {
    seq![
        DrawCommand::UseProgram,
        DrawCommand::SetUniform { uniform: UniformRole::Projection },
        DrawCommand::SetUniform { uniform: UniformRole::NormalsRotation },
        DrawCommand::SetUniform { uniform: UniformRole::Opacity },
        DrawCommand::BindAttribute { buffer: BufferRole::GridPositions, location: 0, components: 3 },
        DrawCommand::BindAttribute { buffer: BufferRole::Heights, location: 1, components: 1 },
        DrawCommand::Refill { buffer: BufferRole::Heights },
        DrawCommand::BindAttribute { buffer: BufferRole::Normals, location: 2, components: 3 },
        DrawCommand::Refill { buffer: BufferRole::Normals },
        DrawCommand::BindIndices { buffer: BufferRole::GridIndices },
        DrawCommand::DrawElements { index_count },
    ]
}

/// Commands of one frame of the flat-colour rectangle, whose vertex buffer
/// holds `vertex_count` vertices.
pub fn color_2d_render_commands(vertex_count: usize) -> (r: Vec<DrawCommand>)
    ensures
        r@ == color_2d_plan(vertex_count),
{
    let r: Vec<DrawCommand> = vec![
        DrawCommand::UseProgram,
        DrawCommand::BindAttribute {
            buffer: BufferRole::RectangleVertices,
            location: 0,
            components: 2,
        },
        DrawCommand::SetUniform { uniform: UniformRole::Color },
        DrawCommand::SetUniform { uniform: UniformRole::Opacity },
        DrawCommand::SetUniform { uniform: UniformRole::Transform },
        DrawCommand::DrawArrays { vertex_count },
    ];
    assert(r@ =~= color_2d_plan(vertex_count));
    r
}

/// Commands of one frame of the gradient rectangle, whose index buffer holds
/// `index_count` indices.
pub fn color_2d_gradient_render_commands(index_count: usize) -> (r: Vec<DrawCommand>)
    ensures
        r@ == color_2d_gradient_plan(index_count),
{
    let r: Vec<DrawCommand> = vec![
        DrawCommand::UseProgram,
        DrawCommand::BindAttribute {
            buffer: BufferRole::RectangleVertices,
            location: 0,
            components: 2,
        },
        DrawCommand::BindAttribute {
            buffer: BufferRole::RectangleColors,
            location: 1,
            components: 4,
        },
        DrawCommand::SetUniform { uniform: UniformRole::Opacity },
        DrawCommand::SetUniform { uniform: UniformRole::Transform },
        DrawCommand::BindIndices { buffer: BufferRole::RectangleIndices },
        DrawCommand::DrawElements { index_count },
    ];
    assert(r@ =~= color_2d_gradient_plan(index_count));
    r
}

/// Commands of one frame of the height-field surface, whose grid has
/// `vertex_count` lattice points and `index_count` indices, given a height
/// field of `heights_len` values.
///
/// A height field of the wrong length is refused before any command is issued.
pub fn graph_3d_render_commands(vertex_count: usize, index_count: usize, heights_len: usize) -> (r:
    Result<Vec<DrawCommand>, RenderError>)
    ensures
        heights_len != vertex_count <==> r == Err::<Vec<DrawCommand>, RenderError>(
            RenderError::InvalidHeightFieldLength { expected: vertex_count, actual: heights_len },
        ),
        heights_len == vertex_count ==> r is Ok,
        r matches Ok(commands) ==> commands@ == graph_3d_plan(index_count),
{
    if heights_len != vertex_count {
        return Err(RenderError::InvalidHeightFieldLength { expected: vertex_count, actual: heights_len });
    }
    let r: Vec<DrawCommand> = vec![
        DrawCommand::UseProgram,
        DrawCommand::SetUniform { uniform: UniformRole::Projection },
        DrawCommand::SetUniform { uniform: UniformRole::NormalsRotation },
        DrawCommand::SetUniform { uniform: UniformRole::Opacity },
        DrawCommand::BindAttribute { buffer: BufferRole::GridPositions, location: 0, components: 3 },
        DrawCommand::BindAttribute { buffer: BufferRole::Heights, location: 1, components: 1 },
        DrawCommand::Refill { buffer: BufferRole::Heights },
        DrawCommand::BindAttribute { buffer: BufferRole::Normals, location: 2, components: 3 },
        DrawCommand::Refill { buffer: BufferRole::Normals },
        DrawCommand::BindIndices { buffer: BufferRole::GridIndices },
        DrawCommand::DrawElements { index_count },
    ];
    assert(r@ =~= graph_3d_plan(index_count));
    Ok(r)
}

/// Whether a command is a draw call.
pub open spec fn is_draw(c: DrawCommand) -> bool {
    c is DrawArrays || c is DrawElements
}

/// Whether a buffer's contents change from frame to frame.
pub open spec fn is_dynamic(b: BufferRole) -> bool {
    b == BufferRole::Heights || b == BufferRole::Normals
}

/// A frame's commands end with its one draw call, and refill only dynamic
/// buffers.
pub open spec fn well_formed_frame(plan: Seq<DrawCommand>) -> bool {
    &&& plan.len() > 0
    &&& is_draw(plan.last())
    &&& forall|i: int| 0 <= i < plan.len() - 1 ==> !is_draw(#[trigger] plan[i])
    &&& forall|i: int|
        0 <= i < plan.len() ==> (#[trigger] plan[i] matches DrawCommand::Refill { buffer }
            ==> is_dynamic(buffer))
}

/// Every program draws once per frame, as the frame's last command, and
/// rewrites only the contents of its dynamic buffers.
pub proof fn lemma_frames_draw_once(vertex_count: usize, index_count: usize)
    ensures
        well_formed_frame(color_2d_plan(vertex_count)),
        well_formed_frame(color_2d_gradient_plan(index_count)),
        well_formed_frame(graph_3d_plan(index_count)),
{
    let a = color_2d_plan(vertex_count);
    let b = color_2d_gradient_plan(index_count);
    let c = graph_3d_plan(index_count);
    assert(is_draw(a.last()) && is_draw(b.last()) && is_draw(c.last()));
}

} // verus!
