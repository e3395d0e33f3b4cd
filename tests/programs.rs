use webgl_surface::draw::{
    color_2d_gradient_render_commands, color_2d_render_commands, graph_3d_render_commands,
    rectangle_colors, rectangle_corner_vertices, rectangle_indices, rectangle_triangle_vertices,
    BufferRole, DrawCommand, RenderError, UniformRole,
};
use webgl_surface::shader::{
    compile_status, created, link_status, next_link_stage, LinkStage, ProgramError,
};

#[test]
fn compile_success() {
    assert_eq!(compile_status(true, None), Ok(()));
    assert_eq!(compile_status(true, Some(String::from("warning"))), Ok(()));
}

#[test]
fn compile_failure_carries_backend_log() {
    assert_eq!(
        compile_status(false, Some(String::from("ERROR: 0:3: syntax error"))),
        Err(ProgramError::ShaderCompile(String::from("ERROR: 0:3: syntax error")))
    );
}

#[test]
fn compile_failure_without_log() {
    assert_eq!(
        compile_status(false, None),
        Err(ProgramError::ShaderCompile(String::from("unable to get context log info")))
    );
}

#[test]
fn link_outcomes() {
    assert_eq!(link_status(true, None), Ok(()));
    assert_eq!(
        link_status(false, Some(String::from("varying mismatch"))),
        Err(ProgramError::ProgramLink(String::from("varying mismatch")))
    );
    assert_eq!(
        link_status(false, None),
        Err(ProgramError::ProgramLink(String::from(
            "error attaching shaders and linking program"
        )))
    );
}

#[test]
fn resource_creation_outcomes() {
    assert_eq!(created(Some(7u32), "buffer"), Ok(7));
    assert_eq!(
        created::<u32>(None, "error creating program"),
        Err(ProgramError::ResourceCreation(String::from("error creating program")))
    );
}

#[test]
fn rectangle_geometry() {
    let triangles = rectangle_triangle_vertices();
    assert_eq!(triangles, vec![0, 1, 0, 0, 1, 1, 1, 1, 0, 0, 1, 0]);
    assert_eq!(triangles.len() / 2, 6);
    assert_eq!(rectangle_corner_vertices(), vec![0, 1, 0, 0, 1, 1, 1, 0]);
    assert_eq!(rectangle_indices(), vec![0, 1, 2, 2, 1, 3]);
    let colors = rectangle_colors();
    assert_eq!(colors.len(), 16);
    assert_eq!(&colors[0..4], &[255, 0, 0, 255]);
    assert_eq!(&colors[12..16], &[255, 255, 255, 255]);
}

#[test]
fn color_2d_frame() {
    assert_eq!(
        color_2d_render_commands(6),
        vec![
            DrawCommand::UseProgram,
            DrawCommand::BindAttribute {
                buffer: BufferRole::RectangleVertices,
                location: 0,
                components: 2
            },
            DrawCommand::SetUniform { uniform: UniformRole::Color },
            DrawCommand::SetUniform { uniform: UniformRole::Opacity },
            DrawCommand::SetUniform { uniform: UniformRole::Transform },
            DrawCommand::DrawArrays { vertex_count: 6 },
        ]
    );
}

#[test]
fn color_2d_gradient_frame() {
    let commands = color_2d_gradient_render_commands(6);
    assert_eq!(commands.len(), 7);
    assert_eq!(
        commands[2],
        DrawCommand::BindAttribute { buffer: BufferRole::RectangleColors, location: 1, components: 4 }
    );
    assert_eq!(commands[5], DrawCommand::BindIndices { buffer: BufferRole::RectangleIndices });
    assert_eq!(commands[6], DrawCommand::DrawElements { index_count: 6 });
}

#[test]
fn graph_3d_frame() {
    let commands = graph_3d_render_commands(121, 600, 121).unwrap();
    assert_eq!(commands.len(), 11);
    assert_eq!(commands[0], DrawCommand::UseProgram);
    assert_eq!(commands[6], DrawCommand::Refill { buffer: BufferRole::Heights });
    assert_eq!(commands[8], DrawCommand::Refill { buffer: BufferRole::Normals });
    assert_eq!(commands[10], DrawCommand::DrawElements { index_count: 600 });
    let draws = commands
        .iter()
        .filter(|c| matches!(c, DrawCommand::DrawElements { .. } | DrawCommand::DrawArrays { .. }))
        .count();
    assert_eq!(draws, 1);
}

#[test]
fn graph_3d_rejects_wrong_height_count() {
    assert_eq!(
        graph_3d_render_commands(121, 600, 120),
        Err(RenderError::InvalidHeightFieldLength { expected: 121, actual: 120 })
    );
    assert_eq!(
        graph_3d_render_commands(121, 600, 0),
        Err(RenderError::InvalidHeightFieldLength { expected: 121, actual: 0 })
    );
}

#[test]
fn link_stages_advance_in_order() {
    let mut stage = LinkStage::CreateProgram;
    let mut seen = vec![stage];
    while stage != LinkStage::Linked {
        stage = next_link_stage(stage, Ok(())).unwrap();
        seen.push(stage);
    }
    assert_eq!(
        seen,
        vec![
            LinkStage::CreateProgram,
            LinkStage::CompileVertexShader,
            LinkStage::CompileFragmentShader,
            LinkStage::AttachAndLink,
            LinkStage::Linked,
        ]
    );
}

#[test]
fn link_stage_failure_stops_construction() {
    assert_eq!(
        next_link_stage(
            LinkStage::CompileVertexShader,
            compile_status(false, Some(String::from("bad vertex")))
        ),
        Err(ProgramError::ShaderCompile(String::from("bad vertex")))
    );
    assert_eq!(
        next_link_stage(LinkStage::AttachAndLink, link_status(false, None)),
        Err(ProgramError::ProgramLink(String::from(
            "error attaching shaders and linking program"
        )))
    );
}

#[test]
fn graph_3d_matching_heights_always_draw() {
    for n in [0usize, 4, 121] {
        assert!(graph_3d_render_commands(n, 6, n).is_ok());
    }
}
