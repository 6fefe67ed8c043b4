use screen_filter::{
    frame_commands, output_viewport, DesktopBounds, DrawCommand, OutputPlacement, Viewport,
    QUAD_VERTEX_COUNT,
};

fn bounds() -> DesktopBounds {
    // a display left of the primary one puts the origin at a negative x
    DesktopBounds { left: -1280, top: -200, width: 3200, height: 1280 }
}

#[test]
fn viewport_is_offset_by_the_desktop_origin() {
    let left = OutputPlacement { left: -1280, top: -200, width: 1280, height: 1024 };
    let primary = OutputPlacement { left: 0, top: 0, width: 1920, height: 1080 };
    assert_eq!(output_viewport(&left, &bounds()), Viewport { x: 0, y: 0, width: 1280, height: 1024 });
    assert_eq!(
        output_viewport(&primary, &bounds()),
        Viewport { x: 1280, y: 200, width: 1920, height: 1080 }
    );
}

#[test]
fn one_draw_per_output_with_balanced_bindings() {
    let outputs = vec![
        OutputPlacement { left: -1280, top: -200, width: 1280, height: 1024 },
        OutputPlacement { left: 0, top: 0, width: 1920, height: 1080 },
        OutputPlacement { left: 1920, top: 100, width: 1280, height: 720 },
    ];
    let cmds = frame_commands(&outputs, &bounds());
    let draws = cmds.iter().filter(|c| matches!(c, DrawCommand::Draw(_))).count();
    let binds = cmds.iter().filter(|c| matches!(c, DrawCommand::BindSource(_))).count();
    let unbinds = cmds.iter().filter(|c| matches!(c, DrawCommand::UnbindSource)).count();
    assert_eq!(draws, 3);
    assert_eq!(binds, 3);
    assert_eq!(unbinds, 3);
    assert_eq!(
        cmds,
        vec![
            DrawCommand::Clear,
            DrawCommand::BindPipeline,
            DrawCommand::SetViewport(Viewport { x: 0, y: 0, width: 1280, height: 1024 }),
            DrawCommand::BindSource(0),
            DrawCommand::Draw(QUAD_VERTEX_COUNT),
            DrawCommand::UnbindSource,
            DrawCommand::SetViewport(Viewport { x: 1280, y: 200, width: 1920, height: 1080 }),
            DrawCommand::BindSource(1),
            DrawCommand::Draw(4),
            DrawCommand::UnbindSource,
            DrawCommand::SetViewport(Viewport { x: 3200, y: 300, width: 1280, height: 720 }),
            DrawCommand::BindSource(2),
            DrawCommand::Draw(4),
            DrawCommand::UnbindSource,
            DrawCommand::SetViewport(Viewport { x: 0, y: 0, width: 3200, height: 1280 }),
            DrawCommand::Present,
        ]
    );
}

#[test]
fn frame_without_outputs_still_clears_and_presents() {
    let cmds = frame_commands(&Vec::new(), &bounds());
    assert_eq!(
        cmds,
        vec![
            DrawCommand::Clear,
            DrawCommand::BindPipeline,
            DrawCommand::SetViewport(Viewport { x: 0, y: 0, width: 3200, height: 1280 }),
            DrawCommand::Present,
        ]
    );
}
