use vstd::prelude::*;

verus! {

broadcast use vstd::seq_lib::group_seq_properties;

/// Bounding rectangle of all active displays in desktop coordinates.
#[derive(Debug, Clone, Copy, PartialEq, Eq, Structural)]
pub struct DesktopBounds {
    pub left: i32,
    pub top: i32,
    pub width: u32,
    pub height: u32,
}

/// Where one captured display sits on the desktop, and its mode size.
#[derive(Debug, Clone, Copy, PartialEq, Eq, Structural)]
pub struct OutputPlacement {
    pub left: i32,
    pub top: i32,
    pub width: u32,
    pub height: u32,
}

/// A render viewport in presentation-surface pixels.
#[derive(Debug, Clone, Copy, PartialEq, Eq, Structural)]
pub struct Viewport {
    pub x: i64,
    pub y: i64,
    pub width: u32,
    pub height: u32,
}

/// One step of drawing a composited frame.
#[derive(Debug, Clone, Copy, PartialEq, Eq, Structural)]
pub enum DrawCommand {
    /// Clear the surface to fully transparent.
    Clear,
    /// Bind the full-screen quad, the sampler and the filter program.
    BindPipeline,
    SetViewport(Viewport),
    /// Bind the read-view of the output with this index as the sampled input.
    BindSource(usize),
    /// Draw this many vertices of the triangle strip.
    Draw(u32),
    /// Unbind the sampled input.
    UnbindSource,
    /// Present without waiting for vertical sync.
    Present,
}

/// Number of vertices in the full-screen quad strip.
pub const QUAD_VERTEX_COUNT: u32 = 4;

pub open spec fn viewport_of(output: OutputPlacement, bounds: DesktopBounds) -> Viewport {
    Viewport {
        x: (output.left - bounds.left) as i64,
        y: (output.top - bounds.top) as i64,
        width: output.width,
        height: output.height,
    }
}

pub open spec fn full_viewport(bounds: DesktopBounds) -> Viewport {
    Viewport { x: 0, y: 0, width: bounds.width, height: bounds.height }
}

/// The four commands that draw output `index`.
pub open spec fn output_commands(output: OutputPlacement, index: int, bounds: DesktopBounds) -> Seq<
    DrawCommand,
> {
    seq![
        DrawCommand::SetViewport(viewport_of(output, bounds)),
        DrawCommand::BindSource(index as usize),
        DrawCommand::Draw(QUAD_VERTEX_COUNT),
        DrawCommand::UnbindSource,
    ]
}

/// The draws of all outputs, in output order.
pub open spec fn outputs_commands(outputs: Seq<OutputPlacement>, bounds: DesktopBounds) -> Seq<
    DrawCommand,
>
    decreases outputs.len(),
{
    if outputs.len() == 0 {
        Seq::empty()
    } else {
        outputs_commands(outputs.drop_last(), bounds) + output_commands(
            outputs.last(),
            outputs.len() - 1,
            bounds,
        )
    }
}

/// A whole composited frame: clear, bind, one draw per output, restore, present.
pub open spec fn frame_plan(outputs: Seq<OutputPlacement>, bounds: DesktopBounds) -> Seq<DrawCommand> {
    seq![DrawCommand::Clear, DrawCommand::BindPipeline] + outputs_commands(outputs, bounds) + seq![
        DrawCommand::SetViewport(full_viewport(bounds)),
        DrawCommand::Present,
    ]
}

/// Viewport that places an output where its real content lies, relative to
/// the virtual desktop's origin.
pub fn output_viewport(output: &OutputPlacement, bounds: &DesktopBounds) -> (r: Viewport)
    ensures
        r == viewport_of(*output, *bounds),
        r.x == output.left - bounds.left,
        r.y == output.top - bounds.top,
{
    Viewport {
        x: output.left as i64 - bounds.left as i64,
        y: output.top as i64 - bounds.top as i64,
        width: output.width,
        height: output.height,
    }
}

/// The commands that composite one frame from the outputs' textures.
pub fn frame_commands(outputs: &Vec<OutputPlacement>, bounds: &DesktopBounds) -> (r: Vec<DrawCommand>)
    ensures
        r@ == frame_plan(outputs@, *bounds),
{
    let mut cmds: Vec<DrawCommand> = Vec::new();
    cmds.push(DrawCommand::Clear);
    cmds.push(DrawCommand::BindPipeline);
    let mut i: usize = 0;
    while i < outputs.len()
        invariant
            i <= outputs@.len(),
            cmds@ == seq![DrawCommand::Clear, DrawCommand::BindPipeline] + outputs_commands(
                outputs@.take(i as int),
                *bounds,
            ),
        decreases outputs@.len() - i,
    {
        let vp = output_viewport(&outputs[i], bounds);
        cmds.push(DrawCommand::SetViewport(vp));
        cmds.push(DrawCommand::BindSource(i));
        cmds.push(DrawCommand::Draw(QUAD_VERTEX_COUNT));
        cmds.push(DrawCommand::UnbindSource);
        assert(outputs@.take(i + 1).drop_last() =~= outputs@.take(i as int));
        assert(cmds@ =~= seq![DrawCommand::Clear, DrawCommand::BindPipeline] + outputs_commands(
            outputs@.take(i + 1),
            *bounds,
        ));
        i = i + 1;
    }
    cmds.push(DrawCommand::SetViewport(Viewport { x: 0, y: 0, width: bounds.width, height: bounds.height }));
    cmds.push(DrawCommand::Present);
    assert(outputs@.take(outputs@.len() as int) =~= outputs@);
    assert(cmds@ =~= frame_plan(outputs@, *bounds));
    cmds
}

/// The draw commands of a command sequence.
pub open spec fn draws(cmds: Seq<DrawCommand>) -> Seq<DrawCommand> {
    cmds.filter(|c: DrawCommand| c is Draw)
}

/// The read-view bindings of a command sequence.
pub open spec fn binds(cmds: Seq<DrawCommand>) -> Seq<DrawCommand> {
    cmds.filter(|c: DrawCommand| c is BindSource)
}

/// The read-view unbindings of a command sequence.
pub open spec fn unbinds(cmds: Seq<DrawCommand>) -> Seq<DrawCommand> {
    cmds.filter(|c: DrawCommand| c is UnbindSource)
}

proof fn lemma_output_commands_counts(output: OutputPlacement, index: int, bounds: DesktopBounds)
    ensures
        draws(output_commands(output, index, bounds)).len() == 1,
        binds(output_commands(output, index, bounds)).len() == 1,
        unbinds(output_commands(output, index, bounds)).len() == 1,
{
    reveal_with_fuel(Seq::filter, 5);
    let cmds = output_commands(output, index, bounds);
    assert(cmds.drop_last() =~= seq![cmds[0], cmds[1], cmds[2]]);
    assert(cmds.drop_last().drop_last() =~= seq![cmds[0], cmds[1]]);
    assert(cmds.drop_last().drop_last().drop_last() =~= seq![cmds[0]]);
    assert(cmds.drop_last().drop_last().drop_last().drop_last() =~= Seq::<DrawCommand>::empty());
}

proof fn lemma_frame_ends_counts(bounds: DesktopBounds)
    ensures
        draws(seq![DrawCommand::Clear, DrawCommand::BindPipeline]).len() == 0,
        binds(seq![DrawCommand::Clear, DrawCommand::BindPipeline]).len() == 0,
        unbinds(seq![DrawCommand::Clear, DrawCommand::BindPipeline]).len() == 0,
        draws(seq![DrawCommand::SetViewport(full_viewport(bounds)), DrawCommand::Present]).len() == 0,
        binds(seq![DrawCommand::SetViewport(full_viewport(bounds)), DrawCommand::Present]).len() == 0,
        unbinds(seq![DrawCommand::SetViewport(full_viewport(bounds)), DrawCommand::Present]).len()
            == 0,
{
    reveal_with_fuel(Seq::filter, 3);
    let head = seq![DrawCommand::Clear, DrawCommand::BindPipeline];
    let tail = seq![DrawCommand::SetViewport(full_viewport(bounds)), DrawCommand::Present];
    assert(head.drop_last() =~= seq![DrawCommand::Clear]);
    assert(head.drop_last().drop_last() =~= Seq::<DrawCommand>::empty());
    assert(tail.drop_last() =~= seq![DrawCommand::SetViewport(full_viewport(bounds))]);
    assert(tail.drop_last().drop_last() =~= Seq::<DrawCommand>::empty());
}

proof fn lemma_outputs_commands(outputs: Seq<OutputPlacement>, bounds: DesktopBounds)
    ensures
        outputs_commands(outputs, bounds).len() == 4 * outputs.len(),
        forall|i: int, k: int|
            0 <= i < outputs.len() && 0 <= k < 4 ==> #[trigger] outputs_commands(outputs, bounds)[4
                * i + k] == output_commands(outputs[i], i, bounds)[k],
        draws(outputs_commands(outputs, bounds)).len() == outputs.len(),
        binds(outputs_commands(outputs, bounds)).len() == outputs.len(),
        unbinds(outputs_commands(outputs, bounds)).len() == outputs.len(),
    decreases outputs.len(),
{
    if outputs.len() > 0 {
        let rest = outputs.drop_last();
        let n = outputs.len() - 1;
        lemma_outputs_commands(rest, bounds);
        let front = outputs_commands(rest, bounds);
        let last = output_commands(outputs.last(), n, bounds);
        lemma_output_commands_counts(outputs.last(), n, bounds);
        Seq::filter_distributes_over_add(front, last, |c: DrawCommand| c is Draw);
        Seq::filter_distributes_over_add(front, last, |c: DrawCommand| c is BindSource);
        Seq::filter_distributes_over_add(front, last, |c: DrawCommand| c is UnbindSource);
        assert forall|i: int, k: int|
            0 <= i < outputs.len() && 0 <= k < 4 implies #[trigger] outputs_commands(
                outputs,
                bounds,
            )[4 * i + k] == output_commands(outputs[i], i, bounds)[k] by {
            if i < n {
                assert(rest[i] == outputs[i]);
                assert(front[4 * i + k] == output_commands(rest[i], i, bounds)[k]);
            }
        }
    }
}

/// Compositing N outputs issues exactly N draws and exactly N bindings and
/// N unbindings of a read-view. Group k of four commands sets the viewport of
/// output k, offset by the virtual desktop's origin, binds that output's
/// read-view, draws the quad and unbinds the view again.
pub proof fn lemma_one_draw_per_output(outputs: Seq<OutputPlacement>, bounds: DesktopBounds)
    ensures
        frame_plan(outputs, bounds).len() == 4 * outputs.len() + 4,
        draws(frame_plan(outputs, bounds)).len() == outputs.len(),
        binds(frame_plan(outputs, bounds)).len() == outputs.len(),
        unbinds(frame_plan(outputs, bounds)).len() == outputs.len(),
        forall|i: int|
            0 <= i < outputs.len() ==> {
                &&& #[trigger] frame_plan(outputs, bounds)[4 * i + 2] == DrawCommand::SetViewport(
                    viewport_of(outputs[i], bounds),
                )
                &&& viewport_of(outputs[i], bounds).x == outputs[i].left - bounds.left
                &&& viewport_of(outputs[i], bounds).y == outputs[i].top - bounds.top
                &&& frame_plan(outputs, bounds)[4 * i + 3] == DrawCommand::BindSource(i as usize)
                &&& frame_plan(outputs, bounds)[4 * i + 4] == DrawCommand::Draw(QUAD_VERTEX_COUNT)
                &&& frame_plan(outputs, bounds)[4 * i + 5] == DrawCommand::UnbindSource
            },
{
    let head = seq![DrawCommand::Clear, DrawCommand::BindPipeline];
    let tail = seq![DrawCommand::SetViewport(full_viewport(bounds)), DrawCommand::Present];
    let mid = outputs_commands(outputs, bounds);
    lemma_outputs_commands(outputs, bounds);
    lemma_frame_ends_counts(bounds);
    Seq::filter_distributes_over_add(head, mid, |c: DrawCommand| c is Draw);
    Seq::filter_distributes_over_add(head + mid, tail, |c: DrawCommand| c is Draw);
    Seq::filter_distributes_over_add(head, mid, |c: DrawCommand| c is BindSource);
    Seq::filter_distributes_over_add(head + mid, tail, |c: DrawCommand| c is BindSource);
    Seq::filter_distributes_over_add(head, mid, |c: DrawCommand| c is UnbindSource);
    Seq::filter_distributes_over_add(head + mid, tail, |c: DrawCommand| c is UnbindSource);
    assert forall|i: int| 0 <= i < outputs.len() implies {
        &&& #[trigger] frame_plan(outputs, bounds)[4 * i + 2] == DrawCommand::SetViewport(
            viewport_of(outputs[i], bounds),
        )
        &&& viewport_of(outputs[i], bounds).x == outputs[i].left - bounds.left
        &&& viewport_of(outputs[i], bounds).y == outputs[i].top - bounds.top
        &&& frame_plan(outputs, bounds)[4 * i + 3] == DrawCommand::BindSource(i as usize)
        &&& frame_plan(outputs, bounds)[4 * i + 4] == DrawCommand::Draw(QUAD_VERTEX_COUNT)
        &&& frame_plan(outputs, bounds)[4 * i + 5] == DrawCommand::UnbindSource
    } by {
        assert(mid[4 * i + 0] == output_commands(outputs[i], i, bounds)[0]);
        assert(mid[4 * i + 1] == output_commands(outputs[i], i, bounds)[1]);
        assert(mid[4 * i + 2] == output_commands(outputs[i], i, bounds)[2]);
        assert(mid[4 * i + 3] == output_commands(outputs[i], i, bounds)[3]);
    }
}

} // verus!
