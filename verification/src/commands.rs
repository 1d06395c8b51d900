//! Command recording decisions: buffer usages, subpass markers, and the plan that turns
//! imgui's draw lists into draw calls.

use vstd::prelude::*;
use crate::descriptors::LibDescriptorSets;

verus! {

/// How often a recorded command buffer may be submitted.
#[derive(Debug, Clone, Copy, PartialEq, Eq, Structural)]
pub enum CommandBufferUsage {
    OneTimeSubmit,
    MultipleSubmit,
    SimultaneousUse,
}

/// A kind of command buffer usage.
pub trait GpuCommandUsage {
    fn usage() -> CommandBufferUsage;
}

/// Buffers that are submitted once.
#[derive(Debug)]
pub struct GpuCommandUsageOnce;

/// Buffers that may be submitted several times, one at a time.
#[derive(Debug)]
pub struct GpuCommandUsageMultiple;

/// Buffers that may be pending several times at once.
#[derive(Debug)]
pub struct GpuCommandUsageAsync;

impl GpuCommandUsage for GpuCommandUsageOnce {
    fn usage() -> (r: CommandBufferUsage)
        ensures
            r == CommandBufferUsage::OneTimeSubmit,
    {
        CommandBufferUsage::OneTimeSubmit
    }
}

impl GpuCommandUsage for GpuCommandUsageMultiple {
    fn usage() -> (r: CommandBufferUsage)
        ensures
            r == CommandBufferUsage::MultipleSubmit,
    {
        CommandBufferUsage::MultipleSubmit
    }
}

impl GpuCommandUsage for GpuCommandUsageAsync {
    fn usage() -> (r: CommandBufferUsage)
        ensures
            r == CommandBufferUsage::SimultaneousUse,
    {
        CommandBufferUsage::SimultaneousUse
    }
}

/// Moves to the next subpass of a render pass.
#[derive(Debug, PartialEq, Eq, Structural)]
pub struct NextSubpass;

impl NextSubpass {
    pub fn new() -> (r: Self)
        ensures
            r == NextSubpass,
    {
        NextSubpass
    }
}

/// Ends a render pass.
#[derive(Debug, PartialEq, Eq, Structural)]
pub struct EndRenderPass;

impl EndRenderPass {
    pub fn new() -> (r: Self)
        ensures
            r == EndRenderPass,
    {
        EndRenderPass
    }
}

/// The byte size of a buffer that holds a whole two-dimensional image: width times height
/// times the byte size of its format's blocks (taken as a 32-bit number).
pub fn image_copy_size(width: u32, height: u32, block_size: u64) -> (r: u32)
    requires
        width * height <= u32::MAX,
        width * height * (#[verifier::truncate] (block_size as u32)) <= u32::MAX,
    ensures
        r == width * height * (#[verifier::truncate] (block_size as u32)),
{
    let block = #[verifier::truncate] (block_size as u32);
    width * height * block
}

/// A rectangle of the framebuffer that drawing is limited to.
#[derive(Debug, Clone, Copy, PartialEq, Eq, Structural)]
pub struct ScissorRect {
    pub offset_x: u32,
    pub offset_y: u32,
    pub width: u32,
    pub height: u32,
}

/// One command of an imgui draw list, with its clip rectangle already projected into the
/// framebuffer (`None` when nothing of it is visible).
#[derive(Debug, Clone, Copy, PartialEq, Eq, Structural)]
pub enum DrawCommand {
    Elements {
        count: usize,
        texture_id: usize,
        vtx_offset: usize,
        idx_offset: usize,
        scissor: Option<ScissorRect>,
    },
    ResetRenderState,
    RawCallback,
}

/// One imgui draw list: the lengths of its vertex and index buffers, and its commands.
#[derive(Debug)]
pub struct DrawListSummary {
    pub vtx_len: usize,
    pub idx_len: usize,
    pub commands: Vec<DrawCommand>,
}

/// One step of recording imgui's draw data.
#[derive(Debug, Clone, Copy, PartialEq, Eq, Structural)]
pub enum DrawStep {
    /// Limit drawing to a rectangle.
    SetScissor(ScissorRect),
    /// Bind the descriptor set registered under a texture identifier.
    BindTexture(usize),
    /// Draw indexed triangles.
    DrawIndexed { index_count: u32, first_index: u32, vertex_offset: i32 },
    /// A request to reset the render state, which is not carried out (only reported).
    ResetRenderState,
    /// Call the user callback of a command of a draw list.
    RawCallback { list: usize, command: usize },
}

/// The steps for one command, and the texture bound after it, given the texture bound before
/// it, the offsets of its draw list in the combined buffers, and the registered textures.
pub open spec fn command_steps(
    cmd: DrawCommand,
    list: int,
    command: int,
    index_base: int,
    vertex_base: int,
    current: Option<usize>,
    registered: Set<usize>,
) -> (Seq<DrawStep>, Option<usize>) {
    match cmd {
        DrawCommand::Elements { count, texture_id, vtx_offset, idx_offset, scissor } => {
            match scissor {
                None => (Seq::empty(), current),
                Some(rect) => {
                    let bind = current != Some(texture_id) && registered.contains(texture_id);
                    let draw = DrawStep::DrawIndexed {
                        index_count: count as u32,
                        first_index: (idx_offset + index_base) as u32,
                        vertex_offset: (vtx_offset + vertex_base) as i32,
                    };
                    if bind {
                        (seq![DrawStep::SetScissor(rect), DrawStep::BindTexture(texture_id), draw], Some(texture_id))
                    } else {
                        (seq![DrawStep::SetScissor(rect), draw], current)
                    }
                },
            }
        },
        DrawCommand::ResetRenderState => (seq![DrawStep::ResetRenderState], current),
        DrawCommand::RawCallback => (
            seq![DrawStep::RawCallback { list: list as usize, command: command as usize }],
            current,
        ),
    }
}

/// The steps for the first `n` commands of a draw list.
pub open spec fn plan_commands(
    cmds: Seq<DrawCommand>,
    list: int,
    n: int,
    index_base: int,
    vertex_base: int,
    current: Option<usize>,
    registered: Set<usize>,
) -> (Seq<DrawStep>, Option<usize>)
    decreases n,
{
    if n <= 0 {
        (Seq::empty(), current)
    } else {
        let before = plan_commands(cmds, list, n - 1, index_base, vertex_base, current, registered);
        let last = command_steps(
            cmds[n - 1],
            list,
            n - 1,
            index_base,
            vertex_base,
            before.1,
            registered,
        );
        (before.0 + last.0, last.1)
    }
}

/// The total index-buffer length of the first `k` draw lists.
pub open spec fn index_prefix(lists: Seq<DrawListSummary>, k: int) -> int
    decreases k,
{
    if k <= 0 {
        0
    } else {
        index_prefix(lists, k - 1) + lists[k - 1].idx_len
    }
}

/// The total vertex-buffer length of the first `k` draw lists.
pub open spec fn vertex_prefix(lists: Seq<DrawListSummary>, k: int) -> int
    decreases k,
{
    if k <= 0 {
        0
    } else {
        vertex_prefix(lists, k - 1) + lists[k - 1].vtx_len
    }
}

/// The steps for the first `k` draw lists; no texture is bound at the start.
pub open spec fn plan_lists(lists: Seq<DrawListSummary>, k: int, registered: Set<usize>) -> (
    Seq<DrawStep>,
    Option<usize>,
)
    decreases k,
{
    if k <= 0 {
        (Seq::empty(), None)
    } else {
        let before = plan_lists(lists, k - 1, registered);
        let cmds = lists[k - 1].commands@;
        let last = plan_commands(
            cmds,
            k - 1,
            cmds.len() as int,
            index_prefix(lists, k - 1),
            vertex_prefix(lists, k - 1),
            before.1,
            registered,
        );
        (before.0 + last.0, last.1)
    }
}

/// The buffer offsets stay within the machine word: the combined buffer lengths, and each
/// command's offsets plus the offsets of its list.
pub open spec fn offsets_fit(lists: Seq<DrawListSummary>) -> bool {
    &&& index_prefix(lists, lists.len() as int) <= usize::MAX
    &&& vertex_prefix(lists, lists.len() as int) <= usize::MAX
    &&& forall|k: int, c: int|
        0 <= k < lists.len() && 0 <= c < lists[k].commands@.len() ==> match #[trigger] lists[k].commands@[c] {
            DrawCommand::Elements { idx_offset, vtx_offset, .. } => {
                &&& idx_offset + index_prefix(lists, k) <= usize::MAX
                &&& vtx_offset + vertex_prefix(lists, k) <= usize::MAX
            },
            _ => true,
        }
}

/// The prefix sums grow with the number of lists.
pub proof fn lemma_prefix_monotone(lists: Seq<DrawListSummary>, k: int, m: int)
    requires
        0 <= k <= m,
    ensures
        index_prefix(lists, k) <= index_prefix(lists, m),
        vertex_prefix(lists, k) <= vertex_prefix(lists, m),
    decreases m - k,
{
    if k < m {
        lemma_prefix_monotone(lists, k, m - 1);
    }
}

/// The draw call that a command of a draw list makes, when it makes one: a visible command
/// draws its `count` indices starting at its index offset plus `index_base`, with its vertex
/// offset plus `vertex_base` added to each index.
pub open spec fn draw_of(cmd: DrawCommand, index_base: int, vertex_base: int) -> Option<DrawStep> {
    match cmd {
        DrawCommand::Elements { count, vtx_offset, idx_offset, scissor, .. } => if scissor is Some {
            Some(
                DrawStep::DrawIndexed {
                    index_count: count as u32,
                    first_index: (idx_offset + index_base) as u32,
                    vertex_offset: (vtx_offset + vertex_base) as i32,
                },
            )
        } else {
            None
        },
        _ => None,
    }
}

/// The draw call of command `c` of draw list `k`, whose buffers start after those of all the
/// lists before it in the combined index and vertex buffers.
pub open spec fn list_draw(lists: Seq<DrawListSummary>, k: int, c: int) -> Option<DrawStep> {
    draw_of(lists[k].commands@[c], index_prefix(lists, k), vertex_prefix(lists, k))
}

/// Every draw among the steps of one command is that command's draw call.
proof fn lemma_command_step_draws(
    cmd: DrawCommand,
    list: int,
    command: int,
    index_base: int,
    vertex_base: int,
    current: Option<usize>,
    registered: Set<usize>,
)
    ensures
        ({
            let steps = command_steps(cmd, list, command, index_base, vertex_base, current, registered).0;
            &&& forall|t: int|
                0 <= t < steps.len() && (#[trigger] steps[t]) is DrawIndexed ==> draw_of(
                    cmd,
                    index_base,
                    vertex_base,
                ) == Some(steps[t])
            &&& draw_of(cmd, index_base, vertex_base) is Some ==> steps.len() > 0 && draw_of(
                cmd,
                index_base,
                vertex_base,
            ) == Some(steps[steps.len() - 1])
        }),
{
}

/// The draws among the steps of the first `n` commands of a list are exactly the draw calls
/// of those commands.
proof fn lemma_commands_draws(
    cmds: Seq<DrawCommand>,
    list: int,
    n: int,
    index_base: int,
    vertex_base: int,
    current: Option<usize>,
    registered: Set<usize>,
)
    requires
        0 <= n <= cmds.len(),
    ensures
        ({
            let steps = plan_commands(cmds, list, n, index_base, vertex_base, current, registered).0;
            &&& forall|s: int|
                0 <= s < steps.len() && (#[trigger] steps[s]) is DrawIndexed ==> exists|c: int|
                    0 <= c < n && #[trigger] draw_of(cmds[c], index_base, vertex_base) == Some(steps[s])
            &&& forall|c: int|
                0 <= c < n && (#[trigger] draw_of(cmds[c], index_base, vertex_base)) is Some ==> exists|s: int|
                    0 <= s < steps.len() && draw_of(cmds[c], index_base, vertex_base) == Some(
                        #[trigger] steps[s],
                    )
        }),
    decreases n,
{
    if n > 0 {
        lemma_commands_draws(cmds, list, n - 1, index_base, vertex_base, current, registered);
        let before = plan_commands(cmds, list, n - 1, index_base, vertex_base, current, registered);
        let last = command_steps(cmds[n - 1], list, n - 1, index_base, vertex_base, before.1, registered);
        let steps = plan_commands(cmds, list, n, index_base, vertex_base, current, registered).0;
        assert(steps == before.0 + last.0);
        lemma_command_step_draws(cmds[n - 1], list, n - 1, index_base, vertex_base, before.1, registered);
        assert forall|s: int|
            0 <= s < steps.len() && (#[trigger] steps[s]) is DrawIndexed implies exists|c: int|
                0 <= c < n && #[trigger] draw_of(cmds[c], index_base, vertex_base) == Some(steps[s]) by {
            if s < before.0.len() {
                assert(steps[s] == before.0[s]);
                let c = choose|c: int|
                    0 <= c < n - 1 && #[trigger] draw_of(cmds[c], index_base, vertex_base) == Some(before.0[s]);
                assert(draw_of(cmds[c], index_base, vertex_base) == Some(steps[s]));
            } else {
                let t = s - before.0.len();
                assert(steps[s] == last.0[t]);
                assert(draw_of(cmds[n - 1], index_base, vertex_base) == Some(steps[s]));
            }
        }
        assert forall|c: int|
            0 <= c < n && (#[trigger] draw_of(cmds[c], index_base, vertex_base)) is Some implies exists|s: int|
                0 <= s < steps.len() && draw_of(cmds[c], index_base, vertex_base) == Some(
                    #[trigger] steps[s],
                ) by {
            if c < n - 1 {
                let s = choose|s: int|
                    0 <= s < before.0.len() && draw_of(cmds[c], index_base, vertex_base) == Some(
                        #[trigger] before.0[s],
                    );
                assert(steps[s] == before.0[s]);
            } else {
                let s = before.0.len() + last.0.len() - 1;
                assert(steps[s] == last.0[last.0.len() - 1]);
            }
        }
    }
}

/// The draws among the steps of the first `k` draw lists are exactly the draw calls of their
/// commands, each at its list's place in the combined buffers.
proof fn lemma_lists_draws(lists: Seq<DrawListSummary>, k: int, registered: Set<usize>)
    requires
        0 <= k <= lists.len(),
    ensures
        ({
            let steps = plan_lists(lists, k, registered).0;
            &&& forall|s: int|
                0 <= s < steps.len() && (#[trigger] steps[s]) is DrawIndexed ==> exists|j: int, c: int|
                    0 <= j < k && 0 <= c < lists[j].commands@.len() && #[trigger] list_draw(lists, j, c)
                        == Some(steps[s])
            &&& forall|j: int, c: int|
                0 <= j < k && 0 <= c < lists[j].commands@.len() && (#[trigger] list_draw(lists, j, c)) is Some
                    ==> exists|s: int|
                    0 <= s < steps.len() && list_draw(lists, j, c) == Some(#[trigger] steps[s])
        }),
    decreases k,
{
    if k > 0 {
        lemma_lists_draws(lists, k - 1, registered);
        let before = plan_lists(lists, k - 1, registered);
        let cmds = lists[k - 1].commands@;
        let ib = index_prefix(lists, k - 1);
        let vb = vertex_prefix(lists, k - 1);
        let last = plan_commands(cmds, k - 1, cmds.len() as int, ib, vb, before.1, registered);
        let steps = plan_lists(lists, k, registered).0;
        assert(steps == before.0 + last.0);
        lemma_commands_draws(cmds, k - 1, cmds.len() as int, ib, vb, before.1, registered);
        assert forall|s: int|
            0 <= s < steps.len() && (#[trigger] steps[s]) is DrawIndexed implies exists|j: int, c: int|
                0 <= j < k && 0 <= c < lists[j].commands@.len() && #[trigger] list_draw(lists, j, c)
                    == Some(steps[s]) by {
            if s < before.0.len() {
                assert(steps[s] == before.0[s]);
                let (j, c) = choose|j: int, c: int|
                    0 <= j < k - 1 && 0 <= c < lists[j].commands@.len() && #[trigger] list_draw(lists, j, c)
                        == Some(before.0[s]);
                assert(list_draw(lists, j, c) == Some(steps[s]));
            } else {
                let t = s - before.0.len();
                assert(steps[s] == last.0[t]);
                let c = choose|c: int|
                    0 <= c < cmds.len() && #[trigger] draw_of(cmds[c], ib, vb) == Some(last.0[t]);
                assert(list_draw(lists, k - 1, c) == Some(steps[s]));
            }
        }
        assert forall|j: int, c: int|
            0 <= j < k && 0 <= c < lists[j].commands@.len() && (#[trigger] list_draw(lists, j, c)) is Some
                implies exists|s: int|
                0 <= s < steps.len() && list_draw(lists, j, c) == Some(#[trigger] steps[s]) by {
            if j < k - 1 {
                let s = choose|s: int|
                    0 <= s < before.0.len() && list_draw(lists, j, c) == Some(#[trigger] before.0[s]);
                assert(steps[s] == before.0[s]);
            } else {
                assert(list_draw(lists, j, c) == draw_of(cmds[c], ib, vb));
                let t = choose|t: int|
                    0 <= t < last.0.len() && draw_of(cmds[c], ib, vb) == Some(#[trigger] last.0[t]);
                assert(steps[before.0.len() + t] == last.0[t]);
            }
        }
    }
}

/// Every draw call of the plan draws one command of one draw list, at the place where that
/// list's indices and vertices start in the combined buffers (after the indices and vertices
/// of all the lists before it); and every visible command is drawn.
pub proof fn law_draws_at_global_offsets(lists: Seq<DrawListSummary>, registered: Set<usize>)
    ensures
        ({
            let steps = plan_lists(lists, lists.len() as int, registered).0;
            &&& forall|s: int|
                0 <= s < steps.len() && (#[trigger] steps[s]) is DrawIndexed ==> exists|k: int, c: int|
                    0 <= k < lists.len() && 0 <= c < lists[k].commands@.len() && #[trigger] list_draw(
                        lists,
                        k,
                        c,
                    ) == Some(steps[s])
            &&& forall|k: int, c: int|
                0 <= k < lists.len() && 0 <= c < lists[k].commands@.len() && (#[trigger] list_draw(
                    lists,
                    k,
                    c,
                )) is Some ==> exists|s: int|
                    0 <= s < steps.len() && list_draw(lists, k, c) == Some(#[trigger] steps[s])
        }),
{
    lemma_lists_draws(lists, lists.len() as int, registered);
}

/// The steps that record imgui's draw lists: for each visible command, set its scissor, bind
/// its texture when it differs from the one bound and is registered, and draw its indices
/// from the combined buffers; report render-state resets; call user callbacks.
pub fn plan_imgui_draw<A, S>(lists: &Vec<DrawListSummary>, descriptors: &LibDescriptorSets<A, S>) -> (r: Vec<DrawStep>)
    requires
        offsets_fit(lists@),
    ensures
        r@ == plan_lists(lists@, lists@.len() as int, descriptors@.dom()).0,
        forall|s: int|
            0 <= s < r@.len() && (#[trigger] r@[s]) is DrawIndexed ==> exists|k: int, c: int|
                0 <= k < lists@.len() && 0 <= c < lists@[k].commands@.len() && #[trigger] list_draw(
                    lists@,
                    k,
                    c,
                ) == Some(r@[s]),
        forall|k: int, c: int|
            0 <= k < lists@.len() && 0 <= c < lists@[k].commands@.len() && (#[trigger] list_draw(
                lists@,
                k,
                c,
            )) is Some ==> exists|s: int| 0 <= s < r@.len() && list_draw(lists@, k, c) == Some(#[trigger] r@[s]),
{
    let ghost reg = descriptors@.dom();
    let mut steps: Vec<DrawStep> = Vec::new();
    let mut current: Option<usize> = None;
    let mut index_base: usize = 0;
    let mut vertex_base: usize = 0;
    let n = lists.len();
    for li in 0..n
        invariant
            n == lists@.len(),
            offsets_fit(lists@),
            reg == descriptors@.dom(),
            steps@ == plan_lists(lists@, li as int, reg).0,
            current == plan_lists(lists@, li as int, reg).1,
            index_base == index_prefix(lists@, li as int),
            vertex_base == vertex_prefix(lists@, li as int),
    {
        let list = &lists[li];
        let m = list.commands.len();
        let ghost start_steps = steps@;
        let ghost start_current = current;
        for ci in 0..m
            invariant
                n == lists@.len(),
                li < n,
                offsets_fit(lists@),
                reg == descriptors@.dom(),
                list == lists@[li as int],
                m == list.commands@.len(),
                index_base == index_prefix(lists@, li as int),
                vertex_base == vertex_prefix(lists@, li as int),
                steps@ == start_steps + plan_commands(
                    list.commands@,
                    li as int,
                    ci as int,
                    index_base as int,
                    vertex_base as int,
                    start_current,
                    reg,
                ).0,
                current == plan_commands(
                    list.commands@,
                    li as int,
                    ci as int,
                    index_base as int,
                    vertex_base as int,
                    start_current,
                    reg,
                ).1,
        {
            let ghost before = steps@;
            let cmd = list.commands[ci];
            assert(cmd == lists@[li as int].commands@[ci as int]);
            match cmd {
                DrawCommand::Elements { count, texture_id, vtx_offset, idx_offset, scissor } => {
                    match scissor {
                        None => {},
                        Some(rect) => {
                            steps.push(DrawStep::SetScissor(rect));
                            let same = match current {
                                Some(id) => id == texture_id,
                                None => false,
                            };
                            if !same && descriptors.contains(texture_id) {
                                steps.push(DrawStep::BindTexture(texture_id));
                                current = Some(texture_id);
                            }
                            let first = idx_offset + index_base;
                            let base = vtx_offset + vertex_base;
                            steps.push(
                                DrawStep::DrawIndexed {
                                    index_count: count as u32,
                                    first_index: first as u32,
                                    vertex_offset: base as i32,
                                },
                            );
                        },
                    }
                },
                DrawCommand::ResetRenderState => {
                    steps.push(DrawStep::ResetRenderState);
                },
                DrawCommand::RawCallback => {
                    steps.push(DrawStep::RawCallback { list: li, command: ci });
                },
            }
            proof {
                let p = plan_commands(
                    list.commands@,
                    li as int,
                    ci as int,
                    index_base as int,
                    vertex_base as int,
                    start_current,
                    reg,
                );
                let q = command_steps(
                    cmd,
                    li as int,
                    ci as int,
                    index_base as int,
                    vertex_base as int,
                    p.1,
                    reg,
                );
                assert(steps@ =~= before + q.0);
                assert(start_steps + p.0 + q.0 =~= start_steps + (p.0 + q.0));
            }
        }
        proof {
            lemma_prefix_monotone(lists@, li as int + 1, n as int);
        }
        index_base = index_base + list.idx_len;
        vertex_base = vertex_base + list.vtx_len;
        proof {
            assert(steps@ =~= plan_lists(lists@, li as int + 1, reg).0);
        }
    }
    proof {
        law_draws_at_global_offsets(lists@, reg);
    }
    steps
}

} // verus!
