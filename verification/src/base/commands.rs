//! The command pool and the command buffers, which are recorded once: one
//! per framebuffer, each drawing the same three vertices.

use vstd::prelude::*;
use crate::base::data::{Extent2D, QueueData, SwapchainData};
use crate::base::pipeline::{Offset2D, PipelineBindPoint, Rect2D, full_rect};

verus! {

/// The command pool that is asked for.
#[derive(Clone, Copy, Debug, PartialEq, Eq, Structural)]
pub struct CommandPoolCreateInfo {
    pub queue_family_index: u32,
}

/// Describes the command pool: its buffers go to the graphics family.
pub fn create_command_pool(queue_data: &QueueData) -> (r: CommandPoolCreateInfo)
    ensures
        r.queue_family_index == queue_data.family_indices.graphics,
{
    CommandPoolCreateInfo { queue_family_index: queue_data.family_indices.graphics }
}

#[derive(Clone, Copy, Debug, PartialEq, Eq, Structural)]
pub enum CommandBufferLevel {
    Primary,
    Secondary,
}

/// The command buffers that are asked for.
#[derive(Clone, Copy, Debug, PartialEq, Eq, Structural)]
pub struct CommandBufferAllocateInfo {
    pub command_pool: u64,
    pub level: CommandBufferLevel,
    pub command_buffer_count: u32,
}

/// Describes the allocation of one primary command buffer per framebuffer.
pub fn allocate_command_buffers(command_pool: u64, framebuffers: &Vec<u64>) -> (r:
    CommandBufferAllocateInfo)
    requires
        framebuffers@.len() <= u32::MAX,
    ensures
        r.command_pool == command_pool,
        r.level == CommandBufferLevel::Primary,
        r.command_buffer_count == framebuffers@.len(),
{
    CommandBufferAllocateInfo {
        command_pool,
        level: CommandBufferLevel::Primary,
        command_buffer_count: framebuffers.len() as u32,
    }
}

/// A colour in whole numbers; the device takes each channel as a
/// floating-point number.
#[derive(Clone, Copy, Debug, PartialEq, Eq, Structural)]
pub struct ClearColor {
    pub r: u32,
    pub g: u32,
    pub b: u32,
    pub a: u32,
}

/// How the commands of a subpass are given.
#[derive(Clone, Copy, Debug, PartialEq, Eq, Structural)]
pub enum SubpassContents {
    Inline,
    SecondaryCommandBuffers,
}

/// One recorded command.
#[derive(Clone, Copy, Debug, PartialEq, Eq, Structural)]
pub enum Command {
    /// Recording begins.
    Begin,
    BeginRenderPass {
        render_pass: u64,
        framebuffer: u64,
        render_area: Rect2D,
        clear_color: ClearColor,
        contents: SubpassContents,
    },
    BindPipeline { bind_point: PipelineBindPoint, pipeline: u64 },
    Draw { vertex_count: u32, instance_count: u32, first_vertex: u32, first_instance: u32 },
    EndRenderPass,
    /// Recording ends.
    End,
}

/// A command buffer and what is recorded into it.
#[derive(Debug, PartialEq, Eq)]
pub struct Recording {
    pub command_buffer: u64,
    pub commands: Vec<Command>,
}

/// Opaque black.
pub open spec fn black() -> ClearColor {
    ClearColor { r: 0, g: 0, b: 0, a: 1 }
}

/// The commands of every command buffer: one render pass over the whole
/// framebuffer, cleared to opaque black, in which the pipeline is bound and
/// three vertices are drawn once.
pub open spec fn fixed_commands(
    framebuffer: u64,
    extent: Extent2D,
    render_pass: u64,
    pipeline: u64,
) -> Seq<Command> {
    seq![
        Command::Begin,
        Command::BeginRenderPass {
            render_pass,
            framebuffer,
            render_area: full_rect(extent),
            clear_color: black(),
            contents: SubpassContents::Inline,
        },
        Command::BindPipeline { bind_point: PipelineBindPoint::Graphics, pipeline },
        Command::Draw { vertex_count: 3, instance_count: 1, first_vertex: 0, first_instance: 0 },
        Command::EndRenderPass,
        Command::End,
    ]
}

/// The commands that are recorded for one framebuffer.
pub fn record_commands(framebuffer: u64, extent: Extent2D, render_pass: u64, pipeline: u64) -> (r:
    Vec<Command>)
    ensures
        r@ == fixed_commands(framebuffer, extent, render_pass, pipeline),
{
    let mut commands: Vec<Command> = Vec::with_capacity(6);
    commands.push(Command::Begin);
    commands.push(
        Command::BeginRenderPass {
            render_pass,
            framebuffer,
            render_area: Rect2D { offset: Offset2D { x: 0, y: 0 }, extent },
            clear_color: ClearColor { r: 0, g: 0, b: 0, a: 1 },
            contents: SubpassContents::Inline,
        },
    );
    commands.push(Command::BindPipeline { bind_point: PipelineBindPoint::Graphics, pipeline });
    commands.push(
        Command::Draw { vertex_count: 3, instance_count: 1, first_vertex: 0, first_instance: 0 },
    );
    commands.push(Command::EndRenderPass);
    commands.push(Command::End);
    commands
}

/// Says what is recorded into each command buffer: buffer `i` draws into
/// framebuffer `i`.
pub fn create_command_buffers(
    swapchain_data: &SwapchainData,
    render_pass: u64,
    pipeline: u64,
    framebuffers: &Vec<u64>,
    command_buffers: &Vec<u64>,
) -> (r: Vec<Recording>)
    requires
        command_buffers@.len() <= framebuffers@.len(),
    ensures
        r@.len() == command_buffers@.len(),
        forall|i: int|
            0 <= i < r@.len() ==> {
                &&& (#[trigger] r@[i]).command_buffer == command_buffers@[i]
                &&& r@[i].commands@ == fixed_commands(
                    framebuffers@[i],
                    swapchain_data.extent,
                    render_pass,
                    pipeline,
                )
            },
{
    let mut recordings: Vec<Recording> = Vec::with_capacity(command_buffers.len());
    let mut i: usize = 0;
    while i < command_buffers.len()
        invariant
            i <= command_buffers@.len() <= framebuffers@.len(),
            recordings@.len() == i,
            forall|j: int|
                0 <= j < i ==> {
                    &&& (#[trigger] recordings@[j]).command_buffer == command_buffers@[j]
                    &&& recordings@[j].commands@ == fixed_commands(
                        framebuffers@[j],
                        swapchain_data.extent,
                        render_pass,
                        pipeline,
                    )
                },
        decreases command_buffers@.len() - i,
    {
        let commands: Vec<Command> = record_commands(
            framebuffers[i],
            swapchain_data.extent,
            render_pass,
            pipeline,
        );
        recordings.push(Recording { command_buffer: command_buffers[i], commands });
        i += 1;
    }
    recordings
}

/// How far a command buffer has got while its commands are replayed.
#[derive(Clone, Copy, Debug, PartialEq, Eq, Structural)]
pub enum ReplayPhase {
    /// Nothing has been recorded yet.
    Initial,
    /// Recording has begun; no render pass is open.
    Recording,
    /// A render pass is open.
    InRenderPass,
    /// Recording has ended.
    Executable,
}

/// A draw call as it is issued when a command buffer is replayed, with the
/// render pass instance that it falls in.
#[derive(Clone, Copy, Debug, PartialEq, Eq, Structural)]
pub struct IssuedDraw {
    /// The number of the render pass instance, counted from 0.
    pub pass: usize,
    pub framebuffer: u64,
    pub clear_color: ClearColor,
    pub pipeline: u64,
    pub vertex_count: u32,
    pub instance_count: u32,
}

/// What replaying a command buffer comes to.
#[derive(Debug, PartialEq, Eq)]
pub struct Replay {
    /// How many render pass instances were begun.
    pub render_passes: usize,
    /// The draw calls in the order in which they were issued.
    pub draws: Vec<IssuedDraw>,
}

/// The state of a replay between two commands.
pub struct ReplayState {
    pub phase: ReplayPhase,
    pub render_passes: nat,
    pub framebuffer: u64,
    pub clear_color: ClearColor,
    pub pipeline: Option<u64>,
    pub draws: Seq<IssuedDraw>,
}

/// The state before the first command.
pub open spec fn replay_start() -> ReplayState {
    ReplayState {
        phase: ReplayPhase::Initial,
        render_passes: 0,
        framebuffer: 0,
        clear_color: ClearColor { r: 0, g: 0, b: 0, a: 0 },
        pipeline: None,
        draws: seq![],
    }
}

/// The state after one more command, or `None` where the command may not
/// follow: recording begins once and ends once, outside of a render pass;
/// render passes do not nest; a pipeline is bound and a draw is issued only
/// within a render pass, the draw only with a pipeline bound in that pass.
pub open spec fn replay_step(s: ReplayState, command: Command) -> Option<ReplayState> {
    match command {
        Command::Begin => if s.phase == ReplayPhase::Initial {
            Some(ReplayState { phase: ReplayPhase::Recording, ..s })
        } else {
            None
        },
        Command::BeginRenderPass { framebuffer, clear_color, .. } => if s.phase
            == ReplayPhase::Recording {
            Some(
                ReplayState {
                    phase: ReplayPhase::InRenderPass,
                    render_passes: s.render_passes + 1,
                    framebuffer,
                    clear_color,
                    pipeline: None,
                    ..s
                },
            )
        } else {
            None
        },
        Command::BindPipeline { bind_point, pipeline } => if s.phase == ReplayPhase::InRenderPass
            && bind_point == PipelineBindPoint::Graphics {
            Some(ReplayState { pipeline: Some(pipeline), ..s })
        } else {
            None
        },
        Command::Draw { vertex_count, instance_count, .. } => if s.phase
            == ReplayPhase::InRenderPass && s.pipeline is Some {
            Some(
                ReplayState {
                    draws: s.draws.push(
                        IssuedDraw {
                            pass: (s.render_passes - 1) as usize,
                            framebuffer: s.framebuffer,
                            clear_color: s.clear_color,
                            pipeline: s.pipeline->0,
                            vertex_count,
                            instance_count,
                        },
                    ),
                    ..s
                },
            )
        } else {
            None
        },
        Command::EndRenderPass => if s.phase == ReplayPhase::InRenderPass {
            Some(ReplayState { phase: ReplayPhase::Recording, ..s })
        } else {
            None
        },
        Command::End => if s.phase == ReplayPhase::Recording {
            Some(ReplayState { phase: ReplayPhase::Executable, ..s })
        } else {
            None
        },
    }
}

/// The state after the first `n` commands.
pub open spec fn replay_prefix(commands: Seq<Command>, n: nat) -> Option<ReplayState>
    decreases n,
{
    if n == 0 {
        Some(replay_start())
    } else {
        match replay_prefix(commands, (n - 1) as nat) {
            Some(s) => replay_step(s, commands[n - 1]),
            None => None,
        }
    }
}

/// The render passes and draw calls of a complete command buffer, or `None`
/// where the commands do not make one.
pub open spec fn replayed(commands: Seq<Command>) -> Option<(nat, Seq<IssuedDraw>)> {
    match replay_prefix(commands, commands.len()) {
        Some(s) => if s.phase == ReplayPhase::Executable {
            Some((s.render_passes, s.draws))
        } else {
            None
        },
        None => None,
    }
}

/// Replays recorded commands and reports the render passes and draw calls
/// that they issue; `None` where the commands do not make a complete
/// command buffer.
pub fn replay(commands: &Vec<Command>) -> (r: Option<Replay>)
    ensures
        r is Some <==> replayed(commands@) is Some,
        r matches Some(replay) ==> (replay.render_passes as nat, replay.draws@) == replayed(
            commands@,
        )->0,
{
    let mut phase: ReplayPhase = ReplayPhase::Initial;
    let mut render_passes: usize = 0;
    let mut framebuffer: u64 = 0;
    let mut clear_color: ClearColor = ClearColor { r: 0, g: 0, b: 0, a: 0 };
    let mut pipeline: Option<u64> = None;
    let mut draws: Vec<IssuedDraw> = Vec::new();
    let mut i: usize = 0;
    while i < commands.len()
        invariant
            i <= commands@.len(),
            render_passes <= i,
            replay_prefix(commands@, i as nat) == Some(
                ReplayState {
                    phase,
                    render_passes: render_passes as nat,
                    framebuffer,
                    clear_color,
                    pipeline,
                    draws: draws@,
                },
            ),
        decreases commands@.len() - i,
    {
        let ghost before = replay_prefix(commands@, i as nat)->0;
        let mut accepted: bool = false;
        match commands[i] {
            Command::Begin => {
                if phase == ReplayPhase::Initial {
                    phase = ReplayPhase::Recording;
                    accepted = true;
                }
            },
            Command::BeginRenderPass {
                render_pass: _,
                framebuffer: target,
                render_area: _,
                clear_color: color,
                contents: _,
            } => {
                if phase == ReplayPhase::Recording {
                    phase = ReplayPhase::InRenderPass;
                    render_passes = render_passes + 1;
                    framebuffer = target;
                    clear_color = color;
                    pipeline = None;
                    accepted = true;
                }
            },
            Command::BindPipeline { bind_point, pipeline: bound } => {
                if phase == ReplayPhase::InRenderPass && bind_point == PipelineBindPoint::Graphics {
                    pipeline = Some(bound);
                    accepted = true;
                }
            },
            Command::Draw { vertex_count, instance_count, first_vertex: _, first_instance: _ } => {
                if phase == ReplayPhase::InRenderPass {
                    if let Some(bound) = pipeline {
                        assert(render_passes > 0) by {
                            lemma_open_pass_is_counted(commands@, i as nat);
                        }
                        draws.push(
                            IssuedDraw {
                                pass: render_passes - 1,
                                framebuffer,
                                clear_color,
                                pipeline: bound,
                                vertex_count,
                                instance_count,
                            },
                        );
                        accepted = true;
                    }
                }
            },
            Command::EndRenderPass => {
                if phase == ReplayPhase::InRenderPass {
                    phase = ReplayPhase::Recording;
                    accepted = true;
                }
            },
            Command::End => {
                if phase == ReplayPhase::Recording {
                    phase = ReplayPhase::Executable;
                    accepted = true;
                }
            },
        }
        if !accepted {
            proof {
                lemma_replay_stays_refused(commands@, (i + 1) as nat, commands@.len());
            }
            return None;
        }
        i += 1;
    }
    if phase == ReplayPhase::Executable {
        Some(Replay { render_passes, draws })
    } else {
        None
    }
}

/// Commands that were refused stay refused, whatever follows.
pub proof fn lemma_replay_stays_refused(commands: Seq<Command>, n: nat, m: nat)
    requires
        replay_prefix(commands, n) is None,
        n <= m,
    ensures
        replay_prefix(commands, m) is None,
    decreases m,
{
    if n < m {
        lemma_replay_stays_refused(commands, n, (m - 1) as nat);
    }
}

/// While a render pass is open, at least one has been begun.
pub proof fn lemma_open_pass_is_counted(commands: Seq<Command>, n: nat)
    requires
        replay_prefix(commands, n) matches Some(s) && s.phase == ReplayPhase::InRenderPass,
    ensures
        replay_prefix(commands, n)->0.render_passes > 0,
    decreases n,
{
    if n > 0 {
        let before = replay_prefix(commands, (n - 1) as nat)->0;
        if before.phase == ReplayPhase::InRenderPass {
            lemma_open_pass_is_counted(commands, (n - 1) as nat);
        }
    }
}

/// Whichever framebuffer a command buffer is recorded for, replaying it
/// issues exactly one render pass, cleared to opaque black, and in it
/// exactly one draw call, of three vertices and one instance.
pub proof fn lemma_recording_replays_one_draw(
    framebuffer: u64,
    extent: Extent2D,
    render_pass: u64,
    pipeline: u64,
)
    ensures
        replayed(fixed_commands(framebuffer, extent, render_pass, pipeline)) == Some(
            (
                1nat,
                seq![
                    IssuedDraw {
                        pass: 0,
                        framebuffer,
                        clear_color: ClearColor { r: 0, g: 0, b: 0, a: 1 },
                        pipeline,
                        vertex_count: 3,
                        instance_count: 1,
                    },
                ],
            ),
        ),
{
    let commands = fixed_commands(framebuffer, extent, render_pass, pipeline);
    let s0 = replay_prefix(commands, 0);
    let s1 = replay_prefix(commands, 1);
    let s2 = replay_prefix(commands, 2);
    let s3 = replay_prefix(commands, 3);
    let s4 = replay_prefix(commands, 4);
    let s5 = replay_prefix(commands, 5);
    let s6 = replay_prefix(commands, 6);
    assert(s6->0.draws =~= seq![
        IssuedDraw {
            pass: 0,
            framebuffer,
            clear_color: ClearColor { r: 0, g: 0, b: 0, a: 1 },
            pipeline,
            vertex_count: 3,
            instance_count: 1,
        },
    ]);
}

} // verus!
