//! The ordered construction of a rendering context. A `Construction` says
//! which resource to create next and with what parameters; whoever drives it
//! creates that resource and reports the outcome, and the construction moves
//! on to the next stage. At the first failure it asks for the release of
//! everything created so far, newest first, and then gives up for good.
use crate::builder::{BuilderModel, RenderBuilder};
use crate::format::{choose_surface_format, format_choice, formats_view, ChannelKind, FormatChoice};
use crate::plan::{
    pipeline_plan, render_pass_plan, shader_entry, spec_pipeline_plan, spec_render_pass_plan,
    PipelinePlan, RenderPassPlan, COMMAND_POOL_CAPACITY,
};
use vstd::prelude::*;

verus! {

/// The stages of construction, in the order in which they run.
#[derive(Clone, Copy, Debug, PartialEq, Eq, Structural)]
pub enum Stage {
    Instance,
    Window,
    Device,
    CommandPool,
    RenderPass,
    PipelineLayout,
    VertexShader,
    FragmentShader,
    Pipeline,
    Swapchain,
    ImageViews,
    Framebuffers,
    Semaphore,
    Fence,
}

/// Where a construction stands: about to run a stage; finished; releasing,
/// after the failure of the first stage named, what the second stage named
/// created; or stopped by the failure of a stage, with everything released.
#[derive(Clone, Copy, Debug, PartialEq, Eq, Structural)]
pub enum Progress {
    At(Stage),
    Done,
    Releasing(Stage, Stage),
    Failed(Stage),
}

/// What the swapchain hands back: a number of raw images, for each of which
/// a view and a framebuffer are made, or one ready-made framebuffer.
#[derive(Clone, Copy, Debug, PartialEq, Eq, Structural)]
pub enum Backbuffer {
    Images(usize),
    Framebuffer,
}

#[derive(Clone, Copy, Debug, PartialEq, Eq, Structural)]
pub enum ShaderStage {
    Vertex,
    Fragment,
}

/// The result of carrying out an action.
#[derive(Debug)]
pub enum Outcome {
    /// The resource was created.
    Created,
    /// The device and its queue group were opened on the adapter asked for; the
    /// surface lists formats with these channel kinds, or none at all.
    DeviceOpened(Option<Vec<ChannelKind>>),
    /// The swapchain was created with this backbuffer. A swapchain without
    /// any image is of no use: the swapchain stage fails on it.
    SwapchainCreated(Backbuffer),
    /// The resource could not be created (no adapter, no queue family that
    /// can present, a query or creation call that failed).
    Failed,
}

/// The next thing to do.
#[derive(Debug)]
pub enum Action<'a> {
    /// Create the backend instance, tagged with the application name.
    CreateInstance { name: &'a str, version: u32 },
    /// Create the event source and a window of this title and size.
    CreateWindow { title: &'a str, width: u32, height: u32 },
    /// Bind a surface to the window, take the adapter of this position in the
    /// list of adapters and open a device with this many queues of the first
    /// family that can present to the surface; then query the surface's
    /// capabilities and formats.
    OpenDevice { adapter: usize, queue_count: usize },
    /// Create the graphics command pool, with no flags.
    CreateCommandPool { max_buffers: usize },
    CreateRenderPass(RenderPassPlan),
    /// Create a pipeline layout with no descriptor sets and no push constants.
    CreatePipelineLayout,
    CreateShaderModule { stage: ShaderStage, code: &'a [u8] },
    /// Create the graphics pipeline; both shaders are entered through `entry`.
    CreatePipeline { plan: PipelinePlan, entry: &'static str },
    /// Create the swapchain from the surface capabilities, in this format.
    CreateSwapchain { format: FormatChoice },
    /// Create a two-dimensional colour view of the swapchain image `image`.
    CreateImageView { image: usize, format: FormatChoice },
    /// Create a framebuffer over the image view `view`, of the swapchain's size.
    CreateFramebuffer { view: usize },
    CreateSemaphore,
    CreateFence { signaled: bool },
    /// Every resource exists: assemble the context.
    Finish,
    /// Release whatever this stage created, if anything.
    Release(Stage),
    /// Construction failed at this stage, and everything it had created has
    /// been released: give up.
    Abort(Stage),
}

/// A construction as values.
pub struct ConstructionModel {
    pub config: BuilderModel,
    pub progress: Progress,
    /// The surface format, once the device stage has chosen it.
    pub format: FormatChoice,
    /// What the swapchain handed back, once it exists.
    pub backbuffer: Backbuffer,
    /// Image views created so far.
    pub views: nat,
    /// Framebuffers created so far, or handed over by the swapchain.
    pub framebuffers: nat,
}

pub open spec fn image_count(b: Backbuffer) -> nat {
    match b {
        Backbuffer::Images(n) => n as nat,
        Backbuffer::Framebuffer => 0,
    }
}

/// The stage that follows `s` when `s` creates a single resource.
pub open spec fn successor(s: Stage) -> Stage {
    match s {
        Stage::Instance => Stage::Window,
        Stage::Window => Stage::Device,
        Stage::Device => Stage::CommandPool,
        Stage::CommandPool => Stage::RenderPass,
        Stage::RenderPass => Stage::PipelineLayout,
        Stage::PipelineLayout => Stage::VertexShader,
        Stage::VertexShader => Stage::FragmentShader,
        Stage::FragmentShader => Stage::Pipeline,
        Stage::Pipeline => Stage::Swapchain,
        Stage::Swapchain => Stage::ImageViews,
        Stage::ImageViews => Stage::Framebuffers,
        Stage::Framebuffers => Stage::Semaphore,
        Stage::Semaphore => Stage::Fence,
        Stage::Fence => Stage::Fence,
    }
}

/// The stage that runs before `s` (the first stage for the first).
pub open spec fn predecessor(s: Stage) -> Stage {
    match s {
        Stage::Instance => Stage::Instance,
        Stage::Window => Stage::Instance,
        Stage::Device => Stage::Window,
        Stage::CommandPool => Stage::Device,
        Stage::RenderPass => Stage::CommandPool,
        Stage::PipelineLayout => Stage::RenderPass,
        Stage::VertexShader => Stage::PipelineLayout,
        Stage::FragmentShader => Stage::VertexShader,
        Stage::Pipeline => Stage::FragmentShader,
        Stage::Swapchain => Stage::Pipeline,
        Stage::ImageViews => Stage::Swapchain,
        Stage::Framebuffers => Stage::ImageViews,
        Stage::Semaphore => Stage::Framebuffers,
        Stage::Fence => Stage::Semaphore,
    }
}

/// Position of a stage in the order of construction.
pub open spec fn stage_index(s: Stage) -> nat {
    match s {
        Stage::Instance => 0,
        Stage::Window => 1,
        Stage::Device => 2,
        Stage::CommandPool => 3,
        Stage::RenderPass => 4,
        Stage::PipelineLayout => 5,
        Stage::VertexShader => 6,
        Stage::FragmentShader => 7,
        Stage::Pipeline => 8,
        Stage::Swapchain => 9,
        Stage::ImageViews => 10,
        Stage::Framebuffers => 11,
        Stage::Semaphore => 12,
        Stage::Fence => 13,
    }
}

/// The views and framebuffers of a finished context: one of each per
/// swapchain image, of which there is at least one, or no view and the one
/// framebuffer the swapchain gave.
pub open spec fn finished_shape(m: ConstructionModel) -> bool {
    match m.backbuffer {
        Backbuffer::Images(n) => n >= 1 && m.views == n && m.framebuffers == n,
        Backbuffer::Framebuffer => m.views == 0 && m.framebuffers == 1,
    }
}

impl ConstructionModel {
    /// A construction of `config` that has not run any stage.
    pub open spec fn start(config: BuilderModel) -> ConstructionModel {
        ConstructionModel {
            config,
            progress: Progress::At(Stage::Instance),
            format: FormatChoice::Default,
            backbuffer: Backbuffer::Images(0),
            views: 0,
            framebuffers: 0,
        }
    }

    /// The counts of views and framebuffers agree with the stage reached.
    pub open spec fn wf(self) -> bool {
        match self.progress {
            Progress::Failed(_) => true,
            Progress::Releasing(_, _) => true,
            Progress::Done => finished_shape(self),
            Progress::At(Stage::Semaphore) => finished_shape(self),
            Progress::At(Stage::Fence) => finished_shape(self),
            Progress::At(Stage::ImageViews) => {
                &&& self.backbuffer matches Backbuffer::Images(n)
                &&& self.views < image_count(self.backbuffer)
                &&& self.framebuffers == 0
            },
            Progress::At(Stage::Framebuffers) => {
                &&& self.backbuffer matches Backbuffer::Images(n)
                &&& self.views == image_count(self.backbuffer)
                &&& self.framebuffers < image_count(self.backbuffer)
            },
            Progress::At(_) => self.views == 0 && self.framebuffers == 0,
        }
    }

    pub open spec fn with_progress(self, p: Progress) -> ConstructionModel {
        ConstructionModel { progress: p, ..self }
    }

    /// The failure of stage `s`: release what it and the stages before it
    /// created, from the last to the first.
    pub open spec fn fail_at(self, s: Stage) -> ConstructionModel {
        self.with_progress(Progress::Releasing(s, s))
    }

    /// The construction after the current action had `outcome`.
    pub open spec fn step(self, outcome: Outcome) -> ConstructionModel {
        match self.progress {
            Progress::At(s) => {
                match outcome {
                    Outcome::Failed => self.fail_at(s),
                    Outcome::DeviceOpened(f) => if s == Stage::Device {
                        ConstructionModel {
                            progress: Progress::At(Stage::CommandPool),
                            format: format_choice(formats_view(&f)),
                            ..self
                        }
                    } else {
                        self.fail_at(s)
                    },
                    Outcome::SwapchainCreated(b) => if s != Stage::Swapchain || b
                        == Backbuffer::Images(0) {
                        self.fail_at(s)
                    } else {
                        ConstructionModel {
                            progress: match b {
                                Backbuffer::Images(_) => Progress::At(Stage::ImageViews),
                                Backbuffer::Framebuffer => Progress::At(Stage::Semaphore),
                            },
                            backbuffer: b,
                            views: 0,
                            framebuffers: if b == Backbuffer::Framebuffer {
                                1
                            } else {
                                0
                            },
                            ..self
                        }
                    },
                    Outcome::Created => match s {
                        Stage::Device => self.fail_at(s),
                        Stage::Swapchain => self.fail_at(s),
                        Stage::ImageViews => ConstructionModel {
                            progress: if self.views + 1 >= image_count(self.backbuffer) {
                                Progress::At(Stage::Framebuffers)
                            } else {
                                Progress::At(Stage::ImageViews)
                            },
                            views: self.views + 1,
                            ..self
                        },
                        Stage::Framebuffers => ConstructionModel {
                            progress: if self.framebuffers + 1 >= image_count(self.backbuffer) {
                                Progress::At(Stage::Semaphore)
                            } else {
                                Progress::At(Stage::Framebuffers)
                            },
                            framebuffers: self.framebuffers + 1,
                            ..self
                        },
                        Stage::Fence => self.with_progress(Progress::Done),
                        _ => self.with_progress(Progress::At(successor(s))),
                    },
                }
            },
            Progress::Releasing(f, t) => if t == Stage::Instance {
                self.with_progress(Progress::Failed(f))
            } else {
                self.with_progress(Progress::Releasing(f, predecessor(t)))
            },
            _ => self,
        }
    }

    /// The construction after the outcomes `outcomes`, in order.
    pub open spec fn run(self, outcomes: Seq<Outcome>) -> ConstructionModel
        decreases outcomes.len(),
    {
        if outcomes.len() == 0 {
            self
        } else {
            self.step(outcomes[0]).run(outcomes.drop_first())
        }
    }

    /// `a` is the action that the construction asks for next.
    pub open spec fn is_next_action(self, a: Action) -> bool {
        match self.progress {
            Progress::Done => a matches Action::Finish,
            Progress::Failed(s) => a matches Action::Abort(t) && t == s,
            Progress::Releasing(_, s) => a matches Action::Release(t) && t == s,
            Progress::At(s) => {
                match s {
                    Stage::Instance => a matches Action::CreateInstance { name, version } && name@
                        == self.config.title && version == 1,
                    Stage::Window => a matches Action::CreateWindow { title, width, height }
                        && title@ == self.config.title && width == self.config.width && height
                        == self.config.height,
                    Stage::Device => a matches Action::OpenDevice { adapter, queue_count }
                        && adapter == 0 && queue_count == 1,
                    Stage::CommandPool => a matches Action::CreateCommandPool { max_buffers }
                        && max_buffers == 16,
                    Stage::RenderPass => a matches Action::CreateRenderPass(p) && p
                        == spec_render_pass_plan(self.format),
                    Stage::PipelineLayout => a matches Action::CreatePipelineLayout,
                    Stage::VertexShader => a matches Action::CreateShaderModule { stage, code }
                        && stage == ShaderStage::Vertex && code@ == self.config.vertex_shader,
                    Stage::FragmentShader => a matches Action::CreateShaderModule { stage, code }
                        && stage == ShaderStage::Fragment && code@ == self.config.fragment_shader,
                    Stage::Pipeline => a matches Action::CreatePipeline { plan, entry } && plan
                        == spec_pipeline_plan() && entry@ == "main"@,
                    Stage::Swapchain => a matches Action::CreateSwapchain { format } && format
                        == self.format,
                    Stage::ImageViews => a matches Action::CreateImageView { image, format }
                        && image == self.views && format == self.format,
                    Stage::Framebuffers => a matches Action::CreateFramebuffer { view } && view
                        == self.framebuffers,
                    Stage::Semaphore => a matches Action::CreateSemaphore,
                    Stage::Fence => a matches Action::CreateFence { signaled } && !signaled,
                }
            },
        }
    }
}

/// A construction in progress, together with the configuration it was
/// started from.
pub struct Construction<'a> {
    config: RenderBuilder<'a>,
    progress: Progress,
    format: FormatChoice,
    backbuffer: Backbuffer,
    views: usize,
    framebuffers: usize,
}

impl<'a> View for Construction<'a> {
    type V = ConstructionModel;

    closed spec fn view(&self) -> ConstructionModel {
        ConstructionModel {
            config: self.config@,
            progress: self.progress,
            format: self.format,
            backbuffer: self.backbuffer,
            views: self.views as nat,
            framebuffers: self.framebuffers as nat,
        }
    }
}

impl<'a> RenderBuilder<'a> {
    /// Starts the construction of a rendering context from the configuration
    /// as it stands, consuming the builder.
    pub fn build(self) -> (r: Construction<'a>)
        ensures
            r@ == ConstructionModel::start(self@),
            r.wf(),
    {
        Construction {
            config: self,
            progress: Progress::At(Stage::Instance),
            format: FormatChoice::Default,
            backbuffer: Backbuffer::Images(0),
            views: 0,
            framebuffers: 0,
        }
    }
}

impl<'a> Construction<'a> {
    pub closed spec fn wf(&self) -> bool {
        self@.wf()
    }

    /// The action to carry out next.
    pub fn next_action(&self) -> (r: Action<'a>)
        ensures
            self@.is_next_action(r),
    {
        match self.progress {
            Progress::Done => Action::Finish,
            Progress::Failed(s) => Action::Abort(s),
            Progress::Releasing(_, s) => Action::Release(s),
            Progress::At(s) => match s {
                Stage::Instance => Action::CreateInstance { name: self.config.title(), version: 1 },
                Stage::Window => {
                    let (width, height) = self.config.dimensions();
                    Action::CreateWindow { title: self.config.title(), width, height }
                },
                Stage::Device => Action::OpenDevice { adapter: 0, queue_count: 1 },
                Stage::CommandPool => Action::CreateCommandPool {
                    max_buffers: COMMAND_POOL_CAPACITY,
                },
                Stage::RenderPass => Action::CreateRenderPass(render_pass_plan(self.format)),
                Stage::PipelineLayout => Action::CreatePipelineLayout,
                Stage::VertexShader => create_shader(
                    ShaderStage::Vertex,
                    self.config.vertex_shader(),
                ),
                Stage::FragmentShader => create_shader(
                    ShaderStage::Fragment,
                    self.config.fragment_shader(),
                ),
                Stage::Pipeline => Action::CreatePipeline {
                    plan: pipeline_plan(),
                    entry: shader_entry(),
                },
                Stage::Swapchain => Action::CreateSwapchain { format: self.format },
                Stage::ImageViews => Action::CreateImageView {
                    image: self.views,
                    format: self.format,
                },
                Stage::Framebuffers => Action::CreateFramebuffer { view: self.framebuffers },
                Stage::Semaphore => Action::CreateSemaphore,
                Stage::Fence => Action::CreateFence { signaled: false },
            },
        }
    }

    /// Records the outcome of the action last asked for and moves to the next
    /// stage; after a failure, to the next release, or to the end once all is
    /// released.
    pub fn advance(&mut self, outcome: Outcome)
        requires
            old(self).wf(),
        ensures
            final(self)@ == old(self)@.step(outcome),
            final(self).wf(),
    {
        proof {
            lemma_step_keeps_wf(self@, outcome);
        }
        let s = match self.progress {
            Progress::At(s) => s,
            Progress::Releasing(f, t) => {
                self.progress = if t == Stage::Instance {
                    Progress::Failed(f)
                } else {
                    Progress::Releasing(f, previous_stage(t))
                };
                return;
            },
            _ => return,
        };
        match outcome {
            Outcome::Failed => {
                self.progress = Progress::Releasing(s, s);
            },
            Outcome::DeviceOpened(f) => {
                if s == Stage::Device {
                    self.format = choose_surface_format(&f);
                    self.progress = Progress::At(Stage::CommandPool);
                } else {
                    self.progress = Progress::Releasing(s, s);
                }
            },
            Outcome::SwapchainCreated(b) => {
                if s != Stage::Swapchain || b == Backbuffer::Images(0) {
                    self.progress = Progress::Releasing(s, s);
                } else {
                    self.backbuffer = b;
                    self.views = 0;
                    match b {
                        Backbuffer::Images(_) => {
                            self.framebuffers = 0;
                            self.progress = Progress::At(Stage::ImageViews);
                        },
                        Backbuffer::Framebuffer => {
                            self.framebuffers = 1;
                            self.progress = Progress::At(Stage::Semaphore);
                        },
                    }
                }
            },
            Outcome::Created => {
                let n: usize = match self.backbuffer {
                    Backbuffer::Images(n) => n,
                    Backbuffer::Framebuffer => 0,
                };
                match s {
                    Stage::Device | Stage::Swapchain => {
                        self.progress = Progress::Releasing(s, s);
                    },
                    Stage::ImageViews => {
                        self.views = self.views + 1;
                        if self.views >= n {
                            self.progress = Progress::At(Stage::Framebuffers);
                        }
                    },
                    Stage::Framebuffers => {
                        self.framebuffers = self.framebuffers + 1;
                        if self.framebuffers >= n {
                            self.progress = Progress::At(Stage::Semaphore);
                        }
                    },
                    Stage::Fence => {
                        self.progress = Progress::Done;
                    },
                    _ => {
                        self.progress = Progress::At(next_stage(s));
                    },
                }
            },
        }
    }

    pub fn progress(&self) -> (r: Progress)
        ensures
            r == self@.progress,
    {
        self.progress
    }

    /// The surface format chosen by the device stage.
    pub fn surface_format(&self) -> (r: FormatChoice)
        ensures
            r == self@.format,
    {
        self.format
    }

    /// Number of image views created.
    pub fn image_views(&self) -> (r: usize)
        ensures
            r == self@.views,
    {
        self.views
    }

    /// Number of framebuffers created or handed over by the swapchain.
    pub fn frame_buffers(&self) -> (r: usize)
        ensures
            r == self@.framebuffers,
    {
        self.framebuffers
    }
}

/// The action that creates the module of shader stage `stage`: the raw
/// bytecode is handed to the device as it is, without any check of its own;
/// the device alone decides whether it makes a module.
pub fn create_shader<'a>(stage: ShaderStage, raw: &'a [u8]) -> (r: Action<'a>)
    ensures
        r matches Action::CreateShaderModule { stage: st, code } && st == stage && code@ == raw@,
{
    Action::CreateShaderModule { stage, code: raw }
}

fn next_stage(s: Stage) -> (r: Stage)
    ensures
        r == successor(s),
{
    match s {
        Stage::Instance => Stage::Window,
        Stage::Window => Stage::Device,
        Stage::Device => Stage::CommandPool,
        Stage::CommandPool => Stage::RenderPass,
        Stage::RenderPass => Stage::PipelineLayout,
        Stage::PipelineLayout => Stage::VertexShader,
        Stage::VertexShader => Stage::FragmentShader,
        Stage::FragmentShader => Stage::Pipeline,
        Stage::Pipeline => Stage::Swapchain,
        Stage::Swapchain => Stage::ImageViews,
        Stage::ImageViews => Stage::Framebuffers,
        Stage::Framebuffers => Stage::Semaphore,
        Stage::Semaphore => Stage::Fence,
        Stage::Fence => Stage::Fence,
    }
}

fn previous_stage(s: Stage) -> (r: Stage)
    ensures
        r == predecessor(s),
{
    match s {
        Stage::Instance => Stage::Instance,
        Stage::Window => Stage::Instance,
        Stage::Device => Stage::Window,
        Stage::CommandPool => Stage::Device,
        Stage::RenderPass => Stage::CommandPool,
        Stage::PipelineLayout => Stage::RenderPass,
        Stage::VertexShader => Stage::PipelineLayout,
        Stage::FragmentShader => Stage::VertexShader,
        Stage::Pipeline => Stage::FragmentShader,
        Stage::Swapchain => Stage::Pipeline,
        Stage::ImageViews => Stage::Swapchain,
        Stage::Framebuffers => Stage::ImageViews,
        Stage::Semaphore => Stage::Framebuffers,
        Stage::Fence => Stage::Semaphore,
    }
}

/// Running one stage keeps the counts of views and framebuffers in agreement
/// with the stage reached.
pub proof fn lemma_step_keeps_wf(m: ConstructionModel, outcome: Outcome)
    requires
        m.wf(),
    ensures
        m.step(outcome).wf(),
{
}

/// Every sequence of outcomes keeps the counts of views and framebuffers in
/// agreement with the stage reached.
pub proof fn lemma_run_keeps_wf(m: ConstructionModel, outcomes: Seq<Outcome>)
    requires
        m.wf(),
    ensures
        m.run(outcomes).wf(),
    decreases outcomes.len(),
{
    if outcomes.len() > 0 {
        lemma_step_keeps_wf(m, outcomes[0]);
        lemma_run_keeps_wf(m.step(outcomes[0]), outcomes.drop_first());
    }
}

/// A finished construction has as many image views as framebuffers when it
/// has any image view, and at least one framebuffer when it has none.
pub proof fn lemma_finished_context_shape(m: ConstructionModel)
    requires
        m.wf(),
        m.progress == Progress::Done,
    ensures
        m.views > 0 ==> m.views == m.framebuffers,
        m.views == 0 ==> m.framebuffers >= 1,
{
}

/// Whatever the configuration and whatever the outcomes reported along the
/// way, a construction that finishes has as many image views as
/// framebuffers when it has any image view, and at least one framebuffer when
/// it has none.
pub proof fn lemma_built_context_shape(config: BuilderModel, outcomes: Seq<Outcome>)
    requires
        ConstructionModel::start(config).run(outcomes).progress == Progress::Done,
    ensures
        ({
            let m = ConstructionModel::start(config).run(outcomes);
            &&& m.views > 0 ==> m.views == m.framebuffers
            &&& m.views == 0 ==> m.framebuffers >= 1
        }),
{
    lemma_run_keeps_wf(ConstructionModel::start(config), outcomes);
    lemma_finished_context_shape(ConstructionModel::start(config).run(outcomes));
}

/// The command pool is always asked for with a capacity of sixteen buffers,
/// whatever the window's size and the shaders' content.
pub proof fn lemma_command_pool_capacity(m: ConstructionModel, a: Action)
    requires
        m.progress == Progress::At(Stage::CommandPool),
        m.is_next_action(a),
    ensures
        a matches Action::CreateCommandPool { max_buffers } && max_buffers == 16,
{
}

/// Before the shader modules are created, neither what a stage asks for nor
/// where it leads depends on the shader bytecode.
pub proof fn lemma_shaders_unread_before_modules(
    m: ConstructionModel,
    vertex_shader: Seq<u8>,
    fragment_shader: Seq<u8>,
    outcome: Outcome,
    a: Action,
)
    requires
        m.progress matches Progress::At(s) && stage_index(s) < stage_index(Stage::VertexShader),
    ensures
        ({
            let m2 = ConstructionModel {
                config: m.config.with_vertex_shader(vertex_shader).with_fragment_shader(
                    fragment_shader,
                ),
                ..m
            };
            &&& m2.step(outcome) == ConstructionModel { config: m2.config, ..m.step(outcome) }
            &&& m2.is_next_action(a) == m.is_next_action(a)
        }),
{
}

/// A shader-module stage hands the configured bytecode, empty or not, to the
/// device as it is; when the device refuses it, construction fails at that
/// stage and goes no further.
pub proof fn lemma_shader_module_step(m: ConstructionModel, outcome: Outcome, a: Action)
    requires
        m.progress == Progress::At(Stage::VertexShader) || m.progress == Progress::At(
            Stage::FragmentShader,
        ),
    ensures
        m.is_next_action(a) && m.progress == Progress::At(Stage::VertexShader) ==> (
        a matches Action::CreateShaderModule { stage, code } && stage == ShaderStage::Vertex
            && code@ == m.config.vertex_shader),
        m.is_next_action(a) && m.progress == Progress::At(Stage::FragmentShader) ==> (
        a matches Action::CreateShaderModule { stage, code } && stage == ShaderStage::Fragment
            && code@ == m.config.fragment_shader),
        outcome matches Outcome::Failed ==> (m.progress matches Progress::At(s)
            && m.step(outcome).progress == Progress::Releasing(s, s)),
{
}

/// The construction has failed at stage `f`: it is releasing what a stage no
/// later than `f` created, or has released everything.
pub open spec fn unwinding(m: ConstructionModel, f: Stage) -> bool {
    match m.progress {
        Progress::Releasing(g, t) => g == f && stage_index(t) <= stage_index(f),
        Progress::Failed(g) => g == f,
        _ => false,
    }
}

/// After a failure, each step releases what the stage before the last one
/// released had created, from the failed stage back to the first, and then
/// the construction gives up.
pub proof fn lemma_release_in_reverse_order(m: ConstructionModel, outcome: Outcome, f: Stage, t: Stage)
    requires
        m.progress == Progress::Releasing(f, t),
    ensures
        t == Stage::Instance ==> m.step(outcome).progress == Progress::Failed(f),
        t != Stage::Instance ==> m.step(outcome).progress == Progress::Releasing(f, predecessor(t))
            && stage_index(predecessor(t)) + 1 == stage_index(t),
{
}

/// Once a stage has failed, no outcome moves the construction on to another
/// stage: it only asks to release what a stage up to the failed one created,
/// and then to give up.
pub proof fn lemma_failure_is_final(m: ConstructionModel, outcomes: Seq<Outcome>, f: Stage, a: Action)
    requires
        unwinding(m, f),
    ensures
        unwinding(m.run(outcomes), f),
        m.is_next_action(a) ==> ((a matches Action::Release(t) && stage_index(t) <= stage_index(f))
            || (a matches Action::Abort(g) && g == f)),
    decreases outcomes.len(),
{
    if outcomes.len() > 0 {
        lemma_failure_is_final(m.step(outcomes[0]), outcomes.drop_first(), f, a);
    }
}

/// When the device stage fails (no adapter, no queue family that can
/// present), construction stops there: after any further outcomes it only
/// releases what the device, window and instance stages created, and no
/// command pool or anything later is ever asked for.
pub proof fn lemma_device_failure_stops(m: ConstructionModel, outcomes: Seq<Outcome>, k: int, a: Action)
    requires
        m.progress == Progress::At(Stage::Device),
        outcomes.len() > 0,
        outcomes[0] matches Outcome::Failed,
        1 <= k <= outcomes.len(),
    ensures
        unwinding(m.run(outcomes.take(k)), Stage::Device),
        m.run(outcomes.take(k)).is_next_action(a) ==> ((a matches Action::Release(t) && stage_index(t)
            <= stage_index(Stage::Device)) || (a matches Action::Abort(g) && g == Stage::Device)),
{
    let t = outcomes.take(k);
    assert(t[0] == outcomes[0]);
    let failed = m.step(t[0]);
    assert(unwinding(failed, Stage::Device));
    lemma_failure_is_final(failed, t.drop_first(), Stage::Device, a);
    lemma_failure_is_final(failed.run(t.drop_first()), Seq::empty(), Stage::Device, a);
}

} // verus!
