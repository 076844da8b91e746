use render_factory::builder::RenderBuilder;
use render_factory::construction::{
    create_shader, Action, Backbuffer, Construction, Outcome, Progress, ShaderStage, Stage,
};
use render_factory::format::{choose_surface_format, ChannelKind, FormatChoice};
use render_factory::plan::{
    pipeline_plan, render_pass_plan, shader_entry, BlendMode, ImageLayout, LoadOp,
    PipelineStageKind, PolygonMode, StoreOp, Topology, COMMAND_POOL_CAPACITY,
};

const VERTEX: [u8; 8] = [3, 2, 35, 7, 0, 0, 1, 0];
const FRAGMENT: [u8; 8] = [3, 2, 35, 7, 0, 0, 1, 0];

/// A short name for each action, for comparing whole runs.
fn name_of(a: &Action) -> &'static str {
    match a {
        Action::CreateInstance { .. } => "instance",
        Action::CreateWindow { .. } => "window",
        Action::OpenDevice { .. } => "device",
        Action::CreateCommandPool { .. } => "command_pool",
        Action::CreateRenderPass(_) => "render_pass",
        Action::CreatePipelineLayout => "pipeline_layout",
        Action::CreateShaderModule { stage: ShaderStage::Vertex, .. } => "vertex_shader",
        Action::CreateShaderModule { stage: ShaderStage::Fragment, .. } => "fragment_shader",
        Action::CreatePipeline { .. } => "pipeline",
        Action::CreateSwapchain { .. } => "swapchain",
        Action::CreateImageView { .. } => "image_view",
        Action::CreateFramebuffer { .. } => "framebuffer",
        Action::CreateSemaphore => "semaphore",
        Action::CreateFence { .. } => "fence",
        Action::Finish => "finish",
        Action::Release(_) => "release",
        Action::Abort(_) => "abort",
    }
}

/// Drives a construction to its end, answering every action with success,
/// but for a shader module of empty bytecode, which the device refuses; the
/// surface lists `formats` and the swapchain hands back `backbuffer`.
fn drive(
    c: &mut Construction,
    formats: Option<Vec<ChannelKind>>,
    backbuffer: Backbuffer,
) -> Vec<&'static str> {
    drive_device(c, formats, backbuffer, false)
}

/// As `drive`, with a device that accepts empty bytecode where
/// `accepts_empty` holds.
fn drive_device(
    c: &mut Construction,
    formats: Option<Vec<ChannelKind>>,
    backbuffer: Backbuffer,
    accepts_empty: bool,
) -> Vec<&'static str> {
    let mut names = Vec::new();
    let mut formats = Some(formats);
    for _ in 0..100 {
        let a = c.next_action();
        names.push(name_of(&a));
        let outcome = match a {
            Action::Finish | Action::Abort(_) => return names,
            Action::OpenDevice { .. } => Outcome::DeviceOpened(formats.take().unwrap()),
            Action::CreateSwapchain { .. } => Outcome::SwapchainCreated(backbuffer),
            Action::CreateShaderModule { code, .. } if code.is_empty() && !accepts_empty => {
                Outcome::Failed
            }
            _ => Outcome::Created,
        };
        c.advance(outcome);
    }
    panic!("construction did not end");
}

fn configured<'a>(vertex: &'a [u8], fragment: &'a [u8]) -> RenderBuilder<'a> {
    let mut b = RenderBuilder::new();
    b.with_title("demo");
    b.with_dimensions((800, 600));
    b.with_vertex_shader(vertex);
    b.with_fragment_shader(fragment);
    b
}

#[test]
fn first_srgb_format_is_chosen() {
    let formats = Some(vec![ChannelKind::Unorm, ChannelKind::Srgb, ChannelKind::Srgb]);
    assert_eq!(choose_surface_format(&formats), FormatChoice::Listed(1));
    let formats = Some(vec![ChannelKind::Srgb, ChannelKind::Float]);
    assert_eq!(choose_surface_format(&formats), FormatChoice::Listed(0));
}

#[test]
fn default_format_without_srgb() {
    assert_eq!(choose_surface_format(&None), FormatChoice::Default);
    assert_eq!(choose_surface_format(&Some(vec![])), FormatChoice::Default);
    let formats = Some(vec![ChannelKind::Unorm, ChannelKind::Float, ChannelKind::Uint]);
    assert_eq!(choose_surface_format(&formats), FormatChoice::Default);
}

#[test]
fn new_builder_defaults() {
    let b = RenderBuilder::new();
    assert_eq!(b.title(), "");
    assert_eq!(b.dimensions(), (720, 480));
    assert!(b.vertex_shader().is_empty());
    assert!(b.fragment_shader().is_empty());
}

#[test]
fn last_setting_wins() {
    let first = [1u8, 2, 3, 4];
    let second = [5u8, 6, 7, 8];
    let mut b = RenderBuilder::new();
    b.with_title("first");
    b.with_dimensions((1, 2));
    b.with_vertex_shader(&first);
    b.with_fragment_shader(&first);
    b.with_title("second");
    b.with_dimensions((1024, 768));
    b.with_vertex_shader(&second);
    b.with_fragment_shader(&second);
    assert_eq!(b.title(), "second");
    assert_eq!(b.dimensions(), (1024, 768));
    assert_eq!(b.vertex_shader(), &second[..]);
    assert_eq!(b.fragment_shader(), &second[..]);
    let c = b.build();
    match c.next_action() {
        Action::CreateInstance { name, version } => {
            assert_eq!(name, "second");
            assert_eq!(version, 1);
        }
        other => panic!("unexpected {:?}", other),
    }
}

#[test]
fn demo_scenario_builds_everything() {
    let mut c = configured(&VERTEX, &FRAGMENT).build();
    match c.next_action() {
        Action::CreateInstance { name, .. } => assert_eq!(name, "demo"),
        other => panic!("unexpected {:?}", other),
    }
    c.advance(Outcome::Created);
    match c.next_action() {
        Action::CreateWindow { title, width, height } => {
            assert_eq!(title, "demo");
            assert_eq!((width, height), (800, 600));
        }
        other => panic!("unexpected {:?}", other),
    }
    c.advance(Outcome::Created);
    match c.next_action() {
        Action::OpenDevice { adapter, queue_count } => {
            assert_eq!(adapter, 0);
            assert_eq!(queue_count, 1);
        }
        other => panic!("unexpected {:?}", other),
    }
    c.advance(Outcome::DeviceOpened(Some(vec![ChannelKind::Unorm, ChannelKind::Srgb])));
    assert_eq!(c.surface_format(), FormatChoice::Listed(1));
    c.advance(Outcome::Created);
    match c.next_action() {
        Action::CreateRenderPass(plan) => {
            assert_eq!(plan.color_attachments, 1);
            assert_eq!(plan.subpasses, 1);
            assert_eq!(plan.format, FormatChoice::Listed(1));
        }
        other => panic!("unexpected {:?}", other),
    }
    let names = drive(&mut c, None, Backbuffer::Images(3));
    assert_eq!(
        names,
        vec![
            "render_pass",
            "pipeline_layout",
            "vertex_shader",
            "fragment_shader",
            "pipeline",
            "swapchain",
            "image_view",
            "image_view",
            "image_view",
            "framebuffer",
            "framebuffer",
            "framebuffer",
            "semaphore",
            "fence",
            "finish",
        ]
    );
    assert_eq!(c.progress(), Progress::Done);
    assert_eq!(c.image_views(), 3);
    assert_eq!(c.frame_buffers(), 3);
}

#[test]
fn one_semaphore_and_one_unsignaled_fence() {
    let mut c = configured(&VERTEX, &FRAGMENT).build();
    let mut semaphores = 0;
    let mut fences = Vec::new();
    let mut formats = Some(Some(vec![ChannelKind::Srgb]));
    loop {
        let a = c.next_action();
        let outcome = match a {
            Action::Finish => break,
            Action::Abort(s) => panic!("failed at {:?}", s),
            Action::CreateSemaphore => {
                semaphores += 1;
                Outcome::Created
            }
            Action::CreateFence { signaled } => {
                fences.push(signaled);
                Outcome::Created
            }
            Action::OpenDevice { .. } => Outcome::DeviceOpened(formats.take().unwrap()),
            Action::CreateSwapchain { .. } => Outcome::SwapchainCreated(Backbuffer::Images(2)),
            _ => Outcome::Created,
        };
        c.advance(outcome);
    }
    assert_eq!(semaphores, 1);
    assert_eq!(fences, vec![false]);
}

#[test]
fn default_builder_builds_with_default_title_and_size() {
    let mut c = RenderBuilder::new().build();
    match c.next_action() {
        Action::CreateInstance { name, version } => {
            assert_eq!(name, "");
            assert_eq!(version, 1);
        }
        other => panic!("unexpected {:?}", other),
    }
    c.advance(Outcome::Created);
    match c.next_action() {
        Action::CreateWindow { title, width, height } => {
            assert_eq!(title, "");
            assert_eq!((width, height), (720, 480));
        }
        other => panic!("unexpected {:?}", other),
    }
    c.advance(Outcome::Created);
    let names = drive_device(&mut c, None, Backbuffer::Images(2), true);
    assert!(names.contains(&"vertex_shader"));
    assert!(names.contains(&"fragment_shader"));
    assert_eq!(names.last(), Some(&"finish"));
    assert_eq!(c.progress(), Progress::Done);
}

#[test]
fn prebuilt_framebuffer_path() {
    let mut c = configured(&VERTEX, &FRAGMENT).build();
    let names = drive(&mut c, None, Backbuffer::Framebuffer);
    assert!(!names.contains(&"image_view"));
    assert!(!names.contains(&"framebuffer"));
    assert_eq!(c.progress(), Progress::Done);
    assert_eq!(c.surface_format(), FormatChoice::Default);
    assert_eq!(c.image_views(), 0);
    assert_eq!(c.frame_buffers(), 1);
}

#[test]
fn empty_vertex_shader_fails_at_its_module() {
    let mut c = configured(&[], &FRAGMENT).build();
    let names = drive(&mut c, None, Backbuffer::Images(2));
    assert_eq!(
        names,
        vec![
            "instance",
            "window",
            "device",
            "command_pool",
            "render_pass",
            "pipeline_layout",
            "vertex_shader",
            "release",
            "release",
            "release",
            "release",
            "release",
            "release",
            "release",
            "abort",
        ]
    );
    assert_eq!(c.progress(), Progress::Failed(Stage::VertexShader));
    match c.next_action() {
        Action::Abort(s) => assert_eq!(s, Stage::VertexShader),
        other => panic!("unexpected {:?}", other),
    }
}

#[test]
fn empty_fragment_shader_fails_at_its_module() {
    let mut c = configured(&VERTEX, &[]).build();
    let names = drive(&mut c, None, Backbuffer::Images(2));
    assert_eq!(names.len(), 17);
    assert_eq!(names[6], "vertex_shader");
    assert_eq!(names[7], "fragment_shader");
    assert!(names[8..16].iter().all(|n| *n == "release"));
    assert_eq!(names[16], "abort");
    assert_eq!(c.progress(), Progress::Failed(Stage::FragmentShader));
}

#[test]
fn no_adapter_stops_at_device_stage() {
    let mut c = configured(&VERTEX, &FRAGMENT).build();
    c.advance(Outcome::Created);
    c.advance(Outcome::Created);
    assert_eq!(c.progress(), Progress::At(Stage::Device));
    c.advance(Outcome::Failed);
    assert_eq!(c.progress(), Progress::Releasing(Stage::Device, Stage::Device));
    let mut released = Vec::new();
    for _ in 0..8 {
        match c.next_action() {
            Action::Release(s) => released.push(s),
            Action::Abort(s) => assert_eq!(s, Stage::Device),
            other => panic!("unexpected {:?}", other),
        }
        c.advance(Outcome::Created);
    }
    assert_eq!(released, vec![Stage::Device, Stage::Window, Stage::Instance]);
    assert_eq!(c.progress(), Progress::Failed(Stage::Device));
}

#[test]
fn failure_releases_in_reverse_order() {
    let mut c = configured(&VERTEX, &FRAGMENT).build();
    let mut released = Vec::new();
    loop {
        let outcome = match c.next_action() {
            Action::Finish => panic!("finished despite a failure"),
            Action::Abort(s) => {
                assert_eq!(s, Stage::Fence);
                break;
            }
            Action::Release(s) => {
                released.push(s);
                Outcome::Created
            }
            Action::CreateFence { .. } => Outcome::Failed,
            Action::OpenDevice { .. } => Outcome::DeviceOpened(None),
            Action::CreateSwapchain { .. } => Outcome::SwapchainCreated(Backbuffer::Images(2)),
            _ => Outcome::Created,
        };
        c.advance(outcome);
    }
    assert_eq!(
        released,
        vec![
            Stage::Fence,
            Stage::Semaphore,
            Stage::Framebuffers,
            Stage::ImageViews,
            Stage::Swapchain,
            Stage::Pipeline,
            Stage::FragmentShader,
            Stage::VertexShader,
            Stage::PipelineLayout,
            Stage::RenderPass,
            Stage::CommandPool,
            Stage::Device,
            Stage::Window,
            Stage::Instance,
        ]
    );
    assert_eq!(c.progress(), Progress::Failed(Stage::Fence));
}

#[test]
fn unexpected_outcome_fails_the_stage() {
    let mut c = configured(&VERTEX, &FRAGMENT).build();
    c.advance(Outcome::SwapchainCreated(Backbuffer::Framebuffer));
    assert_eq!(c.progress(), Progress::Releasing(Stage::Instance, Stage::Instance));
    let mut c = configured(&VERTEX, &FRAGMENT).build();
    c.advance(Outcome::Created);
    c.advance(Outcome::Created);
    c.advance(Outcome::Created);
    assert_eq!(c.progress(), Progress::Releasing(Stage::Device, Stage::Device));
}

#[test]
fn command_pool_capacity_is_sixteen() {
    for (dims, code) in [((1u32, 1u32), &VERTEX[..4]), ((4096, 2160), &VERTEX[..])] {
        let mut b = RenderBuilder::new();
        b.with_dimensions(dims);
        b.with_vertex_shader(code);
        let mut c = b.build();
        c.advance(Outcome::Created);
        c.advance(Outcome::Created);
        c.advance(Outcome::DeviceOpened(None));
        match c.next_action() {
            Action::CreateCommandPool { max_buffers } => assert_eq!(max_buffers, 16),
            other => panic!("unexpected {:?}", other),
        }
    }
    assert_eq!(COMMAND_POOL_CAPACITY, 16);
}

#[test]
fn swapchain_without_images_fails() {
    let mut c = configured(&VERTEX, &FRAGMENT).build();
    let names = drive(&mut c, None, Backbuffer::Images(0));
    assert!(!names.contains(&"image_view"));
    assert!(!names.contains(&"semaphore"));
    assert_eq!(names.last(), Some(&"abort"));
    assert_eq!(c.progress(), Progress::Failed(Stage::Swapchain));
}

#[test]
fn image_views_and_framebuffers_are_numbered() {
    let mut c = configured(&VERTEX, &FRAGMENT).build();
    let mut images = Vec::new();
    let mut views = Vec::new();
    loop {
        let outcome = match c.next_action() {
            Action::Finish => break,
            Action::Abort(s) => panic!("failed at {:?}", s),
            Action::CreateImageView { image, format } => {
                assert_eq!(format, FormatChoice::Default);
                images.push(image);
                Outcome::Created
            }
            Action::CreateFramebuffer { view } => {
                views.push(view);
                Outcome::Created
            }
            Action::OpenDevice { .. } => Outcome::DeviceOpened(Some(vec![ChannelKind::Unorm])),
            Action::CreateSwapchain { format } => {
                assert_eq!(format, FormatChoice::Default);
                Outcome::SwapchainCreated(Backbuffer::Images(2))
            }
            _ => Outcome::Created,
        };
        c.advance(outcome);
    }
    assert_eq!(images, vec![0, 1]);
    assert_eq!(views, vec![0, 1]);
}

#[test]
fn fixed_render_pass_description() {
    let p = render_pass_plan(FormatChoice::Default);
    assert_eq!(p.format, FormatChoice::Default);
    assert_eq!(p.color_attachments, 1);
    assert_eq!(p.samples, 1);
    assert_eq!(p.load, LoadOp::Clear);
    assert_eq!(p.store, StoreOp::Store);
    assert_eq!(p.stencil_load, LoadOp::DontCare);
    assert_eq!(p.stencil_store, StoreOp::DontCare);
    assert_eq!(p.initial_layout, ImageLayout::Undefined);
    assert_eq!(p.final_layout, ImageLayout::Present);
    assert_eq!(p.subpasses, 1);
    assert_eq!(p.subpass_color_layout, ImageLayout::ColorAttachmentOptimal);
    assert!(!p.depth_stencil);
    assert_eq!(p.dependencies, 1);
    assert!(p.dependency_from_external);
    assert_eq!(p.dependency_target_subpass, 0);
    assert_eq!(p.subpass_color_attachment, 0);
    assert_eq!((p.subpass_inputs, p.subpass_resolves, p.subpass_preserves), (0, 0, 0));
    assert_eq!(p.dependency_src_stage, PipelineStageKind::ColorAttachmentOutput);
    assert_eq!(p.dependency_dst_stage, PipelineStageKind::ColorAttachmentOutput);
    assert!(!p.dependency_src_color_read && !p.dependency_src_color_write);
    assert!(p.dependency_dst_color_read && p.dependency_dst_color_write);
}

#[test]
fn fixed_pipeline_description() {
    let p = pipeline_plan();
    assert_eq!(p.subpass, 0);
    assert_eq!(p.topology, Topology::TriangleList);
    assert_eq!(p.polygon_mode, PolygonMode::Fill);
    assert_eq!(p.color_targets, 1);
    assert_eq!(p.blend, BlendMode::Alpha);
    assert_eq!(p.descriptor_sets, 0);
    assert_eq!(p.push_constants, 0);
    assert!(p.has_fragment_stage);
    assert_eq!(shader_entry(), "main");
}

#[test]
fn shader_module_from_bytecode() {
    match create_shader(ShaderStage::Vertex, &VERTEX) {
        Action::CreateShaderModule { stage, code } => {
            assert_eq!(stage, ShaderStage::Vertex);
            assert_eq!(code, &VERTEX[..]);
        }
        other => panic!("unexpected {:?}", other),
    }
    match create_shader(ShaderStage::Fragment, &[]) {
        Action::CreateShaderModule { stage, code } => {
            assert_eq!(stage, ShaderStage::Fragment);
            assert!(code.is_empty());
        }
        other => panic!("unexpected {:?}", other),
    }
}

#[test]
fn last_shader_setting_wins_even_when_empty() {
    let mut b = RenderBuilder::new();
    b.with_vertex_shader(&VERTEX);
    b.with_vertex_shader(&[]);
    b.with_fragment_shader(&[]);
    b.with_fragment_shader(&FRAGMENT);
    let mut c = b.build();
    let mut codes = Vec::new();
    loop {
        let outcome = match c.next_action() {
            Action::Finish => break,
            Action::Abort(s) => panic!("failed at {:?}", s),
            Action::CreateShaderModule { stage, code } => {
                codes.push((stage, code.to_vec()));
                Outcome::Created
            }
            Action::OpenDevice { .. } => Outcome::DeviceOpened(None),
            Action::CreateSwapchain { .. } => Outcome::SwapchainCreated(Backbuffer::Framebuffer),
            _ => Outcome::Created,
        };
        c.advance(outcome);
    }
    assert_eq!(
        codes,
        vec![(ShaderStage::Vertex, vec![]), (ShaderStage::Fragment, FRAGMENT.to_vec())]
    );
}
