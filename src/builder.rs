//! The caller's configuration of a rendering context.
use vstd::prelude::*;

verus! {

/// Width of the window when no dimensions are set.
pub const DEFAULT_WIDTH: u32 = 720;

/// Height of the window when no dimensions are set.
pub const DEFAULT_HEIGHT: u32 = 480;

/// What a builder holds, as values: the window title, its size, and the raw
/// bytecode of the two shader stages.
pub struct BuilderModel {
    pub title: Seq<char>,
    pub width: u32,
    pub height: u32,
    pub vertex_shader: Seq<u8>,
    pub fragment_shader: Seq<u8>,
}

impl BuilderModel {
    /// The configuration of a fresh builder: empty title and shaders, 720 by 480.
    pub open spec fn initial() -> BuilderModel {
        BuilderModel {
            title: Seq::empty(),
            width: 720,
            height: 480,
            vertex_shader: Seq::empty(),
            fragment_shader: Seq::empty(),
        }
    }

    pub open spec fn with_title(self, title: Seq<char>) -> BuilderModel {
        BuilderModel { title, ..self }
    }

    pub open spec fn with_dimensions(self, width: u32, height: u32) -> BuilderModel {
        BuilderModel { width, height, ..self }
    }

    pub open spec fn with_vertex_shader(self, code: Seq<u8>) -> BuilderModel {
        BuilderModel { vertex_shader: code, ..self }
    }

    pub open spec fn with_fragment_shader(self, code: Seq<u8>) -> BuilderModel {
        BuilderModel { fragment_shader: code, ..self }
    }
}

/// Collects the configuration of a rendering context before it is built.
/// Setters may be called any number of times, in any order; none of them
/// validates its argument.
pub struct RenderBuilder<'a> {
    /// Raw vertex shader
    vertex_shader: &'a [u8],
    /// Raw fragment shader
    fragment_shader: &'a [u8],
    /// Title of window
    title: &'a str,
    /// Dimensions of window
    dimensions: (u32, u32),
}

impl<'a> View for RenderBuilder<'a> {
    type V = BuilderModel;

    closed spec fn view(&self) -> BuilderModel {
        BuilderModel {
            title: self.title@,
            width: self.dimensions.0,
            height: self.dimensions.1,
            vertex_shader: self.vertex_shader@,
            fragment_shader: self.fragment_shader@,
        }
    }
}

impl<'a> Default for RenderBuilder<'a> {
    fn default() -> (r: Self)
        ensures
            r@ == BuilderModel::initial(),
    {
        let r = RenderBuilder {
            vertex_shader: &[],
            fragment_shader: &[],
            title: "",
            dimensions: (DEFAULT_WIDTH, DEFAULT_HEIGHT),
        };
        proof {
            reveal_strlit("");
            assert(r@.title =~= Seq::<char>::empty());
            assert(r@.vertex_shader =~= Seq::<u8>::empty());
            assert(r@.fragment_shader =~= Seq::<u8>::empty());
        }
        r
    }
}

impl<'a> RenderBuilder<'a> {
    /// Creates a builder with an empty title, empty shaders and a 720 by 480
    /// window.
    pub fn new() -> (r: RenderBuilder<'a>)
        ensures
            r@ == BuilderModel::initial(),
    {
        Self::default()
    }

    pub fn with_vertex_shader(&mut self, vertex_shader: &'a [u8])
        ensures
            final(self)@ == old(self)@.with_vertex_shader(vertex_shader@),
    {
        self.vertex_shader = vertex_shader;
    }

    pub fn with_fragment_shader(&mut self, fragment_shader: &'a [u8])
        ensures
            final(self)@ == old(self)@.with_fragment_shader(fragment_shader@),
    {
        self.fragment_shader = fragment_shader;
    }

    pub fn with_title(&mut self, title: &'a str)
        ensures
            final(self)@ == old(self)@.with_title(title@),
    {
        self.title = title;
    }

    pub fn with_dimensions(&mut self, dimensions: (u32, u32))
        ensures
            final(self)@ == old(self)@.with_dimensions(dimensions.0, dimensions.1),
    {
        self.dimensions = dimensions;
    }

    pub fn title(&self) -> (r: &'a str)
        ensures
            r@ == self@.title,
    {
        self.title
    }

    pub fn dimensions(&self) -> (r: (u32, u32))
        ensures
            r.0 == self@.width,
            r.1 == self@.height,
    {
        self.dimensions
    }

    pub fn vertex_shader(&self) -> (r: &'a [u8])
        ensures
            r@ == self@.vertex_shader,
    {
        self.vertex_shader
    }

    pub fn fragment_shader(&self) -> (r: &'a [u8])
        ensures
            r@ == self@.fragment_shader,
    {
        self.fragment_shader
    }
}

/// Setting a configuration value twice leaves only the second value in effect,
/// whichever other values were set in between.
pub proof fn lemma_last_setting_wins(
    b: BuilderModel,
    t1: Seq<char>,
    t2: Seq<char>,
    w1: u32,
    h1: u32,
    w2: u32,
    h2: u32,
    v1: Seq<u8>,
    v2: Seq<u8>,
    f1: Seq<u8>,
    f2: Seq<u8>,
)
    ensures
        b.with_title(t1).with_title(t2) == b.with_title(t2),
        b.with_dimensions(w1, h1).with_dimensions(w2, h2) == b.with_dimensions(w2, h2),
        b.with_vertex_shader(v1).with_vertex_shader(v2) == b.with_vertex_shader(v2),
        b.with_fragment_shader(f1).with_fragment_shader(f2) == b.with_fragment_shader(f2),
        b.with_title(t1).with_dimensions(w1, h1).with_vertex_shader(v1).with_fragment_shader(
            f1,
        ).with_title(t2).with_dimensions(w2, h2).with_vertex_shader(v2).with_fragment_shader(f2)
            == b.with_title(t2).with_dimensions(w2, h2).with_vertex_shader(v2).with_fragment_shader(
            f2,
        ),
{
}

} // verus!
