//! The startup configuration: everything the program is built to show.

use vstd::prelude::*;

verus! {

/// A colour with four channels. Each channel holds the bit pattern of an
/// IEEE 754 single-precision number, so that the value is exact and has a
/// decidable equality.
#[derive(Clone, Copy, Debug, PartialEq, Eq, Structural)]
pub struct Color {
    pub r: u32,
    pub g: u32,
    pub b: u32,
    pub a: u32,
}

/// Requested width of the window, in screen coordinates.
pub const WINDOW_WIDTH: u32 = 1280;

/// Requested height of the window, in screen coordinates.
pub const WINDOW_HEIGHT: u32 = 640;

/// Title of the window.
pub const WINDOW_TITLE: &'static str = "GLFW Triangle";

/// Source text of the vertex stage.
pub const VERT_SHADER: &'static str = "#version 330 core
    layout (location = 0) in vec3 position;
     
    void main()
    {
        gl_Position = vec4(position, 1.0);
    }";

/// Source text of the fragment stage.
pub const FRAG_SHADER: &'static str = "#version 330 core
    out vec4 Color;
    void main()
    {
        Color = vec4(0.9, 0.2, 0.6, 1.0);
    }";

/// Bit pattern of the single-precision number one half.
pub const HALF: u32 = 0x3F00_0000;

/// Bit pattern of the single-precision number minus one half.
pub const MINUS_HALF: u32 = 0xBF00_0000;

/// Bit pattern of the single-precision number zero.
pub const ZERO: u32 = 0;

/// Bit pattern of the single-precision number one.
pub const ONE: u32 = 0x3F80_0000;

/// Bit pattern of the single-precision number nearest to 0.12.
pub const DARK: u32 = 0x3DF5_C28F;

/// Number of coordinates in the vertex data: three vertices of three each.
pub const COORDINATES: usize = 9;

/// The settings a run starts from.
pub struct Config {
    /// Requested width of the window, in screen coordinates.
    pub width: u32,
    /// Requested height of the window, in screen coordinates.
    pub height: u32,
    /// Title of the window.
    pub title: String,
    /// Source text of the vertex stage.
    pub vertex_shader: String,
    /// Source text of the fragment stage.
    pub fragment_shader: String,
    /// The colour the framebuffer is cleared to before each frame.
    pub clear_color: Color,
    /// Coordinates of the triangle, vertex by vertex, as bit patterns of
    /// single-precision numbers in normalized device coordinates.
    pub vertices: [u32; 9],
}

/// The mathematical content of a [`Config`].
pub struct ConfigModel {
    pub width: u32,
    pub height: u32,
    pub title: Seq<char>,
    pub vertex_shader: Seq<char>,
    pub fragment_shader: Seq<char>,
    pub clear_color: Color,
    pub vertices: Seq<u32>,
}

impl ConfigModel {
    /// The one thing the type of a [`Config`] demands of its content: the
    /// vertex data has nine coordinates.
    pub open spec fn wf(self) -> bool {
        self.vertices.len() == COORDINATES
    }
}

impl View for Config {
    type V = ConfigModel;

    open spec fn view(&self) -> ConfigModel {
        ConfigModel {
            width: self.width,
            height: self.height,
            title: self.title@,
            vertex_shader: self.vertex_shader@,
            fragment_shader: self.fragment_shader@,
            clear_color: self.clear_color,
            vertices: self.vertices@,
        }
    }
}

/// The configuration that is built in: a dark grey window of 1280 by 640
/// with one triangle in its middle.
pub open spec fn builtin() -> ConfigModel {
    ConfigModel {
        width: WINDOW_WIDTH,
        height: WINDOW_HEIGHT,
        title: WINDOW_TITLE@,
        vertex_shader: VERT_SHADER@,
        fragment_shader: FRAG_SHADER@,
        clear_color: Color { r: DARK, g: DARK, b: DARK, a: ONE },
        vertices: seq![
            MINUS_HALF, MINUS_HALF, ZERO,
            HALF, MINUS_HALF, ZERO,
            ZERO, HALF, ZERO,
        ],
    }
}

impl Config {
    /// The content of every configuration is well-formed.
    pub proof fn lemma_view_is_wf(&self)
        ensures
            self@.wf(),
    {
    }
}

impl Default for Config {
    fn default() -> (config: Config)
        ensures
            config@ == builtin(),
    {
        let config = Config {
            width: WINDOW_WIDTH,
            height: WINDOW_HEIGHT,
            title: String::from_str(WINDOW_TITLE),
            vertex_shader: String::from_str(VERT_SHADER),
            fragment_shader: String::from_str(FRAG_SHADER),
            clear_color: Color { r: DARK, g: DARK, b: DARK, a: ONE },
            vertices: [
                MINUS_HALF, MINUS_HALF, ZERO,
                HALF, MINUS_HALF, ZERO,
                ZERO, HALF, ZERO,
            ],
        };
        assert(config.vertices@ =~= builtin().vertices);
        config
    }
}

} // verus!
