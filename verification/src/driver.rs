//! The application driver as a state machine.
//!
//! The driver never touches the window system or the graphics driver. It
//! names the next thing to be done as a [`Command`]; whoever runs the
//! program performs it and hands back a [`Reply`]. From the reply the
//! driver decides what comes next: the next step of the setup, another
//! frame, the end of the program, or its abort with a diagnostic.

use vstd::prelude::*;
use vstd::utf8::{decode_utf8, valid_utf8};
use crate::config::{Color, Config, ConfigModel};
use crate::event::{any_requests_close, handle_events, WindowEvent, WindowState};
use crate::mesh::{packed_layout, triangle_layout, VertexAttribute, BUFFER_BYTES, VERTEX_COUNT};
use crate::shader::{
    bound_log, bounded, diagnostic_message, headed, report, status_ok, succeeded, ShaderStage,
    Target, INFO_LOG_CAPACITY,
};

verus! {

/// Why a run was aborted.
#[derive(Clone, Copy, Debug, PartialEq, Eq, Structural)]
pub enum Failure {
    /// The window, or its rendering context, could not be created.
    Window,
    /// A stage did not compile, or the program did not link.
    Build(Target),
}

/// Where a run stands: the step that is pending, or how the run ended.
#[derive(Clone, Copy, Debug, PartialEq, Eq, Structural)]
pub enum Phase {
    /// The window is to be created.
    Window,
    /// The rendering context is to be made current.
    Context,
    /// The functions of the graphics interface are to be loaded.
    Load,
    /// The size of the framebuffer is to be measured.
    Framebuffer,
    /// The viewport is to be set to the measured size.
    Viewport { width: i32, height: i32 },
    /// A stage is to be compiled.
    Compile(ShaderStage),
    /// The program is to be linked.
    Link,
    /// A build failed and its log is to be fetched.
    Log(Target),
    /// A stage, linked into the program, is to be released.
    Release(ShaderStage),
    /// The vertex data is to be uploaded.
    Upload,
    /// The layout of the vertex data is to be described.
    Layout,
    /// Buffer and vertex array are to be unbound.
    Unbind,
    /// The versions of the graphics interface are to be reported.
    Versions,
    /// Render loop: the queued events are to be polled.
    Poll,
    /// Render loop: the colour buffer is to be cleared.
    Clear,
    /// Render loop: the triangle is to be drawn.
    Draw,
    /// Render loop: the frame is to be presented.
    Present,
    /// The render loop has ended; the program leaves normally.
    Finished,
    /// The setup failed; the program aborts.
    Failed(Failure),
}

/// What the platform hands back after a command was performed.
#[derive(Debug, PartialEq, Eq)]
pub enum Reply {
    /// The command was performed and there is nothing to report.
    Done,
    /// The window and its context exist.
    WindowCreated,
    /// The window or its context could not be created.
    WindowFailed,
    /// The size of the window's framebuffer, in pixels.
    FramebufferSize { width: i32, height: i32 },
    /// The status that the driver reports for a compilation or a link.
    Status(i32),
    /// The log of the build that failed.
    Log(Vec<u8>),
    /// The events that were queued, oldest first. A close request that the
    /// window system has noted on the window itself, without queueing an
    /// event for it, is handed in as [`WindowEvent::Close`].
    Events(Vec<WindowEvent>),
}

/// The mathematical content of a [`Reply`].
pub enum ReplyModel {
    Done,
    WindowCreated,
    WindowFailed,
    FramebufferSize { width: i32, height: i32 },
    Status(i32),
    Log(Seq<u8>),
    Events(Seq<WindowEvent>),
}

impl View for Reply {
    type V = ReplyModel;

    open spec fn view(&self) -> ReplyModel {
        match *self {
            Reply::Done => ReplyModel::Done,
            Reply::WindowCreated => ReplyModel::WindowCreated,
            Reply::WindowFailed => ReplyModel::WindowFailed,
            Reply::FramebufferSize { width, height } => ReplyModel::FramebufferSize {
                width,
                height,
            },
            Reply::Status(status) => ReplyModel::Status(status),
            Reply::Log(bytes) => ReplyModel::Log(bytes@),
            Reply::Events(events) => ReplyModel::Events(events@),
        }
    }
}

/// One thing for the platform to do.
#[derive(Debug, PartialEq, Eq)]
#[allow(inconsistent_fields)]
pub enum Command {
    /// Create a window of the given size and title, with a rendering
    /// context. Answered by [`Reply::WindowCreated`] or
    /// [`Reply::WindowFailed`].
    CreateWindow { width: u32, height: u32, title: String },
    /// Make the context current on this thread and turn on the delivery of
    /// key events.
    ActivateContext,
    /// Load the functions of the graphics interface through the window
    /// system.
    LoadFunctions,
    /// Measure the framebuffer. Answered by [`Reply::FramebufferSize`].
    MeasureFramebuffer,
    /// Set the viewport, from the lower left corner, to the given size, and
    /// set the colour the framebuffer is cleared to.
    SetViewport { width: i32, height: i32, clear_color: Color },
    /// Compile a stage from its source. Answered by [`Reply::Status`].
    CompileShader { stage: ShaderStage, source: String },
    /// Attach both stages to a new program and link it. Answered by
    /// [`Reply::Status`].
    LinkProgram,
    /// Read the log of the failed build into a buffer of `capacity` bytes.
    /// Answered by [`Reply::Log`].
    FetchLog { target: Target, capacity: usize },
    /// Detach a stage from the linked program and delete it.
    ReleaseShader { stage: ShaderStage },
    /// Create the vertex array and the vertex buffer, bind both, and upload
    /// the coordinates, `byte_len` bytes in all, for static use.
    UploadVertices { coordinates: [u32; 9], byte_len: isize },
    /// Describe the layout of the bound buffer and enable the attribute.
    DescribeLayout { attribute: VertexAttribute },
    /// Unbind the vertex buffer and the vertex array.
    Unbind,
    /// Print the version of the graphics interface and of its shading
    /// language.
    ReportVersions,
    /// Poll the window system. Answered by [`Reply::Events`].
    PollEvents,
    /// Clear the colour buffer.
    ClearFrame,
    /// Draw `count` vertices, from `first` on, as triangles, with the
    /// program and the vertex array bound for the draw call only.
    DrawFrame { first: i32, count: i32 },
    /// Swap the front and the back buffer.
    Present,
    /// Leave the program normally, with exit status 0.
    Exit,
    /// Abort the program with this message on the error channel and with
    /// an exit status other than 0.
    Abort { message: String },
}

/// The mathematical content of a [`Command`].
#[allow(inconsistent_fields)]
pub enum CommandModel {
    CreateWindow { width: u32, height: u32, title: Seq<char> },
    ActivateContext,
    LoadFunctions,
    MeasureFramebuffer,
    SetViewport { width: i32, height: i32, clear_color: Color },
    CompileShader { stage: ShaderStage, source: Seq<char> },
    LinkProgram,
    FetchLog { target: Target, capacity: usize },
    ReleaseShader { stage: ShaderStage },
    UploadVertices { coordinates: Seq<u32>, byte_len: isize },
    DescribeLayout { attribute: VertexAttribute },
    Unbind,
    ReportVersions,
    PollEvents,
    ClearFrame,
    DrawFrame { first: i32, count: i32 },
    Present,
    Exit,
    Abort { message: Seq<char> },
}

impl View for Command {
    type V = CommandModel;

    open spec fn view(&self) -> CommandModel {
        match *self {
            Command::CreateWindow { width, height, title } => CommandModel::CreateWindow {
                width,
                height,
                title: title@,
            },
            Command::ActivateContext => CommandModel::ActivateContext,
            Command::LoadFunctions => CommandModel::LoadFunctions,
            Command::MeasureFramebuffer => CommandModel::MeasureFramebuffer,
            Command::SetViewport { width, height, clear_color } => CommandModel::SetViewport {
                width,
                height,
                clear_color,
            },
            Command::CompileShader { stage, source } => CommandModel::CompileShader {
                stage,
                source: source@,
            },
            Command::LinkProgram => CommandModel::LinkProgram,
            Command::FetchLog { target, capacity } => CommandModel::FetchLog { target, capacity },
            Command::ReleaseShader { stage } => CommandModel::ReleaseShader { stage },
            Command::UploadVertices { coordinates, byte_len } => CommandModel::UploadVertices {
                coordinates: coordinates@,
                byte_len,
            },
            Command::DescribeLayout { attribute } => CommandModel::DescribeLayout { attribute },
            Command::Unbind => CommandModel::Unbind,
            Command::ReportVersions => CommandModel::ReportVersions,
            Command::PollEvents => CommandModel::PollEvents,
            Command::ClearFrame => CommandModel::ClearFrame,
            Command::DrawFrame { first, count } => CommandModel::DrawFrame { first, count },
            Command::Present => CommandModel::Present,
            Command::Exit => CommandModel::Exit,
            Command::Abort { message } => CommandModel::Abort { message: message@ },
        }
    }
}

/// The message a run is aborted with when no window could be created.
pub open spec fn window_failure_text() -> Seq<char> {
    "Failed to create GLFW window."@
}

/// The phase at the head of the render loop: another round while the close
/// flag is clear, the end once it is set.
pub open spec fn loop_head(should_close: bool) -> Phase {
    if should_close {
        Phase::Finished
    } else {
        Phase::Poll
    }
}

/// The phase that follows a successful compilation of `stage`.
pub open spec fn after_compile(stage: ShaderStage) -> Phase {
    match stage {
        ShaderStage::Vertex => Phase::Compile(ShaderStage::Fragment),
        ShaderStage::Fragment => Phase::Link,
    }
}

/// The phase that follows the release of `stage`.
pub open spec fn after_release(stage: ShaderStage) -> Phase {
    match stage {
        ShaderStage::Vertex => Phase::Release(ShaderStage::Fragment),
        ShaderStage::Fragment => Phase::Upload,
    }
}

/// The mathematical content of a [`Driver`].
pub struct DriverModel {
    /// The configuration of the run.
    pub config: ConfigModel,
    /// Where the run stands.
    pub phase: Phase,
    /// The close flag of the window.
    pub should_close: bool,
    /// The log of the build that failed; empty while none has.
    pub log: Seq<u8>,
}

impl DriverModel {
    /// The state in which a run with `config` begins.
    pub open spec fn start(config: ConfigModel) -> DriverModel {
        DriverModel { config, phase: Phase::Window, should_close: false, log: Seq::empty() }
    }

    /// What holds of every state that a run can be in. The configuration is
    /// well-formed. The close flag is set only in the last round of the
    /// render loop and after it. A log is held only after a build has
    /// failed, and never more of it than the log buffer takes.
    pub open spec fn wf(self) -> bool {
        &&& self.config.wf()
        &&& self.should_close ==> self.phase is Clear || self.phase is Draw
            || self.phase is Present || self.phase is Finished
        &&& self.log.len() <= INFO_LOG_CAPACITY
        &&& self.log.len() > 0 ==> self.phase matches Phase::Failed(Failure::Build(_))
    }

    /// This state, moved to `phase`.
    pub open spec fn at(self, phase: Phase) -> DriverModel {
        DriverModel { phase, ..self }
    }

    /// The source text of `stage`.
    pub open spec fn source(self, stage: ShaderStage) -> Seq<char> {
        match stage {
            ShaderStage::Vertex => self.config.vertex_shader,
            ShaderStage::Fragment => self.config.fragment_shader,
        }
    }

    /// True if `reply` answers the command that is pending in this state.
    pub open spec fn accepts(self, reply: ReplyModel) -> bool {
        match self.phase {
            Phase::Window => reply is WindowCreated || reply is WindowFailed,
            Phase::Framebuffer => reply is FramebufferSize,
            Phase::Compile(_) | Phase::Link => reply is Status,
            Phase::Log(_) => reply is Log,
            Phase::Poll => reply is Events,
            Phase::Finished | Phase::Failed(_) => false,
            _ => reply is Done,
        }
    }

    /// The state that follows this one when `reply` comes in.
    ///
    /// A failed build is followed by the fetching of its log and then by
    /// the abort; a failed window creation by the abort at once. Events
    /// act on the close flag only, and the flag is looked at only at the
    /// head of the render loop. A reply that does not answer the pending
    /// command changes nothing.
    pub open spec fn after(self, reply: ReplyModel) -> DriverModel {
        match (self.phase, reply) {
            (Phase::Window, ReplyModel::WindowCreated) => self.at(Phase::Context),
            (Phase::Window, ReplyModel::WindowFailed) => self.at(Phase::Failed(Failure::Window)),
            (Phase::Context, ReplyModel::Done) => self.at(Phase::Load),
            (Phase::Load, ReplyModel::Done) => self.at(Phase::Framebuffer),
            (Phase::Framebuffer, ReplyModel::FramebufferSize { width, height }) => self.at(
                Phase::Viewport { width, height },
            ),
            (Phase::Viewport { .. }, ReplyModel::Done) => self.at(
                Phase::Compile(ShaderStage::Vertex),
            ),
            (Phase::Compile(stage), ReplyModel::Status(status)) => if succeeded(status) {
                self.at(after_compile(stage))
            } else {
                self.at(Phase::Log(Target::Shader(stage)))
            },
            (Phase::Link, ReplyModel::Status(status)) => if succeeded(status) {
                self.at(Phase::Release(ShaderStage::Vertex))
            } else {
                self.at(Phase::Log(Target::Program))
            },
            (Phase::Log(target), ReplyModel::Log(bytes)) => DriverModel {
                phase: Phase::Failed(Failure::Build(target)),
                log: bounded(bytes),
                ..self
            },
            (Phase::Release(stage), ReplyModel::Done) => self.at(after_release(stage)),
            (Phase::Upload, ReplyModel::Done) => self.at(Phase::Layout),
            (Phase::Layout, ReplyModel::Done) => self.at(Phase::Unbind),
            (Phase::Unbind, ReplyModel::Done) => self.at(Phase::Versions),
            (Phase::Versions, ReplyModel::Done) => self.at(loop_head(self.should_close)),
            (Phase::Poll, ReplyModel::Events(events)) => DriverModel {
                phase: Phase::Clear,
                should_close: self.should_close || any_requests_close(events),
                ..self
            },
            (Phase::Clear, ReplyModel::Done) => self.at(Phase::Draw),
            (Phase::Draw, ReplyModel::Done) => self.at(Phase::Present),
            (Phase::Present, ReplyModel::Done) => self.at(loop_head(self.should_close)),
            _ => self,
        }
    }

    /// The command that is pending in this state.
    pub open spec fn command(self) -> CommandModel {
        match self.phase {
            Phase::Window => CommandModel::CreateWindow {
                width: self.config.width,
                height: self.config.height,
                title: self.config.title,
            },
            Phase::Context => CommandModel::ActivateContext,
            Phase::Load => CommandModel::LoadFunctions,
            Phase::Framebuffer => CommandModel::MeasureFramebuffer,
            Phase::Viewport { width, height } => CommandModel::SetViewport {
                width,
                height,
                clear_color: self.config.clear_color,
            },
            Phase::Compile(stage) => CommandModel::CompileShader {
                stage,
                source: self.source(stage),
            },
            Phase::Link => CommandModel::LinkProgram,
            Phase::Log(target) => CommandModel::FetchLog { target, capacity: INFO_LOG_CAPACITY },
            Phase::Release(stage) => CommandModel::ReleaseShader { stage },
            Phase::Upload => CommandModel::UploadVertices {
                coordinates: self.config.vertices,
                byte_len: BUFFER_BYTES,
            },
            Phase::Layout => CommandModel::DescribeLayout { attribute: packed_layout() },
            Phase::Unbind => CommandModel::Unbind,
            Phase::Versions => CommandModel::ReportVersions,
            Phase::Poll => CommandModel::PollEvents,
            Phase::Clear => CommandModel::ClearFrame,
            Phase::Draw => CommandModel::DrawFrame { first: 0, count: VERTEX_COUNT },
            Phase::Present => CommandModel::Present,
            Phase::Finished => CommandModel::Exit,
            Phase::Failed(Failure::Window) => CommandModel::Abort {
                message: window_failure_text(),
            },
            Phase::Failed(Failure::Build(target)) => CommandModel::Abort {
                message: report(target, self.log),
            },
        }
    }
}

/// The driver of one run of the program.
pub struct Driver {
    config: Config,
    window: WindowState,
    phase: Phase,
    log: Vec<u8>,
}

impl View for Driver {
    type V = DriverModel;

    closed spec fn view(&self) -> DriverModel {
        DriverModel {
            config: self.config@,
            phase: self.phase,
            should_close: self.window.close_flag(),
            log: self.log@,
        }
    }
}

impl Driver {
    #[verifier::type_invariant]
    spec fn inv(self) -> bool {
        self@.wf()
    }

    /// A driver at the beginning of a run with `config`.
    pub fn new(config: Config) -> (driver: Driver)
        ensures
            driver@ == DriverModel::start(config@),
            driver@.wf(),
    {
        Driver { config, window: WindowState::new(), phase: Phase::Window, log: Vec::new() }
    }

    /// The configuration of the run.
    pub fn config(&self) -> (config: &Config)
        ensures
            config@ == self@.config,
    {
        &self.config
    }

    /// Where the run stands.
    pub fn phase(&self) -> (phase: Phase)
        ensures
            phase == self@.phase,
    {
        self.phase
    }

    /// The close flag of the window.
    pub fn should_close(&self) -> (flag: bool)
        ensures
            flag == self@.should_close,
    {
        self.window.should_close()
    }

    /// Takes in the platform's reply to the pending command and moves on.
    pub fn advance(&mut self, reply: Reply)
        ensures
            final(self)@ == old(self)@.after(reply@),
            final(self)@.wf(),
    {
        proof {
            use_type_invariant(&*self);
        }
        match self.phase {
            Phase::Window => match reply {
                Reply::WindowCreated => {
                    self.phase = Phase::Context;
                },
                Reply::WindowFailed => {
                    self.phase = Phase::Failed(Failure::Window);
                },
                _ => {},
            },
            Phase::Framebuffer => match reply {
                Reply::FramebufferSize { width, height } => {
                    self.phase = Phase::Viewport { width, height };
                },
                _ => {},
            },
            Phase::Compile(stage) => match reply {
                Reply::Status(status) => {
                    self.phase = if !status_ok(status) {
                        Phase::Log(Target::Shader(stage))
                    } else {
                        match stage {
                            ShaderStage::Vertex => Phase::Compile(ShaderStage::Fragment),
                            ShaderStage::Fragment => Phase::Link,
                        }
                    };
                },
                _ => {},
            },
            Phase::Link => match reply {
                Reply::Status(status) => {
                    self.phase = if status_ok(status) {
                        Phase::Release(ShaderStage::Vertex)
                    } else {
                        Phase::Log(Target::Program)
                    };
                },
                _ => {},
            },
            Phase::Log(target) => match reply {
                Reply::Log(bytes) => {
                    self.phase = Phase::Failed(Failure::Build(target));
                    self.log = bound_log(bytes);
                },
                _ => {},
            },
            Phase::Poll => match reply {
                Reply::Events(events) => {
                    let mut window = self.window;
                    handle_events(&mut window, &events);
                    self.phase = Phase::Clear;
                    self.window = window;
                },
                _ => {},
            },
            Phase::Finished | Phase::Failed(_) => {},
            pending => match reply {
                Reply::Done => {
                    self.phase = match pending {
                        Phase::Context => Phase::Load,
                        Phase::Load => Phase::Framebuffer,
                        Phase::Viewport { .. } => Phase::Compile(ShaderStage::Vertex),
                        Phase::Release(ShaderStage::Vertex) => Phase::Release(
                            ShaderStage::Fragment,
                        ),
                        Phase::Release(ShaderStage::Fragment) => Phase::Upload,
                        Phase::Upload => Phase::Layout,
                        Phase::Layout => Phase::Unbind,
                        Phase::Unbind => Phase::Versions,
                        Phase::Clear => Phase::Draw,
                        Phase::Draw => Phase::Present,
                        Phase::Versions | Phase::Present => if self.window.should_close() {
                            Phase::Finished
                        } else {
                            Phase::Poll
                        },
                        other => other,
                    };
                },
                _ => {},
            },
        }
    }

    /// The command that is pending: what the platform is to do next. After
    /// a failed build it is the abort with the report of the build, in
    /// which a log of well-formed UTF-8 stands letter for letter.
    pub fn command(&self) -> (command: Command)
        ensures
            command@ == self@.command(),
            self@.phase matches Phase::Failed(Failure::Build(target)) ==> (valid_utf8(self@.log)
                ==> command@ == (CommandModel::Abort {
                message: headed(target, decode_utf8(self@.log)),
            })),
    {
        match self.phase {
            Phase::Window => Command::CreateWindow {
                width: self.config.width,
                height: self.config.height,
                title: self.config.title.clone(),
            },
            Phase::Context => Command::ActivateContext,
            Phase::Load => Command::LoadFunctions,
            Phase::Framebuffer => Command::MeasureFramebuffer,
            Phase::Viewport { width, height } => Command::SetViewport {
                width,
                height,
                clear_color: self.config.clear_color,
            },
            Phase::Compile(ShaderStage::Vertex) => Command::CompileShader {
                stage: ShaderStage::Vertex,
                source: self.config.vertex_shader.clone(),
            },
            Phase::Compile(ShaderStage::Fragment) => Command::CompileShader {
                stage: ShaderStage::Fragment,
                source: self.config.fragment_shader.clone(),
            },
            Phase::Link => Command::LinkProgram,
            Phase::Log(target) => Command::FetchLog { target, capacity: INFO_LOG_CAPACITY },
            Phase::Release(stage) => Command::ReleaseShader { stage },
            Phase::Upload => Command::UploadVertices {
                coordinates: self.config.vertices,
                byte_len: BUFFER_BYTES,
            },
            Phase::Layout => Command::DescribeLayout { attribute: triangle_layout() },
            Phase::Unbind => Command::Unbind,
            Phase::Versions => Command::ReportVersions,
            Phase::Poll => Command::PollEvents,
            Phase::Clear => Command::ClearFrame,
            Phase::Draw => Command::DrawFrame { first: 0, count: VERTEX_COUNT },
            Phase::Present => Command::Present,
            Phase::Finished => Command::Exit,
            Phase::Failed(Failure::Window) => Command::Abort {
                message: String::from_str("Failed to create GLFW window."),
            },
            Phase::Failed(Failure::Build(target)) => Command::Abort {
                message: diagnostic_message(target, &self.log),
            },
        }
    }
}

} // verus!
