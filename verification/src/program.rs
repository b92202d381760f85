//! Programs: how one is linked, owned and deleted, and what can go wrong on
//! the way from a resource name to a program.

use crate::context::{spec_acquire, spec_release, Gl, GlView};
use crate::native::{is_log_buffer, log_buffer, spec_next, Deletion, NativeEvent, Phase};
use crate::resources;
use crate::shader::{ids_of, shader_ids, Shader};
use vstd::prelude::*;
use vstd::string::StringExecFns;

verus! {

/// A linked program. It holds one share of the graphics context from its
/// creation until it is deleted.
pub struct Program {
    id: u32,
}

impl View for Program {
    type V = u32;

    closed spec fn view(&self) -> u32 {
        self.id
    }
}

/// Why no shader or program came out.
pub enum Error {
    /// The resource `name` could not be loaded.
    ResourceLoad { name: String, inner: resources::Error },
    /// The name of the resource tells no stage.
    UndefinedShaderType { name: String },
    /// The shader did not compile.
    CompileError { name: String, message: String },
    /// The program did not link.
    LinkError { name: String, message: String },
}

/// What the failure says.
pub open spec fn spec_message(e: Error) -> Seq<char> {
    match e {
        Error::ResourceLoad { name, .. } => "Failed to load resource: "@ + name@,
        Error::UndefinedShaderType { name } => "Cannot find shader type for "@ + name@,
        Error::CompileError { name, message } => "Failed to compile shader "@ + name@ + ": "@
            + message@,
        Error::LinkError { name, message } => "Failed to link program "@ + name@ + ": "@
            + message@,
    }
}

impl Error {
    /// What the failure says.
    pub fn message(&self) -> (text: String)
        ensures
            text@ == spec_message(*self),
    {
        match self {
            Error::ResourceLoad { name, .. } => "Failed to load resource: ".to_owned().concat(
                name.as_str(),
            ),
            Error::UndefinedShaderType { name } => "Cannot find shader type for ".to_owned().concat(
                name.as_str(),
            ),
            Error::CompileError { name, message } => "Failed to compile shader ".to_owned().concat(
                name.as_str(),
            ).concat(": ").concat(message.as_str()),
            Error::LinkError { name, message } => "Failed to link program ".to_owned().concat(
                name.as_str(),
            ).concat(": ").concat(message.as_str()),
        }
    }
}

/// What the linking asks of the native interface next, or what came of it.
pub enum LinkAction {
    /// Create a program object and answer with it.
    Create,
    /// Attach `shaders` to `id` in order, link it, and answer with the status.
    AttachAndLink { id: u32, shaders: Vec<u32> },
    /// Answer with the length of the log of `id`.
    MeasureLog { id: u32 },
    /// Have the log of `id` written into `buffer` and answer with its text.
    FetchLog { id: u32, buffer: Vec<u8> },
    /// The program is linked: attach `reattach` to it once more, in order.
    Finish { program: Program, reattach: Vec<u32> },
    /// The program did not link, and this is the log.
    Fail { message: String },
    /// The event was not the one waited for; nothing is to be done.
    Ignore,
}

/// What `action` has to be after `event` came in `phase`, for the shaders
/// with the native objects `shaders` and a context that went from `before` to
/// `after`.
pub open spec fn link_action_fits(
    phase: Phase,
    event: NativeEvent,
    shaders: Seq<u32>,
    before: GlView,
    after: GlView,
    action: LinkAction,
) -> bool {
    match (phase, event) {
        (Phase::Uninitialized, NativeEvent::Begin) => action is Create && after == before,
        (Phase::Requested, NativeEvent::Object(id)) => {
            &&& action matches LinkAction::AttachAndLink { id: target, shaders: attached }
            &&& target == id
            &&& attached@ == shaders
            &&& after == before
        },
        (Phase::Submitted { id }, NativeEvent::Status(status)) => if status == 0 {
            action == (LinkAction::MeasureLog { id }) && after == before
        } else {
            &&& action matches LinkAction::Finish { program, reattach }
            &&& program@ == id
            &&& reattach@ == shaders
            &&& after == spec_acquire(before)
        },
        (Phase::Measuring { id }, NativeEvent::LogLength(len)) => {
            &&& action matches LinkAction::FetchLog { id: target, buffer }
            &&& target == id
            &&& is_log_buffer(buffer@, len)
            &&& after == before
        },
        (Phase::Collecting { id }, NativeEvent::Log(text)) => {
            &&& action matches LinkAction::Fail { message }
            &&& message@ == text@
            &&& after == before
        },
        _ => action is Ignore && after == before,
    }
}

impl Program {
    /// The native object.
    pub fn id(&self) -> (id: u32)
        ensures
            id == self@,
    {
        self.id
    }

    /// One step of linking `shaders` into a program: takes where the linking
    /// stands and what the native interface answered, and gives where it
    /// stands now and what to ask next. Every shader is attached before the
    /// link and once more after a link that succeeded. The log length and the
    /// log are asked only after a failed link, in that order, the log into a
    /// buffer of exactly the length answered. A program that comes out takes
    /// a share of `gl`; a failed link gives no program.
    pub fn from_shaders(gl: &mut Gl, shaders: &Vec<Shader>, phase: Phase, event: NativeEvent) -> (out:
        (Phase, LinkAction))
        ensures
            out.0 == spec_next(phase, event),
            link_action_fits(phase, event, ids_of(shaders@), old(gl)@, final(gl)@, out.1),
    {
        match (phase, event) {
            (Phase::Uninitialized, NativeEvent::Begin) => (Phase::Requested, LinkAction::Create),
            (Phase::Requested, NativeEvent::Object(id)) => (
                Phase::Submitted { id },
                LinkAction::AttachAndLink { id, shaders: shader_ids(shaders) },
            ),
            (Phase::Submitted { id }, NativeEvent::Status(status)) => {
                if status == 0 {
                    (Phase::Measuring { id }, LinkAction::MeasureLog { id })
                } else {
                    gl.acquire();
                    (
                        Phase::Ready { id },
                        LinkAction::Finish { program: Program { id }, reattach: shader_ids(shaders) },
                    )
                }
            },
            (Phase::Measuring { id }, NativeEvent::LogLength(len)) => (
                Phase::Collecting { id },
                LinkAction::FetchLog { id, buffer: log_buffer(len) },
            ),
            (Phase::Collecting { id }, NativeEvent::Log(text)) => (
                Phase::Failed,
                LinkAction::Fail { message: text },
            ),
            (phase, _) => (phase, LinkAction::Ignore),
        }
    }

    /// The native object to bind as the active pipeline.
    pub fn set_used(&self) -> (id: u32)
        ensures
            id == self@,
    {
        self.id
    }

    /// Ends the program: gives the one delete call that is due, and lets go
    /// of the share of `gl` that the program held.
    pub fn delete(self, gl: &mut Gl) -> (d: Deletion)
        ensures
            d.id == self@,
            d.teardown == (old(gl)@.owners == 1),
            final(gl)@ == spec_release(old(gl)@),
    {
        let teardown = gl.release();
        Deletion { id: self.id, teardown }
    }
}

} // verus!
