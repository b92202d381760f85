//! Shaders: how one is compiled, owned and deleted.

use crate::context::{spec_acquire, spec_release, Gl};
use crate::native::{is_log_buffer, log_buffer, spec_next, Deletion, NativeEvent, Phase};
use crate::program::Error;
use vstd::prelude::*;

verus! {

/// The stage that a shader is compiled for.
#[derive(Clone, Copy, Debug, PartialEq, Eq, Structural)]
pub enum StageKind {
    Vertex,
    Fragment,
}

impl StageKind {
    /// The number by which the native interface knows the stage.
    pub fn native(self) -> (code: u32)
        ensures
            code == match self {
                StageKind::Vertex => 0x8B31u32,
                StageKind::Fragment => 0x8B30u32,
            },
    {
        match self {
            StageKind::Vertex => 0x8B31,
            StageKind::Fragment => 0x8B30,
        }
    }
}

/// A compiled shader. It holds one share of the graphics context from its
/// creation until it is deleted.
pub struct Shader {
    id: u32,
}

impl View for Shader {
    type V = u32;

    closed spec fn view(&self) -> u32 {
        self.id
    }
}

/// What the compilation asks of the native interface next, or what came of it.
pub enum CompileAction {
    /// Create a shader object of this stage and answer with it.
    Create(StageKind),
    /// Hand the source to `id`, compile it, and answer with the status.
    Submit { id: u32 },
    /// Answer with the length of the log of `id`.
    MeasureLog { id: u32 },
    /// Have the log of `id` written into `buffer` and answer with its text.
    FetchLog { id: u32, buffer: Vec<u8> },
    /// The compilation is over.
    Done(Result<Shader, Error>),
    /// The event was not the one waited for; nothing is to be done.
    Ignore,
}

/// What `action` has to be after `event` came in `phase`, for the source text
/// `source` and a context that went from `before` to `after`.
pub open spec fn compile_action_fits(
    phase: Phase,
    event: NativeEvent,
    kind: StageKind,
    source: Seq<char>,
    before: crate::context::GlView,
    after: crate::context::GlView,
    action: CompileAction,
) -> bool {
    match (phase, event) {
        (Phase::Uninitialized, NativeEvent::Begin) => action == CompileAction::Create(kind)
            && after == before,
        (Phase::Requested, NativeEvent::Object(id)) => action == (CompileAction::Submit { id })
            && after == before,
        (Phase::Submitted { id }, NativeEvent::Status(status)) => if status == 0 {
            action == (CompileAction::MeasureLog { id }) && after == before
        } else {
            &&& action matches CompileAction::Done(Ok(shader))
            &&& shader@ == id
            &&& after == spec_acquire(before)
        },
        (Phase::Measuring { id }, NativeEvent::LogLength(len)) => {
            &&& action matches CompileAction::FetchLog { id: target, buffer }
            &&& target == id
            &&& is_log_buffer(buffer@, len)
            &&& after == before
        },
        (Phase::Collecting { id }, NativeEvent::Log(text)) => {
            &&& action matches CompileAction::Done(Err(Error::CompileError { name, message }))
            &&& name@ == source
            &&& message@ == text@
            &&& after == before
        },
        _ => action is Ignore && after == before,
    }
}

/// One step of compiling `source` for the stage `kind`: takes where the
/// compilation stands and what the native interface answered, and gives where
/// it stands now and what to ask next. The status is asked once; the log
/// length and the log are asked only after a failed build, in that order, the
/// log into a buffer of exactly the length answered. A shader that comes out
/// takes a share of `gl`.
pub fn shader_from_source(
    gl: &mut Gl,
    source: &str,
    kind: StageKind,
    phase: Phase,
    event: NativeEvent,
) -> (out: (Phase, CompileAction))
    ensures
        out.0 == spec_next(phase, event),
        compile_action_fits(phase, event, kind, source@, old(gl)@, final(gl)@, out.1),
{
    match (phase, event) {
        (Phase::Uninitialized, NativeEvent::Begin) => (
            Phase::Requested,
            CompileAction::Create(kind),
        ),
        (Phase::Requested, NativeEvent::Object(id)) => (
            Phase::Submitted { id },
            CompileAction::Submit { id },
        ),
        (Phase::Submitted { id }, NativeEvent::Status(status)) => {
            if status == 0 {
                (Phase::Measuring { id }, CompileAction::MeasureLog { id })
            } else {
                gl.acquire();
                (Phase::Ready { id }, CompileAction::Done(Ok(Shader { id })))
            }
        },
        (Phase::Measuring { id }, NativeEvent::LogLength(len)) => (
            Phase::Collecting { id },
            CompileAction::FetchLog { id, buffer: log_buffer(len) },
        ),
        (Phase::Collecting { id }, NativeEvent::Log(text)) => (
            Phase::Failed,
            CompileAction::Done(
                Err(Error::CompileError { name: source.to_owned(), message: text }),
            ),
        ),
        (phase, _) => (phase, CompileAction::Ignore),
    }
}

impl Shader {
    /// The native object.
    pub fn id(&self) -> (id: u32)
        ensures
            id == self@,
    {
        self.id
    }

    /// Begins compiling `source` for the stage `kind`.
    pub fn from_source(gl: &mut Gl, source: &str, kind: StageKind) -> (out: (Phase, CompileAction))
        ensures
            out.0 == Phase::Requested,
            out.1 == CompileAction::Create(kind),
            final(gl)@ == old(gl)@,
    {
        shader_from_source(gl, source, kind, Phase::Uninitialized, NativeEvent::Begin)
    }

    /// Begins compiling `source` as a vertex shader.
    pub fn from_source_vert(gl: &mut Gl, source: &str) -> (out: (Phase, CompileAction))
        ensures
            out.0 == Phase::Requested,
            out.1 == CompileAction::Create(StageKind::Vertex),
            final(gl)@ == old(gl)@,
    {
        Shader::from_source(gl, source, StageKind::Vertex)
    }

    /// Begins compiling `source` as a fragment shader.
    pub fn from_source_frag(gl: &mut Gl, source: &str) -> (out: (Phase, CompileAction))
        ensures
            out.0 == Phase::Requested,
            out.1 == CompileAction::Create(StageKind::Fragment),
            final(gl)@ == old(gl)@,
    {
        Shader::from_source(gl, source, StageKind::Fragment)
    }

    /// Ends the shader: gives the one delete call that is due, and lets go of
    /// the share of `gl` that the shader held.
    pub fn delete(self, gl: &mut Gl) -> (d: Deletion)
        ensures
            d.id == self@,
            d.teardown == (old(gl)@.owners == 1),
            final(gl)@ == spec_release(old(gl)@),
    {
        let teardown = gl.release();
        Deletion { id: self.id, teardown }
    }
}

/// The native objects of `shaders`, in order.
pub open spec fn ids_of(shaders: Seq<Shader>) -> Seq<u32> {
    Seq::new(shaders.len(), |i: int| shaders[i]@)
}

/// Lists the native objects of `shaders`, in order.
pub fn shader_ids(shaders: &Vec<Shader>) -> (ids: Vec<u32>)
    ensures
        ids@ == ids_of(shaders@),
{
    let mut ids: Vec<u32> = Vec::new();
    let mut i: usize = 0;
    while i < shaders.len()
        invariant
            0 <= i <= shaders@.len(),
            ids@.len() == i,
            forall|j: int| 0 <= j < i ==> ids@[j] == shaders@[j]@,
        decreases shaders@.len() - i,
    {
        ids.push(shaders[i].id);
        i += 1;
    }
    assert(ids@ =~= ids_of(shaders@));
    ids
}

} // verus!
