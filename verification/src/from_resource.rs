//! From the name of a resource to a shader or a program.

use crate::context::{after_drops, spec_release, Gl, GlView};
use crate::native::Deletion;
use crate::program::{Error, Program};
use crate::resources;
use crate::resources::Resources;
use crate::shader::{Shader, StageKind};
use crate::text::{ends_with, has_suffix};
use vstd::prelude::*;
use vstd::string::StringExecFns;
use vstd::utf8::encode_utf8;

verus! {

/// The bytes of `.vert`.
pub open spec fn vert_suffix() -> Seq<u8> {
    seq![46u8, 118u8, 101u8, 114u8, 116u8]
}

/// The bytes of `.frag`.
pub open spec fn frag_suffix() -> Seq<u8> {
    seq![46u8, 102u8, 114u8, 97u8, 103u8]
}

/// The stage that a resource name tells by its ending: `.vert` a vertex
/// shader, `.frag` a fragment shader, any other ending none.
pub open spec fn spec_stage_of(name: Seq<u8>) -> Option<StageKind> {
    if has_suffix(name, vert_suffix()) {
        Some(StageKind::Vertex)
    } else if has_suffix(name, frag_suffix()) {
        Some(StageKind::Fragment)
    } else {
        None
    }
}

/// A shader resource that is still to be read and compiled.
pub struct PendingShader {
    /// The name of the resource.
    pub name: String,
    /// Where it is read from: the name joined to the root.
    pub path: String,
    /// The stage it is compiled for.
    pub kind: StageKind,
}

impl StageKind {
    /// Tells the stage of a resource from the ending of its name.
    pub fn from_name(name: &str) -> (kind: Option<StageKind>)
        ensures
            kind == spec_stage_of(encode_utf8(name@)),
    {
        let bytes = name.as_bytes();
        let vert: [u8; 5] = [46, 118, 101, 114, 116];
        let frag: [u8; 5] = [46, 102, 114, 97, 103];
        assert(vert@ =~= vert_suffix());
        assert(frag@ =~= frag_suffix());
        if ends_with(bytes, vert.as_slice()) {
            Some(StageKind::Vertex)
        } else if ends_with(bytes, frag.as_slice()) {
            Some(StageKind::Fragment)
        } else {
            None
        }
    }
}

impl PendingShader {
    /// Takes what loading the resource gave: the source to compile and the
    /// stage to compile it for, or the failure with the name of the resource.
    pub fn loaded(self, loaded: Result<Vec<u8>, resources::Error>) -> (r: Result<
        (StageKind, Vec<u8>),
        Error,
    >)
        ensures
            match loaded {
                Ok(source) => r == Ok::<(StageKind, Vec<u8>), Error>((self.kind, source)),
                Err(cause) => r == Err::<(StageKind, Vec<u8>), Error>(
                    Error::ResourceLoad { name: self.name, inner: cause },
                ),
            },
    {
        match loaded {
            Ok(source) => Ok((self.kind, source)),
            Err(cause) => Err(Error::ResourceLoad { name: self.name, inner: cause }),
        }
    }
}

impl Shader {
    /// Plans the shader named `name` below the root `res`: where to read it and
    /// which stage to compile it for. A name that tells no stage is refused
    /// before anything is read.
    pub fn from_resources(res: &Resources, name: &str) -> (r: Result<PendingShader, Error>)
        ensures
            match spec_stage_of(encode_utf8(name@)) {
                Some(kind) => {
                    &&& r matches Ok(pending)
                    &&& pending.kind == kind
                    &&& pending.name@ == name@
                    &&& pending.path@ == resources::path_join(res.root_path@, name@)
                },
                None => r matches Err(Error::UndefinedShaderType { name: refused }) && refused@
                    == name@,
            },
    {
        match StageKind::from_name(name) {
            Some(kind) => Ok(PendingShader { name: name.to_owned(), path: res.path_of(name), kind }),
            None => Err(Error::UndefinedShaderType { name: name.to_owned() }),
        }
    }
}

/// Where the building of a program from resources stands.
pub enum Assembly {
    /// Nothing was asked yet.
    Uninitialized,
    /// The vertex shader was asked for.
    NeedVertex,
    /// The vertex shader is there; the fragment shader was asked for.
    NeedFragment { vertex: Shader },
    /// Both shaders are there; the link was asked for.
    Linking { shaders: Vec<Shader> },
    /// The building is over.
    Finished,
}

/// What came back to the building of a program, or the word to begin.
pub enum AssemblyEvent {
    /// Nothing came back: the building is to begin.
    Begin,
    /// The shader that was asked for, or why there is none.
    ShaderReady(Result<Shader, Error>),
    /// The program that was asked for, or the log of the failed link.
    Linked(Result<Program, String>),
}

/// What the building of a program asks for next, or what came of it.
pub enum AssemblyAction {
    /// Build the shader of the resource `name`.
    BuildShader { name: String },
    /// Link the shaders that the state holds.
    Link,
    /// The building is over. The shaders that it held have ended: `deleted`
    /// lists their delete calls in order.
    Done { result: Result<Program, Error>, deleted: Vec<Deletion> },
    /// The event was not the one waited for; nothing is to be done.
    Ignore,
}

/// The delete calls of `shaders` ended in order on a context in state `gl`.
pub open spec fn spec_deletions(gl: GlView, shaders: Seq<Shader>) -> Seq<Deletion> {
    Seq::new(
        shaders.len(),
        |i: int| Deletion { id: shaders[i]@, teardown: after_drops(gl, i as nat).owners == 1 },
    )
}

/// Ends every shader of `shaders`, first to last.
pub fn delete_all(gl: &mut Gl, shaders: Vec<Shader>) -> (deleted: Vec<Deletion>)
    ensures
        deleted@ == spec_deletions(old(gl)@, shaders@),
        final(gl)@ == after_drops(old(gl)@, shaders@.len()),
{
    let ghost all = shaders@;
    let ghost start = gl@;
    let mut rest = shaders;
    let mut deleted: Vec<Deletion> = Vec::new();
    while rest.len() > 0
        invariant
            deleted@.len() + rest@.len() == all.len(),
            rest@ == all.subrange(deleted@.len() as int, all.len() as int),
            gl@ == after_drops(start, deleted@.len()),
            forall|j: int| 0 <= j < deleted@.len() ==> deleted@[j] == spec_deletions(start, all)[j],
        decreases rest@.len(),
    {
        let ghost n = deleted@.len();
        let shader = rest.remove(0);
        assert(shader == all[n as int]);
        let d = shader.delete(gl);
        deleted.push(d);
        assert(rest@ == all.subrange(n as int + 1, all.len() as int));
    }
    assert(deleted@ =~= spec_deletions(start, all));
    deleted
}

/// What state and action have to follow `event` in `state`, for the program
/// named `name` and a context that went from `before` to `after`.
pub open spec fn assembly_fits(
    name: Seq<char>,
    state: Assembly,
    event: AssemblyEvent,
    before: GlView,
    after: GlView,
    next: Assembly,
    action: AssemblyAction,
) -> bool {
    match (state, event) {
        (Assembly::Uninitialized, AssemblyEvent::Begin) => {
            &&& next is NeedVertex
            &&& action matches AssemblyAction::BuildShader { name: asked }
            &&& asked@ == name + ".vert"@
            &&& after == before
        },
        (Assembly::NeedVertex, AssemblyEvent::ShaderReady(Ok(vertex))) => {
            &&& next == (Assembly::NeedFragment { vertex })
            &&& action matches AssemblyAction::BuildShader { name: asked }
            &&& asked@ == name + ".frag"@
            &&& after == before
        },
        (Assembly::NeedVertex, AssemblyEvent::ShaderReady(Err(e))) => {
            &&& next is Finished
            &&& action matches AssemblyAction::Done { result, deleted }
            &&& result == Err::<Program, Error>(e)
            &&& deleted@.len() == 0
            &&& after == before
        },
        (Assembly::NeedFragment { vertex }, AssemblyEvent::ShaderReady(Ok(fragment))) => {
            &&& next matches Assembly::Linking { shaders }
            &&& shaders@ == seq![vertex, fragment]
            &&& action is Link
            &&& after == before
        },
        (Assembly::NeedFragment { vertex }, AssemblyEvent::ShaderReady(Err(e))) => {
            &&& next is Finished
            &&& action matches AssemblyAction::Done { result, deleted }
            &&& result == Err::<Program, Error>(e)
            &&& deleted@ == spec_deletions(before, seq![vertex])
            &&& after == spec_release(before)
        },
        (Assembly::Linking { shaders }, AssemblyEvent::Linked(Ok(program))) => {
            &&& next is Finished
            &&& action matches AssemblyAction::Done { result, deleted }
            &&& result == Ok::<Program, Error>(program)
            &&& deleted@ == spec_deletions(before, shaders@)
            &&& after == after_drops(before, shaders@.len())
        },
        (Assembly::Linking { shaders }, AssemblyEvent::Linked(Err(log))) => {
            &&& next is Finished
            &&& action matches AssemblyAction::Done { result, deleted }
            &&& result matches Err(Error::LinkError { name: failed, message })
            &&& failed@ == name
            &&& message@ == log@
            &&& deleted@ == spec_deletions(before, shaders@)
            &&& after == after_drops(before, shaders@.len())
        },
        _ => next == state && action is Ignore && after == before,
    }
}

impl Program {
    /// One step of building the program named `name` from its two resources,
    /// `name.vert` and `name.frag`: takes where the building stands and what
    /// came back, and gives where it stands now and what to ask for next. The
    /// first failure ends the building with that failure. However the
    /// building ends, every shader that it held by then has ended too.
    pub fn from_resources(gl: &mut Gl, name: &str, state: Assembly, event: AssemblyEvent) -> (out: (
        Assembly,
        AssemblyAction,
    ))
        ensures
            assembly_fits(name@, state, event, old(gl)@, final(gl)@, out.0, out.1),
    {
        match (state, event) {
            (Assembly::Uninitialized, AssemblyEvent::Begin) => (
                Assembly::NeedVertex,
                AssemblyAction::BuildShader { name: name.to_owned().concat(".vert") },
            ),
            (Assembly::NeedVertex, AssemblyEvent::ShaderReady(Ok(vertex))) => (
                Assembly::NeedFragment { vertex },
                AssemblyAction::BuildShader { name: name.to_owned().concat(".frag") },
            ),
            (Assembly::NeedVertex, AssemblyEvent::ShaderReady(Err(e))) => (
                Assembly::Finished,
                AssemblyAction::Done { result: Err(e), deleted: Vec::new() },
            ),
            (Assembly::NeedFragment { vertex }, AssemblyEvent::ShaderReady(Ok(fragment))) => {
                let mut shaders: Vec<Shader> = Vec::new();
                shaders.push(vertex);
                shaders.push(fragment);
                assert(shaders@ =~= seq![vertex, fragment]);
                (Assembly::Linking { shaders }, AssemblyAction::Link)
            },
            (Assembly::NeedFragment { vertex }, AssemblyEvent::ShaderReady(Err(e))) => {
                let mut held: Vec<Shader> = Vec::new();
                held.push(vertex);
                assert(held@ =~= seq![vertex]);
                proof {
                    reveal_with_fuel(after_drops, 2);
                }
                let deleted = delete_all(gl, held);
                (Assembly::Finished, AssemblyAction::Done { result: Err(e), deleted })
            },
            (Assembly::Linking { shaders }, AssemblyEvent::Linked(Ok(program))) => {
                let deleted = delete_all(gl, shaders);
                (Assembly::Finished, AssemblyAction::Done { result: Ok(program), deleted })
            },
            (Assembly::Linking { shaders }, AssemblyEvent::Linked(Err(log))) => {
                let deleted = delete_all(gl, shaders);
                (
                    Assembly::Finished,
                    AssemblyAction::Done {
                        result: Err(Error::LinkError { name: name.to_owned(), message: log }),
                        deleted,
                    },
                )
            },
            (state, _) => (state, AssemblyAction::Ignore),
        }
    }
}

} // verus!
