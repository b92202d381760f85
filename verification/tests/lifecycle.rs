use ogl_bootstrap::context::Gl;
use ogl_bootstrap::from_resource::{Assembly, AssemblyAction, AssemblyEvent};
use ogl_bootstrap::native::{log_buffer, NativeEvent, Phase};
use ogl_bootstrap::program::{Error, LinkAction, Program};
use ogl_bootstrap::resources;
use ogl_bootstrap::resources::{contains_nil, Resources};
use ogl_bootstrap::shader::{shader_from_source, shader_ids, CompileAction, Shader, StageKind};
use ogl_bootstrap::util::{alloc_cstring_len, sizeof};

fn compiled(gl: &mut Gl, source: &str, kind: StageKind, id: u32) -> Shader {
    let (p, _) = Shader::from_source(gl, source, kind);
    let (p, _) = shader_from_source(gl, source, kind, p, NativeEvent::Object(id));
    let (_, a) = shader_from_source(gl, source, kind, p, NativeEvent::Status(1));
    match a {
        CompileAction::Done(Ok(s)) => s,
        _ => panic!("expected a shader"),
    }
}

fn linked(gl: &mut Gl, shaders: &Vec<Shader>, id: u32) -> Program {
    let (p, _) = Program::from_shaders(gl, shaders, Phase::Uninitialized, NativeEvent::Begin);
    let (p, _) = Program::from_shaders(gl, shaders, p, NativeEvent::Object(id));
    let (_, a) = Program::from_shaders(gl, shaders, p, NativeEvent::Status(1));
    match a {
        LinkAction::Finish { program, .. } => program,
        _ => panic!("expected a program"),
    }
}

#[test]
fn context_lives_until_the_last_owner_lets_go() {
    let mut gl = Gl::load_with();
    assert_eq!(gl.owners(), 1);
    for _ in 0..5 {
        assert!(gl.acquire());
    }
    assert_eq!(gl.owners(), 6);
    for _ in 0..5 {
        assert!(!gl.release());
        assert!(gl.is_alive());
    }
    assert!(gl.release());
    assert!(!gl.is_alive());
    assert!(!gl.release());
    assert!(!gl.acquire());
    assert_eq!(gl.owners(), 0);
}

#[test]
fn valid_source_compiles_to_a_shader() {
    let mut gl = Gl::load_with();
    let (p, a) = Shader::from_source_vert(&mut gl, "void main() {}");
    assert!(matches!(p, Phase::Requested));
    assert!(matches!(a, CompileAction::Create(StageKind::Vertex)));
    let (p, a) =
        shader_from_source(&mut gl, "void main() {}", StageKind::Vertex, p, NativeEvent::Object(7));
    assert!(matches!(p, Phase::Submitted { id: 7 }));
    assert!(matches!(a, CompileAction::Submit { id: 7 }));
    let (p, a) =
        shader_from_source(&mut gl, "void main() {}", StageKind::Vertex, p, NativeEvent::Status(1));
    assert!(matches!(p, Phase::Ready { id: 7 }));
    match a {
        CompileAction::Done(Ok(shader)) => assert_eq!(shader.id(), 7),
        _ => panic!("expected a shader"),
    }
    assert_eq!(gl.owners(), 2);
}

#[test]
fn broken_source_gives_a_compile_error() {
    let mut gl = Gl::load_with();
    let src = "void main( {";
    let (p, a) = Shader::from_source_frag(&mut gl, src);
    assert!(matches!(a, CompileAction::Create(StageKind::Fragment)));
    let (p, _) = shader_from_source(&mut gl, src, StageKind::Fragment, p, NativeEvent::Object(3));
    let (p, a) = shader_from_source(&mut gl, src, StageKind::Fragment, p, NativeEvent::Status(0));
    assert!(matches!(p, Phase::Measuring { id: 3 }));
    assert!(matches!(a, CompileAction::MeasureLog { id: 3 }));
    let (p, a) =
        shader_from_source(&mut gl, src, StageKind::Fragment, p, NativeEvent::LogLength(12));
    assert!(matches!(p, Phase::Collecting { id: 3 }));
    match a {
        CompileAction::FetchLog { id, buffer } => {
            assert_eq!(id, 3);
            assert_eq!(buffer, vec![b' '; 12]);
        },
        _ => panic!("expected a log request"),
    }
    let (p, a) = shader_from_source(
        &mut gl,
        src,
        StageKind::Fragment,
        p,
        NativeEvent::Log("syntax error".to_string()),
    );
    assert!(matches!(p, Phase::Failed));
    match a {
        CompileAction::Done(Err(Error::CompileError { name, message })) => {
            assert_eq!(name, src);
            assert_eq!(message, "syntax error");
        },
        _ => panic!("expected a compile error"),
    }
    assert_eq!(gl.owners(), 1);
}

#[test]
fn unexpected_answers_change_nothing() {
    let mut gl = Gl::load_with();
    let (p, a) =
        shader_from_source(&mut gl, "s", StageKind::Vertex, Phase::Requested, NativeEvent::Status(1));
    assert!(matches!(p, Phase::Requested));
    assert!(matches!(a, CompileAction::Ignore));
    let (p, a) = shader_from_source(
        &mut gl,
        "s",
        StageKind::Vertex,
        Phase::Ready { id: 1 },
        NativeEvent::Begin,
    );
    assert!(matches!(p, Phase::Ready { id: 1 }));
    assert!(matches!(a, CompileAction::Ignore));
    assert_eq!(gl.owners(), 1);
}

#[test]
fn stage_numbers() {
    assert_eq!(StageKind::Vertex.native(), 0x8B31);
    assert_eq!(StageKind::Fragment.native(), 0x8B30);
}

#[test]
fn log_buffer_has_the_length_answered() {
    assert_eq!(log_buffer(0), Vec::<u8>::new());
    assert_eq!(log_buffer(3), vec![32u8, 32, 32]);
    assert_eq!(log_buffer(-4), Vec::<u8>::new());
    assert_eq!(alloc_cstring_len(2), vec![b' ', b' ']);
}

#[test]
fn deleting_a_shader_lets_go_of_its_share() {
    let mut gl = Gl::load_with();
    let s = compiled(&mut gl, "x", StageKind::Vertex, 11);
    assert_eq!(gl.owners(), 2);
    let d = s.delete(&mut gl);
    assert_eq!(d.id, 11);
    assert!(!d.teardown);
    assert_eq!(gl.owners(), 1);
}

#[test]
fn last_owner_tears_the_context_down() {
    let mut gl = Gl::load_with();
    let s = compiled(&mut gl, "x", StageKind::Vertex, 11);
    assert!(!gl.release());
    let d = s.delete(&mut gl);
    assert!(d.teardown);
    assert!(!gl.is_alive());
}

#[test]
fn linking_attaches_before_and_after() {
    let mut gl = Gl::load_with();
    let shaders = vec![
        compiled(&mut gl, "v", StageKind::Vertex, 1),
        compiled(&mut gl, "f", StageKind::Fragment, 2),
    ];
    assert_eq!(shader_ids(&shaders), vec![1, 2]);
    let (p, a) = Program::from_shaders(&mut gl, &shaders, Phase::Uninitialized, NativeEvent::Begin);
    assert!(matches!(a, LinkAction::Create));
    let (p, a) = Program::from_shaders(&mut gl, &shaders, p, NativeEvent::Object(9));
    match a {
        LinkAction::AttachAndLink { id, shaders } => {
            assert_eq!(id, 9);
            assert_eq!(shaders, vec![1, 2]);
        },
        _ => panic!("expected an attach"),
    }
    let (p, a) = Program::from_shaders(&mut gl, &shaders, p, NativeEvent::Status(1));
    assert!(matches!(p, Phase::Ready { id: 9 }));
    match a {
        LinkAction::Finish { program, reattach } => {
            assert_eq!(program.id(), 9);
            assert_eq!(program.set_used(), 9);
            assert_eq!(reattach, vec![1, 2]);
            assert_eq!(gl.owners(), 4);
            let d = program.delete(&mut gl);
            assert_eq!(d.id, 9);
            assert!(!d.teardown);
        },
        _ => panic!("expected a program"),
    }
    assert_eq!(gl.owners(), 3);
}

#[test]
fn failed_link_gives_the_log_and_no_program() {
    let mut gl = Gl::load_with();
    let shaders = vec![compiled(&mut gl, "v", StageKind::Vertex, 1)];
    let (p, _) = Program::from_shaders(&mut gl, &shaders, Phase::Uninitialized, NativeEvent::Begin);
    let (p, _) = Program::from_shaders(&mut gl, &shaders, p, NativeEvent::Object(9));
    let (p, a) = Program::from_shaders(&mut gl, &shaders, p, NativeEvent::Status(0));
    assert!(matches!(a, LinkAction::MeasureLog { id: 9 }));
    let (p, a) = Program::from_shaders(&mut gl, &shaders, p, NativeEvent::LogLength(4));
    assert!(matches!(a, LinkAction::FetchLog { id: 9, buffer } if buffer == vec![b' '; 4]));
    let (p, a) = Program::from_shaders(&mut gl, &shaders, p, NativeEvent::Log("oops".to_string()));
    assert!(matches!(p, Phase::Failed));
    assert!(matches!(a, LinkAction::Fail { message } if message == "oops"));
    assert_eq!(gl.owners(), 2);
}

#[test]
fn stage_comes_from_the_ending() {
    assert_eq!(StageKind::from_name("triangle.vert"), Some(StageKind::Vertex));
    assert_eq!(StageKind::from_name("triangle.frag"), Some(StageKind::Fragment));
    assert_eq!(StageKind::from_name("triangle.geom"), None);
    assert_eq!(StageKind::from_name("vert"), None);
    assert_eq!(StageKind::from_name(".vert"), Some(StageKind::Vertex));
    assert_eq!(StageKind::from_name(""), None);
}

#[test]
fn shader_resource_is_planned_by_name() {
    let res = Resources { root_path: "/opt/app/shaders".to_string() };
    let pending = Shader::from_resources(&res, "triangle.frag").ok().unwrap();
    assert_eq!(pending.name, "triangle.frag");
    assert_eq!(pending.kind, StageKind::Fragment);
    assert_eq!(pending.path, "/opt/app/shaders/triangle.frag");
    match Shader::from_resources(&res, "triangle.txt") {
        Err(Error::UndefinedShaderType { name }) => assert_eq!(name, "triangle.txt"),
        _ => panic!("expected an undefined shader type"),
    }
}

#[test]
fn failed_load_is_wrapped_with_the_name() {
    let res = Resources { root_path: "shaders".to_string() };
    let pending = Shader::from_resources(&res, "triangle.vert").ok().unwrap();
    let loaded = Resources::load(Err("not found".to_string()));
    match pending.loaded(loaded) {
        Err(Error::ResourceLoad { name, inner: resources::Error::Io(cause) }) => {
            assert_eq!(name, "triangle.vert");
            assert_eq!(cause, "not found");
        },
        _ => panic!("expected a resource load failure"),
    }
    let pending = Shader::from_resources(&res, "triangle.vert").ok().unwrap();
    let (kind, source) = pending.loaded(Resources::load(Ok(b"void".to_vec()))).ok().unwrap();
    assert_eq!(kind, StageKind::Vertex);
    assert_eq!(source, b"void".to_vec());
}

#[test]
fn content_with_a_zero_byte_is_refused_whole() {
    assert!(matches!(
        Resources::load(Ok(vec![b'a', 0, b'b'])),
        Err(resources::Error::FileContainsNil)
    ));
    assert!(matches!(Resources::load(Ok(vec![0])), Err(resources::Error::FileContainsNil)));
    assert_eq!(Resources::load(Ok(vec![b'a', b'b'])).ok().unwrap(), vec![b'a', b'b']);
    assert_eq!(Resources::load(Ok(vec![])).ok().unwrap(), Vec::<u8>::new());
    assert!(contains_nil(&vec![1, 2, 0]));
    assert!(!contains_nil(&vec![1, 2, 3]));
}

#[test]
fn root_is_beside_the_program() {
    let res = Resources::from_rel_path(Some("/opt/app/bin/game"), "shaders").ok().unwrap();
    assert_eq!(res.root_path, "/opt/app/bin/shaders");
    let pending = Shader::from_resources(&res, "triangle.vert").ok().unwrap();
    assert_eq!(pending.path, "/opt/app/bin/shaders/triangle.vert");
    assert!(matches!(
        Resources::from_rel_path(None, "shaders"),
        Err(resources::Error::FailToGetPath)
    ));
    assert!(matches!(
        Resources::from_rel_path(Some("/"), "shaders"),
        Err(resources::Error::FailToGetPath)
    ));
    assert!(matches!(Resources::rooted(None, "shaders"), Err(resources::Error::FailToGetPath)));
    let res = Resources::rooted(Some("/opt/app".to_string()), "shaders").ok().unwrap();
    assert_eq!(res.root_path, "/opt/app/shaders");
}

#[test]
fn program_is_built_from_two_resources() {
    let mut gl = Gl::load_with();
    let (state, action) =
        Program::from_resources(&mut gl, "triangle", Assembly::Uninitialized, AssemblyEvent::Begin);
    assert!(matches!(action, AssemblyAction::BuildShader { name } if name == "triangle.vert"));
    let vert = compiled(&mut gl, "v", StageKind::Vertex, 1);
    let (state, action) =
        Program::from_resources(&mut gl, "triangle", state, AssemblyEvent::ShaderReady(Ok(vert)));
    assert!(matches!(action, AssemblyAction::BuildShader { name } if name == "triangle.frag"));
    let frag = compiled(&mut gl, "f", StageKind::Fragment, 2);
    let (state, action) =
        Program::from_resources(&mut gl, "triangle", state, AssemblyEvent::ShaderReady(Ok(frag)));
    assert!(matches!(action, AssemblyAction::Link));
    let program = match &state {
        Assembly::Linking { shaders } => linked(&mut gl, shaders, 5),
        _ => panic!("expected both shaders"),
    };
    assert_eq!(gl.owners(), 4);
    let (state, action) =
        Program::from_resources(&mut gl, "triangle", state, AssemblyEvent::Linked(Ok(program)));
    assert!(matches!(state, Assembly::Finished));
    match action {
        AssemblyAction::Done { result: Ok(program), deleted } => {
            assert_eq!(program.set_used(), 5);
            assert_eq!(deleted.len(), 2);
            assert_eq!((deleted[0].id, deleted[0].teardown), (1, false));
            assert_eq!((deleted[1].id, deleted[1].teardown), (2, false));
        },
        _ => panic!("expected a program"),
    }
    assert_eq!(gl.owners(), 2);
}

#[test]
fn missing_fragment_shader_ends_the_vertex_shader() {
    let mut gl = Gl::load_with();
    let (state, _) =
        Program::from_resources(&mut gl, "triangle", Assembly::Uninitialized, AssemblyEvent::Begin);
    let vert = compiled(&mut gl, "v", StageKind::Vertex, 41);
    let (state, _) =
        Program::from_resources(&mut gl, "triangle", state, AssemblyEvent::ShaderReady(Ok(vert)));
    assert_eq!(gl.owners(), 2);
    let failure = Error::ResourceLoad {
        name: "triangle.frag".to_string(),
        inner: resources::Error::Io("missing".to_string()),
    };
    let (state, action) =
        Program::from_resources(&mut gl, "triangle", state, AssemblyEvent::ShaderReady(Err(failure)));
    assert!(matches!(state, Assembly::Finished));
    match action {
        AssemblyAction::Done { result: Err(Error::ResourceLoad { name, .. }), deleted } => {
            assert_eq!(name, "triangle.frag");
            assert_eq!(deleted.len(), 1);
            assert_eq!(deleted[0].id, 41);
        },
        _ => panic!("expected a resource load failure"),
    }
    assert_eq!(gl.owners(), 1);
}

#[test]
fn failed_vertex_shader_ends_the_building() {
    let mut gl = Gl::load_with();
    let (state, _) =
        Program::from_resources(&mut gl, "t", Assembly::Uninitialized, AssemblyEvent::Begin);
    let failure = Error::UndefinedShaderType { name: "t.vert".to_string() };
    let (state, action) =
        Program::from_resources(&mut gl, "t", state, AssemblyEvent::ShaderReady(Err(failure)));
    assert!(matches!(state, Assembly::Finished));
    assert!(matches!(
        action,
        AssemblyAction::Done { result: Err(Error::UndefinedShaderType { .. }), deleted } if deleted.is_empty()
    ));
}

#[test]
fn failed_link_names_the_program() {
    let mut gl = Gl::load_with();
    let shaders = vec![
        compiled(&mut gl, "v", StageKind::Vertex, 1),
        compiled(&mut gl, "f", StageKind::Fragment, 2),
    ];
    let (state, action) = Program::from_resources(
        &mut gl,
        "triangle",
        Assembly::Linking { shaders },
        AssemblyEvent::Linked(Err("unresolved".to_string())),
    );
    assert!(matches!(state, Assembly::Finished));
    match action {
        AssemblyAction::Done { result: Err(Error::LinkError { name, message }), deleted } => {
            assert_eq!(name, "triangle");
            assert_eq!(message, "unresolved");
            assert_eq!(deleted.len(), 2);
        },
        _ => panic!("expected a link error"),
    }
    assert_eq!(gl.owners(), 1);
}

#[test]
fn size_in_bytes() {
    let v: Vec<f32> = vec![0.0; 18];
    assert_eq!(sizeof(&v), 72);
    let e: Vec<u64> = vec![];
    assert_eq!(sizeof(&e), 0);
}
