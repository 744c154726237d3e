use gl_lib::text::decimal_text;
use gl_lib::{
    Call, Compile, FragmentShader, GeometryShader, Link, Program, Progress, Protocol, Reply,
    Shader, ShaderType, TessControlShader, TessEvaluationShader, Uniform, VertexShader,
};

/// A stand-in for the graphics driver: it hands out identifiers, keeps the
/// objects that are alive and an error flag, and records every request.
struct Driver {
    last_id: u32,
    out_of_objects: bool,
    shaders: Vec<u32>,
    programs: Vec<u32>,
    attached: Vec<(u32, u32)>,
    deleted: Vec<u32>,
    error: u32,
    status: i32,
    log: Vec<u8>,
    location: i32,
    upload_error: u32,
    calls: Vec<Call>,
}

impl Driver {
    fn new() -> Driver {
        Driver {
            last_id: 0,
            out_of_objects: false,
            shaders: Vec::new(),
            programs: Vec::new(),
            attached: Vec::new(),
            deleted: Vec::new(),
            error: 0,
            status: 1,
            log: Vec::new(),
            location: 3,
            upload_error: 0,
            calls: Vec::new(),
        }
    }

    fn failing(log: &[u8]) -> Driver {
        let mut driver = Driver::new();
        driver.status = 0;
        driver.log = log.to_vec();
        driver
    }

    fn allocate(&mut self) -> u32 {
        if self.out_of_objects {
            0
        } else {
            self.last_id += 1;
            self.last_id
        }
    }

    fn log_length(&self) -> i32 {
        if self.log.is_empty() {
            0
        } else {
            self.log.len() as i32 + 1
        }
    }

    /// As the driver does, writes one byte less than the buffer holds, to
    /// leave room for the terminator, which is not part of the log.
    fn read_log(&self, capacity: i32) -> Vec<u8> {
        let room = if capacity > 0 { capacity as usize - 1 } else { 0 };
        self.log[..room.min(self.log.len())].to_vec()
    }

    fn perform(&mut self, call: Call) -> Reply {
        self.calls.push(call);
        match call {
            Call::GetError => {
                let flag = self.error;
                self.error = 0;
                Reply::Flag(flag)
            }
            Call::CreateShader { .. } => {
                let id = self.allocate();
                if id != 0 {
                    self.shaders.push(id);
                }
                Reply::Object(id)
            }
            Call::CreateProgram => {
                let id = self.allocate();
                if id != 0 {
                    self.programs.push(id);
                }
                Reply::Object(id)
            }
            Call::GetShaderiv { pname, .. } | Call::GetProgramiv { pname, .. } => {
                if pname == gl::INFO_LOG_LENGTH {
                    Reply::Value(self.log_length())
                } else {
                    Reply::Value(self.status)
                }
            }
            Call::GetShaderInfoLog { capacity, .. } | Call::GetProgramInfoLog { capacity, .. } => {
                Reply::Log(self.read_log(capacity))
            }
            Call::DeleteShader { shader } => {
                self.shaders.retain(|id| *id != shader);
                self.deleted.push(shader);
                Reply::Nothing
            }
            Call::DeleteProgram { program } => {
                self.programs.retain(|id| *id != program);
                self.deleted.push(program);
                Reply::Nothing
            }
            Call::AttachShader { program, shader } => {
                self.attached.push((program, shader));
                Reply::Nothing
            }
            Call::DetachShader { program, shader } => {
                self.attached.retain(|pair| *pair != (program, shader));
                Reply::Nothing
            }
            Call::GetUniformLocation { .. } => Reply::Value(self.location),
            Call::Uniform1f { .. }
            | Call::Uniform1i { .. }
            | Call::Uniform2f { .. }
            | Call::Uniform3f { .. }
            | Call::Uniform4f { .. }
            | Call::UniformMatrix4fv { .. } => {
                self.error = self.upload_error;
                Reply::Nothing
            }
            _ => Reply::Nothing,
        }
    }

    fn run<P: Protocol>(&mut self, protocol: P) -> Result<P::Output, String> {
        let mut protocol = protocol;
        loop {
            let reply = self.perform(protocol.request());
            assert!(protocol.accepts(&reply));
            match protocol.resume(reply) {
                Progress::Next(next) => protocol = next,
                Progress::Done(result) => return result,
            }
        }
    }
}

fn message<T>(result: Result<T, String>) -> String {
    match result {
        Ok(_) => panic!("the protocol should have failed"),
        Err(message) => message,
    }
}

fn vertex(driver: &mut Driver) -> VertexShader {
    driver.run(VertexShader::from_cstr(b"void main() {}")).unwrap()
}

fn fragment(driver: &mut Driver) -> FragmentShader {
    driver.run(FragmentShader::from_cstr(b"void main() {}")).unwrap()
}

fn program(driver: &mut Driver) -> Program {
    let vertex = vertex(driver);
    let fragment = fragment(driver);
    let program = driver.run(Program::new(&vertex, &fragment, None)).unwrap();
    driver.perform(vertex.release());
    driver.perform(fragment.release());
    driver.calls.clear();
    program
}

fn first_request<S: Shader>(compile: Compile<S>) -> Call {
    match compile.resume(Reply::Flag(0)) {
        Progress::Next(next) => next.request(),
        Progress::Done(_) => panic!("a compile does not end on its first reply"),
    }
}

#[test]
fn stage_codes_come_from_the_registry() {
    assert_eq!(ShaderType::Vertex.to_opengl(), 0x8B31);
    assert_eq!(ShaderType::TessControl.to_opengl(), 0x8E88);
    assert_eq!(ShaderType::TessEvaluation.to_opengl(), 0x8E87);
    assert_eq!(ShaderType::Geometry.to_opengl(), 0x8DD9);
    assert_eq!(ShaderType::Fragment.to_opengl(), 0x8B30);
    assert_eq!(ShaderType::Vertex.to_opengl(), gl::VERTEX_SHADER);
    assert_eq!(ShaderType::TessControl.to_opengl(), gl::TESS_CONTROL_SHADER);
    assert_eq!(ShaderType::TessEvaluation.to_opengl(), gl::TESS_EVALUATION_SHADER);
    assert_eq!(ShaderType::Geometry.to_opengl(), gl::GEOMETRY_SHADER);
    assert_eq!(ShaderType::Fragment.to_opengl(), gl::FRAGMENT_SHADER);
}

#[test]
fn registry_constants_agree_with_the_bindings() {
    assert_eq!(gl_lib::registry::COMPILE_STATUS, gl::COMPILE_STATUS);
    assert_eq!(gl_lib::registry::LINK_STATUS, gl::LINK_STATUS);
    assert_eq!(gl_lib::registry::INFO_LOG_LENGTH, gl::INFO_LOG_LENGTH);
    assert_eq!(gl_lib::registry::NO_ERROR, gl::NO_ERROR);
    assert_eq!(gl_lib::registry::TRUE, gl::TRUE);
    assert_eq!(gl_lib::registry::FALSE, gl::FALSE);
    assert_eq!(gl_lib::registry::NOT_FOUND, -1);
}

#[test]
fn stage_names() {
    assert_eq!(ShaderType::Vertex.to_string(), "VERTEX_SHADER");
    assert_eq!(ShaderType::TessControl.to_string(), "TESS_CONTROL_SHADER");
    assert_eq!(ShaderType::TessEvaluation.to_string(), "TESS_EVALUATION_SHADER");
    assert_eq!(ShaderType::Geometry.to_string(), "GEOMETRY_SHADER");
    assert_eq!(ShaderType::Fragment.to_string(), "FRAGMENT_SHADER");
}

#[test]
fn each_handle_type_compiles_for_its_own_stage() {
    let source = b"void main() {}";
    assert_eq!(
        first_request(VertexShader::from_cstr(source)),
        Call::CreateShader { kind: gl::VERTEX_SHADER }
    );
    assert_eq!(
        first_request(TessControlShader::from_cstr(source)),
        Call::CreateShader { kind: gl::TESS_CONTROL_SHADER }
    );
    assert_eq!(
        first_request(TessEvaluationShader::from_cstr(source)),
        Call::CreateShader { kind: gl::TESS_EVALUATION_SHADER }
    );
    assert_eq!(
        first_request(GeometryShader::from_cstr(source)),
        Call::CreateShader { kind: gl::GEOMETRY_SHADER }
    );
    assert_eq!(
        first_request(FragmentShader::from_cstr(source)),
        Call::CreateShader { kind: gl::FRAGMENT_SHADER }
    );
}

#[test]
fn a_status_is_true_by_its_low_byte() {
    assert!(gl_lib::registry::is_true(1));
    assert!(!gl_lib::registry::is_true(0));
    assert!(gl_lib::registry::is_true(257));
    assert!(!gl_lib::registry::is_true(256));
    assert!(!gl_lib::registry::is_true(-1));
    assert!(gl_lib::registry::is_clean(0));
    assert!(!gl_lib::registry::is_clean(0x0502));
}

#[test]
fn compile_success_makes_six_requests_and_deletes_nothing() {
    let mut driver = Driver::new();
    driver.error = 0x0500;
    let shader = driver.run(VertexShader::from_cstr(b"void main() {}")).unwrap();
    assert_eq!(shader.get_id(), 1);
    assert_eq!(
        driver.calls,
        vec![
            Call::GetError,
            Call::CreateShader { kind: 0x8B31 },
            Call::ShaderSource { shader: 1, length: 14 },
            Call::CompileShader { shader: 1 },
            Call::GetShaderiv { shader: 1, pname: 0x8B81 },
            Call::GetError,
        ]
    );
    assert_eq!(driver.shaders, vec![1]);
    assert!(driver.deleted.is_empty());
}

#[test]
fn compiled_handles_are_nonzero_and_distinct_for_all_stages() {
    let mut driver = Driver::new();
    let source = b"void main() {}";
    let ids = vec![
        driver.run(VertexShader::from_cstr(source)).unwrap().get_id(),
        driver.run(TessControlShader::from_cstr(source)).unwrap().get_id(),
        driver.run(TessEvaluationShader::from_cstr(source)).unwrap().get_id(),
        driver.run(GeometryShader::from_cstr(source)).unwrap().get_id(),
        driver.run(FragmentShader::from_cstr(source)).unwrap().get_id(),
    ];
    for (i, id) in ids.iter().enumerate() {
        assert_ne!(*id, 0);
        for other in &ids[i + 1..] {
            assert_ne!(id, other);
        }
    }
    assert_eq!(driver.shaders, ids);
}

#[test]
fn compile_without_an_object_fails_at_once() {
    let mut driver = Driver::new();
    driver.out_of_objects = true;
    let failure = message(driver.run(VertexShader::from_cstr(b"bad")));
    assert_eq!(failure, "OpenGL failed to create shader object");
    assert_eq!(driver.calls, vec![Call::GetError, Call::CreateShader { kind: 0x8B31 }]);
    assert!(driver.deleted.is_empty());
}

#[test]
fn compile_failure_without_log() {
    let mut driver = Driver::failing(b"");
    let failure = message(driver.run(GeometryShader::from_cstr(b"bad")));
    assert_eq!(failure, "Failed to compile GEOMETRY_SHADER, no info log available.");
    assert_eq!(
        driver.calls,
        vec![
            Call::GetError,
            Call::CreateShader { kind: 0x8DD9 },
            Call::ShaderSource { shader: 1, length: 3 },
            Call::CompileShader { shader: 1 },
            Call::GetShaderiv { shader: 1, pname: 0x8B81 },
            Call::GetShaderiv { shader: 1, pname: 0x8B84 },
            Call::DeleteShader { shader: 1 },
            Call::GetError,
        ]
    );
    assert!(driver.shaders.is_empty());
    assert_eq!(driver.deleted, vec![1]);
}

#[test]
fn compile_failure_with_log() {
    let mut driver = Driver::failing(b"0:1: syntax error\n");
    let failure = message(driver.run(VertexShader::from_cstr(b"bad")));
    assert_eq!(failure, "Failed to compile VERTEX_SHADER: 0:1: syntax error");
    assert!(!failure.is_empty());
    assert_eq!(
        driver.calls,
        vec![
            Call::GetError,
            Call::CreateShader { kind: 0x8B31 },
            Call::ShaderSource { shader: 1, length: 3 },
            Call::CompileShader { shader: 1 },
            Call::GetShaderiv { shader: 1, pname: 0x8B81 },
            Call::GetShaderiv { shader: 1, pname: 0x8B84 },
            Call::GetShaderInfoLog { shader: 1, capacity: 18 },
            Call::DeleteShader { shader: 1 },
            Call::GetError,
        ]
    );
    assert!(driver.shaders.is_empty());
    assert_eq!(driver.deleted, vec![1]);
}

#[test]
fn compile_failure_with_a_log_that_is_no_text() {
    let mut driver = Driver::failing(&[0x66, 0xff, 0xfe, 0x0a]);
    let failure = message(driver.run(FragmentShader::from_cstr(b"bad")));
    assert_eq!(failure, "Failed to compile FRAGMENT_SHADER, info log cannot be parsed to UTF-8.");
    assert!(driver.shaders.is_empty());
    assert_eq!(driver.deleted, vec![1]);
}

#[test]
fn logs_that_only_look_like_text_are_given_up() {
    let overlong = vec![0x61, 0xc0, 0x80, 0x0a];
    let surrogate = vec![0xed, 0xa0, 0x80, 0x0a];
    let beyond_the_range = vec![0xf4, 0x90, 0x80, 0x80, 0x0a];
    let cut_short = vec![0x61, 0xe2, 0x82, 0x0a];
    for log in [overlong, surrogate, beyond_the_range, cut_short] {
        let mut driver = Driver::failing(&log);
        let failure = message(driver.run(VertexShader::from_cstr(b"bad")));
        assert_eq!(failure, "Failed to compile VERTEX_SHADER, info log cannot be parsed to UTF-8.");
    }
}

#[test]
fn logs_of_every_encoded_width_are_shown() {
    let mut driver = Driver::failing("a\u{e9}\u{20ac}\u{1f600}\n".as_bytes());
    let failure = message(driver.run(VertexShader::from_cstr(b"bad")));
    assert_eq!(failure, "Failed to compile VERTEX_SHADER: a\u{e9}\u{20ac}\u{1f600}");
    assert_eq!(failure.chars().count(), "Failed to compile VERTEX_SHADER: ".len() + 4);
}

#[test]
fn compile_failure_with_a_log_beyond_ascii() {
    let mut driver = Driver::failing("erreur près de «main»\n".as_bytes());
    let failure = message(driver.run(TessControlShader::from_cstr(b"bad")));
    assert_eq!(failure, "Failed to compile TESS_CONTROL_SHADER: erreur près de «main»");
}

#[test]
fn repeated_failing_compiles_leak_nothing() {
    let mut driver = Driver::failing(b"0:1: syntax error\n");
    for round in 1..=1000u32 {
        let failure = message(driver.run(VertexShader::from_cstr(b"bad")));
        assert!(!failure.is_empty());
        assert!(driver.shaders.is_empty());
        assert_eq!(driver.deleted.len() as u32, round);
    }
}

#[test]
fn a_compile_refuses_replies_out_of_turn() {
    let compile = VertexShader::from_cstr(b"void main() {}");
    assert_eq!(compile.request(), Call::GetError);
    assert!(!compile.accepts(&Reply::Nothing));
    assert!(!compile.accepts(&Reply::Object(1)));
    assert!(!compile.accepts(&Reply::Value(1)));
    assert!(!compile.accepts(&Reply::Log(Vec::new())));
    assert!(compile.accepts(&Reply::Flag(0)));
    assert!(compile.accepts(&Reply::Flag(0x0502)));
}

fn compile_until(status: i32) -> Compile<VertexShader> {
    let mut compile = VertexShader::from_cstr(b"void main() {}");
    let replies = vec![
        Reply::Flag(0),
        Reply::Object(9),
        Reply::Nothing,
        Reply::Nothing,
        Reply::Value(status),
    ];
    for reply in replies {
        assert!(compile.accepts(&reply));
        compile = match compile.resume(reply) {
            Progress::Next(next) => next,
            Progress::Done(_) => panic!("the compile ended early"),
        };
    }
    compile
}

#[test]
fn a_compile_checks_that_the_error_flag_is_clean() {
    let compile = compile_until(1);
    assert_eq!(compile.request(), Call::GetError);
    assert!(!compile.accepts(&Reply::Flag(0x0502)));
    assert!(compile.accepts(&Reply::Flag(0)));
    match compile.resume(Reply::Flag(0)) {
        Progress::Done(Ok(shader)) => assert_eq!(shader.get_id(), 9),
        _ => panic!("the compile should have ended with the shader"),
    }
}

#[test]
fn a_compile_refuses_a_negative_log_length() {
    let compile = compile_until(0);
    assert_eq!(compile.request(), Call::GetShaderiv { shader: 9, pname: 0x8B84 });
    assert!(!compile.accepts(&Reply::Value(-1)));
    assert!(compile.accepts(&Reply::Value(0)));
    assert!(compile.accepts(&Reply::Value(1)));
    match compile.resume(Reply::Value(1)) {
        Progress::Next(next) => {
            assert_eq!(next.request(), Call::GetShaderInfoLog { shader: 9, capacity: 0 })
        }
        Progress::Done(_) => panic!("the compile ended early"),
    }
}

#[test]
fn an_empty_log_gives_a_message_that_ends_after_the_colon() {
    let mut compile = compile_until(0);
    for reply in vec![Reply::Value(1), Reply::Log(Vec::new()), Reply::Nothing] {
        compile = match compile.resume(reply) {
            Progress::Next(next) => next,
            Progress::Done(_) => panic!("the compile ended early"),
        };
    }
    match compile.resume(Reply::Flag(0)) {
        Progress::Done(Err(failure)) => assert_eq!(failure, "Failed to compile VERTEX_SHADER: "),
        _ => panic!("the compile should have failed"),
    }
}

#[test]
fn the_source_length_is_passed_on() {
    let source = vec![b' '; 70000];
    let mut driver = Driver::new();
    driver.run(VertexShader::from_cstr(&source)).unwrap();
    assert_eq!(driver.calls[2], Call::ShaderSource { shader: 1, length: 70000 });
}

#[test]
fn wrapping_an_identifier_checks_nothing() {
    assert_eq!(VertexShader::from_id(7).get_id(), 7);
    assert_eq!(TessControlShader::from_id(0).get_id(), 0);
    assert_eq!(TessEvaluationShader::from_id(u32::MAX).get_id(), u32::MAX);
    assert_eq!(GeometryShader::from_id(12).get_id(), 12);
    assert_eq!(FragmentShader::from_id(13).get_id(), 13);
}

#[test]
fn releasing_a_handle_deletes_its_object() {
    assert_eq!(VertexShader::from_id(7).release(), Call::DeleteShader { shader: 7 });
    assert_eq!(TessControlShader::from_id(8).release(), Call::DeleteShader { shader: 8 });
    assert_eq!(TessEvaluationShader::from_id(9).release(), Call::DeleteShader { shader: 9 });
    assert_eq!(GeometryShader::from_id(10).release(), Call::DeleteShader { shader: 10 });
    assert_eq!(FragmentShader::from_id(11).release(), Call::DeleteShader { shader: 11 });
    let mut driver = Driver::new();
    let program = program(&mut driver);
    assert_eq!(program.get_id(), 3);
    assert_eq!(program.release(), Call::DeleteProgram { program: 3 });
}

#[test]
fn construct_and_release_cycles_do_not_grow() {
    let mut driver = Driver::new();
    for round in 1..=1200u32 {
        let vertex = vertex(&mut driver);
        let fragment = fragment(&mut driver);
        let program = driver.run(Program::new(&vertex, &fragment, None)).unwrap();
        assert_eq!(driver.shaders.len(), 2);
        assert_eq!(driver.programs.len(), 1);
        let ids = vec![program.get_id(), vertex.get_id(), fragment.get_id()];
        driver.perform(program.release());
        driver.perform(vertex.release());
        driver.perform(fragment.release());
        assert!(driver.shaders.is_empty());
        assert!(driver.programs.is_empty());
        assert!(driver.attached.is_empty());
        assert_eq!(driver.deleted.len() as u32, 3 * round);
        assert_eq!(driver.deleted[driver.deleted.len() - 3..], ids[..]);
    }
    let mut deleted = driver.deleted.clone();
    deleted.sort();
    deleted.dedup();
    assert_eq!(deleted.len(), driver.deleted.len());
}

#[test]
fn link_success_attaches_links_and_detaches() {
    let mut driver = Driver::new();
    let vertex = vertex(&mut driver);
    let fragment = fragment(&mut driver);
    driver.calls.clear();
    driver.error = 0x0501;
    let program = driver.run(Program::new(&vertex, &fragment, None)).unwrap();
    assert_eq!(program.get_id(), 3);
    assert_eq!(
        driver.calls,
        vec![
            Call::GetError,
            Call::CreateProgram,
            Call::AttachShader { program: 3, shader: 1 },
            Call::AttachShader { program: 3, shader: 2 },
            Call::LinkProgram { program: 3 },
            Call::DetachShader { program: 3, shader: 1 },
            Call::DetachShader { program: 3, shader: 2 },
            Call::GetProgramiv { program: 3, pname: 0x8B82 },
            Call::GetError,
        ]
    );
    assert!(driver.attached.is_empty());
    assert_eq!(driver.programs, vec![3]);
    assert_eq!(driver.shaders, vec![1, 2]);
}

#[test]
fn a_link_never_hands_out_the_identifier_zero() {
    let vertex = VertexShader::from_id(1);
    let fragment = FragmentShader::from_id(2);
    let link = Program::new(&vertex, &fragment, None);
    let link = match link.resume(Reply::Flag(0)) {
        Progress::Next(next) => next,
        Progress::Done(_) => panic!("the link ended early"),
    };
    assert_eq!(link.request(), Call::CreateProgram);
    match link.resume(Reply::Object(0)) {
        Progress::Done(Err(failure)) => assert_eq!(failure, "OpenGL failed to create program object."),
        _ => panic!("the link should have failed"),
    }
    let mut driver = Driver::new();
    for _ in 0..50 {
        assert_ne!(program(&mut driver).get_id(), 0);
    }
}

#[test]
fn link_with_a_geometry_shader() {
    let mut driver = Driver::new();
    let vertex = vertex(&mut driver);
    let fragment = fragment(&mut driver);
    let geometry = driver.run(GeometryShader::from_cstr(b"void main() {}")).unwrap();
    driver.calls.clear();
    let program = driver.run(Program::new(&vertex, &fragment, Some(&geometry))).unwrap();
    assert_eq!(program.get_id(), 4);
    assert_eq!(
        driver.calls,
        vec![
            Call::GetError,
            Call::CreateProgram,
            Call::AttachShader { program: 4, shader: 1 },
            Call::AttachShader { program: 4, shader: 2 },
            Call::AttachShader { program: 4, shader: 3 },
            Call::LinkProgram { program: 4 },
            Call::DetachShader { program: 4, shader: 1 },
            Call::DetachShader { program: 4, shader: 2 },
            Call::DetachShader { program: 4, shader: 3 },
            Call::GetProgramiv { program: 4, pname: 0x8B82 },
            Call::GetError,
        ]
    );
    assert!(driver.attached.is_empty());
}

#[test]
fn shaders_can_be_linked_into_a_second_program() {
    let mut driver = Driver::new();
    let vertex = vertex(&mut driver);
    let fragment = fragment(&mut driver);
    let other = fragment_with(&mut driver, b"void main() { discard; }");
    let first = driver.run(Program::new(&vertex, &fragment, None)).unwrap();
    let second = driver.run(Program::new(&vertex, &other, None)).unwrap();
    assert_ne!(first.get_id(), second.get_id());
    assert_eq!(vertex.get_id(), 1);
    assert_eq!(fragment.get_id(), 2);
    assert_eq!(driver.shaders, vec![1, 2, 3]);
    assert!(driver.attached.is_empty());
    assert!(driver.deleted.is_empty());
}

fn fragment_with(driver: &mut Driver, source: &[u8]) -> FragmentShader {
    driver.run(FragmentShader::from_cstr(source)).unwrap()
}

#[test]
fn link_without_an_object_fails_at_once() {
    let mut driver = Driver::new();
    let vertex = vertex(&mut driver);
    let fragment = fragment(&mut driver);
    driver.calls.clear();
    driver.out_of_objects = true;
    let failure = message(driver.run(Program::new(&vertex, &fragment, None)));
    assert_eq!(failure, "OpenGL failed to create program object.");
    assert_eq!(driver.calls, vec![Call::GetError, Call::CreateProgram]);
}

#[test]
fn link_failure_without_log() {
    let mut driver = Driver::new();
    let vertex = vertex(&mut driver);
    let fragment = fragment(&mut driver);
    driver.calls.clear();
    driver.status = 0;
    let failure = message(driver.run(Program::new(&vertex, &fragment, None)));
    assert_eq!(failure, "Failed to link program, no info log available.");
    assert_eq!(
        driver.calls,
        vec![
            Call::GetError,
            Call::CreateProgram,
            Call::AttachShader { program: 3, shader: 1 },
            Call::AttachShader { program: 3, shader: 2 },
            Call::LinkProgram { program: 3 },
            Call::DetachShader { program: 3, shader: 1 },
            Call::DetachShader { program: 3, shader: 2 },
            Call::GetProgramiv { program: 3, pname: 0x8B82 },
            Call::GetProgramiv { program: 3, pname: 0x8B84 },
            Call::DeleteProgram { program: 3 },
            Call::GetError,
        ]
    );
    assert!(driver.programs.is_empty());
    assert_eq!(driver.deleted, vec![3]);
    assert_eq!(driver.shaders, vec![1, 2]);
}

#[test]
fn link_failure_with_log_keeps_the_shaders_usable() {
    let mut driver = Driver::new();
    let vertex = vertex(&mut driver);
    let fragment = fragment(&mut driver);
    let geometry = driver.run(GeometryShader::from_cstr(b"void main() {}")).unwrap();
    driver.calls.clear();
    driver.status = 0;
    driver.log = b"error: texCoord not written by vertex shader\n".to_vec();
    let failure = message(driver.run(Program::new(&vertex, &fragment, Some(&geometry))));
    assert_eq!(failure, "Failed to link program: error: texCoord not written by vertex shader");
    assert_eq!(
        driver.calls[9..],
        [
            Call::GetProgramiv { program: 4, pname: 0x8B82 },
            Call::GetProgramiv { program: 4, pname: 0x8B84 },
            Call::GetProgramInfoLog { program: 4, capacity: 45 },
            Call::DeleteProgram { program: 4 },
            Call::GetError,
        ]
    );
    assert!(driver.programs.is_empty());
    assert!(driver.attached.is_empty());
    assert_eq!(driver.deleted, vec![4]);
    assert_eq!(driver.shaders, vec![1, 2, 3]);
    driver.status = 1;
    driver.log.clear();
    let program = driver.run(Program::new(&vertex, &fragment, Some(&geometry))).unwrap();
    assert_eq!(program.get_id(), 5);
}

#[test]
fn link_failure_with_a_log_that_is_no_text() {
    let mut driver = Driver::new();
    let vertex = vertex(&mut driver);
    let fragment = fragment(&mut driver);
    driver.status = 0;
    driver.log = vec![0xc3, 0x28, 0x0a];
    let failure = message(driver.run(Program::new(&vertex, &fragment, None)));
    assert_eq!(failure, "Failed to link program, info log cannot be parsed to UTF-8.");
    assert!(driver.programs.is_empty());
}

#[test]
fn a_link_refuses_replies_out_of_turn() {
    let vertex = VertexShader::from_id(1);
    let fragment = FragmentShader::from_id(2);
    let mut link: Link = Program::new(&vertex, &fragment, None);
    assert!(!link.accepts(&Reply::Object(3)));
    let replies = vec![
        Reply::Flag(0),
        Reply::Object(3),
        Reply::Nothing,
        Reply::Nothing,
        Reply::Nothing,
        Reply::Nothing,
        Reply::Nothing,
        Reply::Value(0),
    ];
    for reply in replies {
        assert!(link.accepts(&reply));
        link = match link.resume(reply) {
            Progress::Next(next) => next,
            Progress::Done(_) => panic!("the link ended early"),
        };
    }
    assert_eq!(link.request(), Call::GetProgramiv { program: 3, pname: 0x8B84 });
    assert!(!link.accepts(&Reply::Value(-5)));
    assert!(!link.accepts(&Reply::Flag(0)));
    assert!(link.accepts(&Reply::Value(0)));
    let mut link = match link.resume(Reply::Value(0)) {
        Progress::Next(next) => next,
        Progress::Done(_) => panic!("the link ended early"),
    };
    assert_eq!(link.request(), Call::DeleteProgram { program: 3 });
    link = match link.resume(Reply::Nothing) {
        Progress::Next(next) => next,
        Progress::Done(_) => panic!("the link ended early"),
    };
    assert!(!link.accepts(&Reply::Flag(0x0505)));
    assert!(link.accepts(&Reply::Flag(0)));
}

#[test]
fn activating_and_deactivating() {
    let mut driver = Driver::new();
    let program = program(&mut driver);
    assert_eq!(program.use_program(), Call::UseProgram { program: 3 });
    assert_eq!(Program::unset_program(), Call::UseProgram { program: 0 });
}

#[test]
fn a_uniform_with_an_unknown_name() {
    let mut driver = Driver::new();
    let program = program(&mut driver);
    driver.location = -1;
    let failure = message(driver.run(program.set_1f("\"missing\"", "0.5")));
    assert_eq!(failure, "Invalid uniform name: \"missing\"");
    assert_eq!(driver.calls, vec![Call::GetUniformLocation { program: 3 }]);
}

#[test]
fn a_uniform_value_that_the_driver_rejects() {
    let mut driver = Driver::new();
    let program = program(&mut driver);
    driver.upload_error = 0x0502;
    let shown = "Matrix4 [[1.0, 0.0, 0.0, 0.0], [0.0, 1.0, 0.0, 0.0], [0.0, 0.0, 1.0, 0.0], [0.0, 0.0, 0.0, 1.0]]";
    let failure = message(driver.run(program.set_matrix4f("\"brightness\"", shown)));
    assert_eq!(failure, format!("Invalid uniform value: {shown}"));
    assert_eq!(
        driver.calls,
        vec![
            Call::GetUniformLocation { program: 3 },
            Call::GetError,
            Call::UniformMatrix4fv { location: 3, count: 1, transpose: gl::FALSE },
            Call::GetError,
        ]
    );
}

#[test]
fn a_stale_error_does_not_fail_a_uniform() {
    let mut driver = Driver::new();
    let program = program(&mut driver);
    driver.error = 0x0501;
    driver.location = 0;
    assert_eq!(driver.run(program.set_2f("\"offset\"", "[0.25, 0.75]")), Ok(()));
    assert_eq!(
        driver.calls,
        vec![
            Call::GetUniformLocation { program: 3 },
            Call::GetError,
            Call::Uniform2f { location: 0 },
            Call::GetError,
        ]
    );
}

fn upload_of(uniform: Uniform) -> Call {
    let mut driver = Driver::new();
    driver.location = 11;
    assert_eq!(driver.run(uniform), Ok(()));
    driver.calls[2]
}

#[test]
fn each_setter_uploads_its_own_shape() {
    let mut driver = Driver::new();
    let program = program(&mut driver);
    assert_eq!(upload_of(program.set_1f("\"a\"", "1.0")), Call::Uniform1f { location: 11 });
    assert_eq!(upload_of(program.set_1i("\"b\"", 4)), Call::Uniform1i { location: 11, value: 4 });
    assert_eq!(upload_of(program.set_2f("\"c\"", "[1.0, 2.0]")), Call::Uniform2f { location: 11 });
    assert_eq!(upload_of(program.set_3f("\"d\"", "[1.0, 2.0, 3.0]")), Call::Uniform3f { location: 11 });
    assert_eq!(
        upload_of(program.set_4f("\"e\"", "[1.0, 2.0, 3.0, 4.0]")),
        Call::Uniform4f { location: 11 }
    );
    assert_eq!(
        upload_of(program.set_matrix4f("\"f\"", "Matrix4 []")),
        Call::UniformMatrix4fv { location: 11, count: 1, transpose: 0 }
    );
}

#[test]
fn each_float_setter_reports_the_value_as_shown() {
    let mut driver = Driver::new();
    let program = program(&mut driver);
    driver.upload_error = 0x0502;
    assert_eq!(message(driver.run(program.set_1f("\"a\"", "0.5"))), "Invalid uniform value: 0.5");
    assert_eq!(
        message(driver.run(program.set_2f("\"a\"", "[0.5, 1.0]"))),
        "Invalid uniform value: [0.5, 1.0]"
    );
    assert_eq!(
        message(driver.run(program.set_3f("\"a\"", "[0.5, 1.0, 1.5]"))),
        "Invalid uniform value: [0.5, 1.0, 1.5]"
    );
    assert_eq!(
        message(driver.run(program.set_4f("\"a\"", "[0.5, 1.0, 1.5, 2.0]"))),
        "Invalid uniform value: [0.5, 1.0, 1.5, 2.0]"
    );
}

#[test]
fn an_integer_uniform_is_shown_in_decimal() {
    let mut driver = Driver::new();
    let program = program(&mut driver);
    driver.upload_error = 0x0502;
    assert_eq!(message(driver.run(program.set_1i("\"count\"", 42))), "Invalid uniform value: 42");
    assert_eq!(message(driver.run(program.set_1i("\"count\"", -7))), "Invalid uniform value: -7");
    assert_eq!(
        message(driver.run(program.set_1i("\"count\"", i32::MIN))),
        "Invalid uniform value: -2147483648"
    );
}

#[test]
fn decimal_text_agrees_with_the_standard_formatting() {
    for value in [0, 1, 9, 10, 11, 99, 100, 101, 4096, -1, -9, -10, -100, 1_000_000_007, i32::MAX, i32::MIN] {
        assert_eq!(decimal_text(value), format!("{value:?}"));
    }
    assert_eq!(decimal_text(0), "0");
    assert_eq!(decimal_text(-120), "-120");
    assert_eq!(decimal_text(2147483647), "2147483647");
}

#[test]
fn reading_a_location() {
    assert_eq!(Program::get_location("\"tint\"", 0), Ok(0));
    assert_eq!(Program::get_location("\"tint\"", 17), Ok(17));
    assert_eq!(Program::get_location("\"tint\"", -2), Ok(-2));
    assert_eq!(
        Program::get_location("\"tint\"", -1),
        Err(String::from("Invalid uniform name: \"tint\""))
    );
}

#[test]
fn a_uniform_refuses_replies_out_of_turn() {
    let mut driver = Driver::new();
    let program = program(&mut driver);
    let uniform = program.set_1i("\"count\"", 1);
    assert_eq!(uniform.request(), Call::GetUniformLocation { program: 3 });
    assert!(!uniform.accepts(&Reply::Flag(0)));
    assert!(!uniform.accepts(&Reply::Nothing));
    assert!(uniform.accepts(&Reply::Value(-1)));
    assert!(uniform.accepts(&Reply::Value(5)));
}

#[test]
fn replies_answer_requests_by_kind() {
    assert!(Call::GetError.answered_by(&Reply::Flag(0)));
    assert!(!Call::GetError.answered_by(&Reply::Nothing));
    assert!(Call::CreateProgram.answered_by(&Reply::Object(0)));
    assert!(Call::CreateShader { kind: 0x8B31 }.answered_by(&Reply::Object(4)));
    assert!(Call::GetShaderiv { shader: 1, pname: 0x8B81 }.answered_by(&Reply::Value(1)));
    assert!(Call::GetProgramiv { program: 1, pname: 0x8B82 }.answered_by(&Reply::Value(0)));
    assert!(Call::GetUniformLocation { program: 1 }.answered_by(&Reply::Value(-1)));
    assert!(Call::GetShaderInfoLog { shader: 1, capacity: 4 }.answered_by(&Reply::Log(vec![1])));
    assert!(Call::GetProgramInfoLog { program: 1, capacity: 4 }.answered_by(&Reply::Log(vec![])));
    assert!(Call::UseProgram { program: 1 }.answered_by(&Reply::Nothing));
    assert!(Call::DeleteShader { shader: 1 }.answered_by(&Reply::Nothing));
    assert!(!Call::DeleteProgram { program: 1 }.answered_by(&Reply::Flag(0)));
    assert!(!Call::Uniform1f { location: 1 }.answered_by(&Reply::Value(0)));
}

#[test]
fn requests_tell_what_their_performer_supplies() {
    assert_eq!(Call::Uniform1f { location: 0 }.floats(), 1);
    assert_eq!(Call::Uniform2f { location: 0 }.floats(), 2);
    assert_eq!(Call::Uniform3f { location: 0 }.floats(), 3);
    assert_eq!(Call::Uniform4f { location: 0 }.floats(), 4);
    assert_eq!(Call::UniformMatrix4fv { location: 0, count: 1, transpose: 0 }.floats(), 16);
    assert_eq!(Call::UniformMatrix4fv { location: 0, count: 3, transpose: 0 }.floats(), 48);
    assert_eq!(Call::UniformMatrix4fv { location: 0, count: 0, transpose: 0 }.floats(), 0);
    assert_eq!(Call::UniformMatrix4fv { location: 0, count: -2, transpose: 0 }.floats(), 0);
    assert_eq!(
        Call::UniformMatrix4fv { location: 0, count: i32::MAX, transpose: 0 }.floats(),
        34359738352
    );
    assert_eq!(Call::Uniform1i { location: 0, value: 9 }.floats(), 0);
    assert_eq!(Call::GetError.floats(), 0);
    assert!(Call::ShaderSource { shader: 1, length: 3 }.needs_text());
    assert!(Call::GetUniformLocation { program: 1 }.needs_text());
    assert!(!Call::CompileShader { shader: 1 }.needs_text());
    assert!(!Call::Uniform1f { location: 0 }.needs_text());
}
