use avocet::shader::{
    failure_message, log_text_len, BuildError, BuildPhase, BuildStep, DriverReply, ProgramBuilder,
    Resource, ResourceKind, ShaderProgram, ShaderStage,
};

const IDENTITY_VERT: &str = "#version 330 core\nlayout (location = 0) in vec3 aPos;\nvoid main() {\n    gl_Position = vec4(aPos, 1.0);\n}\n";
const MONOCHROME_FRAG: &str = "#version 330 core\nout vec4 FragColor;\nvoid main() {\n    FragColor = vec4(1.0, 0.5, 0.2, 1.0);\n}\n";
const BROKEN_IDENTITY_VERT: &str = "#version 330 core\nlayout (location = 0) in vec3 aPos;\nvoid main() {\n    gl_Position = vec4(aPos, 1.0)\n";
const BROKEN_MONOCHROME_FRAG: &str = "#version 330 core\nout vec4 FragColor;\nvoid main() {\n    FragColor = vec4(1.0, 0.5, 0.2, 1.0)\n";

/// A stand-in for the graphics driver that records every object's lifetime.
struct FakeDriver {
    vertex_source: Option<&'static str>,
    fragment_source: Option<&'static str>,
    link_succeeds: bool,
    next_handle: u32,
    compiled: Vec<(u32, bool)>,
    live: Vec<Resource>,
    created: Vec<Resource>,
    deleted: Vec<Resource>,
    attached: Vec<(u32, u32)>,
    attach_calls: usize,
    detach_calls: usize,
}

impl FakeDriver {
    fn new(vertex_source: Option<&'static str>, fragment_source: Option<&'static str>) -> Self {
        FakeDriver {
            vertex_source,
            fragment_source,
            link_succeeds: true,
            next_handle: 1,
            compiled: Vec::new(),
            live: Vec::new(),
            created: Vec::new(),
            deleted: Vec::new(),
            attached: Vec::new(),
            attach_calls: 0,
            detach_calls: 0,
        }
    }

    fn create(&mut self, kind: ResourceKind) -> u32 {
        let handle = self.next_handle;
        self.next_handle += 1;
        let r = Resource { kind, handle };
        self.live.push(r);
        self.created.push(r);
        handle
    }

    fn delete(&mut self, r: Resource) {
        let at = self.live.iter().position(|x| *x == r).expect("deleted an object that is not live");
        self.live.remove(at);
        self.deleted.push(r);
    }

    fn compiles(source: &str) -> bool {
        source.starts_with("#version") && source.matches('{').count() == source.matches('}').count()
    }

    fn answer(&mut self, step: &BuildStep) -> DriverReply {
        match step {
            BuildStep::ReadSource(stage) => {
                let source = match stage {
                    ShaderStage::Vertex => self.vertex_source,
                    ShaderStage::Fragment => self.fragment_source,
                };
                match source {
                    Some(text) => DriverReply::Source(text.to_string()),
                    None => DriverReply::SourceMissing,
                }
            }
            BuildStep::CreateShader(_) => DriverReply::Created(self.create(ResourceKind::Shader)),
            BuildStep::CompileShader(h, source) => {
                self.compiled.push((*h, Self::compiles(source)));
                DriverReply::Done
            }
            BuildStep::QueryCompileStatus(h) => {
                let ok = self.compiled.iter().any(|(x, ok)| x == h && *ok);
                DriverReply::Status(if ok { 1 } else { 0 })
            }
            BuildStep::FetchShaderLog(h) => {
                DriverReply::Log(format!("0:5(1): error: syntax error, unexpected end of file (shader {})", h))
            }
            BuildStep::CreateProgram => DriverReply::Created(self.create(ResourceKind::Program)),
            BuildStep::AttachShader(p, s) => {
                self.attach_calls += 1;
                self.attached.push((*p, *s));
                DriverReply::Done
            }
            BuildStep::LinkProgram(_) => DriverReply::Done,
            BuildStep::DetachShader(p, s) => {
                self.detach_calls += 1;
                let at = self.attached.iter().position(|x| *x == (*p, *s)).expect("detached a shader that is not attached");
                self.attached.remove(at);
                DriverReply::Done
            }
            BuildStep::QueryLinkStatus(_) => DriverReply::Status(if self.link_succeeds { 1 } else { 0 }),
            BuildStep::FetchProgramLog(_) => DriverReply::Log("error: linking failed: fragment output not written".to_string()),
            BuildStep::Release(r) => {
                self.delete(*r);
                DriverReply::Done
            }
            BuildStep::Finished(_) => panic!("a finished build asks for nothing"),
        }
    }
}

fn build(driver: &mut FakeDriver) -> Result<ShaderProgram, BuildError> {
    let (mut builder, mut step) = ProgramBuilder::begin();
    loop {
        if let BuildStep::Finished(outcome) = step {
            assert_eq!(builder.current_phase(), BuildPhase::Finished);
            return outcome;
        }
        let reply = driver.answer(&step);
        assert!(builder.accepts(&reply));
        step = builder.step(reply);
    }
}

fn missing_vertex_shader() {
    let mut driver = FakeDriver::new(None, Some(MONOCHROME_FRAG));
    let result = build(&mut driver);
    assert!(result.is_err());
    assert!(result.unwrap_err().is_not_found());
}

fn missing_fragment_shader() {
    let mut driver = FakeDriver::new(Some(IDENTITY_VERT), None);
    let result = build(&mut driver);
    assert!(result.is_err());
    assert!(result.unwrap_err().is_not_found());
}

fn broken_vertex_shader() {
    let mut driver = FakeDriver::new(Some(BROKEN_IDENTITY_VERT), Some(MONOCHROME_FRAG));
    let result = build(&mut driver);
    assert!(result.is_err());
    assert!(matches!(result.unwrap_err(), BuildError::CompileFailed(ShaderStage::Vertex, _)));
}

fn broken_fragment_shader() {
    let mut driver = FakeDriver::new(Some(IDENTITY_VERT), Some(BROKEN_MONOCHROME_FRAG));
    let result = build(&mut driver);
    assert!(result.is_err());
    assert!(matches!(result.unwrap_err(), BuildError::CompileFailed(ShaderStage::Fragment, _)));
}

#[test]
fn shader_program() {
    missing_vertex_shader();
    missing_fragment_shader();

    broken_vertex_shader();
    broken_fragment_shader();
}

#[test]
fn built_program_is_released_exactly_once() {
    let mut driver = FakeDriver::new(Some(IDENTITY_VERT), Some(MONOCHROME_FRAG));
    let program = build(&mut driver).expect("valid sources build");
    // Both shaders are gone, the program is the only live object.
    assert_eq!(driver.live, vec![Resource { kind: ResourceKind::Program, handle: 3 }]);
    assert_eq!(program.handle().index(), 3);
    assert_eq!(program.bind(), 3);
    let r = program.release();
    driver.delete(r);
    assert!(driver.live.is_empty());
    for c in &driver.created {
        assert_eq!(driver.deleted.iter().filter(|d| *d == c).count(), 1);
    }
    // Shaders are deleted newest first.
    assert_eq!(
        driver.deleted,
        vec![
            Resource { kind: ResourceKind::Shader, handle: 2 },
            Resource { kind: ResourceKind::Shader, handle: 1 },
            Resource { kind: ResourceKind::Program, handle: 3 },
        ]
    );
    assert_eq!(driver.attach_calls, 2);
    assert_eq!(driver.detach_calls, 2);
    assert!(driver.attached.is_empty());
}

#[test]
fn missing_source_leaves_nothing_allocated() {
    let mut driver = FakeDriver::new(None, Some(MONOCHROME_FRAG));
    let err = build(&mut driver).unwrap_err();
    assert!(matches!(err, BuildError::SourceNotFound(ShaderStage::Vertex)));
    assert!(driver.created.is_empty());

    let mut driver = FakeDriver::new(Some(IDENTITY_VERT), None);
    let err = build(&mut driver).unwrap_err();
    assert!(matches!(err, BuildError::SourceNotFound(ShaderStage::Fragment)));
    assert_eq!(driver.created.len(), 1);
    assert!(driver.live.is_empty());
    assert_eq!(err.message(), "Fragment shader source not found");
}

#[test]
fn unreadable_source_is_not_a_missing_one() {
    let (mut builder, step) = ProgramBuilder::begin();
    assert!(matches!(step, BuildStep::ReadSource(ShaderStage::Vertex)));
    let step = builder.step(DriverReply::SourceUnreadable);
    match step {
        BuildStep::Finished(Err(e)) => {
            assert!(!e.is_not_found());
            assert_eq!(e.message(), "Vertex shader source unreadable");
        }
        _ => panic!("expected the build to end"),
    }
}

#[test]
fn broken_source_reports_compilation_and_releases_shader() {
    let mut driver = FakeDriver::new(Some(BROKEN_IDENTITY_VERT), Some(MONOCHROME_FRAG));
    let err = build(&mut driver).unwrap_err();
    let message = err.message();
    assert!(message.contains("compilation"));
    assert_eq!(
        message,
        "Error shader compilation failed:\n0:5(1): error: syntax error, unexpected end of file (shader 1)"
    );
    assert_eq!(driver.created.len(), 1);
    assert!(driver.live.is_empty());
    assert_eq!(driver.deleted, driver.created);
}

#[test]
fn broken_fragment_releases_both_shaders() {
    let mut driver = FakeDriver::new(Some(IDENTITY_VERT), Some(BROKEN_MONOCHROME_FRAG));
    let err = build(&mut driver).unwrap_err();
    assert!(err.message().contains("compilation"));
    assert_eq!(driver.created.len(), 2);
    assert!(driver.live.is_empty());
    assert_eq!(
        driver.deleted,
        vec![
            Resource { kind: ResourceKind::Shader, handle: 2 },
            Resource { kind: ResourceKind::Shader, handle: 1 },
        ]
    );
}

#[test]
fn failed_link_releases_program_and_shaders() {
    let mut driver = FakeDriver::new(Some(IDENTITY_VERT), Some(MONOCHROME_FRAG));
    driver.link_succeeds = false;
    let err = build(&mut driver).unwrap_err();
    let message = err.message();
    assert!(message.contains("linking"));
    assert_eq!(message, "Error program linking failed:\nerror: linking failed: fragment output not written");
    assert!(driver.live.is_empty());
    assert!(driver.attached.is_empty());
    assert_eq!(
        driver.deleted,
        vec![
            Resource { kind: ResourceKind::Program, handle: 3 },
            Resource { kind: ResourceKind::Shader, handle: 2 },
            Resource { kind: ResourceKind::Shader, handle: 1 },
        ]
    );
}

#[test]
fn build_asks_for_the_documented_sequence() {
    let mut driver = FakeDriver::new(Some(IDENTITY_VERT), Some(MONOCHROME_FRAG));
    let (mut builder, mut step) = ProgramBuilder::begin();
    let mut trace = Vec::new();
    loop {
        trace.push(format!("{:?}", step).split('(').next().unwrap().to_string());
        if let BuildStep::Finished(_) = step {
            break;
        }
        let reply = driver.answer(&step);
        step = builder.step(reply);
    }
    assert_eq!(
        trace,
        vec![
            "ReadSource", "CreateShader", "CompileShader", "QueryCompileStatus",
            "ReadSource", "CreateShader", "CompileShader", "QueryCompileStatus",
            "CreateProgram", "AttachShader", "AttachShader", "LinkProgram",
            "DetachShader", "DetachShader", "QueryLinkStatus", "Release", "Release", "Finished",
        ]
    );
}

#[test]
fn builder_rejects_mismatched_replies() {
    let (builder, _) = ProgramBuilder::begin();
    assert!(builder.accepts(&DriverReply::Source(String::new())));
    assert!(builder.accepts(&DriverReply::SourceMissing));
    assert!(!builder.accepts(&DriverReply::Done));
    assert!(!builder.accepts(&DriverReply::Created(4)));
    assert!(!builder.accepts(&DriverReply::Status(1)));
}

#[test]
fn failure_message_names_kind_and_stage() {
    assert_eq!(failure_message(ResourceKind::Shader, "bad"), "Error shader compilation failed:\nbad");
    assert_eq!(failure_message(ResourceKind::Program, ""), "Error program linking failed:\n");
}

#[test]
fn info_log_text_stops_at_nul() {
    assert_eq!(log_text_len(b"error\0\0"), 5);
    assert_eq!(log_text_len(b"no terminator"), 13);
    assert_eq!(log_text_len(b""), 0);
    assert_eq!(log_text_len(b"\0"), 0);
}
