use vstd::prelude::*;
use vstd::string::StringExecFns;
use vstd::multiset::lemma_multiset_empty_len;
use vstd::pervasive::unreached;

verus! {

broadcast use vstd::seq_lib::group_to_multiset_ensures;

/// The programmable stages a shader program is built from.
#[derive(Debug, Clone, Copy, PartialEq, Eq, Structural)]
pub enum ShaderStage {
    Vertex,
    Fragment,
}

/// The kinds of driver object the build pipeline creates.
#[derive(Debug, Clone, Copy, PartialEq, Eq, Structural)]
pub enum ResourceKind {
    Shader,
    Program,
}

/// A driver object: its kind and the handle the driver assigned to it.
#[derive(Debug, Clone, Copy, PartialEq, Eq, Structural)]
pub struct Resource {
    pub kind: ResourceKind,
    pub handle: u32,
}

/// The name a build failure gives a resource kind.
pub open spec fn spec_kind_name(kind: ResourceKind) -> Seq<char> {
    match kind {
        ResourceKind::Shader => "shader"@,
        ResourceKind::Program => "program"@,
    }
}

/// The build stage that can fail for a resource kind.
pub open spec fn spec_build_stage(kind: ResourceKind) -> Seq<char> {
    match kind {
        ResourceKind::Shader => "compilation"@,
        ResourceKind::Program => "linking"@,
    }
}

/// The diagnostic of a failed compilation or link, carrying the driver's log.
pub open spec fn spec_failure_message(kind: ResourceKind, log: Seq<char>) -> Seq<char> {
    "Error "@ + spec_kind_name(kind) + " "@ + spec_build_stage(kind) + " failed:\n"@ + log
}

pub open spec fn spec_stage_name(stage: ShaderStage) -> Seq<char> {
    match stage {
        ShaderStage::Vertex => "Vertex"@,
        ShaderStage::Fragment => "Fragment"@,
    }
}

impl ResourceKind {
    pub fn name(&self) -> (r: String)
        ensures
            r@ == spec_kind_name(*self),
    {
        match self {
            ResourceKind::Shader => String::from_str("shader"),
            ResourceKind::Program => String::from_str("program"),
        }
    }

    pub fn build_stage(&self) -> (r: String)
        ensures
            r@ == spec_build_stage(*self),
    {
        match self {
            ResourceKind::Shader => String::from_str("compilation"),
            ResourceKind::Program => String::from_str("linking"),
        }
    }
}

impl ShaderStage {
    pub fn name(&self) -> (r: String)
        ensures
            r@ == spec_stage_name(*self),
    {
        match self {
            ShaderStage::Vertex => String::from_str("Vertex"),
            ShaderStage::Fragment => String::from_str("Fragment"),
        }
    }
}

/// Builds the diagnostic for a failed compilation or link.
pub fn failure_message(kind: ResourceKind, log: &str) -> (r: String)
    ensures
        r@ == spec_failure_message(kind, log@),
{
    let mut message = String::from_str("Error ");
    message.append(kind.name().as_str());
    message.append(" ");
    message.append(kind.build_stage().as_str());
    message.append(" failed:\n");
    message.append(log);
    message
}

/// Why building a shader program failed, as a value of the model.
pub enum BuildFailure {
    SourceNotFound(ShaderStage),
    SourceUnreadable(ShaderStage),
    CompileFailed(ShaderStage, Seq<char>),
    LinkFailed(Seq<char>),
}

/// Why building a shader program failed.
#[derive(Debug)]
pub enum BuildError {
    /// The stage's source file does not exist.
    SourceNotFound(ShaderStage),
    /// The stage's source file exists but could not be read as text.
    SourceUnreadable(ShaderStage),
    /// The stage's shader did not compile; the driver's log is attached.
    CompileFailed(ShaderStage, String),
    /// The program did not link; the driver's log is attached.
    LinkFailed(String),
}

impl View for BuildError {
    type V = BuildFailure;

    open spec fn view(&self) -> BuildFailure {
        match self {
            BuildError::SourceNotFound(s) => BuildFailure::SourceNotFound(*s),
            BuildError::SourceUnreadable(s) => BuildFailure::SourceUnreadable(*s),
            BuildError::CompileFailed(s, log) => BuildFailure::CompileFailed(*s, log@),
            BuildError::LinkFailed(log) => BuildFailure::LinkFailed(log@),
        }
    }
}

/// The text a build failure is reported with.
pub open spec fn spec_error_message(e: BuildFailure) -> Seq<char> {
    match e {
        BuildFailure::SourceNotFound(s) => spec_stage_name(s) + " shader source not found"@,
        BuildFailure::SourceUnreadable(s) => spec_stage_name(s) + " shader source unreadable"@,
        BuildFailure::CompileFailed(_, log) => spec_failure_message(ResourceKind::Shader, log),
        BuildFailure::LinkFailed(log) => spec_failure_message(ResourceKind::Program, log),
    }
}

impl BuildError {
    /// True when a source file was missing.
    pub fn is_not_found(&self) -> (r: bool)
        ensures
            r == (self@ is SourceNotFound),
    {
        match self {
            BuildError::SourceNotFound(_) => true,
            _ => false,
        }
    }

    /// The diagnostic for this failure.
    pub fn message(&self) -> (r: String)
        ensures
            r@ == spec_error_message(self@),
    {
        match self {
            BuildError::SourceNotFound(s) => {
                let mut m = s.name();
                m.append(" shader source not found");
                m
            },
            BuildError::SourceUnreadable(s) => {
                let mut m = s.name();
                m.append(" shader source unreadable");
                m
            },
            BuildError::CompileFailed(_, log) => failure_message(ResourceKind::Shader, log.as_str()),
            BuildError::LinkFailed(log) => failure_message(ResourceKind::Program, log.as_str()),
        }
    }
}

/// Where the build stage's name starts in a failure diagnostic.
pub open spec fn spec_stage_offset(kind: ResourceKind) -> int {
    7 + spec_kind_name(kind).len() as int
}

/// A diagnostic of a failed compilation names the stage "compilation", and
/// one of a failed link names it "linking".
pub proof fn lemma_failure_names_stage(kind: ResourceKind, log: Seq<char>)
    ensures
        spec_failure_message(kind, log).subrange(
            spec_stage_offset(kind),
            spec_stage_offset(kind) + spec_build_stage(kind).len(),
        ) == spec_build_stage(kind),
{
    reveal_strlit("Error ");
    reveal_strlit(" ");
    let m = spec_failure_message(kind, log);
    let start = spec_stage_offset(kind);
    let stage = spec_build_stage(kind);
    assert(m.subrange(start, start + stage.len()) =~= stage);
}

impl BuildError {
    /// A copy of this failure.
    pub fn duplicate(&self) -> (r: BuildError)
        ensures
            r@ == self@,
    {
        match self {
            BuildError::SourceNotFound(s) => BuildError::SourceNotFound(*s),
            BuildError::SourceUnreadable(s) => BuildError::SourceUnreadable(*s),
            BuildError::CompileFailed(s, log) => BuildError::CompileFailed(*s, log.clone()),
            BuildError::LinkFailed(log) => BuildError::LinkFailed(log.clone()),
        }
    }
}

/// Where the text of a fetched info log ends: the driver's reported log
/// length counts a terminating NUL byte, which is not part of the text.
pub fn log_text_len(buffer: &[u8]) -> (r: usize)
    ensures
        r <= buffer@.len(),
        forall|j: int| 0 <= j < r ==> buffer@[j] != 0,
        r < buffer@.len() ==> buffer@[r as int] == 0,
{
    let mut i: usize = 0;
    while i < buffer.len()
        invariant
            i <= buffer@.len(),
            forall|j: int| 0 <= j < i ==> buffer@[j] != 0,
        decreases buffer@.len() - i,
    {
        if buffer[i] == 0 {
            return i;
        }
        i = i + 1;
    }
    i
}

/// A driver-assigned identifier of a GPU object.
#[derive(Debug, PartialEq, Eq, Structural)]
pub struct ResourceHandle {
    index: u32,
}

impl ResourceHandle {
    pub closed spec fn spec_index(&self) -> u32 {
        self.index
    }

    #[verifier::when_used_as_spec(spec_index)]
    pub fn index(&self) -> (r: u32)
        ensures
            r == self.spec_index(),
    {
        self.index
    }
}

/// A linked shader program. It owns its driver object exclusively: it can
/// be moved but not copied, and `release` gives the object up once.
#[derive(Debug, PartialEq, Eq, Structural)]
pub struct ShaderProgram {
    handle: ResourceHandle,
}

impl ShaderProgram {
    pub fn handle(&self) -> (r: &ResourceHandle)
        ensures
            r.index() == self.spec_handle(),
    {
        &self.handle
    }

    /// The handle of the program object.
    pub closed spec fn spec_handle(&self) -> u32 {
        self.handle.index
    }

    /// The program to make current when drawing with it.
    pub fn bind(&self) -> (r: u32)
        ensures
            r == self.spec_handle(),
    {
        self.handle.index()
    }

    /// Gives up the program: the returned object is the one the driver
    /// must delete.
    pub fn release(self) -> (r: Resource)
        ensures
            r == program_resource(self.spec_handle()),
    {
        Resource { kind: ResourceKind::Program, handle: self.handle.index() }
    }
}

pub open spec fn shader_resource(h: u32) -> Resource {
    Resource { kind: ResourceKind::Shader, handle: h }
}

pub open spec fn program_resource(h: u32) -> Resource {
    Resource { kind: ResourceKind::Program, handle: h }
}

/// Where a program build stands: what it asked the driver for last.
#[derive(Debug, Clone, Copy, PartialEq, Eq, Structural)]
pub enum BuildPhase {
    ReadingSource(ShaderStage),
    CreatingShader(ShaderStage),
    Compiling(ShaderStage),
    CheckingCompile(ShaderStage),
    FetchingShaderLog(ShaderStage),
    CreatingProgram,
    AttachingVertex,
    AttachingFragment,
    Linking,
    DetachingFragment,
    DetachingVertex,
    CheckingLink,
    FetchingProgramLog,
    Releasing,
    Finished,
}

/// What the caller must do next for a program build.
#[derive(Debug)]
pub enum BuildStep {
    /// Read the stage's source text.
    ReadSource(ShaderStage),
    /// Create a shader object for the stage.
    CreateShader(ShaderStage),
    /// Attach the source text to the shader and compile it.
    CompileShader(u32, String),
    /// Query the shader's compile status flag.
    QueryCompileStatus(u32),
    /// Fetch the shader's info log.
    FetchShaderLog(u32),
    /// Create a program object.
    CreateProgram,
    /// Attach a shader (second) to the program (first).
    AttachShader(u32, u32),
    /// Link the program.
    LinkProgram(u32),
    /// Detach a shader (second) from the program (first).
    DetachShader(u32, u32),
    /// Query the program's link status flag.
    QueryLinkStatus(u32),
    /// Fetch the program's info log.
    FetchProgramLog(u32),
    /// Delete the driver object.
    Release(Resource),
    /// The build is over.
    Finished(Result<ShaderProgram, BuildError>),
}

/// What the caller reports back after doing a step.
#[derive(Debug)]
pub enum DriverReply {
    /// The source text that was read.
    Source(String),
    /// The source file does not exist.
    SourceMissing,
    /// The source file could not be read.
    SourceUnreadable,
    /// The handle of the object just created.
    Created(u32),
    /// The value of the status flag queried.
    Status(i32),
    /// The info log fetched.
    Log(String),
    /// The step was carried out.
    Done,
}

/// Whether `reply` answers what a build in `phase` asked for.
pub open spec fn spec_accepts(phase: BuildPhase, reply: DriverReply) -> bool {
    match phase {
        BuildPhase::ReadingSource(_) => reply is Source || reply is SourceMissing
            || reply is SourceUnreadable,
        BuildPhase::CreatingShader(_) => reply is Created,
        BuildPhase::CreatingProgram => reply is Created,
        BuildPhase::CheckingCompile(_) => reply is Status,
        BuildPhase::CheckingLink => reply is Status,
        BuildPhase::FetchingShaderLog(_) => reply is Log,
        BuildPhase::FetchingProgramLog => reply is Log,
        BuildPhase::Finished => false,
        _ => reply is Done,
    }
}

/// The objects a build holds in each phase before anything failed: the
/// shaders compiled so far and, once created, the program.
pub open spec fn spec_owned_in(phase: BuildPhase, vertex: u32, fragment: u32, program: u32) -> Seq<
    Resource,
> {
    let v = shader_resource(vertex);
    let f = shader_resource(fragment);
    let p = program_resource(program);
    match phase {
        BuildPhase::ReadingSource(ShaderStage::Vertex) => seq![],
        BuildPhase::CreatingShader(ShaderStage::Vertex) => seq![],
        BuildPhase::Compiling(ShaderStage::Vertex) => seq![v],
        BuildPhase::CheckingCompile(ShaderStage::Vertex) => seq![v],
        BuildPhase::FetchingShaderLog(ShaderStage::Vertex) => seq![v],
        BuildPhase::ReadingSource(ShaderStage::Fragment) => seq![v],
        BuildPhase::CreatingShader(ShaderStage::Fragment) => seq![v],
        BuildPhase::Compiling(ShaderStage::Fragment) => seq![v, f],
        BuildPhase::CheckingCompile(ShaderStage::Fragment) => seq![v, f],
        BuildPhase::FetchingShaderLog(ShaderStage::Fragment) => seq![v, f],
        BuildPhase::CreatingProgram => seq![v, f],
        _ => seq![v, f, p],
    }
}

/// Builds a shader program from a vertex and a fragment shader, one driver
/// step at a time. It keeps a ledger of every object it created, released
/// or handed to the caller.
pub struct ProgramBuilder {
    phase: BuildPhase,
    source: String,
    vertex: u32,
    fragment: u32,
    program: u32,
    owned: Vec<Resource>,
    failure: Option<BuildError>,
    created: Ghost<Seq<Resource>>,
    released: Ghost<Seq<Resource>>,
    handed_out: Ghost<Seq<Resource>>,
}

/// How a build with nothing left to build goes on while it holds `held`:
/// it deletes the newest object held, and finishes once none is left, with
/// the failure it recorded or else with the program it handed out.
pub open spec fn spec_release_step(
    held: Seq<Resource>,
    released: Seq<Resource>,
    after: ProgramBuilder,
    step: BuildStep,
) -> bool {
    if held.len() > 0 {
        &&& step == BuildStep::Release(held.last())
        &&& after.phase() == BuildPhase::Releasing
        &&& after.owned() == held.drop_last()
        &&& after.released() == released.push(held.last())
    } else {
        &&& after.phase() == BuildPhase::Finished
        &&& after.owned() == held
        &&& after.released() == released
        &&& match after.failure() {
            Some(e) => step matches BuildStep::Finished(Err(x)) && x@ == e,
            None => step matches BuildStep::Finished(Ok(p)) && p.spec_handle() == after.program(),
        }
    }
}

/// The step changed neither the ledger nor the handles.
pub open spec fn spec_kept(before: ProgramBuilder, after: ProgramBuilder) -> bool {
    &&& after.created() == before.created()
    &&& after.released() == before.released()
    &&& after.owned() == before.owned()
    &&& after.handed_out() == before.handed_out()
    &&& after.vertex_shader() == before.vertex_shader()
    &&& after.fragment_shader() == before.fragment_shader()
    &&& after.program() == before.program()
    &&& after.failure() == before.failure()
}

impl ProgramBuilder {
    pub closed spec fn phase(&self) -> BuildPhase {
        self.phase
    }

    /// The objects the build holds and must release or hand out, oldest first.
    pub closed spec fn owned(&self) -> Seq<Resource> {
        self.owned@
    }

    /// Every object the build created.
    pub closed spec fn created(&self) -> Seq<Resource> {
        self.created@
    }

    /// Every object the build asked to delete, in order.
    pub closed spec fn released(&self) -> Seq<Resource> {
        self.released@
    }

    /// The object given to the caller as the built program, if any.
    pub closed spec fn handed_out(&self) -> Seq<Resource> {
        self.handed_out@
    }

    pub closed spec fn vertex_shader(&self) -> u32 {
        self.vertex
    }

    pub closed spec fn fragment_shader(&self) -> u32 {
        self.fragment
    }

    pub closed spec fn program(&self) -> u32 {
        self.program
    }

    /// The source text waiting to be compiled.
    pub closed spec fn pending_source(&self) -> Seq<char> {
        self.source@
    }

    /// The failure the build ended with, once one occurred.
    pub closed spec fn failure(&self) -> Option<BuildFailure> {
        match self.failure {
            Some(e) => Some(e@),
            None => None,
        }
    }

    pub closed spec fn stage_shader(&self, stage: ShaderStage) -> u32 {
        match stage {
            ShaderStage::Vertex => self.vertex,
            ShaderStage::Fragment => self.fragment,
        }
    }

    pub closed spec fn wf(&self) -> bool {
        &&& self.created@.to_multiset() == self.released@.to_multiset().add(
            self.owned@.to_multiset(),
        ).add(self.handed_out@.to_multiset())
        &&& !(self.phase is Releasing || self.phase is Finished) ==> {
            &&& self.owned@ == spec_owned_in(self.phase, self.vertex, self.fragment, self.program)
            &&& self.failure is None
            &&& self.handed_out@.len() == 0
        }
        &&& (self.phase is Releasing || self.phase is Finished) ==> (self.failure is None
            <==> self.handed_out@.len() > 0)
        &&& self.handed_out@.len() > 0 ==> self.handed_out@ == seq![
            program_resource(self.program),
        ]
        &&& self.phase is Finished ==> self.owned@.len() == 0
    }

    /// A new build and its first step: reading the vertex shader's source.
    pub fn begin() -> (r: (ProgramBuilder, BuildStep))
        ensures
            r.0.wf(),
            r.0.phase() == BuildPhase::ReadingSource(ShaderStage::Vertex),
            r.0.created() == Seq::<Resource>::empty(),
            r.0.released() == Seq::<Resource>::empty(),
            r.0.handed_out() == Seq::<Resource>::empty(),
            r.1 == BuildStep::ReadSource(ShaderStage::Vertex),
    {
        let b = ProgramBuilder {
            phase: BuildPhase::ReadingSource(ShaderStage::Vertex),
            source: String::new(),
            vertex: 0,
            fragment: 0,
            program: 0,
            owned: Vec::new(),
            failure: None,
            created: Ghost(Seq::empty()),
            released: Ghost(Seq::empty()),
            handed_out: Ghost(Seq::empty()),
        };
        proof {
            assert(b.owned@ =~= seq![]);
            lemma_multiset_empty_len(b.owned@.to_multiset());
            lemma_multiset_empty_len(b.created@.to_multiset());
            assert(b.created@.to_multiset() =~= b.released@.to_multiset().add(
                b.owned@.to_multiset(),
            ).add(b.handed_out@.to_multiset()));
        }
        (b, BuildStep::ReadSource(ShaderStage::Vertex))
    }

    /// Deletes the newest object held, or ends the build once none is held.
    fn release_next(&mut self) -> (step: BuildStep)
        requires
            old(self).phase == BuildPhase::Releasing,
            old(self).created@.to_multiset() == old(self).released@.to_multiset().add(
                old(self).owned@.to_multiset(),
            ).add(old(self).handed_out@.to_multiset()),
            old(self).failure is None <==> old(self).handed_out@.len() > 0,
            old(self).handed_out@.len() > 0 ==> old(self).handed_out@ == seq![
                program_resource(old(self).program),
            ],
        ensures
            final(self).wf(),
            spec_release_step(old(self).owned(), old(self).released(), *final(self), step),
            final(self).created() == old(self).created(),
            final(self).handed_out() == old(self).handed_out(),
            final(self).failure() == old(self).failure(),
            final(self).vertex_shader() == old(self).vertex_shader(),
            final(self).fragment_shader() == old(self).fragment_shader(),
            final(self).program() == old(self).program(),
    {
        let ghost held = self.owned@;
        match self.owned.pop() {
            Some(r) => {
                proof {
                    assert(held =~= self.owned@.push(r));
                }
                self.released = Ghost(self.released@.push(r));
                proof {
                    assert(self.created@.to_multiset() =~= self.released@.to_multiset().add(
                        self.owned@.to_multiset(),
                    ).add(self.handed_out@.to_multiset()));
                }
                BuildStep::Release(r)
            },
            None => {
                self.phase = BuildPhase::Finished;
                match &self.failure {
                    Some(e) => BuildStep::Finished(Err(e.duplicate())),
                    None => BuildStep::Finished(
                        Ok(ShaderProgram { handle: ResourceHandle { index: self.program } }),
                    ),
                }
            },
        }
    }

    /// Records the failure and starts releasing what the build holds.
    fn fail(&mut self, e: BuildError) -> (step: BuildStep)
        requires
            old(self).wf(),
            !(old(self).phase is Releasing || old(self).phase is Finished),
        ensures
            final(self).wf(),
            final(self).failure() == Some(e@),
            spec_release_step(old(self).owned(), old(self).released(), *final(self), step),
            final(self).created() == old(self).created(),
            final(self).handed_out() == old(self).handed_out(),
            final(self).vertex_shader() == old(self).vertex_shader(),
            final(self).fragment_shader() == old(self).fragment_shader(),
            final(self).program() == old(self).program(),
    {
        self.failure = Some(e);
        self.phase = BuildPhase::Releasing;
        self.release_next()
    }

    /// Takes the reply to the last step and returns the next step.
    ///
    /// A build reads and compiles the vertex shader, then the fragment
    /// shader, creates the program, attaches both shaders, links, detaches
    /// both shaders and checks the link. Once it fails, or once the program
    /// is linked, it deletes every object it still holds, newest first, and
    /// finishes.
    pub fn step(&mut self, reply: DriverReply) -> (step: BuildStep)
        requires
            old(self).wf(),
            spec_accepts(old(self).phase(), reply),
        ensures
            final(self).wf(),
            !(old(self).phase() is CreatingShader || old(self).phase() is CreatingProgram) ==> {
                &&& final(self).created() == old(self).created()
                &&& final(self).vertex_shader() == old(self).vertex_shader()
                &&& final(self).fragment_shader() == old(self).fragment_shader()
                &&& final(self).program() == old(self).program()
            },
            old(self).phase() is ReadingSource && reply is Source ==> {
                &&& final(self).phase() == BuildPhase::CreatingShader(
                    old(self).phase()->ReadingSource_0,
                )
                &&& step == BuildStep::CreateShader(old(self).phase()->ReadingSource_0)
                &&& final(self).pending_source() == reply->Source_0@
                &&& spec_kept(*old(self), *final(self))
            },
            old(self).phase() is ReadingSource && reply is SourceMissing ==> {
                &&& final(self).failure() == Some(
                    BuildFailure::SourceNotFound(old(self).phase()->ReadingSource_0),
                )
                &&& spec_release_step(old(self).owned(), old(self).released(), *final(self), step)
            },
            old(self).phase() is ReadingSource && reply is SourceUnreadable ==> {
                &&& final(self).failure() == Some(
                    BuildFailure::SourceUnreadable(old(self).phase()->ReadingSource_0),
                )
                &&& spec_release_step(old(self).owned(), old(self).released(), *final(self), step)
            },
            old(self).phase() is CreatingShader ==> {
                let stage = old(self).phase()->CreatingShader_0;
                let h = reply->Created_0;
                &&& final(self).phase() == BuildPhase::Compiling(stage)
                &&& final(self).stage_shader(stage) == h
                &&& final(self).created() == old(self).created().push(shader_resource(h))
                &&& final(self).owned() == old(self).owned().push(shader_resource(h))
                &&& final(self).released() == old(self).released()
                &&& step matches BuildStep::CompileShader(x, src) && x == h && src@ == old(
                    self,
                ).pending_source()
            },
            old(self).phase() is Compiling ==> {
                let stage = old(self).phase()->Compiling_0;
                &&& final(self).phase() == BuildPhase::CheckingCompile(stage)
                &&& step == BuildStep::QueryCompileStatus(old(self).stage_shader(stage))
                &&& spec_kept(*old(self), *final(self))
            },
            old(self).phase() is CheckingCompile && reply->Status_0 == 0 ==> {
                let stage = old(self).phase()->CheckingCompile_0;
                &&& final(self).phase() == BuildPhase::FetchingShaderLog(stage)
                &&& step == BuildStep::FetchShaderLog(old(self).stage_shader(stage))
                &&& spec_kept(*old(self), *final(self))
            },
            old(self).phase() == BuildPhase::CheckingCompile(ShaderStage::Vertex)
                && reply->Status_0 != 0 ==> {
                &&& final(self).phase() == BuildPhase::ReadingSource(ShaderStage::Fragment)
                &&& step == BuildStep::ReadSource(ShaderStage::Fragment)
                &&& spec_kept(*old(self), *final(self))
            },
            old(self).phase() == BuildPhase::CheckingCompile(ShaderStage::Fragment)
                && reply->Status_0 != 0 ==> {
                &&& final(self).phase() == BuildPhase::CreatingProgram
                &&& step == BuildStep::CreateProgram
                &&& spec_kept(*old(self), *final(self))
            },
            old(self).phase() is FetchingShaderLog ==> {
                &&& final(self).failure() == Some(
                    BuildFailure::CompileFailed(
                        old(self).phase()->FetchingShaderLog_0,
                        reply->Log_0@,
                    ),
                )
                &&& spec_release_step(old(self).owned(), old(self).released(), *final(self), step)
            },
            old(self).phase() is CreatingProgram ==> {
                let h = reply->Created_0;
                &&& final(self).phase() == BuildPhase::AttachingVertex
                &&& final(self).program() == h
                &&& final(self).created() == old(self).created().push(program_resource(h))
                &&& final(self).owned() == old(self).owned().push(program_resource(h))
                &&& final(self).released() == old(self).released()
                &&& step == BuildStep::AttachShader(h, old(self).vertex_shader())
            },
            old(self).phase() is AttachingVertex ==> {
                &&& final(self).phase() == BuildPhase::AttachingFragment
                &&& step == BuildStep::AttachShader(old(self).program(), old(self).fragment_shader())
                &&& spec_kept(*old(self), *final(self))
            },
            old(self).phase() is AttachingFragment ==> {
                &&& final(self).phase() == BuildPhase::Linking
                &&& step == BuildStep::LinkProgram(old(self).program())
                &&& spec_kept(*old(self), *final(self))
            },
            old(self).phase() is Linking ==> {
                &&& final(self).phase() == BuildPhase::DetachingFragment
                &&& step == BuildStep::DetachShader(old(self).program(), old(self).fragment_shader())
                &&& spec_kept(*old(self), *final(self))
            },
            old(self).phase() is DetachingFragment ==> {
                &&& final(self).phase() == BuildPhase::DetachingVertex
                &&& step == BuildStep::DetachShader(old(self).program(), old(self).vertex_shader())
                &&& spec_kept(*old(self), *final(self))
            },
            old(self).phase() is DetachingVertex ==> {
                &&& final(self).phase() == BuildPhase::CheckingLink
                &&& step == BuildStep::QueryLinkStatus(old(self).program())
                &&& spec_kept(*old(self), *final(self))
            },
            old(self).phase() is CheckingLink && reply->Status_0 == 0 ==> {
                &&& final(self).phase() == BuildPhase::FetchingProgramLog
                &&& step == BuildStep::FetchProgramLog(old(self).program())
                &&& spec_kept(*old(self), *final(self))
            },
            old(self).phase() is CheckingLink && reply->Status_0 != 0 ==> {
                &&& final(self).failure() is None
                &&& final(self).handed_out() == seq![program_resource(old(self).program())]
                &&& spec_release_step(
                    old(self).owned().drop_last(),
                    old(self).released(),
                    *final(self),
                    step,
                )
            },
            old(self).phase() is FetchingProgramLog ==> {
                &&& final(self).failure() == Some(BuildFailure::LinkFailed(reply->Log_0@))
                &&& spec_release_step(old(self).owned(), old(self).released(), *final(self), step)
            },
            old(self).phase() is Releasing ==> {
                &&& final(self).failure() == old(self).failure()
                &&& final(self).handed_out() == old(self).handed_out()
                &&& spec_release_step(old(self).owned(), old(self).released(), *final(self), step)
            },
    {
        match self.phase {
            BuildPhase::ReadingSource(stage) => match reply {
                DriverReply::Source(text) => {
                    self.source = text;
                    self.phase = BuildPhase::CreatingShader(stage);
                    BuildStep::CreateShader(stage)
                },
                DriverReply::SourceMissing => self.fail(BuildError::SourceNotFound(stage)),
                DriverReply::SourceUnreadable => self.fail(BuildError::SourceUnreadable(stage)),
                _ => unreached(),
            },
            BuildPhase::CreatingShader(stage) => {
                let h = match reply {
                    DriverReply::Created(h) => h,
                    _ => unreached(),
                };
                let r = Resource { kind: ResourceKind::Shader, handle: h };
                let ghost old_owned = self.owned@;
                self.owned.push(r);
                self.created = Ghost(self.created@.push(r));
                match stage {
                    ShaderStage::Vertex => self.vertex = h,
                    ShaderStage::Fragment => self.fragment = h,
                }
                self.phase = BuildPhase::Compiling(stage);
                proof {
                    assert(self.created@.to_multiset() =~= self.released@.to_multiset().add(
                        self.owned@.to_multiset(),
                    ).add(self.handed_out@.to_multiset()));
                    assert(self.owned@ =~= spec_owned_in(
                        self.phase,
                        self.vertex,
                        self.fragment,
                        self.program,
                    ));
                }
                BuildStep::CompileShader(h, self.source.clone())
            },
            BuildPhase::Compiling(stage) => {
                self.phase = BuildPhase::CheckingCompile(stage);
                let h = match stage {
                    ShaderStage::Vertex => self.vertex,
                    ShaderStage::Fragment => self.fragment,
                };
                BuildStep::QueryCompileStatus(h)
            },
            BuildPhase::CheckingCompile(stage) => {
                let status = match reply {
                    DriverReply::Status(s) => s,
                    _ => unreached(),
                };
                if status == 0 {
                    self.phase = BuildPhase::FetchingShaderLog(stage);
                    let h = match stage {
                        ShaderStage::Vertex => self.vertex,
                        ShaderStage::Fragment => self.fragment,
                    };
                    BuildStep::FetchShaderLog(h)
                } else {
                    match stage {
                        ShaderStage::Vertex => {
                            self.phase = BuildPhase::ReadingSource(ShaderStage::Fragment);
                            BuildStep::ReadSource(ShaderStage::Fragment)
                        },
                        ShaderStage::Fragment => {
                            self.phase = BuildPhase::CreatingProgram;
                            BuildStep::CreateProgram
                        },
                    }
                }
            },
            BuildPhase::FetchingShaderLog(stage) => {
                let log = match reply {
                    DriverReply::Log(l) => l,
                    _ => unreached(),
                };
                self.fail(BuildError::CompileFailed(stage, log))
            },
            BuildPhase::CreatingProgram => {
                let h = match reply {
                    DriverReply::Created(h) => h,
                    _ => unreached(),
                };
                let r = Resource { kind: ResourceKind::Program, handle: h };
                self.owned.push(r);
                self.created = Ghost(self.created@.push(r));
                self.program = h;
                self.phase = BuildPhase::AttachingVertex;
                proof {
                    assert(self.created@.to_multiset() =~= self.released@.to_multiset().add(
                        self.owned@.to_multiset(),
                    ).add(self.handed_out@.to_multiset()));
                    assert(self.owned@ =~= spec_owned_in(
                        self.phase,
                        self.vertex,
                        self.fragment,
                        self.program,
                    ));
                }
                BuildStep::AttachShader(h, self.vertex)
            },
            BuildPhase::AttachingVertex => {
                self.phase = BuildPhase::AttachingFragment;
                BuildStep::AttachShader(self.program, self.fragment)
            },
            BuildPhase::AttachingFragment => {
                self.phase = BuildPhase::Linking;
                BuildStep::LinkProgram(self.program)
            },
            BuildPhase::Linking => {
                self.phase = BuildPhase::DetachingFragment;
                BuildStep::DetachShader(self.program, self.fragment)
            },
            BuildPhase::DetachingFragment => {
                self.phase = BuildPhase::DetachingVertex;
                BuildStep::DetachShader(self.program, self.vertex)
            },
            BuildPhase::DetachingVertex => {
                self.phase = BuildPhase::CheckingLink;
                BuildStep::QueryLinkStatus(self.program)
            },
            BuildPhase::CheckingLink => {
                let status = match reply {
                    DriverReply::Status(s) => s,
                    _ => unreached(),
                };
                if status == 0 {
                    self.phase = BuildPhase::FetchingProgramLog;
                    BuildStep::FetchProgramLog(self.program)
                } else {
                    let ghost held = self.owned@;
                    let linked = self.owned.pop();
                    let r = match linked {
                        Some(r) => r,
                        None => unreached(),
                    };
                    proof {
                        assert(held =~= self.owned@.push(r));
                    }
                    self.handed_out = Ghost(Seq::empty().push(r));
                    self.phase = BuildPhase::Releasing;
                    proof {
                        assert(self.handed_out@ =~= seq![].push(r));
                        lemma_multiset_empty_len(Seq::<Resource>::empty().to_multiset());
                        assert(self.created@.to_multiset() =~= self.released@.to_multiset().add(
                            self.owned@.to_multiset(),
                        ).add(self.handed_out@.to_multiset()));
                    }
                    self.release_next()
                }
            },
            BuildPhase::FetchingProgramLog => {
                let log = match reply {
                    DriverReply::Log(l) => l,
                    _ => unreached(),
                };
                self.fail(BuildError::LinkFailed(log))
            },
            BuildPhase::Releasing => self.release_next(),
            BuildPhase::Finished => unreached(),
        }
    }

    pub fn current_phase(&self) -> (r: BuildPhase)
        ensures
            r == self.phase(),
    {
        self.phase
    }

    /// Whether `reply` answers the step asked for last.
    pub fn accepts(&self, reply: &DriverReply) -> (r: bool)
        ensures
            r == spec_accepts(self.phase(), *reply),
    {
        match self.phase {
            BuildPhase::ReadingSource(_) => match reply {
                DriverReply::Source(_) => true,
                DriverReply::SourceMissing => true,
                DriverReply::SourceUnreadable => true,
                _ => false,
            },
            BuildPhase::CreatingShader(_) => matches!(reply, DriverReply::Created(_)),
            BuildPhase::CreatingProgram => matches!(reply, DriverReply::Created(_)),
            BuildPhase::CheckingCompile(_) => matches!(reply, DriverReply::Status(_)),
            BuildPhase::CheckingLink => matches!(reply, DriverReply::Status(_)),
            BuildPhase::FetchingShaderLog(_) => matches!(reply, DriverReply::Log(_)),
            BuildPhase::FetchingProgramLog => matches!(reply, DriverReply::Log(_)),
            BuildPhase::Finished => false,
            _ => matches!(reply, DriverReply::Done),
        }
    }
}

/// A finished build has asked exactly once for the deletion of each object
/// it created, except for the program it handed out after a successful link,
/// whose deletion was left to the `ShaderProgram` holding it.
pub proof fn lemma_finished_build_releases_each_object_once(b: ProgramBuilder)
    requires
        b.wf(),
        b.phase() == BuildPhase::Finished,
    ensures
        b.owned().len() == 0,
        b.failure() is Some ==> b.created().to_multiset() == b.released().to_multiset(),
        b.failure() is None ==> b.created().to_multiset() == b.released().to_multiset().insert(
            program_resource(b.program()),
        ),
{
    lemma_multiset_empty_len(b.owned().to_multiset());
    lemma_multiset_empty_len(b.handed_out().to_multiset());
    if b.failure() is Some {
        assert(b.created().to_multiset() =~= b.released().to_multiset());
    } else {
        assert(b.handed_out() =~= Seq::<Resource>::empty().push(program_resource(b.program())));
        assert(b.created().to_multiset() =~= b.released().to_multiset().insert(
            program_resource(b.program()),
        ));
    }
}

} // verus!
