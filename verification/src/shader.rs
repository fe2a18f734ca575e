//! Building the shader program: compile the vertex stage, compile the fragment
//! stage, link. After each of the three the device reports whether it went
//! well, and the build decides what to do next.
//!
//! A build that fails gives back every object it allocated; a build that
//! succeeds keeps the program alone.

use vstd::prelude::*;
use vstd::string::*;

use crate::gpu::{GlCommand, GpuState, Stage};

verus! {

/// What went wrong in a build.
#[derive(Clone, Copy, Debug, PartialEq, Eq, Structural)]
pub enum DiagnosticKind {
    /// A stage did not compile.
    Compile(Stage),
    /// The program did not link.
    Link,
}

/// The failure of a build: which step failed, and the log that the device
/// wrote about it.
#[derive(Clone, Debug, PartialEq, Eq)]
pub struct Diagnostic {
    pub kind: DiagnosticKind,
    pub log: String,
}

/// What the device says after a compile or a link.
#[derive(Clone, Debug, PartialEq, Eq)]
pub struct StageReport {
    /// Whether the step succeeded.
    pub ok: bool,
    /// The device's log for the step.
    pub log: String,
}

/// The step whose report a build is waiting for.
#[derive(Clone, Copy, Debug, PartialEq, Eq, Structural)]
pub enum BuildPhase {
    VertexCompile,
    FragmentCompile,
    Link,
}

/// The linked program. Only a build that succeeded hands one out.
#[derive(Clone, Copy, Debug, PartialEq, Eq, Structural)]
pub struct ProgramHandle {
    linked: bool,
}

/// A build in progress.
#[derive(Debug)]
pub struct ProgramBuild {
    phase: BuildPhase,
    vertex_source: String,
    fragment_source: String,
}

/// What a build asks of the host after a report.
#[derive(Debug)]
pub enum BuildStep {
    /// Run the commands, then report on the build's next phase.
    Continue { build: ProgramBuild, commands: Vec<GlCommand> },
    /// Run the commands; the build is over.
    Finished { commands: Vec<GlCommand>, result: Result<ProgramHandle, Diagnostic> },
}

/// The commands that create and compile one stage.
pub open spec fn compile_commands(stage: Stage) -> Seq<GlCommand> {
    seq![
        GlCommand::CreateShader(stage),
        GlCommand::ShaderSource(stage),
        GlCommand::CompileShader(stage),
    ]
}

/// The commands that open a build: allocate the program, then create and
/// compile the vertex stage.
pub open spec fn start_commands() -> Seq<GlCommand> {
    seq![GlCommand::CreateProgram] + compile_commands(Stage::Vertex)
}

/// The commands that answer a report received in `phase`.
pub open spec fn reply_commands(phase: BuildPhase, ok: bool) -> Seq<GlCommand> {
    match phase {
        BuildPhase::VertexCompile => if ok {
            compile_commands(Stage::Fragment)
        } else {
            seq![GlCommand::DeleteShader(Stage::Vertex), GlCommand::DeleteProgram]
        },
        BuildPhase::FragmentCompile => if ok {
            seq![
                GlCommand::AttachShader(Stage::Vertex),
                GlCommand::AttachShader(Stage::Fragment),
                GlCommand::LinkProgram,
            ]
        } else {
            seq![
                GlCommand::DeleteShader(Stage::Fragment),
                GlCommand::DeleteShader(Stage::Vertex),
                GlCommand::DeleteProgram,
            ]
        },
        BuildPhase::Link => if ok {
            seq![GlCommand::DeleteShader(Stage::Vertex), GlCommand::DeleteShader(Stage::Fragment)]
        } else {
            seq![
                GlCommand::DeleteProgram,
                GlCommand::DeleteShader(Stage::Vertex),
                GlCommand::DeleteShader(Stage::Fragment),
            ]
        },
    }
}

/// The phase that follows a good report, if the build goes on.
pub open spec fn next_phase(phase: BuildPhase) -> Option<BuildPhase> {
    match phase {
        BuildPhase::VertexCompile => Some(BuildPhase::FragmentCompile),
        BuildPhase::FragmentCompile => Some(BuildPhase::Link),
        BuildPhase::Link => None,
    }
}

/// The kind of failure that a bad report in `phase` means.
pub open spec fn failure_kind(phase: BuildPhase) -> DiagnosticKind {
    match phase {
        BuildPhase::VertexCompile => DiagnosticKind::Compile(Stage::Vertex),
        BuildPhase::FragmentCompile => DiagnosticKind::Compile(Stage::Fragment),
        BuildPhase::Link => DiagnosticKind::Link,
    }
}

/// Every command of a whole build, given how the three steps fare. A step
/// that is never reached has no say.
pub open spec fn build_trace(vertex_ok: bool, fragment_ok: bool, link_ok: bool) -> Seq<GlCommand> {
    let after_vertex = start_commands() + reply_commands(BuildPhase::VertexCompile, vertex_ok);
    if !vertex_ok {
        after_vertex
    } else {
        let after_fragment = after_vertex + reply_commands(
            BuildPhase::FragmentCompile,
            fragment_ok,
        );
        if !fragment_ok {
            after_fragment
        } else {
            after_fragment + reply_commands(BuildPhase::Link, link_ok)
        }
    }
}

/// The failure that a whole build ends in, if it fails: that of the first
/// step that went wrong.
pub open spec fn build_failure(vertex_ok: bool, fragment_ok: bool, link_ok: bool) -> Option<
    DiagnosticKind,
> {
    if !vertex_ok {
        Some(DiagnosticKind::Compile(Stage::Vertex))
    } else if !fragment_ok {
        Some(DiagnosticKind::Compile(Stage::Fragment))
    } else if !link_ok {
        Some(DiagnosticKind::Link)
    } else {
        None
    }
}

impl Diagnostic {
    /// The opening words of the message for a kind of failure.
    pub open spec fn heading(kind: DiagnosticKind) -> Seq<char> {
        match kind {
            DiagnosticKind::Compile(_) => "Shader compilation failed: "@,
            DiagnosticKind::Link => "Program linking failed: "@,
        }
    }

    /// The failure as one line of text: the heading, then the device's log.
    pub fn message(&self) -> (text: String)
        ensures
            text@ == Diagnostic::heading(self.kind) + self.log@,
    {
        let heading = match self.kind {
            DiagnosticKind::Compile(_) => "Shader compilation failed: ",
            DiagnosticKind::Link => "Program linking failed: ",
        };
        let mut text = String::from_str(heading);
        text.append(self.log.as_str());
        text
    }
}

impl ProgramBuild {
    /// The step whose report the build is waiting for.
    pub closed spec fn phase(&self) -> BuildPhase {
        self.phase
    }

    /// The source text of a stage.
    pub closed spec fn source(&self, stage: Stage) -> Seq<char> {
        match stage {
            Stage::Vertex => self.vertex_source@,
            Stage::Fragment => self.fragment_source@,
        }
    }

    /// The step whose report the build is waiting for.
    pub fn pending(&self) -> (phase: BuildPhase)
        ensures
            phase == self.phase(),
    {
        self.phase
    }

    /// The source text that the `ShaderSource` command of a stage uploads.
    pub fn source_text(&self, stage: Stage) -> (text: &str)
        ensures
            text@ == self.source(stage),
    {
        match stage {
            Stage::Vertex => self.vertex_source.as_str(),
            Stage::Fragment => self.fragment_source.as_str(),
        }
    }

    /// Takes the device's report on the pending step and decides how the
    /// build goes on.
    ///
    /// A good report moves to the next phase, or ends the build with the
    /// program once the link is done. A bad report ends the build with a
    /// diagnostic that names the step and carries the report's log. Either
    /// way the commands are those of [`reply_commands`].
    pub fn advance(self, report: StageReport) -> (step: BuildStep)
        ensures
            report.ok && next_phase(self.phase()) is Some ==> (step matches BuildStep::Continue {
                build,
                commands,
            } && build.phase() == next_phase(self.phase())->0 && build.source(Stage::Vertex)
                == self.source(Stage::Vertex) && build.source(Stage::Fragment) == self.source(
                Stage::Fragment,
            ) && commands@ == reply_commands(self.phase(), true)),
            report.ok && next_phase(self.phase()) is None ==> (step matches BuildStep::Finished {
                commands,
                result,
            } && result is Ok && commands@ == reply_commands(self.phase(), true)),
            !report.ok ==> (step matches BuildStep::Finished { commands, result } && result
                == Err::<ProgramHandle, Diagnostic>(
                Diagnostic { kind: failure_kind(self.phase()), log: report.log },
            ) && commands@ == reply_commands(self.phase(), false)),
    {
        let phase = self.phase;
        if !report.ok {
            let mut commands: Vec<GlCommand> = Vec::new();
            let kind = match phase {
                BuildPhase::VertexCompile => {
                    commands.push(GlCommand::DeleteShader(Stage::Vertex));
                    commands.push(GlCommand::DeleteProgram);
                    DiagnosticKind::Compile(Stage::Vertex)
                },
                BuildPhase::FragmentCompile => {
                    commands.push(GlCommand::DeleteShader(Stage::Fragment));
                    commands.push(GlCommand::DeleteShader(Stage::Vertex));
                    commands.push(GlCommand::DeleteProgram);
                    DiagnosticKind::Compile(Stage::Fragment)
                },
                BuildPhase::Link => {
                    commands.push(GlCommand::DeleteProgram);
                    commands.push(GlCommand::DeleteShader(Stage::Vertex));
                    commands.push(GlCommand::DeleteShader(Stage::Fragment));
                    DiagnosticKind::Link
                },
            };
            assert(commands@ =~= reply_commands(phase, false));
            return BuildStep::Finished {
                commands,
                result: Err(Diagnostic { kind, log: report.log }),
            };
        }
        match phase {
            BuildPhase::VertexCompile => {
                let commands = compile_shader(Stage::Fragment);
                BuildStep::Continue {
                    build: ProgramBuild {
                        phase: BuildPhase::FragmentCompile,
                        vertex_source: self.vertex_source,
                        fragment_source: self.fragment_source,
                    },
                    commands,
                }
            },
            BuildPhase::FragmentCompile => {
                let mut commands: Vec<GlCommand> = Vec::new();
                commands.push(GlCommand::AttachShader(Stage::Vertex));
                commands.push(GlCommand::AttachShader(Stage::Fragment));
                commands.push(GlCommand::LinkProgram);
                assert(commands@ =~= reply_commands(phase, true));
                BuildStep::Continue {
                    build: ProgramBuild {
                        phase: BuildPhase::Link,
                        vertex_source: self.vertex_source,
                        fragment_source: self.fragment_source,
                    },
                    commands,
                }
            },
            BuildPhase::Link => {
                let mut commands: Vec<GlCommand> = Vec::new();
                commands.push(GlCommand::DeleteShader(Stage::Vertex));
                commands.push(GlCommand::DeleteShader(Stage::Fragment));
                assert(commands@ =~= reply_commands(phase, true));
                BuildStep::Finished { commands, result: Ok(ProgramHandle { linked: true }) }
            },
        }
    }
}

/// The commands that create one stage's shader object, hand it its source and
/// compile it.
pub fn compile_shader(stage: Stage) -> (commands: Vec<GlCommand>)
    ensures
        commands@ == compile_commands(stage),
{
    let mut commands: Vec<GlCommand> = Vec::new();
    commands.push(GlCommand::CreateShader(stage));
    commands.push(GlCommand::ShaderSource(stage));
    commands.push(GlCommand::CompileShader(stage));
    assert(commands@ =~= compile_commands(stage));
    commands
}

/// Opens the build of a program from the source of its two stages.
///
/// The commands allocate the program and compile the vertex stage; the build
/// then waits for the report on that compile.
pub fn create_program(vertex_source: &str, fragment_source: &str) -> (started: (
    ProgramBuild,
    Vec<GlCommand>,
))
    ensures
        started.0.phase() == BuildPhase::VertexCompile,
        started.0.source(Stage::Vertex) == vertex_source@,
        started.0.source(Stage::Fragment) == fragment_source@,
        started.1@ == start_commands(),
{
    let mut commands: Vec<GlCommand> = Vec::new();
    commands.push(GlCommand::CreateProgram);
    commands.push(GlCommand::CreateShader(Stage::Vertex));
    commands.push(GlCommand::ShaderSource(Stage::Vertex));
    commands.push(GlCommand::CompileShader(Stage::Vertex));
    assert(commands@ =~= start_commands());
    let build = ProgramBuild {
        phase: BuildPhase::VertexCompile,
        vertex_source: String::from_str(vertex_source),
        fragment_source: String::from_str(fragment_source),
    };
    (build, commands)
}

/// A build leaves the device as it found it, but for the program: that is
/// allocated exactly when all three steps succeeded. No shader object stays
/// behind, and a failed build leaves no program either.
pub proof fn lemma_build_releases_objects(
    gpu: GpuState,
    vertex_ok: bool,
    fragment_ok: bool,
    link_ok: bool,
)
    requires
        !gpu.program,
        !gpu.vertex_shader,
        !gpu.fragment_shader,
    ensures
        gpu.run(build_trace(vertex_ok, fragment_ok, link_ok)) == (GpuState {
            program: vertex_ok && fragment_ok && link_ok,
            ..gpu
        }),
        build_failure(vertex_ok, fragment_ok, link_ok) is Some ==> gpu.run(
            build_trace(vertex_ok, fragment_ok, link_ok),
        ).shader_objects() == gpu.shader_objects(),
{
    reveal_with_fuel(GpuState::run_from, 16);
    let trace = build_trace(vertex_ok, fragment_ok, link_ok);
    let vertex = Stage::Vertex;
    let fragment = Stage::Fragment;
    let opening = seq![
        GlCommand::CreateProgram,
        GlCommand::CreateShader(vertex),
        GlCommand::ShaderSource(vertex),
        GlCommand::CompileShader(vertex),
    ];
    assert(start_commands() =~= opening);
    if !vertex_ok {
        assert(trace =~= opening + seq![GlCommand::DeleteShader(vertex), GlCommand::DeleteProgram]);
    } else if !fragment_ok {
        assert(trace =~= opening + compile_commands(fragment) + seq![
            GlCommand::DeleteShader(fragment),
            GlCommand::DeleteShader(vertex),
            GlCommand::DeleteProgram,
        ]);
    } else {
        let linking = opening + compile_commands(fragment) + seq![
            GlCommand::AttachShader(vertex),
            GlCommand::AttachShader(fragment),
            GlCommand::LinkProgram,
        ];
        if link_ok {
            assert(trace =~= linking + seq![
                GlCommand::DeleteShader(vertex),
                GlCommand::DeleteShader(fragment),
            ]);
        } else {
            assert(trace =~= linking + seq![
                GlCommand::DeleteProgram,
                GlCommand::DeleteShader(vertex),
                GlCommand::DeleteShader(fragment),
            ]);
        }
    }
}

/// A vertex stage that does not compile ends the build at once: the failure
/// names the vertex stage, and nothing that the build allocated is left.
pub proof fn lemma_vertex_failure(gpu: GpuState, fragment_ok: bool, link_ok: bool)
    requires
        !gpu.program,
        !gpu.vertex_shader,
        !gpu.fragment_shader,
    ensures
        build_failure(false, fragment_ok, link_ok) == Some(
            DiagnosticKind::Compile(Stage::Vertex),
        ),
        build_trace(false, fragment_ok, link_ok) == start_commands() + reply_commands(
            BuildPhase::VertexCompile,
            false,
        ),
        gpu.run(build_trace(false, fragment_ok, link_ok)) == gpu,
{
    lemma_build_releases_objects(gpu, false, fragment_ok, link_ok);
}

} // verus!
