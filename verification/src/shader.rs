//! Building one shader program, written as a session with the driver.
//!
//! A [`ShaderBuild`] says which command comes next; the caller performs it and
//! reports what the driver returned. After the last command the session is
//! finished and [`Shader::new`] gives the handle of the linked program.

use crate::native::{fragment_shader_type, vertex_shader_type};
use crate::source::{is_c_string, is_first_nul, nul_free, nul_terminated};
use vstd::prelude::*;

verus! {

/// What a status check, or a message about one, refers to.
#[derive(Clone, Copy, Debug, PartialEq, Eq, Structural)]
pub enum SourceType {
    Program,
    VertexShader,
    FragmentShader,
}

impl SourceType {
    /// The name of this kind in messages.
    pub open spec fn label(self) -> Seq<char> {
        match self {
            SourceType::Program => "Program"@,
            SourceType::VertexShader => "VertexShader"@,
            SourceType::FragmentShader => "FragmentShader"@,
        }
    }

    /// The name of this kind as a message shows it.
    pub fn name(&self) -> (s: &'static str)
        ensures
            s@ == self.label(),
    {
        match self {
            SourceType::Program => "Program",
            SourceType::VertexShader => "VertexShader",
            SourceType::FragmentShader => "FragmentShader",
        }
    }
}

/// One of the two stages that make up a program.
#[derive(Clone, Copy, Debug, PartialEq, Eq, Structural)]
pub enum Stage {
    Vertex,
    Fragment,
}

impl Stage {
    /// The kind of object that this stage is built from.
    pub open spec fn spec_source_type(self) -> SourceType {
        match self {
            Stage::Vertex => SourceType::VertexShader,
            Stage::Fragment => SourceType::FragmentShader,
        }
    }

    /// The shader type that the driver is given for this stage.
    pub open spec fn spec_gl_type(self) -> u32 {
        match self {
            Stage::Vertex => 0x8B31,
            Stage::Fragment => 0x8B30,
        }
    }

    /// The kind of object that this stage is built from.
    pub fn source_type(&self) -> (t: SourceType)
        ensures
            t == self.spec_source_type(),
    {
        match self {
            Stage::Vertex => SourceType::VertexShader,
            Stage::Fragment => SourceType::FragmentShader,
        }
    }

    /// The shader type to create an object of this stage with, as the
    /// bindings define it.
    pub fn gl_type(&self) -> (t: u32)
        ensures
            t == self.spec_gl_type(),
    {
        match self {
            Stage::Vertex => vertex_shader_type(),
            Stage::Fragment => fragment_shader_type(),
        }
    }
}

/// One call into the driver.
#[derive(Clone, Copy, Debug, PartialEq, Eq, Structural)]
pub enum Command {
    /// Create a shader object for `stage`; the driver returns its name.
    CreateShader { stage: Stage },
    /// Hand the source text of `stage` to `shader`.
    ShaderSource { shader: u32, stage: Stage },
    CompileShader { shader: u32 },
    /// Create a program object; the driver returns its name.
    CreateProgram,
    AttachShader { program: u32, shader: u32 },
    LinkProgram { program: u32 },
    DeleteShader { shader: u32 },
    /// Release a program; no build issues this, see [`Shader::release`].
    DeleteProgram { program: u32 },
}

impl Command {
    /// The driver answers this command with the name of a new object.
    pub open spec fn spec_creates(self) -> bool {
        self is CreateShader || self is CreateProgram
    }

    /// Whether the driver answers this command with the name of a new
    /// object.
    pub fn creates(&self) -> (b: bool)
        ensures
            b == self.spec_creates(),
    {
        match self {
            Command::CreateShader { .. } => true,
            Command::CreateProgram => true,
            _ => false,
        }
    }
}

/// A shader text that cannot be handed to the driver: it holds a zero byte.
#[derive(Clone, Copy, Debug, PartialEq, Eq, Structural)]
pub struct SourceError {
    /// The stage whose text is refused.
    pub stage: Stage,
    /// Index of the first zero byte in that text.
    pub position: usize,
}

/// The names that the driver gave to the three objects of a build.
#[derive(Clone, Copy, Debug, PartialEq, Eq, Structural)]
pub struct ObjectNames {
    pub vertex_shader: u32,
    pub fragment_shader: u32,
    pub program: u32,
}

/// Number of commands in a build.
pub const COMMAND_COUNT: usize = 12;

/// The commands of a build, in order, for objects named `names`.
pub open spec fn script(names: ObjectNames) -> Seq<Command> {
    seq![
        Command::CreateShader { stage: Stage::Vertex },
        Command::ShaderSource { shader: names.vertex_shader, stage: Stage::Vertex },
        Command::CompileShader { shader: names.vertex_shader },
        Command::CreateShader { stage: Stage::Fragment },
        Command::ShaderSource { shader: names.fragment_shader, stage: Stage::Fragment },
        Command::CompileShader { shader: names.fragment_shader },
        Command::CreateProgram,
        Command::AttachShader { program: names.program, shader: names.vertex_shader },
        Command::AttachShader { program: names.program, shader: names.fragment_shader },
        Command::LinkProgram { program: names.program },
        Command::DeleteShader { shader: names.vertex_shader },
        Command::DeleteShader { shader: names.fragment_shader },
    ]
}

/// A build session as a mathematical value.
pub struct BuildState {
    /// Vertex shader text with its terminating NUL.
    pub vertex_source: Seq<u8>,
    /// Fragment shader text with its terminating NUL.
    pub fragment_source: Seq<u8>,
    /// Number of commands performed so far.
    pub step: nat,
    /// Names learned so far; a name not yet learned is zero.
    pub names: ObjectNames,
}

impl BuildState {
    /// The session before its first command.
    pub open spec fn initial(vertex_source: Seq<u8>, fragment_source: Seq<u8>) -> BuildState {
        BuildState {
            vertex_source,
            fragment_source,
            step: 0,
            names: ObjectNames { vertex_shader: 0, fragment_shader: 0, program: 0 },
        }
    }

    /// Every command of the build has been performed.
    pub open spec fn finished(self) -> bool {
        self.step >= COMMAND_COUNT
    }

    /// The command to perform next, if any is left.
    pub open spec fn pending(self) -> Option<Command> {
        if self.finished() {
            None
        } else {
            Some(script(self.names)[self.step as int])
        }
    }

    /// The names once the driver has answered the pending command with `result`.
    pub open spec fn names_after(self, result: u32) -> ObjectNames {
        match self.pending() {
            Some(Command::CreateShader { stage: Stage::Vertex }) => ObjectNames {
                vertex_shader: result,
                ..self.names
            },
            Some(Command::CreateShader { stage: Stage::Fragment }) => ObjectNames {
                fragment_shader: result,
                ..self.names
            },
            Some(Command::CreateProgram) => ObjectNames { program: result, ..self.names },
            _ => self.names,
        }
    }

    /// The session once the driver has answered the pending command with
    /// `result`. A finished session stays as it is.
    pub open spec fn after(self, result: u32) -> BuildState {
        if self.finished() {
            self
        } else {
            BuildState { step: self.step + 1, names: self.names_after(result), ..self }
        }
    }

    /// The text of `stage`, with its terminating NUL.
    pub open spec fn source(self, stage: Stage) -> Seq<u8> {
        match stage {
            Stage::Vertex => self.vertex_source,
            Stage::Fragment => self.fragment_source,
        }
    }
}

/// A build session: the two source texts, how far the build has come, and the
/// names that the driver has handed out.
pub struct ShaderBuild {
    vertex_source: Vec<u8>,
    fragment_source: Vec<u8>,
    step: usize,
    names: ObjectNames,
}

impl View for ShaderBuild {
    type V = BuildState;

    closed spec fn view(&self) -> BuildState {
        BuildState {
            vertex_source: self.vertex_source@,
            fragment_source: self.fragment_source@,
            step: self.step as nat,
            names: self.names,
        }
    }
}

impl ShaderBuild {
    #[verifier::type_invariant]
    spec fn well_formed(&self) -> bool {
        &&& self.step <= COMMAND_COUNT
        &&& is_c_string(self.vertex_source@)
        &&& is_c_string(self.fragment_source@)
    }

    /// Opens a session for the given shader texts.
    ///
    /// Each text is turned into a C string. A text with a zero byte in it is
    /// refused, the vertex text first.
    pub fn start(vertex_source: &[u8], fragment_source: &[u8]) -> (r: Result<
        ShaderBuild,
        SourceError,
    >)
        ensures
            r is Ok <==> nul_free(vertex_source@) && nul_free(fragment_source@),
            r matches Ok(build) ==> build@ == BuildState::initial(
                vertex_source@.push(0),
                fragment_source@.push(0),
            ),
            r matches Err(e) ==> {
                if nul_free(vertex_source@) {
                    e.stage == Stage::Fragment && is_first_nul(fragment_source@, e.position as int)
                } else {
                    e.stage == Stage::Vertex && is_first_nul(vertex_source@, e.position as int)
                }
            },
    {
        let vertex = match nul_terminated(vertex_source) {
            Ok(buffer) => buffer,
            Err(e) => {
                return Err(SourceError { stage: Stage::Vertex, position: e.position });
            },
        };
        let fragment = match nul_terminated(fragment_source) {
            Ok(buffer) => buffer,
            Err(e) => {
                return Err(SourceError { stage: Stage::Fragment, position: e.position });
            },
        };
        Ok(
            ShaderBuild {
                vertex_source: vertex,
                fragment_source: fragment,
                step: 0,
                names: ObjectNames { vertex_shader: 0, fragment_shader: 0, program: 0 },
            },
        )
    }

    /// The command to perform next, or `None` when the build is finished.
    pub fn command(&self) -> (c: Option<Command>)
        ensures
            c == self@.pending(),
    {
        let names = self.names;
        match self.step {
            0 => Some(Command::CreateShader { stage: Stage::Vertex }),
            1 => Some(Command::ShaderSource { shader: names.vertex_shader, stage: Stage::Vertex }),
            2 => Some(Command::CompileShader { shader: names.vertex_shader }),
            3 => Some(Command::CreateShader { stage: Stage::Fragment }),
            4 => Some(
                Command::ShaderSource { shader: names.fragment_shader, stage: Stage::Fragment },
            ),
            5 => Some(Command::CompileShader { shader: names.fragment_shader }),
            6 => Some(Command::CreateProgram),
            7 => Some(
                Command::AttachShader { program: names.program, shader: names.vertex_shader },
            ),
            8 => Some(
                Command::AttachShader { program: names.program, shader: names.fragment_shader },
            ),
            9 => Some(Command::LinkProgram { program: names.program }),
            10 => Some(Command::DeleteShader { shader: names.vertex_shader }),
            11 => Some(Command::DeleteShader { shader: names.fragment_shader }),
            _ => {
                proof {
                    use_type_invariant(self);
                }
                None
            },
        }
    }

    /// Records that the pending command was performed and that the driver
    /// returned `result`. The value counts only for a command that creates an
    /// object; a finished session does not change.
    pub fn advance(&mut self, result: u32)
        ensures
            final(self)@ == old(self)@.after(result),
    {
        proof {
            use_type_invariant(&*self);
        }
        if self.step >= COMMAND_COUNT {
            return ;
        }
        if self.step == 0 {
            self.names.vertex_shader = result;
        } else if self.step == 3 {
            self.names.fragment_shader = result;
        } else if self.step == 6 {
            self.names.program = result;
        }
        self.step = self.step + 1;
    }

    /// Whether every command of the build has been performed.
    pub fn is_finished(&self) -> (b: bool)
        ensures
            b == self@.finished(),
    {
        self.step >= COMMAND_COUNT
    }

    /// The C string to hand to the driver for `stage`.
    pub fn source(&self, stage: Stage) -> (buffer: &Vec<u8>)
        ensures
            buffer@ == self@.source(stage),
            is_c_string(buffer@),
    {
        proof {
            use_type_invariant(self);
        }
        match stage {
            Stage::Vertex => &self.vertex_source,
            Stage::Fragment => &self.fragment_source,
        }
    }

    /// The names learned so far.
    pub fn names(&self) -> (names: ObjectNames)
        ensures
            names == self@.names,
    {
        self.names
    }
}

/// The session that `state` becomes when the driver answers its commands with
/// `replies`, one after the other.
pub open spec fn replay(state: BuildState, replies: Seq<u32>) -> BuildState
    decreases replies.len(),
{
    if replies.len() == 0 {
        state
    } else {
        replay(state, replies.drop_last()).after(replies.last())
    }
}

/// The names that a build takes from the replies to its commands: the
/// replies to the three commands that create an object.
pub open spec fn names_from(replies: Seq<u32>) -> ObjectNames
    recommends
        replies.len() >= COMMAND_COUNT,
{
    ObjectNames { vertex_shader: replies[0], fragment_shader: replies[3], program: replies[6] }
}

/// The names that the caller still has to release after `commands` were
/// answered with `replies`: every name that a command created and that no
/// later command deleted.
pub open spec fn outstanding(commands: Seq<Command>, replies: Seq<u32>) -> Set<u32>
    decreases commands.len(),
{
    if commands.len() == 0 || commands.len() != replies.len() {
        Set::empty()
    } else {
        let before = outstanding(commands.drop_last(), replies.drop_last());
        match commands.last() {
            Command::CreateShader { .. } => before.insert(replies.last()),
            Command::CreateProgram => before.insert(replies.last()),
            Command::DeleteShader { shader } => before.remove(shader),
            Command::DeleteProgram { program } => before.remove(program),
            _ => before,
        }
    }
}

/// The names known after the first `count` replies.
spec fn names_known(replies: Seq<u32>, count: int) -> ObjectNames {
    ObjectNames {
        vertex_shader: if count > 0 {
            replies[0]
        } else {
            0
        },
        fragment_shader: if count > 3 {
            replies[3]
        } else {
            0
        },
        program: if count > 6 {
            replies[6]
        } else {
            0
        },
    }
}

proof fn lemma_replay_prefix(start: BuildState, replies: Seq<u32>, count: int)
    requires
        start == BuildState::initial(start.vertex_source, start.fragment_source),
        0 <= count <= COMMAND_COUNT,
        count <= replies.len(),
    ensures
        replay(start, replies.take(count)) == (BuildState {
            step: count as nat,
            names: names_known(replies, count),
            ..start
        }),
    decreases count,
{
    if count > 0 {
        lemma_replay_prefix(start, replies, count - 1);
        assert(replies.take(count).drop_last() == replies.take(count - 1));
        assert(replies.take(count).last() == replies[count - 1]);
    }
}

/// A finished session ignores further replies.
proof fn lemma_replay_finished(state: BuildState, replies: Seq<u32>)
    requires
        state.finished(),
    ensures
        replay(state, replies) == state,
    decreases replies.len(),
{
    if replies.len() > 0 {
        lemma_replay_finished(state, replies.drop_last());
    }
}

proof fn lemma_replay_split(state: BuildState, replies: Seq<u32>, count: int)
    requires
        0 <= count <= replies.len(),
    ensures
        replay(state, replies) == replay(
            replay(state, replies.take(count)),
            replies.skip(count),
        ),
    decreases replies.len(),
{
    if count == replies.len() {
        assert(replies.take(count) == replies);
    } else {
        lemma_replay_split(state, replies.drop_last(), count);
        assert(replies.drop_last().take(count) == replies.take(count));
        assert(replies.skip(count).drop_last() == replies.drop_last().skip(count));
    }
}

/// Whatever the driver answers, a build issues the commands of the script in
/// order: the command that follows the first `count` replies is entry `count`
/// of the script for the names that the replies hold, so no command refers to
/// an object before the driver has named it.
pub proof fn lemma_commands_follow_script(
    vertex_source: Seq<u8>,
    fragment_source: Seq<u8>,
    replies: Seq<u32>,
    count: int,
)
    requires
        replies.len() == COMMAND_COUNT,
        0 <= count < COMMAND_COUNT,
    ensures
        replay(
            BuildState::initial(vertex_source, fragment_source),
            replies.take(count),
        ).pending() == Some(script(names_from(replies))[count]),
{
    lemma_replay_prefix(BuildState::initial(vertex_source, fragment_source), replies, count);
}

/// After as many replies as the script has commands a build is finished,
/// holds the names that the driver returned for the three objects, and is not
/// changed by anything reported later.
pub proof fn lemma_build_finishes(
    vertex_source: Seq<u8>,
    fragment_source: Seq<u8>,
    replies: Seq<u32>,
)
    requires
        replies.len() >= COMMAND_COUNT,
    ensures
        replay(BuildState::initial(vertex_source, fragment_source), replies) == (BuildState {
            vertex_source,
            fragment_source,
            step: COMMAND_COUNT as nat,
            names: names_from(replies),
        }),
{
    let start = BuildState::initial(vertex_source, fragment_source);
    let count = COMMAND_COUNT as int;
    lemma_replay_prefix(start, replies, count);
    lemma_replay_split(start, replies, count);
    lemma_replay_finished(replay(start, replies.take(count)), replies.skip(count));
}

/// The names outstanding after the first `count` commands of a build.
spec fn outstanding_known(names: ObjectNames, count: int) -> Set<u32> {
    let created = Set::<u32>::empty();
    let created = if count > 0 {
        created.insert(names.vertex_shader)
    } else {
        created
    };
    let created = if count > 3 {
        created.insert(names.fragment_shader)
    } else {
        created
    };
    let created = if count > 6 {
        created.insert(names.program)
    } else {
        created
    };
    let created = if count > 10 {
        created.remove(names.vertex_shader)
    } else {
        created
    };
    if count > 11 {
        created.remove(names.fragment_shader)
    } else {
        created
    }
}

proof fn lemma_outstanding_prefix(replies: Seq<u32>, count: int)
    requires
        replies.len() == COMMAND_COUNT,
        0 <= count <= COMMAND_COUNT,
    ensures
        outstanding(script(names_from(replies)).take(count), replies.take(count))
            == outstanding_known(names_from(replies), count),
    decreases count,
{
    let commands = script(names_from(replies));
    if count > 0 {
        lemma_outstanding_prefix(replies, count - 1);
        assert(commands.take(count).drop_last() == commands.take(count - 1));
        assert(replies.take(count).drop_last() == replies.take(count - 1));
        assert(commands.take(count).last() == commands[count - 1]);
        assert(replies.take(count).last() == replies[count - 1]);
    }
}

/// A build leaves the program as the only object that the caller still has to
/// release: both shader objects that it created are deleted again, and the
/// program is not. This holds whenever the driver gave the program a name
/// that differs from the names of the two shaders.
pub proof fn lemma_only_program_outstanding(replies: Seq<u32>)
    requires
        replies.len() == COMMAND_COUNT,
        names_from(replies).program != names_from(replies).vertex_shader,
        names_from(replies).program != names_from(replies).fragment_shader,
    ensures
        outstanding(script(names_from(replies)), replies) == set![names_from(replies).program],
{
    let names = names_from(replies);
    lemma_outstanding_prefix(replies, COMMAND_COUNT as int);
    assert(script(names).take(COMMAND_COUNT as int) == script(names));
    assert(replies.take(COMMAND_COUNT as int) == replies);
    assert(outstanding_known(names, COMMAND_COUNT as int) =~= set![names.program]);
}

/// Once the handle of a built program is released, nothing that the build
/// created is left: the release deletes the one name that was outstanding.
pub proof fn lemma_release_leaves_nothing(replies: Seq<u32>, reply: u32)
    requires
        replies.len() == COMMAND_COUNT,
        names_from(replies).program != names_from(replies).vertex_shader,
        names_from(replies).program != names_from(replies).fragment_shader,
    ensures
        outstanding(
            script(names_from(replies)).push(
                Command::DeleteProgram { program: names_from(replies).program },
            ),
            replies.push(reply),
        ) == Set::<u32>::empty(),
{
    let names = names_from(replies);
    let release = Command::DeleteProgram { program: names.program };
    lemma_only_program_outstanding(replies);
    assert(script(names).push(release).drop_last() == script(names));
    assert(replies.push(reply).drop_last() == replies);
    assert(set![names.program].remove(names.program) =~= Set::<u32>::empty());
}

/// Handle of a linked shader program.
///
/// The holder owns the program and gives it back with [`Shader::release`].
pub struct Shader {
    pub id: u32,
}

impl Shader {
    /// The program that a finished build has produced; `None` while commands
    /// are still pending.
    pub fn new(build: &ShaderBuild) -> (shader: Option<Shader>)
        ensures
            shader is Some <==> build@.finished(),
            shader matches Some(s) ==> s.id == build@.names.program,
    {
        if build.is_finished() {
            Some(Shader { id: build.names().program })
        } else {
            None
        }
    }

    /// Gives the handle up: the command that releases the program.
    pub fn release(self) -> (command: Command)
        ensures
            command == (Command::DeleteProgram { program: self.id }),
    {
        Command::DeleteProgram { program: self.id }
    }
}

} // verus!
