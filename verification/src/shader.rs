//! Shader units and linked programs.
//!
//! A unit is compiled from source text, a program is linked from a vertex and
//! a fragment unit. A stage whose diagnostic log is not empty has failed, and
//! so has a link whose log is not empty. Whatever fails, every object that was
//! allocated on the way is released before the error is returned.

use vstd::prelude::*;
use vstd::multiset::Multiset;
use crate::command::{Command, Reply, Resource, ResourceKind, Stage, Step, Turn};
use crate::command::{granted, group_ledger, honours, settle};
use crate::command::{lemma_settle_concat, lemma_settle_inert};
use crate::job::{Job, lemma_settle_frame};

verus! {

/// A stage that did not compile, with what the compiler said.
#[derive(Clone, Debug, PartialEq, Eq)]
pub struct CompileError {
    pub stage: Stage,
    pub diagnostic: String,
}

/// Why no program was linked.
#[derive(Clone, Debug, PartialEq, Eq)]
pub enum LinkError {
    /// One of the two stages did not compile.
    Compile { stage: Stage, diagnostic: String },
    /// The stages compiled, and the linker refused them.
    Link { diagnostic: String },
}

/// A compiled shader unit. It owns its shader object.
#[derive(Debug, PartialEq, Eq)]
pub struct Shader {
    pub id: u32,
    pub stage: Stage,
}

/// The compilation of one unit, under way.
#[derive(Debug, PartialEq, Eq)]
pub enum CompileJob {
    /// The shader object has been asked for.
    Creating { stage: Stage, source: String },
    /// The source is submitted and compiled; the log has been asked for.
    Compiling { stage: Stage, shader: u32 },
}

/// The shader object with the id `id`.
pub open spec fn shader_object(id: u32) -> Resource {
    Resource { kind: ResourceKind::Shader, id }
}

/// The program object with the id `id`.
pub open spec fn program_object(id: u32) -> Resource {
    Resource { kind: ResourceKind::Program, id }
}

impl Shader {
    /// The objects that the unit owns: its shader object.
    pub open spec fn holds(&self) -> Multiset<Resource> {
        Multiset::singleton(shader_object(self.id))
    }

    /// Begins to compile `source` as a unit of `stage`: asks the driver for a
    /// shader object.
    pub fn load_from(source: String, stage: Stage) -> (started: (CompileJob, Vec<Command>))
        ensures
            started.0 == (CompileJob::Creating { stage, source }),
            started.1@ == seq![Command::CreateShader { stage }],
    {
        (CompileJob::Creating { stage, source }, vec![Command::CreateShader { stage }])
    }

    /// The id that the driver gave the shader object.
    pub fn handle(&self) -> (id: u32)
        ensures
            id == self.id,
    {
        self.id
    }

    /// The command that releases the shader object. The unit is consumed: it
    /// cannot be released twice.
    pub fn destroy(self) -> (command: Command)
        ensures
            command == (Command::DeleteShader { shader: self.id }),
    {
        Command::DeleteShader { shader: self.id }
    }
}

impl Job for CompileJob {
    type Output = Result<Shader, CompileError>;

    open spec fn pending(&self) -> Command {
        match *self {
            CompileJob::Creating { stage, .. } => Command::CreateShader { stage },
            CompileJob::Compiling { shader, .. } => Command::ShaderInfoLog { shader },
        }
    }

    open spec fn accepts(&self, reply: Reply) -> bool {
        match *self {
            CompileJob::Creating { .. } => reply is Handle,
            CompileJob::Compiling { .. } => reply is Log,
        }
    }

    /// With its shader object, the job submits the source, compiles it and
    /// asks for the log. An empty log ends it with the unit. Any other log
    /// ends it with the error, after the shader object has been deleted.
    open spec fn next(self, reply: Reply) -> Turn<Self, Result<Shader, CompileError>> {
        match (self, reply) {
            (CompileJob::Creating { stage, source }, Reply::Handle(shader)) => Turn::Await(
                CompileJob::Compiling { stage, shader },
                seq![
                    Command::ShaderSource { shader, source },
                    Command::CompileShader { shader },
                    Command::ShaderInfoLog { shader },
                ],
            ),
            (CompileJob::Compiling { stage, shader }, Reply::Log(diagnostic)) => {
                if diagnostic@.len() == 0 {
                    Turn::Done(Seq::empty(), Ok(Shader { id: shader, stage }))
                } else {
                    Turn::Done(
                        seq![Command::DeleteShader { shader }],
                        Err(CompileError { stage, diagnostic }),
                    )
                }
            },
            _ => Turn::Await(self, Seq::empty()),
        }
    }

    open spec fn holds(&self) -> Multiset<Resource> {
        match *self {
            CompileJob::Creating { .. } => Multiset::empty(),
            CompileJob::Compiling { shader, .. } => Multiset::singleton(shader_object(shader)),
        }
    }

    open spec fn yields(output: Result<Shader, CompileError>) -> Multiset<Resource> {
        match output {
            Ok(unit) => unit.holds(),
            Err(_) => Multiset::empty(),
        }
    }

    fn admits(&self, reply: &Reply) -> (ok: bool) {
        match self {
            CompileJob::Creating { .. } => match reply {
                Reply::Handle(_) => true,
                _ => false,
            },
            CompileJob::Compiling { .. } => match reply {
                Reply::Log(_) => true,
                _ => false,
            },
        }
    }

    fn resume(self, reply: Reply) -> (step: Step<Self, Result<Shader, CompileError>>) {
        match self {
            CompileJob::Creating { stage, source } => match reply {
                Reply::Handle(shader) => {
                    let batch = vec![
                        Command::ShaderSource { shader, source },
                        Command::CompileShader { shader },
                        Command::ShaderInfoLog { shader },
                    ];
                    assert(batch@ =~= seq![
                        Command::ShaderSource { shader, source },
                        Command::CompileShader { shader },
                        Command::ShaderInfoLog { shader },
                    ]);
                    Step::Await(CompileJob::Compiling { stage, shader }, batch)
                },
                _ => Step::ignored(CompileJob::Creating { stage, source }),
            },
            CompileJob::Compiling { stage, shader } => match reply {
                Reply::Log(diagnostic) => {
                    if diagnostic.as_str().is_empty() {
                        let batch: Vec<Command> = Vec::new();
                        assert(batch@ =~= Seq::empty());
                        Step::Done(batch, Ok(Shader { id: shader, stage }))
                    } else {
                        let batch = vec![Command::DeleteShader { shader }];
                        assert(batch@ =~= seq![Command::DeleteShader { shader }]);
                        Step::Done(batch, Err(CompileError { stage, diagnostic }))
                    }
                },
                _ => Step::ignored(CompileJob::Compiling { stage, shader }),
            },
        }
    }

    proof fn lemma_unaccepted_is_ignored(self, reply: Reply) {
    }

    proof fn lemma_step_accounts(self, reply: Reply) {
        broadcast use group_ledger;

        let ledger = self.holds().add(granted(self.pending(), reply));
        let batch = self.next(reply).commands();
        match (self, reply) {
            (CompileJob::Creating { stage, source }, Reply::Handle(shader)) => {
                assert(ledger =~= Multiset::singleton(shader_object(shader)));
                lemma_settle_inert(ledger, batch);
            },
            (CompileJob::Compiling { stage, shader }, Reply::Log(diagnostic)) => {
                assert(ledger =~= Multiset::singleton(shader_object(shader)));
                assert(ledger.remove(shader_object(shader)) =~= Multiset::empty());
                if diagnostic@.len() == 0 {
                    lemma_settle_inert(ledger, batch);
                } else {
                    let none = Seq::<Command>::empty();
                    assert(settle(ledger, none) == ledger);
                    assert(honours(ledger, none));
                }
            },
            _ => {
                assert(ledger =~= self.holds());
            },
        }
    }
}

/// A linked program. It owns its program object.
#[derive(Debug, PartialEq, Eq)]
pub struct ShaderProgram {
    pub id: u32,
}

/// The linking of a program, under way.
#[derive(Debug, PartialEq, Eq)]
pub enum LinkJob {
    /// The vertex unit is being compiled.
    Vertex { compile: CompileJob, fragment_source: String },
    /// The vertex unit is there; the fragment unit is being compiled.
    Fragment { vertex: Shader, compile: CompileJob },
    /// Both units are there; the program object has been asked for.
    Creating { vertex: Shader, fragment: Shader },
    /// Both units are attached and linked; the log has been asked for.
    Linking { vertex: Shader, fragment: Shader, program: u32 },
}

/// What the link of the two sources begins as: the compilation of the
/// vertex unit.
pub open spec fn link_of(vertex_source: String, fragment_source: String) -> LinkJob {
    LinkJob::Vertex {
        compile: CompileJob::Creating { stage: Stage::Vertex, source: vertex_source },
        fragment_source,
    }
}

/// The batch that ends every link, after the program object has been dealt
/// with: both units are detached, then deleted, the fragment unit first.
pub open spec fn units_released(program: u32, vertex: u32, fragment: u32) -> Seq<Command> {
    seq![
        Command::DetachShader { program, shader: vertex },
        Command::DetachShader { program, shader: fragment },
        Command::DeleteShader { shader: fragment },
        Command::DeleteShader { shader: vertex },
    ]
}

/// Releasing the units takes the fragment unit off the ledger, then the
/// vertex unit, and is in order where the ledger holds both.
pub proof fn lemma_units_released(
    ledger: Multiset<Resource>,
    program: u32,
    vertex: u32,
    fragment: u32,
)
    ensures
        settle(ledger, units_released(program, vertex, fragment)) == ledger.remove(
            shader_object(fragment),
        ).remove(shader_object(vertex)),
        honours(ledger, units_released(program, vertex, fragment)) == (ledger.contains(
            shader_object(fragment),
        ) && ledger.remove(shader_object(fragment)).contains(shader_object(vertex))),
{
    broadcast use group_ledger;

    let a = Command::DetachShader { program, shader: vertex };
    let b = Command::DetachShader { program, shader: fragment };
    let c = Command::DeleteShader { shader: fragment };
    let d = Command::DeleteShader { shader: vertex };
    let none = Seq::<Command>::empty();
    assert(units_released(program, vertex, fragment) == none.push(a).push(b).push(c).push(d));
    assert(settle(ledger, none) == ledger);
    assert(honours(ledger, none));
    assert(settle(ledger, none.push(a)) == ledger);
    assert(settle(ledger, none.push(a).push(b)) == ledger);
    assert(honours(ledger, none.push(a).push(b)));
}

impl ShaderProgram {
    /// The objects that the program owns: its program object.
    pub open spec fn holds(&self) -> Multiset<Resource> {
        Multiset::singleton(program_object(self.id))
    }

    /// Begins to link a program from the two sources: begins to compile the
    /// vertex unit.
    pub fn load_from(vertex_source: String, fragment_source: String) -> (started: (
        LinkJob,
        Vec<Command>,
    ))
        ensures
            started.0 == link_of(vertex_source, fragment_source),
            started.1@ == seq![Command::CreateShader { stage: Stage::Vertex }],
    {
        let (compile, batch) = Shader::load_from(vertex_source, Stage::Vertex);
        (LinkJob::Vertex { compile, fragment_source }, batch)
    }

    /// The query for the location of the uniform `name`. The driver answers
    /// with a location, or with [`crate::command::NOT_FOUND`] where the
    /// program has no such uniform: that is no error.
    pub fn get_uniform(&self, name: String) -> (query: Command)
        ensures
            query == (Command::UniformLocation { program: self.id, name }),
    {
        Command::UniformLocation { program: self.id, name }
    }

    /// The command that makes this program current for the draws that
    /// follow.
    pub fn use_program(&self) -> (command: Command)
        ensures
            command == (Command::UseProgram { program: self.id }),
    {
        Command::UseProgram { program: self.id }
    }

    /// The id that the driver gave the program object.
    pub fn handle(&self) -> (id: u32)
        ensures
            id == self.id,
    {
        self.id
    }

    /// The command that releases the program object. The program is
    /// consumed: it cannot be released twice.
    pub fn destroy(self) -> (command: Command)
        ensures
            command == (Command::DeleteProgram { program: self.id }),
    {
        Command::DeleteProgram { program: self.id }
    }
}

impl Job for LinkJob {
    type Output = Result<ShaderProgram, LinkError>;

    open spec fn pending(&self) -> Command {
        match *self {
            LinkJob::Vertex { compile, .. } => compile.pending(),
            LinkJob::Fragment { compile, .. } => compile.pending(),
            LinkJob::Creating { .. } => Command::CreateProgram,
            LinkJob::Linking { program, .. } => Command::ProgramInfoLog { program },
        }
    }

    open spec fn accepts(&self, reply: Reply) -> bool {
        match *self {
            LinkJob::Vertex { compile, .. } => compile.accepts(reply),
            LinkJob::Fragment { compile, .. } => compile.accepts(reply),
            LinkJob::Creating { .. } => reply is Handle,
            LinkJob::Linking { .. } => reply is Log,
        }
    }

    /// The vertex unit is compiled, then the fragment unit. A unit that
    /// fails ends the link with its error; the vertex unit is deleted where
    /// it is the fragment unit that failed. With both units, the job asks for
    /// a program object, attaches them, links and asks for the log. An empty
    /// log ends it with the program. Any other log ends it with the error,
    /// after the program object has been deleted. Either way the units are
    /// detached and deleted.
    open spec fn next(self, reply: Reply) -> Turn<Self, Result<ShaderProgram, LinkError>> {
        match self {
            LinkJob::Vertex { compile, fragment_source } => match compile.next(reply) {
                Turn::Await(compile, batch) => Turn::Await(
                    LinkJob::Vertex { compile, fragment_source },
                    batch,
                ),
                Turn::Done(batch, Ok(vertex)) => Turn::Await(
                    LinkJob::Fragment {
                        vertex,
                        compile: CompileJob::Creating {
                            stage: Stage::Fragment,
                            source: fragment_source,
                        },
                    },
                    batch + seq![Command::CreateShader { stage: Stage::Fragment }],
                ),
                Turn::Done(batch, Err(error)) => Turn::Done(
                    batch,
                    Err(LinkError::Compile { stage: error.stage, diagnostic: error.diagnostic }),
                ),
            },
            LinkJob::Fragment { vertex, compile } => match compile.next(reply) {
                Turn::Await(compile, batch) => Turn::Await(
                    LinkJob::Fragment { vertex, compile },
                    batch,
                ),
                Turn::Done(batch, Ok(fragment)) => Turn::Await(
                    LinkJob::Creating { vertex, fragment },
                    batch.push(Command::CreateProgram),
                ),
                Turn::Done(batch, Err(error)) => Turn::Done(
                    batch.push(Command::DeleteShader { shader: vertex.id }),
                    Err(LinkError::Compile { stage: error.stage, diagnostic: error.diagnostic }),
                ),
            },
            LinkJob::Creating { vertex, fragment } => match reply {
                Reply::Handle(program) => Turn::Await(
                    LinkJob::Linking { vertex, fragment, program },
                    seq![
                        Command::AttachShader { program, shader: vertex.id },
                        Command::AttachShader { program, shader: fragment.id },
                        Command::LinkProgram { program },
                        Command::ProgramInfoLog { program },
                    ],
                ),
                _ => Turn::Await(self, Seq::empty()),
            },
            LinkJob::Linking { vertex, fragment, program } => match reply {
                Reply::Log(diagnostic) => {
                    if diagnostic@.len() == 0 {
                        Turn::Done(
                            units_released(program, vertex.id, fragment.id),
                            Ok(ShaderProgram { id: program }),
                        )
                    } else {
                        Turn::Done(
                            seq![Command::DeleteProgram { program }] + units_released(
                                program,
                                vertex.id,
                                fragment.id,
                            ),
                            Err(LinkError::Link { diagnostic }),
                        )
                    }
                },
                _ => Turn::Await(self, Seq::empty()),
            },
        }
    }

    open spec fn holds(&self) -> Multiset<Resource> {
        match *self {
            LinkJob::Vertex { compile, .. } => compile.holds(),
            LinkJob::Fragment { vertex, compile } => vertex.holds().add(compile.holds()),
            LinkJob::Creating { vertex, fragment } => vertex.holds().add(fragment.holds()),
            LinkJob::Linking { vertex, fragment, program } => vertex.holds().add(
                fragment.holds(),
            ).add(Multiset::singleton(program_object(program))),
        }
    }

    open spec fn yields(output: Result<ShaderProgram, LinkError>) -> Multiset<Resource> {
        match output {
            Ok(program) => program.holds(),
            Err(_) => Multiset::empty(),
        }
    }

    fn admits(&self, reply: &Reply) -> (ok: bool) {
        match self {
            LinkJob::Vertex { compile, .. } => compile.admits(reply),
            LinkJob::Fragment { compile, .. } => compile.admits(reply),
            LinkJob::Creating { .. } => match reply {
                Reply::Handle(_) => true,
                _ => false,
            },
            LinkJob::Linking { .. } => match reply {
                Reply::Log(_) => true,
                _ => false,
            },
        }
    }

    fn resume(self, reply: Reply) -> (step: Step<Self, Result<ShaderProgram, LinkError>>) {
        match self {
            LinkJob::Vertex { compile, fragment_source } => match compile.resume(reply) {
                Step::Await(compile, batch) => Step::Await(
                    LinkJob::Vertex { compile, fragment_source },
                    batch,
                ),
                Step::Done(batch, Ok(vertex)) => {
                    let mut batch = batch;
                    let (compile, mut first) = Shader::load_from(fragment_source, Stage::Fragment);
                    batch.append(&mut first);
                    Step::Await(LinkJob::Fragment { vertex, compile }, batch)
                },
                Step::Done(batch, Err(error)) => Step::Done(
                    batch,
                    Err(LinkError::Compile { stage: error.stage, diagnostic: error.diagnostic }),
                ),
            },
            LinkJob::Fragment { vertex, compile } => match compile.resume(reply) {
                Step::Await(compile, batch) => Step::Await(
                    LinkJob::Fragment { vertex, compile },
                    batch,
                ),
                Step::Done(batch, Ok(fragment)) => {
                    let mut batch = batch;
                    batch.push(Command::CreateProgram);
                    Step::Await(LinkJob::Creating { vertex, fragment }, batch)
                },
                Step::Done(batch, Err(error)) => {
                    let mut batch = batch;
                    batch.push(vertex.destroy());
                    Step::Done(
                        batch,
                        Err(
                            LinkError::Compile {
                                stage: error.stage,
                                diagnostic: error.diagnostic,
                            },
                        ),
                    )
                },
            },
            LinkJob::Creating { vertex, fragment } => match reply {
                Reply::Handle(program) => {
                    let batch = vec![
                        Command::AttachShader { program, shader: vertex.id },
                        Command::AttachShader { program, shader: fragment.id },
                        Command::LinkProgram { program },
                        Command::ProgramInfoLog { program },
                    ];
                    assert(batch@ =~= seq![
                        Command::AttachShader { program, shader: vertex.id },
                        Command::AttachShader { program, shader: fragment.id },
                        Command::LinkProgram { program },
                        Command::ProgramInfoLog { program },
                    ]);
                    Step::Await(LinkJob::Linking { vertex, fragment, program }, batch)
                },
                _ => Step::ignored(LinkJob::Creating { vertex, fragment }),
            },
            LinkJob::Linking { vertex, fragment, program } => match reply {
                Reply::Log(diagnostic) => {
                    let linked = ShaderProgram { id: program };
                    let mut batch: Vec<Command> = Vec::new();
                    let failed = !diagnostic.as_str().is_empty();
                    if failed {
                        batch.push(Command::DeleteProgram { program });
                    }
                    batch.push(Command::DetachShader { program, shader: vertex.id });
                    batch.push(Command::DetachShader { program, shader: fragment.id });
                    batch.push(fragment.destroy());
                    batch.push(vertex.destroy());
                    if failed {
                        assert(batch@ =~= seq![Command::DeleteProgram { program }]
                            + units_released(program, vertex.id, fragment.id));
                        Step::Done(batch, Err(LinkError::Link { diagnostic }))
                    } else {
                        assert(batch@ =~= units_released(program, vertex.id, fragment.id));
                        Step::Done(batch, Ok(linked))
                    }
                },
                _ => Step::ignored(LinkJob::Linking { vertex, fragment, program }),
            },
        }
    }

    proof fn lemma_unaccepted_is_ignored(self, reply: Reply) {
        match self {
            LinkJob::Vertex { compile, .. } => compile.lemma_unaccepted_is_ignored(reply),
            LinkJob::Fragment { compile, .. } => compile.lemma_unaccepted_is_ignored(reply),
            _ => {},
        }
    }

    proof fn lemma_step_accounts(self, reply: Reply) {
        broadcast use group_ledger;

        let ledger = self.holds().add(granted(self.pending(), reply));
        let batch = self.next(reply).commands();
        match self {
            LinkJob::Vertex { compile, fragment_source } => {
                compile.lemma_step_accounts(reply);
                match compile.next(reply) {
                    Turn::Done(inner, Ok(vertex)) => {
                        let first = seq![Command::CreateShader { stage: Stage::Fragment }];
                        lemma_settle_concat(ledger, inner, first);
                        lemma_settle_inert(settle(ledger, inner), first);
                        assert(vertex.holds().add(Multiset::empty()) =~= vertex.holds());
                    },
                    _ => {},
                }
            },
            LinkJob::Fragment { vertex, compile } => {
                compile.lemma_step_accounts(reply);
                let inner = compile.next(reply).commands();
                let credited = compile.holds().add(granted(compile.pending(), reply));
                assert(ledger =~= vertex.holds().add(credited));
                lemma_settle_frame(vertex.holds(), credited, inner);
                match compile.next(reply) {
                    Turn::Done(_, Err(_)) => {
                        assert(vertex.holds().add(Multiset::empty()).remove(
                            shader_object(vertex.id),
                        ) =~= Multiset::empty());
                    },
                    _ => {},
                }
            },
            LinkJob::Creating { vertex, fragment } => {
                lemma_settle_inert(ledger, batch);
                if !(reply is Handle) {
                    assert(ledger =~= self.holds());
                }
            },
            LinkJob::Linking { vertex, fragment, program } => {
                let v = shader_object(vertex.id);
                let f = shader_object(fragment.id);
                let p = program_object(program);
                let released = units_released(program, vertex.id, fragment.id);
                assert(ledger =~= Multiset::singleton(v).add(Multiset::singleton(f)).add(
                    Multiset::singleton(p),
                ));
                match reply {
                    Reply::Log(diagnostic) => {
                        if diagnostic@.len() == 0 {
                            lemma_units_released(ledger, program, vertex.id, fragment.id);
                            assert(ledger.remove(f).remove(v) =~= Multiset::singleton(p));
                        } else {
                            let first = seq![Command::DeleteProgram { program }];
                            lemma_settle_concat(ledger, first, released);
                            let rest = ledger.remove(p);
                            assert(settle(ledger, first) == rest);
                            assert(rest =~= Multiset::singleton(v).add(Multiset::singleton(f)));
                            lemma_units_released(rest, program, vertex.id, fragment.id);
                            assert(rest.remove(f).remove(v) =~= Multiset::empty());
                        }
                    },
                    _ => {
                        assert(ledger =~= self.holds());
                    },
                }
            },
        }
    }
}

} // verus!
