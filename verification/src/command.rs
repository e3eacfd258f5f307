//! The vocabulary spoken with the graphics driver.
//!
//! Nothing in this crate touches the GPU. Every operation is a value: a batch of
//! [`Command`]s for the caller to perform in order, and, where the driver has
//! something to say, a [`Reply`] that the caller hands back. A piece of work
//! that needs several answers is a [`Job`]: it is started with a first batch and
//! resumed with each reply until it is done.

use vstd::prelude::*;
use vstd::multiset::Multiset;

verus! {

/// A programmable pipeline stage.
#[derive(Clone, Copy, Debug, PartialEq, Eq)]
pub enum Stage {
    Vertex,
    Fragment,
}

/// The classes of object that the driver allocates and that must be released.
#[derive(Clone, Copy, Debug, PartialEq, Eq)]
pub enum ResourceKind {
    Shader,
    Program,
    Buffer,
    VertexArray,
}

/// One object of the driver: its class and the id that the driver gave it.
#[derive(Clone, Copy, Debug, PartialEq, Eq)]
pub struct Resource {
    pub kind: ResourceKind,
    pub id: u32,
}

/// The binding point of a data buffer.
#[derive(Clone, Copy, Debug, PartialEq, Eq)]
pub enum BufferTarget {
    /// Per-vertex attributes.
    Array,
    /// Triangle indices.
    ElementArray,
}

/// A 4x4 matrix of single-precision numbers in column-major order, each held
/// as its IEEE 754 bit pattern. The crate carries matrices; it never computes
/// with them.
#[derive(Clone, Copy, Debug, PartialEq, Eq)]
pub struct Mat4 {
    pub words: [u32; 16],
}

/// The model transform of one draw.
#[derive(Clone, Copy, Debug, PartialEq, Eq)]
pub enum ModelTransform {
    /// A matrix that the caller computed.
    Given(Mat4),
    /// The rotation about the Y axis by an angle counted in half degrees.
    RotationY { half_degrees: u32 },
}

/// The matrix that a uniform upload sends.
#[derive(Clone, Copy, Debug, PartialEq, Eq)]
pub enum MatrixValue {
    /// The matrix as it is.
    Given(Mat4),
    /// The product `projection * view * model`, multiplied in this order.
    Product { projection: Mat4, view: Mat4, model: ModelTransform },
}

/// How the vertices of a draw are assembled.
#[derive(Clone, Copy, Debug, PartialEq, Eq)]
pub enum Primitive {
    Points,
    Lines,
    Triangles,
}

/// Host data for one buffer.
#[derive(Clone, Debug, PartialEq, Eq)]
pub enum BufferContents {
    /// Three single-precision components per vertex, as bit patterns.
    Triples(Vec<[u32; 3]>),
    /// Unsigned 16-bit triangle indices.
    Indices(Vec<u16>),
}

/// One request to the driver.
///
/// `CreateShader`, `CreateProgram`, `GenBuffer` and `GenVertexArray` are
/// answered with [`Reply::Handle`], the two `...InfoLog` queries with
/// [`Reply::Log`], and `UniformLocation` with [`Reply::Location`]. The others
/// are not answered.
#[derive(Clone, Debug, PartialEq, Eq)]
pub enum Command {
    CreateShader { stage: Stage },
    ShaderSource { shader: u32, source: String },
    CompileShader { shader: u32 },
    ShaderInfoLog { shader: u32 },
    DeleteShader { shader: u32 },
    CreateProgram,
    AttachShader { program: u32, shader: u32 },
    LinkProgram { program: u32 },
    ProgramInfoLog { program: u32 },
    DetachShader { program: u32, shader: u32 },
    DeleteProgram { program: u32 },
    UniformLocation { program: u32, name: String },
    /// Makes `program` current; 0 makes no program current.
    UseProgram { program: u32 },
    GenVertexArray,
    /// Binds `array`; 0 unbinds.
    BindVertexArray { array: u32 },
    DeleteVertexArray { array: u32 },
    GenBuffer,
    BindBuffer { target: BufferTarget, buffer: u32 },
    /// Copies `contents` into the buffer bound to `target`, to be uploaded once
    /// and drawn many times.
    BufferData { target: BufferTarget, contents: BufferContents },
    DeleteBuffer { buffer: u32 },
    EnableVertexAttribArray { slot: u32 },
    DisableVertexAttribArray { slot: u32 },
    /// Attribute `slot` reads `components` single-precision numbers per vertex,
    /// tightly packed, from the start of the bound array buffer.
    VertexAttribPointer { slot: u32, components: u32 },
    UniformMatrix { location: i32, value: MatrixValue },
    UniformVector { location: i32, value: [u32; 3] },
    /// Draws `count` vertices, from the first.
    DrawArrays { mode: Primitive, count: usize },
    /// Draws `count` 16-bit indices, from the first.
    DrawElements { mode: Primitive, count: usize },
}

/// What the driver answered to the last command of a batch.
#[derive(Clone, Debug, PartialEq, Eq)]
pub enum Reply {
    /// The id of a newly allocated object.
    Handle(u32),
    /// A diagnostic log; the empty text means that there is none.
    Log(String),
    /// The location of a uniform, or [`NOT_FOUND`].
    Location(i32),
}

/// The location that the driver reports for a name that the program does not
/// use. An upload to it is ignored.
pub const NOT_FOUND: i32 = -1;

/// The outcome of one step of a job, as the caller receives it.
pub enum Step<J, T> {
    /// Perform the commands, then resume the job with the answer to the last.
    Await(J, Vec<Command>),
    /// Perform the commands; the job has ended with this result.
    Done(Vec<Command>, T),
}

/// The outcome of one step of a job, as contracts speak of it.
pub enum Turn<J, T> {
    Await(J, Seq<Command>),
    Done(Seq<Command>, T),
}

impl<J, T> View for Step<J, T> {
    type V = Turn<J, T>;

    open spec fn view(&self) -> Turn<J, T> {
        match *self {
            Step::Await(job, commands) => Turn::Await(job, commands@),
            Step::Done(commands, output) => Turn::Done(commands@, output),
        }
    }
}

impl<J, T> Step<J, T> {
    /// The step of a job that stays as it is and issues nothing.
    pub fn ignored(job: J) -> (step: Self)
        ensures
            step@ == Turn::<J, T>::Await(job, Seq::empty()),
    {
        Step::Await(job, Vec::new())
    }
}

impl<J, T> Turn<J, T> {
    /// The batch that this step issues.
    pub open spec fn commands(self) -> Seq<Command> {
        match self {
            Turn::Await(_, commands) => commands,
            Turn::Done(commands, _) => commands,
        }
    }
}

/// What the answer to `query` hands to the caller: the new object where the
/// query asks for one and the answer is a handle, else nothing.
pub open spec fn granted(query: Command, reply: Reply) -> Multiset<Resource> {
    match (query, reply) {
        (Command::CreateShader { .. }, Reply::Handle(id)) => Multiset::singleton(
            Resource { kind: ResourceKind::Shader, id },
        ),
        (Command::CreateProgram, Reply::Handle(id)) => Multiset::singleton(
            Resource { kind: ResourceKind::Program, id },
        ),
        (Command::GenBuffer, Reply::Handle(id)) => Multiset::singleton(
            Resource { kind: ResourceKind::Buffer, id },
        ),
        (Command::GenVertexArray, Reply::Handle(id)) => Multiset::singleton(
            Resource { kind: ResourceKind::VertexArray, id },
        ),
        _ => Multiset::empty(),
    }
}

/// The object that `command` gives back to the driver, if any.
pub open spec fn released(command: Command) -> Option<Resource> {
    match command {
        Command::DeleteShader { shader } => Some(Resource { kind: ResourceKind::Shader, id: shader }),
        Command::DeleteProgram { program } => Some(
            Resource { kind: ResourceKind::Program, id: program },
        ),
        Command::DeleteBuffer { buffer } => Some(Resource { kind: ResourceKind::Buffer, id: buffer }),
        Command::DeleteVertexArray { array } => Some(
            Resource { kind: ResourceKind::VertexArray, id: array },
        ),
        _ => None,
    }
}

/// The ledger of outstanding objects after `command`.
pub open spec fn settle_one(ledger: Multiset<Resource>, command: Command) -> Multiset<Resource> {
    match released(command) {
        Some(resource) => ledger.remove(resource),
        None => ledger,
    }
}

/// `command` releases nothing that `ledger` does not hold.
pub open spec fn honours_one(ledger: Multiset<Resource>, command: Command) -> bool {
    match released(command) {
        Some(resource) => ledger.contains(resource),
        None => true,
    }
}

/// The ledger of outstanding objects after the commands of `batch`, in order.
pub open spec fn settle(ledger: Multiset<Resource>, batch: Seq<Command>) -> Multiset<Resource>
    decreases batch.len(),
{
    if batch.len() == 0 {
        ledger
    } else {
        settle_one(settle(ledger, batch.drop_last()), batch.last())
    }
}

/// No command of `batch` releases an object that is not outstanding when its
/// turn comes: nothing is released twice, and nothing that was never granted.
pub open spec fn honours(ledger: Multiset<Resource>, batch: Seq<Command>) -> bool
    decreases batch.len(),
{
    batch.len() == 0 || (honours(ledger, batch.drop_last()) && honours_one(
        settle(ledger, batch.drop_last()),
        batch.last(),
    ))
}

/// Settling a batch that ends in `command` settles what precedes it, then
/// `command`.
pub broadcast proof fn lemma_settle_push(
    ledger: Multiset<Resource>,
    batch: Seq<Command>,
    command: Command,
)
    ensures
        #[trigger] settle(ledger, batch.push(command)) == settle_one(
            settle(ledger, batch),
            command,
        ),
{
    assert(batch.push(command).drop_last() =~= batch);
}

/// A batch that ends in `command` is in order when what precedes it is, and
/// `command` after that.
pub broadcast proof fn lemma_honours_push(
    ledger: Multiset<Resource>,
    batch: Seq<Command>,
    command: Command,
)
    ensures
        #[trigger] honours(ledger, batch.push(command)) == (honours(ledger, batch) && honours_one(
            settle(ledger, batch),
            command,
        )),
{
    assert(batch.push(command).drop_last() =~= batch);
}

/// How the ledger and its order unfold along a batch, command by command.
pub broadcast group group_ledger {
    lemma_settle_push,
    lemma_honours_push,
}

/// A batch that releases nothing is in order on every ledger and leaves it as
/// it was.
pub proof fn lemma_settle_inert(ledger: Multiset<Resource>, batch: Seq<Command>)
    requires
        forall|i: int| 0 <= i < batch.len() ==> released(#[trigger] batch[i]) is None,
    ensures
        honours(ledger, batch),
        settle(ledger, batch) == ledger,
    decreases batch.len(),
{
    if batch.len() > 0 {
        lemma_settle_inert(ledger, batch.drop_last());
    }
}

/// Settling two batches in a row settles the first, then the second.
pub proof fn lemma_settle_concat(ledger: Multiset<Resource>, first: Seq<Command>, second: Seq<Command>)
    ensures
        settle(ledger, first + second) == settle(settle(ledger, first), second),
        honours(ledger, first + second) == (honours(ledger, first) && honours(
            settle(ledger, first),
            second,
        )),
    decreases second.len(),
{
    if second.len() == 0 {
        assert(first + second =~= first);
    } else {
        lemma_settle_concat(ledger, first, second.drop_last());
        assert((first + second).drop_last() =~= first + second.drop_last());
        assert((first + second).last() == second.last());
    }
}

} // verus!
