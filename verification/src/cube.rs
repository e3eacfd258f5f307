//! The spinning cube: twelve fixed triangles, one shader program, one
//! uniform, and an angle that advances by half a degree with every draw.

use vstd::prelude::*;
use vstd::multiset::Multiset;
use crate::RenderContext;
use crate::command::{Command, MatrixValue, ModelTransform, Primitive, Reply, Resource};
use crate::command::{Step, Turn};
use crate::command::{granted, group_ledger, honours, lemma_settle_inert, settle};
use crate::geometry::{Framing, GeometryBuffer, UploadJob};
use crate::job::{Job, lemma_settle_frame};
use crate::shader::{CompileJob, LinkError, LinkJob, ShaderProgram, link_of, program_object};

verus! {

/// The bit pattern of 1.0.
pub const PLUS_ONE: u32 = 0x3F80_0000;

/// The bit pattern of -1.0.
pub const MINUS_ONE: u32 = 0xBF80_0000;

/// Half degrees in a full turn.
pub const FULL_TURN: u32 = 720;

/// Half degrees by which the cube turns with each draw.
pub const STEP: u32 = 1;

/// The vertices that a cube draws.
pub const CUBE_VERTICES: usize = 36;

/// The cube's triangles, corner by corner: twelve triangles over the eight
/// corners of the cube from -1 to 1.
pub open spec fn cube_corners() -> Seq<[u32; 3]> {
    let p = PLUS_ONE;
    let n = MINUS_ONE;
    seq![
        [n, n, n], [n, n, p], [n, p, p],
        [p, p, n], [n, n, n], [n, p, n],
        [p, n, p], [n, n, n], [p, n, n],
        [p, p, n], [p, n, n], [n, n, n],
        [n, n, n], [n, p, p], [n, p, n],
        [p, n, p], [n, n, p], [n, n, n],
        [n, p, p], [n, n, p], [p, n, p],
        [p, p, p], [p, n, n], [p, p, n],
        [p, n, n], [p, p, p], [p, n, p],
        [p, p, p], [p, p, n], [n, p, n],
        [p, p, p], [n, p, n], [n, p, p],
        [p, p, p], [n, p, p], [p, n, p],
    ]
}

/// The cube's triangles as host data.
pub fn cube_vertices() -> (vertices: Vec<[u32; 3]>)
    ensures
        vertices@ == cube_corners(),
        vertices.len() == CUBE_VERTICES,
{
    let p: u32 = PLUS_ONE;
    let n: u32 = MINUS_ONE;
    let vertices = vec![
        [n, n, n], [n, n, p], [n, p, p],
        [p, p, n], [n, n, n], [n, p, n],
        [p, n, p], [n, n, n], [p, n, n],
        [p, p, n], [p, n, n], [n, n, n],
        [n, n, n], [n, p, p], [n, p, n],
        [p, n, p], [n, n, p], [n, n, n],
        [n, p, p], [n, n, p], [p, n, p],
        [p, p, p], [p, n, n], [p, p, n],
        [p, n, n], [p, p, p], [p, n, p],
        [p, p, p], [p, p, n], [n, p, n],
        [p, p, p], [n, p, n], [n, p, p],
        [p, p, p], [n, p, p], [p, n, p],
    ];
    assert(vertices@ =~= cube_corners());
    vertices
}

/// The angle `step` half degrees past `angle`, within one full turn.
pub open spec fn advanced(angle: int, step: int) -> int {
    (angle + step) % (FULL_TURN as int)
}

/// The angle after `times` advances by `step`, each within one full turn.
pub open spec fn turned(angle: int, step: int, times: nat) -> int
    decreases times,
{
    if times == 0 {
        angle
    } else {
        advanced(turned(angle, step, (times - 1) as nat), step)
    }
}

/// Advances `angle` by `step` half degrees and wraps it at the full turn.
pub fn advance_angle(angle: u32, step: u32) -> (next: u32)
    ensures
        next == advanced(angle as int, step as int),
        next < FULL_TURN,
{
    let sum: u64 = angle as u64 + step as u64;
    (sum % (FULL_TURN as u64)) as u32
}

/// Once an angle has been advanced, it lies within one full turn, wherever
/// it started and whatever the step, and so it does after every further
/// advance.
pub proof fn lemma_turned_stays_in_turn(angle: int, step: int, times: nat)
    ensures
        times > 0 || 0 <= angle < FULL_TURN ==> 0 <= turned(angle, step, times) < FULL_TURN,
{
}

/// Advancing step by step, each time wrapped, comes to where the sum of all
/// the steps, wrapped once, would have led.
pub proof fn lemma_turned_is_sum(angle: int, step: int, times: nat)
    ensures
        times > 0 ==> turned(angle, step, times) == (angle + times * step) % (FULL_TURN as int),
    decreases times,
{
    if times > 1 {
        let before = (times - 1) as nat;
        lemma_turned_is_sum(angle, step, before);
        vstd::arithmetic::div_mod::lemma_add_mod_noop(angle + before * step, step, 720);
        vstd::arithmetic::div_mod::lemma_add_mod_noop(
            (angle + before * step) % 720,
            step,
            720,
        );
        assert(angle + before * step + step == angle + times * step) by (nonlinear_arith)
            requires
                before + 1 == times,
        ;
    } else if times == 1 {
        assert(turned(angle, step, 0) == angle);
        assert(angle + 1 * step == angle + step);
    }
}

/// The cube, ready to be drawn. It owns its program and its geometry.
#[derive(Debug, PartialEq, Eq)]
pub struct Cube {
    pub program: ShaderProgram,
    pub geometry: GeometryBuffer,
    /// The location of the uniform `MVP`, resolved once.
    pub mvp_location: i32,
    /// The rotation about the Y axis, in half degrees.
    pub angle: u32,
}

/// The construction of a cube, under way.
#[derive(Debug, PartialEq, Eq)]
pub enum CubeJob {
    /// The program is being linked.
    Linking { link: LinkJob, name: String, vertices: Vec<[u32; 3]> },
    /// The program is linked; the location of the uniform has been asked
    /// for.
    Locating { program: ShaderProgram, name: String, vertices: Vec<[u32; 3]> },
    /// The geometry is being uploaded.
    Uploading { program: ShaderProgram, mvp_location: i32, upload: UploadJob },
}

impl CubeJob {
    /// The job has asked for the first shader object and holds nothing yet.
    pub open spec fn fresh(&self) -> bool {
        *self matches CubeJob::Linking {
            link: LinkJob::Vertex { compile: CompileJob::Creating { .. }, .. },
            ..
        }
    }

    /// The job is the first state of the construction of a cube from the two
    /// sources.
    pub open spec fn begins(&self, vertex_source: String, fragment_source: String) -> bool {
        match *self {
            CubeJob::Linking { link, name, vertices } => {
                &&& link == link_of(vertex_source, fragment_source)
                &&& name@ == "MVP"@
                &&& vertices@ == cube_corners()
            },
            _ => false,
        }
    }
}

impl Cube {
    /// The objects that the cube owns: those of its program and of its
    /// geometry.
    pub open spec fn holds(&self) -> Multiset<Resource> {
        self.program.holds().add(self.geometry.holds())
    }

    /// One frame: the program is made current, the product of projection,
    /// view and the rotation by `angle` goes to the uniform, and the
    /// geometry is drawn as triangles.
    pub open spec fn frame(&self, context: RenderContext, angle: u32) -> Seq<Command> {
        seq![
            Command::UseProgram { program: self.program.id },
            Command::UniformMatrix {
                location: self.mvp_location,
                value: MatrixValue::Product {
                    projection: context.projection,
                    view: context.view,
                    model: ModelTransform::RotationY { half_degrees: angle },
                },
            },
        ] + self.geometry.drawn(Primitive::Triangles)
    }

    /// The teardown: the geometry first, buffers before the vertex-array
    /// object, then the program.
    pub open spec fn torn_down(&self) -> Seq<Command> {
        self.geometry.torn_down().push(Command::DeleteProgram { program: self.program.id })
    }

    /// Begins to build a cube with the program of the two sources: begins to
    /// link the program.
    pub fn new(vertex_source: String, fragment_source: String) -> (started: (
        CubeJob,
        Vec<Command>,
    ))
        ensures
            started.0.begins(vertex_source, fragment_source),
            started.1@ == seq![Command::CreateShader { stage: crate::command::Stage::Vertex }],
    {
        let (link, batch) = ShaderProgram::load_from(vertex_source, fragment_source);
        let name = "MVP".to_owned();
        (CubeJob::Linking { link, name, vertices: cube_vertices() }, batch)
    }

    /// Advances the angle by half a degree, wrapped at the full turn, and
    /// gives the commands of one frame at the new angle. The time since the
    /// last frame, `_delta`, is taken as a bit pattern and has no say: the
    /// cube turns by the frame, not by the clock.
    pub fn render(&mut self, context: &RenderContext, _delta: u32) -> (commands: Vec<Command>)
        ensures
            final(self).angle == advanced(old(self).angle as int, STEP as int),
            final(self).angle < FULL_TURN,
            final(self).program == old(self).program,
            final(self).geometry == old(self).geometry,
            final(self).mvp_location == old(self).mvp_location,
            commands@ == old(self).frame(*context, final(self).angle),
    {
        self.angle = advance_angle(self.angle, STEP);
        let mut commands = vec![
            self.program.use_program(),
            Command::UniformMatrix {
                location: self.mvp_location,
                value: MatrixValue::Product {
                    projection: context.projection,
                    view: context.view,
                    model: ModelTransform::RotationY { half_degrees: self.angle },
                },
            },
        ];
        let mut draw = self.geometry.bind_and_draw(Primitive::Triangles);
        commands.append(&mut draw);
        assert(commands@ =~= old(self).frame(*context, self.angle));
        commands
    }

    /// The commands that release everything the cube owns. The cube is
    /// consumed: it cannot be released twice.
    pub fn destroy(self) -> (commands: Vec<Command>)
        ensures
            commands@ == self.torn_down(),
    {
        let mut commands = self.geometry.destroy();
        commands.push(self.program.destroy());
        commands
    }

    /// The teardown releases what the cube owns, each object once, and
    /// nothing else.
    pub proof fn lemma_teardown_releases_all(self, base: Multiset<Resource>)
        ensures
            honours(base.add(self.holds()), self.torn_down()),
            settle(base.add(self.holds()), self.torn_down()) == base,
    {
        broadcast use group_ledger;

        let program = Multiset::singleton(program_object(self.program.id));
        assert(base.add(self.holds()) =~= base.add(program).add(self.geometry.holds()));
        self.geometry.lemma_teardown_releases_all(base.add(program));
        assert(base.add(program).remove(program_object(self.program.id)) =~= base);
    }
}

impl Job for CubeJob {
    type Output = Result<Cube, LinkError>;

    open spec fn pending(&self) -> Command {
        match *self {
            CubeJob::Linking { link, .. } => link.pending(),
            CubeJob::Locating { program, name, .. } => Command::UniformLocation {
                program: program.id,
                name,
            },
            CubeJob::Uploading { upload, .. } => upload.pending(),
        }
    }

    open spec fn accepts(&self, reply: Reply) -> bool {
        match *self {
            CubeJob::Linking { link, .. } => link.accepts(reply),
            CubeJob::Locating { .. } => reply is Location,
            CubeJob::Uploading { upload, .. } => upload.accepts(reply),
        }
    }

    /// The program is linked; a link that fails ends the construction with
    /// its error. Then the location of the uniform is asked for, and
    /// whatever the driver answers is kept. Then the corners are uploaded,
    /// without normals or indices, to be framed at each draw. The cube
    /// starts at the angle 0.
    open spec fn next(self, reply: Reply) -> Turn<Self, Result<Cube, LinkError>> {
        match self {
            CubeJob::Linking { link, name, vertices } => match link.next(reply) {
                Turn::Await(link, batch) => Turn::Await(
                    CubeJob::Linking { link, name, vertices },
                    batch,
                ),
                Turn::Done(batch, Ok(program)) => Turn::Await(
                    CubeJob::Locating { program, name, vertices },
                    batch.push(Command::UniformLocation { program: program.id, name }),
                ),
                Turn::Done(batch, Err(error)) => Turn::Done(batch, Err(error)),
            },
            CubeJob::Locating { program, name, vertices } => match reply {
                Reply::Location(mvp_location) => Turn::Await(
                    CubeJob::Uploading {
                        program,
                        mvp_location,
                        upload: UploadJob::Array {
                            positions: vertices,
                            normals: None,
                            indices: None,
                            framing: Framing::PerDraw,
                        },
                    },
                    seq![Command::GenVertexArray],
                ),
                _ => Turn::Await(self, Seq::empty()),
            },
            CubeJob::Uploading { program, mvp_location, upload } => match upload.next(reply) {
                Turn::Await(upload, batch) => Turn::Await(
                    CubeJob::Uploading { program, mvp_location, upload },
                    batch,
                ),
                Turn::Done(batch, geometry) => Turn::Done(
                    batch,
                    Ok(Cube { program, geometry, mvp_location, angle: 0 }),
                ),
            },
        }
    }

    open spec fn holds(&self) -> Multiset<Resource> {
        match *self {
            CubeJob::Linking { link, .. } => link.holds(),
            CubeJob::Locating { program, .. } => program.holds(),
            CubeJob::Uploading { program, upload, .. } => program.holds().add(upload.holds()),
        }
    }

    open spec fn yields(output: Result<Cube, LinkError>) -> Multiset<Resource> {
        match output {
            Ok(cube) => cube.holds(),
            Err(_) => Multiset::empty(),
        }
    }

    fn admits(&self, reply: &Reply) -> (ok: bool) {
        match self {
            CubeJob::Linking { link, .. } => link.admits(reply),
            CubeJob::Locating { .. } => match reply {
                Reply::Location(_) => true,
                _ => false,
            },
            CubeJob::Uploading { upload, .. } => upload.admits(reply),
        }
    }

    fn resume(self, reply: Reply) -> (step: Step<Self, Result<Cube, LinkError>>) {
        match self {
            CubeJob::Linking { link, name, vertices } => match link.resume(reply) {
                Step::Await(link, batch) => Step::Await(
                    CubeJob::Linking { link, name, vertices },
                    batch,
                ),
                Step::Done(batch, Ok(program)) => {
                    let mut batch = batch;
                    batch.push(program.get_uniform(name.clone()));
                    Step::Await(CubeJob::Locating { program, name, vertices }, batch)
                },
                Step::Done(batch, Err(error)) => Step::Done(batch, Err(error)),
            },
            CubeJob::Locating { program, name, vertices } => match reply {
                Reply::Location(mvp_location) => {
                    let (upload, batch) = GeometryBuffer::upload(
                        vertices,
                        None,
                        None,
                        Framing::PerDraw,
                    );
                    Step::Await(CubeJob::Uploading { program, mvp_location, upload }, batch)
                },
                _ => Step::ignored(CubeJob::Locating { program, name, vertices }),
            },
            CubeJob::Uploading { program, mvp_location, upload } => match upload.resume(reply) {
                Step::Await(upload, batch) => Step::Await(
                    CubeJob::Uploading { program, mvp_location, upload },
                    batch,
                ),
                Step::Done(batch, geometry) => Step::Done(
                    batch,
                    Ok(Cube { program, geometry, mvp_location, angle: 0 }),
                ),
            },
        }
    }

    proof fn lemma_unaccepted_is_ignored(self, reply: Reply) {
        match self {
            CubeJob::Linking { link, .. } => link.lemma_unaccepted_is_ignored(reply),
            CubeJob::Locating { .. } => {},
            CubeJob::Uploading { upload, .. } => upload.lemma_unaccepted_is_ignored(reply),
        }
    }

    proof fn lemma_step_accounts(self, reply: Reply) {
        broadcast use group_ledger;

        let ledger = self.holds().add(granted(self.pending(), reply));
        let batch = self.next(reply).commands();
        match self {
            CubeJob::Linking { link, name, vertices } => {
                link.lemma_step_accounts(reply);
            },
            CubeJob::Locating { program, name, vertices } => {
                lemma_settle_inert(ledger, batch);
                assert(ledger =~= program.holds().add(Multiset::empty()));
            },
            CubeJob::Uploading { program, mvp_location, upload } => {
                upload.lemma_step_accounts(reply);
                let credited = upload.holds().add(granted(upload.pending(), reply));
                assert(ledger =~= program.holds().add(credited));
                lemma_settle_frame(program.holds(), credited, batch);
            },
        }
    }
}

} // verus!
