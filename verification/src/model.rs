//! A loaded mesh, lit by one fixed light: positions, normals and 16-bit
//! indices, one shader program and four uniforms.

use vstd::prelude::*;
use vstd::multiset::Multiset;
use crate::RenderContext;
use crate::command::{Command, Mat4, MatrixValue, ModelTransform, Primitive, Reply, Resource};
use crate::command::{NOT_FOUND, Stage, Step, Turn};
use crate::command::{granted, group_ledger, honours, lemma_settle_inert, settle};
use crate::geometry::{Framing, GeometryBuffer, UploadJob};
use crate::job::{Job, lemma_settle_frame};
use crate::shader::{CompileJob, LinkError, LinkJob, ShaderProgram, link_of, program_object};

verus! {

/// The bit pattern of 4.0: the light stands at (4, 4, 4) in the world.
pub const LIGHT_COORDINATE: u32 = 0x4080_0000;

/// One vertex of a mesh.
#[derive(Clone, Copy, Debug, PartialEq, Eq)]
pub struct Vertex {
    pub position: [u32; 3],
    pub normal: [u32; 3],
}

/// A decoded mesh: its vertices, and its triangles as indices into them.
#[derive(Clone, Debug, PartialEq, Eq)]
pub struct Mesh {
    pub vertices: Vec<Vertex>,
    pub indices: Vec<u16>,
}

impl Mesh {
    /// Every index names a vertex.
    pub open spec fn well_formed(&self) -> bool {
        forall|i: int|
            0 <= i < self.indices@.len() ==> (#[trigger] self.indices@[i]) < self.vertices@.len()
    }

    /// Tells whether every index names a vertex. A mesh of which this does
    /// not hold is still uploaded as it is: to draw it is the caller's
    /// fault.
    pub fn is_well_formed(&self) -> (ok: bool)
        ensures
            ok == self.well_formed(),
    {
        let count = self.vertices.len();
        let mut i: usize = 0;
        while i < self.indices.len()
            invariant
                i <= self.indices@.len(),
                count == self.vertices@.len(),
                forall|k: int| 0 <= k < i ==> (#[trigger] self.indices@[k]) < count,
            decreases self.indices@.len() - i,
        {
            if self.indices[i] as usize >= count {
                return false;
            }
            i = i + 1;
        }
        true
    }
}

/// Why the mesh loader gave no mesh. The text is the loader's own.
#[derive(Clone, Debug, PartialEq, Eq)]
pub enum AssetLoadError {
    /// The asset could not be read.
    Io(String),
    /// The asset could not be decoded.
    Decode(String),
}

/// The uniforms that the model's shaders are given.
#[derive(Clone, Copy, Debug, PartialEq, Eq)]
pub enum Uniform {
    /// The product of projection, view and model matrix.
    Mvp,
    /// The model matrix.
    Model,
    /// The view matrix.
    View,
    /// The light's place in the world.
    Light,
}

/// The names of the uniforms in the shader sources.
#[derive(Clone, Debug, PartialEq, Eq)]
pub struct UniformNames {
    pub mvp: String,
    pub model: String,
    pub view: String,
    pub light: String,
}

/// The locations of the uniforms, resolved once.
#[derive(Clone, Copy, Debug, PartialEq, Eq)]
pub struct Locations {
    pub mvp: i32,
    pub model: i32,
    pub view: i32,
    pub light: i32,
}

impl Uniform {
    /// The uniform that is resolved after this one.
    pub open spec fn following(self) -> Option<Uniform> {
        match self {
            Uniform::Mvp => Some(Uniform::Model),
            Uniform::Model => Some(Uniform::View),
            Uniform::View => Some(Uniform::Light),
            Uniform::Light => None,
        }
    }

    /// The uniform that is resolved after this one, if any.
    pub fn successor(self) -> (next: Option<Uniform>)
        ensures
            next == self.following(),
    {
        match self {
            Uniform::Mvp => Some(Uniform::Model),
            Uniform::Model => Some(Uniform::View),
            Uniform::View => Some(Uniform::Light),
            Uniform::Light => None,
        }
    }
}

impl UniformNames {
    /// The names are those that the shaders of a model declare.
    pub open spec fn standard(&self) -> bool {
        &&& self.mvp@ == "MVP"@
        &&& self.model@ == "M"@
        &&& self.view@ == "V"@
        &&& self.light@ == "LightPosition_worldspace"@
    }

    /// The name of `uniform`.
    pub open spec fn name_of(&self, uniform: Uniform) -> String {
        match uniform {
            Uniform::Mvp => self.mvp,
            Uniform::Model => self.model,
            Uniform::View => self.view,
            Uniform::Light => self.light,
        }
    }

    /// The names that the shaders of a model declare.
    pub fn new() -> (names: Self)
        ensures
            names.standard(),
    {
        UniformNames {
            mvp: "MVP".to_owned(),
            model: "M".to_owned(),
            view: "V".to_owned(),
            light: "LightPosition_worldspace".to_owned(),
        }
    }

    /// A copy of the name of `uniform`.
    pub fn name(&self, uniform: Uniform) -> (name: String)
        ensures
            name == self.name_of(uniform),
    {
        match uniform {
            Uniform::Mvp => self.mvp.clone(),
            Uniform::Model => self.model.clone(),
            Uniform::View => self.view.clone(),
            Uniform::Light => self.light.clone(),
        }
    }
}

impl Locations {
    /// These locations, with that of `uniform` set to `location`.
    pub open spec fn with(self, uniform: Uniform, location: i32) -> Locations {
        match uniform {
            Uniform::Mvp => Locations { mvp: location, ..self },
            Uniform::Model => Locations { model: location, ..self },
            Uniform::View => Locations { view: location, ..self },
            Uniform::Light => Locations { light: location, ..self },
        }
    }

    /// No uniform resolved yet.
    pub open spec fn unresolved() -> Locations {
        Locations { mvp: NOT_FOUND, model: NOT_FOUND, view: NOT_FOUND, light: NOT_FOUND }
    }

    /// These locations, with that of `uniform` set to `location`.
    pub fn set(self, uniform: Uniform, location: i32) -> (locations: Locations)
        ensures
            locations == self.with(uniform, location),
    {
        match uniform {
            Uniform::Mvp => Locations { mvp: location, ..self },
            Uniform::Model => Locations { model: location, ..self },
            Uniform::View => Locations { view: location, ..self },
            Uniform::Light => Locations { light: location, ..self },
        }
    }
}

/// The positions of `vertices`, in order.
pub open spec fn positions_of(vertices: Seq<Vertex>) -> Seq<[u32; 3]> {
    Seq::new(vertices.len(), |i: int| vertices[i].position)
}

/// The normals of `vertices`, in order.
pub open spec fn normals_of(vertices: Seq<Vertex>) -> Seq<[u32; 3]> {
    Seq::new(vertices.len(), |i: int| vertices[i].normal)
}

/// Parts the vertices into their positions and their normals.
pub fn split_vertices(vertices: &Vec<Vertex>) -> (parts: (Vec<[u32; 3]>, Vec<[u32; 3]>))
    ensures
        parts.0@ == positions_of(vertices@),
        parts.1@ == normals_of(vertices@),
{
    let mut positions: Vec<[u32; 3]> = Vec::new();
    let mut normals: Vec<[u32; 3]> = Vec::new();
    let mut i: usize = 0;
    while i < vertices.len()
        invariant
            i <= vertices.len(),
            positions@ == positions_of(vertices@.take(i as int)),
            normals@ == normals_of(vertices@.take(i as int)),
        decreases vertices.len() - i,
    {
        let vertex = vertices[i];
        positions.push(vertex.position);
        normals.push(vertex.normal);
        i = i + 1;
        assert(positions@ =~= positions_of(vertices@.take(i as int)));
        assert(normals@ =~= normals_of(vertices@.take(i as int)));
    }
    assert(vertices@.take(i as int) =~= vertices@);
    (positions, normals)
}

/// The model, ready to be drawn. It owns its program and its geometry.
#[derive(Debug, PartialEq, Eq)]
pub struct Model {
    pub program: ShaderProgram,
    pub geometry: GeometryBuffer,
    pub locations: Locations,
}

/// The construction of a model, under way.
#[derive(Debug, PartialEq, Eq)]
pub enum ModelJob {
    /// The program is being linked.
    Linking {
        link: LinkJob,
        names: UniformNames,
        positions: Vec<[u32; 3]>,
        normals: Vec<[u32; 3]>,
        indices: Vec<u16>,
    },
    /// The program is linked; the location of `asked` has been asked for.
    Locating {
        program: ShaderProgram,
        names: UniformNames,
        asked: Uniform,
        found: Locations,
        positions: Vec<[u32; 3]>,
        normals: Vec<[u32; 3]>,
        indices: Vec<u16>,
    },
    /// The geometry is being uploaded.
    Uploading { program: ShaderProgram, locations: Locations, upload: UploadJob },
}

impl ModelJob {
    /// The job has asked for the first shader object and holds nothing yet.
    pub open spec fn fresh(&self) -> bool {
        *self matches ModelJob::Linking {
            link: LinkJob::Vertex { compile: CompileJob::Creating { .. }, .. },
            ..
        }
    }

    /// The job is the first state of the construction of a model from the
    /// mesh and the two sources.
    pub open spec fn begins(
        &self,
        mesh: Mesh,
        vertex_source: String,
        fragment_source: String,
    ) -> bool {
        match *self {
            ModelJob::Linking { link, names, positions, normals, indices } => {
                &&& link == link_of(vertex_source, fragment_source)
                &&& names.standard()
                &&& positions@ == positions_of(mesh.vertices@)
                &&& normals@ == normals_of(mesh.vertices@)
                &&& indices == mesh.indices
            },
            _ => false,
        }
    }
}

impl Model {
    /// The objects that the model owns: those of its program and of its
    /// geometry.
    pub open spec fn holds(&self) -> Multiset<Resource> {
        self.program.holds().add(self.geometry.holds())
    }

    /// One frame: the program is made current; the product of projection,
    /// view and model matrix, the model matrix, the view matrix and the
    /// light's place go to their uniforms; the geometry is drawn as
    /// triangles; and no program is left current.
    pub open spec fn frame(&self, context: RenderContext, model: Mat4) -> Seq<Command> {
        seq![
            Command::UseProgram { program: self.program.id },
            Command::UniformMatrix {
                location: self.locations.mvp,
                value: MatrixValue::Product {
                    projection: context.projection,
                    view: context.view,
                    model: ModelTransform::Given(model),
                },
            },
            Command::UniformMatrix {
                location: self.locations.model,
                value: MatrixValue::Given(model),
            },
            Command::UniformMatrix {
                location: self.locations.view,
                value: MatrixValue::Given(context.view),
            },
            Command::UniformVector {
                location: self.locations.light,
                value: [LIGHT_COORDINATE, LIGHT_COORDINATE, LIGHT_COORDINATE],
            },
        ] + self.geometry.drawn(Primitive::Triangles) + seq![Command::UseProgram { program: 0 }]
    }

    /// The teardown: the geometry first, buffers before the vertex-array
    /// object, then the program.
    pub open spec fn torn_down(&self) -> Seq<Command> {
        self.geometry.torn_down().push(Command::DeleteProgram { program: self.program.id })
    }

    /// Begins to build a model from what the mesh loader gave and the two
    /// shader sources. Without a mesh there is no model: the loader's error
    /// comes back as it is, and the driver is asked for nothing. With a
    /// mesh, the vertices are parted into positions and normals, and the
    /// link of the program begins.
    pub fn new(
        asset: Result<Mesh, AssetLoadError>,
        vertex_source: String,
        fragment_source: String,
    ) -> (started: Result<(ModelJob, Vec<Command>), AssetLoadError>)
        ensures
            match asset {
                Ok(mesh) => started matches Ok(pair) && pair.0.begins(
                    mesh,
                    vertex_source,
                    fragment_source,
                ) && pair.1@ == seq![Command::CreateShader { stage: Stage::Vertex }],
                Err(error) => started == Err::<(ModelJob, Vec<Command>), AssetLoadError>(error),
            },
    {
        match asset {
            Ok(mesh) => {
                let (positions, normals) = split_vertices(&mesh.vertices);
                let (link, batch) = ShaderProgram::load_from(vertex_source, fragment_source);
                Ok(
                    (
                        ModelJob::Linking {
                            link,
                            names: UniformNames::new(),
                            positions,
                            normals,
                            indices: mesh.indices,
                        },
                        batch,
                    ),
                )
            },
            Err(error) => Err(error),
        }
    }

    /// The commands of one frame with the model matrix `model`. The model
    /// itself does not change.
    pub fn render(&mut self, context: &RenderContext, model: Mat4) -> (commands: Vec<Command>)
        ensures
            *final(self) == *old(self),
            commands@ == old(self).frame(*context, model),
    {
        let mut commands = vec![
            self.program.use_program(),
            Command::UniformMatrix {
                location: self.locations.mvp,
                value: MatrixValue::Product {
                    projection: context.projection,
                    view: context.view,
                    model: ModelTransform::Given(model),
                },
            },
            Command::UniformMatrix {
                location: self.locations.model,
                value: MatrixValue::Given(model),
            },
            Command::UniformMatrix {
                location: self.locations.view,
                value: MatrixValue::Given(context.view),
            },
            Command::UniformVector {
                location: self.locations.light,
                value: [LIGHT_COORDINATE, LIGHT_COORDINATE, LIGHT_COORDINATE],
            },
        ];
        let mut draw = self.geometry.bind_and_draw(Primitive::Triangles);
        commands.append(&mut draw);
        commands.push(Command::UseProgram { program: 0 });
        assert(commands@ =~= self.frame(*context, model));
        commands
    }

    /// The commands that release everything the model owns. The model is
    /// consumed: it cannot be released twice.
    pub fn destroy(self) -> (commands: Vec<Command>)
        ensures
            commands@ == self.torn_down(),
    {
        let mut commands = self.geometry.destroy();
        commands.push(self.program.destroy());
        commands
    }

    /// The teardown releases what the model owns, each object once, and
    /// nothing else.
    pub proof fn lemma_teardown_releases_all(self, base: Multiset<Resource>)
        ensures
            honours(base.add(self.holds()), self.torn_down()),
            settle(base.add(self.holds()), self.torn_down()) == base,
    {
        broadcast use group_ledger;

        let program = Multiset::singleton(program_object(self.program.id));
        assert(base.add(self.holds()) =~= base.add(program).add(self.geometry.holds()));
        self.geometry.lemma_teardown_releases_all(base.add(program));
        assert(base.add(program).remove(program_object(self.program.id)) =~= base);
    }
}

impl Job for ModelJob {
    type Output = Result<Model, LinkError>;

    open spec fn pending(&self) -> Command {
        match *self {
            ModelJob::Linking { link, .. } => link.pending(),
            ModelJob::Locating { program, names, asked, .. } => Command::UniformLocation {
                program: program.id,
                name: names.name_of(asked),
            },
            ModelJob::Uploading { upload, .. } => upload.pending(),
        }
    }

    open spec fn accepts(&self, reply: Reply) -> bool {
        match *self {
            ModelJob::Linking { link, .. } => link.accepts(reply),
            ModelJob::Locating { .. } => reply is Location,
            ModelJob::Uploading { upload, .. } => upload.accepts(reply),
        }
    }

    /// The program is linked; a link that fails ends the construction with
    /// its error. Then the locations of the four uniforms are asked for, one
    /// after the other, and whatever the driver answers is kept. Then
    /// positions, normals and indices are uploaded, their layout recorded.
    open spec fn next(self, reply: Reply) -> Turn<Self, Result<Model, LinkError>> {
        match self {
            ModelJob::Linking { link, names, positions, normals, indices } => match link.next(
                reply,
            ) {
                Turn::Await(link, batch) => Turn::Await(
                    ModelJob::Linking { link, names, positions, normals, indices },
                    batch,
                ),
                Turn::Done(batch, Ok(program)) => Turn::Await(
                    ModelJob::Locating {
                        program,
                        names,
                        asked: Uniform::Mvp,
                        found: Locations::unresolved(),
                        positions,
                        normals,
                        indices,
                    },
                    batch.push(
                        Command::UniformLocation {
                            program: program.id,
                            name: names.name_of(Uniform::Mvp),
                        },
                    ),
                ),
                Turn::Done(batch, Err(error)) => Turn::Done(batch, Err(error)),
            },
            ModelJob::Locating {
                program,
                names,
                asked,
                found,
                positions,
                normals,
                indices,
            } => match reply {
                Reply::Location(location) => match asked.following() {
                    Some(following) => Turn::Await(
                        ModelJob::Locating {
                            program,
                            names,
                            asked: following,
                            found: found.with(asked, location),
                            positions,
                            normals,
                            indices,
                        },
                        seq![
                            Command::UniformLocation {
                                program: program.id,
                                name: names.name_of(following),
                            },
                        ],
                    ),
                    None => Turn::Await(
                        ModelJob::Uploading {
                            program,
                            locations: found.with(asked, location),
                            upload: UploadJob::Array {
                                positions,
                                normals: Some(normals),
                                indices: Some(indices),
                                framing: Framing::Recorded,
                            },
                        },
                        seq![Command::GenVertexArray],
                    ),
                },
                _ => Turn::Await(self, Seq::empty()),
            },
            ModelJob::Uploading { program, locations, upload } => match upload.next(reply) {
                Turn::Await(upload, batch) => Turn::Await(
                    ModelJob::Uploading { program, locations, upload },
                    batch,
                ),
                Turn::Done(batch, geometry) => Turn::Done(
                    batch,
                    Ok(Model { program, geometry, locations }),
                ),
            },
        }
    }

    open spec fn holds(&self) -> Multiset<Resource> {
        match *self {
            ModelJob::Linking { link, .. } => link.holds(),
            ModelJob::Locating { program, .. } => program.holds(),
            ModelJob::Uploading { program, upload, .. } => program.holds().add(upload.holds()),
        }
    }

    open spec fn yields(output: Result<Model, LinkError>) -> Multiset<Resource> {
        match output {
            Ok(model) => model.holds(),
            Err(_) => Multiset::empty(),
        }
    }

    fn admits(&self, reply: &Reply) -> (ok: bool) {
        match self {
            ModelJob::Linking { link, .. } => link.admits(reply),
            ModelJob::Locating { .. } => match reply {
                Reply::Location(_) => true,
                _ => false,
            },
            ModelJob::Uploading { upload, .. } => upload.admits(reply),
        }
    }

    fn resume(self, reply: Reply) -> (step: Step<Self, Result<Model, LinkError>>) {
        match self {
            ModelJob::Linking { link, names, positions, normals, indices } => match link.resume(
                reply,
            ) {
                Step::Await(link, batch) => Step::Await(
                    ModelJob::Linking { link, names, positions, normals, indices },
                    batch,
                ),
                Step::Done(batch, Ok(program)) => {
                    let mut batch = batch;
                    batch.push(program.get_uniform(names.name(Uniform::Mvp)));
                    Step::Await(
                        ModelJob::Locating {
                            program,
                            names,
                            asked: Uniform::Mvp,
                            found: Locations {
                                mvp: NOT_FOUND,
                                model: NOT_FOUND,
                                view: NOT_FOUND,
                                light: NOT_FOUND,
                            },
                            positions,
                            normals,
                            indices,
                        },
                        batch,
                    )
                },
                Step::Done(batch, Err(error)) => Step::Done(batch, Err(error)),
            },
            ModelJob::Locating {
                program,
                names,
                asked,
                found,
                positions,
                normals,
                indices,
            } => match reply {
                Reply::Location(location) => {
                    let found = found.set(asked, location);
                    match asked.successor() {
                        Some(following) => {
                            let batch = vec![program.get_uniform(names.name(following))];
                            assert(batch@ =~= seq![
                                Command::UniformLocation {
                                    program: program.id,
                                    name: names.name_of(following),
                                },
                            ]);
                            Step::Await(
                                ModelJob::Locating {
                                    program,
                                    names,
                                    asked: following,
                                    found,
                                    positions,
                                    normals,
                                    indices,
                                },
                                batch,
                            )
                        },
                        None => {
                            let (upload, batch) = GeometryBuffer::upload(
                                positions,
                                Some(normals),
                                Some(indices),
                                Framing::Recorded,
                            );
                            Step::Await(
                                ModelJob::Uploading { program, locations: found, upload },
                                batch,
                            )
                        },
                    }
                },
                _ => Step::ignored(
                    ModelJob::Locating { program, names, asked, found, positions, normals, indices },
                ),
            },
            ModelJob::Uploading { program, locations, upload } => match upload.resume(reply) {
                Step::Await(upload, batch) => Step::Await(
                    ModelJob::Uploading { program, locations, upload },
                    batch,
                ),
                Step::Done(batch, geometry) => Step::Done(
                    batch,
                    Ok(Model { program, geometry, locations }),
                ),
            },
        }
    }

    proof fn lemma_unaccepted_is_ignored(self, reply: Reply) {
        match self {
            ModelJob::Linking { link, .. } => link.lemma_unaccepted_is_ignored(reply),
            ModelJob::Locating { .. } => {},
            ModelJob::Uploading { upload, .. } => upload.lemma_unaccepted_is_ignored(reply),
        }
    }

    proof fn lemma_step_accounts(self, reply: Reply) {
        broadcast use group_ledger;

        let ledger = self.holds().add(granted(self.pending(), reply));
        let batch = self.next(reply).commands();
        match self {
            ModelJob::Linking { link, .. } => {
                link.lemma_step_accounts(reply);
            },
            ModelJob::Locating { program, .. } => {
                lemma_settle_inert(ledger, batch);
                assert(ledger =~= program.holds().add(Multiset::empty()));
            },
            ModelJob::Uploading { program, upload, .. } => {
                upload.lemma_step_accounts(reply);
                let credited = upload.holds().add(granted(upload.pending(), reply));
                assert(ledger =~= program.holds().add(credited));
                lemma_settle_frame(program.holds(), credited, batch);
            },
        }
    }
}

} // verus!
