//! What holds of geometry and renderables from their first command to
//! their last.

use vstd::prelude::*;
use vstd::multiset::Multiset;
use crate::command::{BufferContents, BufferTarget, Command, Reply, Resource, Stage};
use crate::command::{honours, settle};
use crate::cube::{Cube, CubeJob};
use crate::geometry::{Framing, GeometryBuffer, UploadJob, NORMAL_SLOT, POSITION_SLOT};
use crate::geometry::{attribute_recorded, buffer_filled};
use crate::job::{Job, Progress, follows, issued, outstanding, progress};
use crate::job::{lemma_exchange_balances, lemma_exchange_unfolds};
use crate::link_laws::{program_linked, unit_compiled};
use crate::model::{Locations, Mesh, Model, ModelJob, Uniform};
use crate::shader::{LinkError, ShaderProgram, units_released};

verus! {

/// The driver's ledger after one life of a cube: it is built by `job` on
/// the answers `replies`, and, if it came to be, torn down.
pub open spec fn after_cube(
    job: CubeJob,
    ledger: Multiset<Resource>,
    replies: Seq<Reply>,
) -> Multiset<Resource> {
    let built = outstanding(job, ledger, replies);
    match progress(job, replies) {
        Progress::Finished(Ok(cube)) => settle(built, cube.torn_down()),
        _ => built,
    }
}

/// The driver's ledger after the lives of several cubes, one after the
/// other.
pub open spec fn after_cubes(
    jobs: Seq<CubeJob>,
    ledger: Multiset<Resource>,
    answers: Seq<Seq<Reply>>,
) -> Multiset<Resource>
    decreases jobs.len(),
{
    if jobs.len() == 0 {
        ledger
    } else {
        after_cube(
            jobs.last(),
            after_cubes(jobs.drop_last(), ledger, answers.drop_last()),
            answers.last(),
        )
    }
}

/// The driver's ledger after one life of a model: it is built by `job` on
/// the answers `replies`, and, if it came to be, torn down.
pub open spec fn after_model(
    job: ModelJob,
    ledger: Multiset<Resource>,
    replies: Seq<Reply>,
) -> Multiset<Resource> {
    let built = outstanding(job, ledger, replies);
    match progress(job, replies) {
        Progress::Finished(Ok(model)) => settle(built, model.torn_down()),
        _ => built,
    }
}

/// A cube that is built and torn down leaves the driver as it found it,
/// whether the construction succeeded or not, and the teardown releases
/// nothing that is not outstanding.
pub proof fn lemma_cube_leaves_nothing(job: CubeJob, base: Multiset<Resource>, replies: Seq<Reply>)
    requires
        job.fresh(),
        progress(job, replies) is Finished,
    ensures
        after_cube(job, base, replies) == base,
        progress(job, replies) matches Progress::Finished(Ok(cube)) ==> honours(
            outstanding(job, base, replies),
            cube.torn_down(),
        ),
{
    lemma_exchange_balances(job, base, replies);
    assert(base.add(job.holds()) =~= base);
    match progress(job, replies) {
        Progress::Finished(Ok(cube)) => {
            cube.lemma_teardown_releases_all(base);
        },
        _ => {
            assert(base.add(Multiset::empty()) =~= base);
        },
    }
}

/// However many cubes are built and torn down in sequence, the driver is
/// left as it was found: no object of any of them stays outstanding.
pub proof fn lemma_cubes_leave_nothing(
    jobs: Seq<CubeJob>,
    base: Multiset<Resource>,
    answers: Seq<Seq<Reply>>,
)
    requires
        jobs.len() == answers.len(),
        forall|i: int|
            0 <= i < jobs.len() ==> (#[trigger] jobs[i]).fresh() && progress(
                jobs[i],
                answers[i],
            ) is Finished,
    ensures
        after_cubes(jobs, base, answers) == base,
    decreases jobs.len(),
{
    if jobs.len() > 0 {
        let last = jobs.len() - 1;
        assert(jobs[last].fresh());
        lemma_cubes_leave_nothing(jobs.drop_last(), base, answers.drop_last());
        lemma_cube_leaves_nothing(jobs.last(), base, answers.last());
    }
}

/// A model that is built and torn down leaves the driver as it found it,
/// whether the construction succeeded or not, and the teardown releases
/// nothing that is not outstanding.
pub proof fn lemma_model_leaves_nothing(
    job: ModelJob,
    base: Multiset<Resource>,
    replies: Seq<Reply>,
)
    requires
        job.fresh(),
        progress(job, replies) is Finished,
    ensures
        after_model(job, base, replies) == base,
        progress(job, replies) matches Progress::Finished(Ok(model)) ==> honours(
            outstanding(job, base, replies),
            model.torn_down(),
        ),
{
    lemma_exchange_balances(job, base, replies);
    assert(base.add(job.holds()) =~= base);
    match progress(job, replies) {
        Progress::Finished(Ok(model)) => {
            model.lemma_teardown_releases_all(base);
        },
        _ => {
            assert(base.add(Multiset::empty()) =~= base);
        },
    }
}

/// This handle, where there is host data for it.
pub open spec fn buffer_for<T>(data: Option<T>, buffer: u32) -> Option<u32> {
    match data {
        Some(_) => Some(buffer),
        None => None,
    }
}

/// The driver's answers to an upload: a vertex-array object, and a buffer
/// for the positions and for each of the other arrays that there is.
pub open spec fn upload_answers(
    array: u32,
    positions: u32,
    normals: Option<u32>,
    indices: Option<u32>,
) -> Seq<Reply> {
    seq![Reply::Handle(array), Reply::Handle(positions)] + match normals {
        Some(buffer) => seq![Reply::Handle(buffer)],
        None => Seq::empty(),
    } + match indices {
        Some(buffer) => seq![Reply::Handle(buffer)],
        None => Seq::empty(),
    }
}

/// The commands of an upload after the first: the vertex-array object is
/// bound, each array that there is gets its buffer and is copied into it as
/// it is, positions and normals have their layout recorded where that is
/// asked for, and the vertex-array object is unbound.
pub open spec fn uploaded(
    geometry: GeometryBuffer,
    positions: Vec<[u32; 3]>,
    normals: Option<Vec<[u32; 3]>>,
    indices: Option<Vec<u16>>,
) -> Seq<Command> {
    seq![Command::BindVertexArray { array: geometry.array }, Command::GenBuffer] + buffer_filled(
        BufferTarget::Array,
        geometry.positions,
        BufferContents::Triples(positions),
    ) + attribute_recorded(geometry.framing, POSITION_SLOT) + match (normals, geometry.normals) {
        (Some(normals), Some(buffer)) => seq![Command::GenBuffer] + buffer_filled(
            BufferTarget::Array,
            buffer,
            BufferContents::Triples(normals),
        ) + attribute_recorded(geometry.framing, NORMAL_SLOT),
        _ => Seq::empty(),
    } + match (indices, geometry.indices) {
        (Some(indices), Some(buffer)) => seq![Command::GenBuffer] + buffer_filled(
            BufferTarget::ElementArray,
            buffer,
            BufferContents::Indices(indices),
        ),
        _ => Seq::empty(),
    } + seq![Command::BindVertexArray { array: 0 }]
}

/// An upload refuses nothing. Whatever the arrays hold, indices that name
/// no vertex included, and whatever ids the driver hands out, the upload
/// ends with geometry that records the ids, the number of positions and the
/// number of indices, and it has passed every array on unchanged.
pub proof fn lemma_upload_refuses_nothing(
    positions: Vec<[u32; 3]>,
    normals: Option<Vec<[u32; 3]>>,
    indices: Option<Vec<u16>>,
    framing: Framing,
    array: u32,
    position_buffer: u32,
    normal_buffer: u32,
    index_buffer: u32,
)
    ensures
        ({
            let job = UploadJob::Array { positions, normals, indices, framing };
            let geometry = GeometryBuffer {
                array,
                positions: position_buffer,
                normals: buffer_for(normals, normal_buffer),
                indices: buffer_for(indices, index_buffer),
                vertex_count: positions.len(),
                index_count: match indices {
                    Some(indices) => indices.len(),
                    None => 0,
                },
                framing,
            };
            let replies = upload_answers(
                array,
                position_buffer,
                geometry.normals,
                geometry.indices,
            );
            &&& follows(job, replies)
            &&& progress(job, replies) == Progress::<UploadJob, GeometryBuffer>::Finished(geometry)
            &&& issued(job, replies) == uploaded(geometry, positions, normals, indices)
        }),
{
    let job = UploadJob::Array { positions, normals, indices, framing };
    let geometry = GeometryBuffer {
        array,
        positions: position_buffer,
        normals: buffer_for(normals, normal_buffer),
        indices: buffer_for(indices, index_buffer),
        vertex_count: positions.len(),
        index_count: match indices {
            Some(indices) => indices.len(),
            None => 0,
        },
        framing,
    };
    let replies = upload_answers(array, position_buffer, geometry.normals, geometry.indices);
    let none = Seq::<Reply>::empty();
    let r1 = Reply::Handle(array);
    let r2 = Reply::Handle(position_buffer);
    let r3 = Reply::Handle(normal_buffer);
    let r4 = Reply::Handle(index_buffer);
    let j1 = job.next(r1)->Await_0;
    let tail = match (normals, indices) {
        (Some(_), Some(_)) => seq![r3] + (seq![r4] + none),
        (Some(_), None) => seq![r3] + none,
        (None, Some(_)) => seq![r4] + none,
        (None, None) => none,
    };
    assert(replies =~= seq![r1] + (seq![r2] + tail));
    lemma_exchange_unfolds(job, r1, seq![r2] + tail);
    lemma_exchange_unfolds(j1, r2, tail);
    match (normals, indices) {
        (Some(_), Some(_)) => {
            let j2 = j1.next(r2)->Await_0;
            let j3 = j2.next(r3)->Await_0;
            lemma_exchange_unfolds(j2, r3, seq![r4] + none);
            lemma_exchange_unfolds(j3, r4, none);
            assert(issued(job, replies) =~= uploaded(geometry, positions, normals, indices));
        },
        (Some(_), None) => {
            let j2 = j1.next(r2)->Await_0;
            lemma_exchange_unfolds(j2, r3, none);
            assert(issued(job, replies) =~= uploaded(geometry, positions, normals, indices));
        },
        (None, Some(_)) => {
            let j2 = j1.next(r2)->Await_0;
            lemma_exchange_unfolds(j2, r4, none);
            assert(issued(job, replies) =~= uploaded(geometry, positions, normals, indices));
        },
        (None, None) => {
            assert(issued(job, replies) =~= uploaded(geometry, positions, normals, indices));
        },
    }
}

/// The commands of a link that meets no error, after the first.
pub open spec fn linked(
    vertex_source: String,
    fragment_source: String,
    vertex: u32,
    fragment: u32,
    program: u32,
) -> Seq<Command> {
    unit_compiled(vertex, vertex_source) + seq![Command::CreateShader { stage: Stage::Fragment }]
        + unit_compiled(fragment, fragment_source) + seq![Command::CreateProgram]
        + program_linked(program, vertex, fragment) + units_released(program, vertex, fragment)
}

/// With sources that compile and link without a word from the driver, a
/// cube comes to be, whatever ids the driver hands out and wherever it
/// puts the uniform, the place for a missing one included. The cube has the
/// program, the location as the driver gave it, the 36 uploaded vertices
/// under per-draw framing, and the angle 0. The commands are those of the
/// link, the query for the uniform `MVP`, and those of the upload, and no
/// others.
pub proof fn lemma_cube_is_built(
    job: CubeJob,
    vertex_source: String,
    fragment_source: String,
    vertex: u32,
    fragment: u32,
    program: u32,
    vertex_log: String,
    fragment_log: String,
    link_log: String,
    location: i32,
    array: u32,
    buffer: u32,
)
    requires
        job.begins(vertex_source, fragment_source),
        vertex_log@.len() == 0,
        fragment_log@.len() == 0,
        link_log@.len() == 0,
    ensures
        ({
            let replies = seq![
                Reply::Handle(vertex),
                Reply::Log(vertex_log),
                Reply::Handle(fragment),
                Reply::Log(fragment_log),
                Reply::Handle(program),
                Reply::Log(link_log),
                Reply::Location(location),
                Reply::Handle(array),
                Reply::Handle(buffer),
            ];
            let geometry = GeometryBuffer {
                array,
                positions: buffer,
                normals: None,
                indices: None,
                vertex_count: 36,
                index_count: 0,
                framing: Framing::PerDraw,
            };
            &&& follows(job, replies)
            &&& progress(job, replies) == Progress::<CubeJob, Result<Cube, LinkError>>::Finished(
                Ok(
                    Cube {
                        program: ShaderProgram { id: program },
                        geometry,
                        mvp_location: location,
                        angle: 0,
                    },
                ),
            )
            &&& issued(job, replies) == linked(
                vertex_source,
                fragment_source,
                vertex,
                fragment,
                program,
            ) + seq![
                Command::UniformLocation { program, name: job->Linking_name },
                Command::GenVertexArray,
            ] + uploaded(geometry, job->Linking_vertices, None, None)
        }),
{
    let r1 = Reply::Handle(vertex);
    let r2 = Reply::Log(vertex_log);
    let r3 = Reply::Handle(fragment);
    let r4 = Reply::Log(fragment_log);
    let r5 = Reply::Handle(program);
    let r6 = Reply::Log(link_log);
    let r7 = Reply::Location(location);
    let r8 = Reply::Handle(array);
    let r9 = Reply::Handle(buffer);
    let t8 = seq![r9];
    let t7 = seq![r8] + t8;
    let t6 = seq![r7] + t7;
    let t5 = seq![r6] + t6;
    let t4 = seq![r5] + t5;
    let t3 = seq![r4] + t4;
    let t2 = seq![r3] + t3;
    let t1 = seq![r2] + t2;
    let t0 = seq![r1] + t1;
    assert(t0 =~= seq![r1, r2, r3, r4, r5, r6, r7, r8, r9]);
    assert(t8 =~= seq![r9] + Seq::empty());
    let j1 = job.next(r1)->Await_0;
    let j2 = j1.next(r2)->Await_0;
    let j3 = j2.next(r3)->Await_0;
    let j4 = j3.next(r4)->Await_0;
    let j5 = j4.next(r5)->Await_0;
    let j6 = j5.next(r6)->Await_0;
    let j7 = j6.next(r7)->Await_0;
    let j8 = j7.next(r8)->Await_0;
    lemma_exchange_unfolds(job, r1, t1);
    lemma_exchange_unfolds(j1, r2, t2);
    lemma_exchange_unfolds(j2, r3, t3);
    lemma_exchange_unfolds(j3, r4, t4);
    lemma_exchange_unfolds(j4, r5, t5);
    lemma_exchange_unfolds(j5, r6, t6);
    lemma_exchange_unfolds(j6, r7, t7);
    lemma_exchange_unfolds(j7, r8, t8);
    lemma_exchange_unfolds(j8, r9, Seq::empty());
    let name = job->Linking_name;
    let vertices = job->Linking_vertices;
    let geometry = GeometryBuffer {
        array,
        positions: buffer,
        normals: None,
        indices: None,
        vertex_count: 36,
        index_count: 0,
        framing: Framing::PerDraw,
    };
    assert(vertices.len() == 36);
    assert(issued(j6, t6) =~= seq![Command::GenVertexArray] + uploaded(
        geometry,
        vertices,
        None,
        None,
    ));
    assert(issued(j5, t5) =~= units_released(program, vertex, fragment).push(
        Command::UniformLocation { program, name },
    ) + issued(j6, t6));
    assert(issued(j4, t4) =~= program_linked(program, vertex, fragment) + issued(j5, t5));
    assert(issued(j3, t3) =~= seq![Command::CreateProgram] + issued(j4, t4));
    assert(issued(j2, t2) =~= unit_compiled(fragment, fragment_source) + issued(j3, t3));
    assert(issued(j1, t1) =~= seq![Command::CreateShader { stage: Stage::Fragment }] + issued(
        j2,
        t2,
    ));
    assert(issued(job, t0) =~= unit_compiled(vertex, vertex_source) + issued(j1, t1));
    assert(issued(job, t0) =~= linked(vertex_source, fragment_source, vertex, fragment, program)
        + seq![Command::UniformLocation { program, name }, Command::GenVertexArray] + uploaded(
        geometry,
        vertices,
        None,
        None,
    ));
}

/// With a mesh, and sources that compile and link without a word from the
/// driver, a model comes to be, whatever ids the driver hands out and
/// wherever it puts the four uniforms. The model has the program, the
/// locations as the driver gave them, and the mesh's positions, normals and
/// indices uploaded with their layout recorded. The commands are those of
/// the link, the four queries in the order `MVP`, `M`, `V`,
/// `LightPosition_worldspace`, and those of the upload, and no others.
pub proof fn lemma_model_is_built(
    job: ModelJob,
    mesh: Mesh,
    vertex_source: String,
    fragment_source: String,
    vertex: u32,
    fragment: u32,
    program: u32,
    vertex_log: String,
    fragment_log: String,
    link_log: String,
    locations: Locations,
    array: u32,
    position_buffer: u32,
    normal_buffer: u32,
    index_buffer: u32,
)
    requires
        job.begins(mesh, vertex_source, fragment_source),
        vertex_log@.len() == 0,
        fragment_log@.len() == 0,
        link_log@.len() == 0,
    ensures
        ({
            let replies = seq![
                Reply::Handle(vertex),
                Reply::Log(vertex_log),
                Reply::Handle(fragment),
                Reply::Log(fragment_log),
                Reply::Handle(program),
                Reply::Log(link_log),
                Reply::Location(locations.mvp),
                Reply::Location(locations.model),
                Reply::Location(locations.view),
                Reply::Location(locations.light),
                Reply::Handle(array),
                Reply::Handle(position_buffer),
                Reply::Handle(normal_buffer),
                Reply::Handle(index_buffer),
            ];
            let geometry = GeometryBuffer {
                array,
                positions: position_buffer,
                normals: Some(normal_buffer),
                indices: Some(index_buffer),
                vertex_count: mesh.vertices.len(),
                index_count: mesh.indices.len(),
                framing: Framing::Recorded,
            };
            let names = job->Linking_names;
            &&& follows(job, replies)
            &&& progress(job, replies) == Progress::<ModelJob, Result<Model, LinkError>>::Finished(
                Ok(Model { program: ShaderProgram { id: program }, geometry, locations }),
            )
            &&& issued(job, replies) == linked(
                vertex_source,
                fragment_source,
                vertex,
                fragment,
                program,
            ) + seq![
                Command::UniformLocation { program, name: names.name_of(Uniform::Mvp) },
                Command::UniformLocation { program, name: names.name_of(Uniform::Model) },
                Command::UniformLocation { program, name: names.name_of(Uniform::View) },
                Command::UniformLocation { program, name: names.name_of(Uniform::Light) },
                Command::GenVertexArray,
            ] + uploaded(
                geometry,
                job->Linking_positions,
                Some(job->Linking_normals),
                Some(job->Linking_indices),
            )
        }),
{
    let r1 = Reply::Handle(vertex);
    let r2 = Reply::Log(vertex_log);
    let r3 = Reply::Handle(fragment);
    let r4 = Reply::Log(fragment_log);
    let r5 = Reply::Handle(program);
    let r6 = Reply::Log(link_log);
    let r7 = Reply::Location(locations.mvp);
    let r8 = Reply::Location(locations.model);
    let r9 = Reply::Location(locations.view);
    let r10 = Reply::Location(locations.light);
    let r11 = Reply::Handle(array);
    let r12 = Reply::Handle(position_buffer);
    let r13 = Reply::Handle(normal_buffer);
    let r14 = Reply::Handle(index_buffer);
    let t13 = seq![r14];
    let t12 = seq![r13] + t13;
    let t11 = seq![r12] + t12;
    let t10 = seq![r11] + t11;
    let t9 = seq![r10] + t10;
    let t8 = seq![r9] + t9;
    let t7 = seq![r8] + t8;
    let t6 = seq![r7] + t7;
    let t5 = seq![r6] + t6;
    let t4 = seq![r5] + t5;
    let t3 = seq![r4] + t4;
    let t2 = seq![r3] + t3;
    let t1 = seq![r2] + t2;
    let t0 = seq![r1] + t1;
    assert(t0 =~= seq![r1, r2, r3, r4, r5, r6, r7, r8, r9, r10, r11, r12, r13, r14]);
    assert(t13 =~= seq![r14] + Seq::empty());
    let j1 = job.next(r1)->Await_0;
    let j2 = j1.next(r2)->Await_0;
    let j3 = j2.next(r3)->Await_0;
    let j4 = j3.next(r4)->Await_0;
    let j5 = j4.next(r5)->Await_0;
    let j6 = j5.next(r6)->Await_0;
    let j7 = j6.next(r7)->Await_0;
    let j8 = j7.next(r8)->Await_0;
    let j9 = j8.next(r9)->Await_0;
    let j10 = j9.next(r10)->Await_0;
    let j11 = j10.next(r11)->Await_0;
    let j12 = j11.next(r12)->Await_0;
    let j13 = j12.next(r13)->Await_0;
    lemma_exchange_unfolds(job, r1, t1);
    lemma_exchange_unfolds(j1, r2, t2);
    lemma_exchange_unfolds(j2, r3, t3);
    lemma_exchange_unfolds(j3, r4, t4);
    lemma_exchange_unfolds(j4, r5, t5);
    lemma_exchange_unfolds(j5, r6, t6);
    lemma_exchange_unfolds(j6, r7, t7);
    lemma_exchange_unfolds(j7, r8, t8);
    lemma_exchange_unfolds(j8, r9, t9);
    lemma_exchange_unfolds(j9, r10, t10);
    lemma_exchange_unfolds(j10, r11, t11);
    lemma_exchange_unfolds(j11, r12, t12);
    lemma_exchange_unfolds(j12, r13, t13);
    lemma_exchange_unfolds(j13, r14, Seq::empty());
    let names = job->Linking_names;
    let positions = job->Linking_positions;
    let normals = job->Linking_normals;
    let indices = job->Linking_indices;
    let geometry = GeometryBuffer {
        array,
        positions: position_buffer,
        normals: Some(normal_buffer),
        indices: Some(index_buffer),
        vertex_count: mesh.vertices.len(),
        index_count: mesh.indices.len(),
        framing: Framing::Recorded,
    };
    assert(positions.len() == mesh.vertices.len());
    assert(Locations::unresolved().with(Uniform::Mvp, locations.mvp).with(
        Uniform::Model,
        locations.model,
    ).with(Uniform::View, locations.view).with(Uniform::Light, locations.light) == locations);
    assert(issued(j10, t10) =~= uploaded(geometry, positions, Some(normals), Some(indices)));
    assert(issued(j6, t6) =~= seq![
        Command::UniformLocation { program, name: names.name_of(Uniform::Model) },
        Command::UniformLocation { program, name: names.name_of(Uniform::View) },
        Command::UniformLocation { program, name: names.name_of(Uniform::Light) },
        Command::GenVertexArray,
    ] + issued(j10, t10));
    assert(issued(j5, t5) =~= units_released(program, vertex, fragment).push(
        Command::UniformLocation { program, name: names.name_of(Uniform::Mvp) },
    ) + issued(j6, t6));
    assert(issued(j4, t4) =~= program_linked(program, vertex, fragment) + issued(j5, t5));
    assert(issued(j3, t3) =~= seq![Command::CreateProgram] + issued(j4, t4));
    assert(issued(j2, t2) =~= unit_compiled(fragment, fragment_source) + issued(j3, t3));
    assert(issued(j1, t1) =~= seq![Command::CreateShader { stage: Stage::Fragment }] + issued(
        j2,
        t2,
    ));
    assert(issued(job, t0) =~= unit_compiled(vertex, vertex_source) + issued(j1, t1));
    assert(issued(job, t0) =~= linked(vertex_source, fragment_source, vertex, fragment, program)
        + seq![
        Command::UniformLocation { program, name: names.name_of(Uniform::Mvp) },
        Command::UniformLocation { program, name: names.name_of(Uniform::Model) },
        Command::UniformLocation { program, name: names.name_of(Uniform::View) },
        Command::UniformLocation { program, name: names.name_of(Uniform::Light) },
        Command::GenVertexArray,
    ] + uploaded(geometry, positions, Some(normals), Some(indices)));
}

} // verus!
