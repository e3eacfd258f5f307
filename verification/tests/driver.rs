use spinning_cube::command::{
    BufferContents, BufferTarget, Command, Mat4, MatrixValue, ModelTransform, Primitive, Reply,
    Resource, ResourceKind, Stage, Step, NOT_FOUND,
};
use spinning_cube::cube::{advance_angle, cube_vertices, Cube, FULL_TURN, STEP};
use spinning_cube::geometry::{Framing, GeometryBuffer};
use spinning_cube::job::Job;
use spinning_cube::model::{
    split_vertices, AssetLoadError, Locations, Mesh, Model, Uniform, UniformNames, Vertex,
    LIGHT_COORDINATE,
};
use spinning_cube::shader::{CompileError, LinkError, Shader, ShaderProgram};
use spinning_cube::RenderContext;

const VERTEX_SOURCE: &str = "#version 330\nlayout(location=0) in vec3 p; uniform mat4 MVP; void main(){gl_Position=MVP*vec4(p,1);}";
const FRAGMENT_SOURCE: &str = "#version 330\nout vec3 color; void main(){color=vec3(1,0,0);}";
const BROKEN_SOURCE: &str = "#version 330\nvoid main({";
const UNLINKABLE_SOURCE: &str = "#version 330\nvoid main(){}";

/// A stand-in for the graphics driver. It hands out ids, keeps the set of
/// objects that are allocated, and panics where one is released that is not.
struct Driver {
    next_id: u32,
    live: Vec<Resource>,
    sources: Vec<(u32, String)>,
    attached: Vec<(u32, u32)>,
    linked: Vec<(u32, String)>,
    performed: Vec<Command>,
}

impl Driver {
    fn new() -> Self {
        Driver {
            next_id: 1,
            live: Vec::new(),
            sources: Vec::new(),
            attached: Vec::new(),
            linked: Vec::new(),
            performed: Vec::new(),
        }
    }

    fn allocate(&mut self, kind: ResourceKind) -> Reply {
        let id = self.next_id;
        self.next_id += 1;
        self.live.push(Resource { kind, id });
        Reply::Handle(id)
    }

    fn release(&mut self, kind: ResourceKind, id: u32) {
        let at = self.live.iter().position(|r| *r == Resource { kind, id });
        match at {
            Some(at) => {
                self.live.remove(at);
            }
            None => panic!("released an object that is not allocated: {:?} {}", kind, id),
        }
    }

    fn source_of(&self, shader: u32) -> String {
        for (id, text) in &self.sources {
            if *id == shader {
                return text.clone();
            }
        }
        String::new()
    }

    fn perform_one(&mut self, command: &Command) -> Option<Reply> {
        self.performed.push(command.clone());
        match command {
            Command::CreateShader { .. } => Some(self.allocate(ResourceKind::Shader)),
            Command::CreateProgram => Some(self.allocate(ResourceKind::Program)),
            Command::GenBuffer => Some(self.allocate(ResourceKind::Buffer)),
            Command::GenVertexArray => Some(self.allocate(ResourceKind::VertexArray)),
            Command::ShaderSource { shader, source } => {
                self.sources.push((*shader, source.clone()));
                None
            }
            Command::ShaderInfoLog { shader } => {
                let text = self.source_of(*shader);
                if text.contains("void main()") {
                    Some(Reply::Log(String::new()))
                } else {
                    Some(Reply::Log(format!("ERROR: 0:2: syntax error in shader {}", shader)))
                }
            }
            Command::AttachShader { program, shader } => {
                self.attached.push((*program, *shader));
                None
            }
            Command::LinkProgram { program } => {
                let mut text = String::new();
                for (p, s) in self.attached.clone() {
                    if p == *program {
                        text.push_str(&self.source_of(s));
                    }
                }
                self.linked.push((*program, text));
                None
            }
            Command::ProgramInfoLog { program } => {
                let mut log = String::new();
                for (p, text) in &self.linked {
                    if p == program && !text.contains("gl_Position") {
                        log = String::from("error: vertex shader does not write gl_Position");
                    }
                }
                Some(Reply::Log(log))
            }
            Command::UniformLocation { program, name } => {
                let mut location = NOT_FOUND;
                for (p, text) in &self.linked {
                    if p == program {
                        let mut slot = 0;
                        for statement in text.split(';') {
                            if statement.contains("uniform ") {
                                if statement.trim_end().ends_with(&format!(" {}", name)) {
                                    location = slot;
                                }
                                slot += 1;
                            }
                        }
                    }
                }
                Some(Reply::Location(location))
            }
            Command::DeleteShader { shader } => {
                self.release(ResourceKind::Shader, *shader);
                None
            }
            Command::DeleteProgram { program } => {
                self.release(ResourceKind::Program, *program);
                None
            }
            Command::DeleteBuffer { buffer } => {
                self.release(ResourceKind::Buffer, *buffer);
                None
            }
            Command::DeleteVertexArray { array } => {
                self.release(ResourceKind::VertexArray, *array);
                None
            }
            _ => None,
        }
    }

    fn perform(&mut self, batch: &[Command]) -> Option<Reply> {
        let mut last = None;
        for command in batch {
            last = self.perform_one(command);
        }
        last
    }

    fn drive<J: Job>(&mut self, started: (J, Vec<Command>)) -> J::Output {
        let (mut job, mut batch) = started;
        loop {
            let reply = match self.perform(&batch) {
                Some(reply) => reply,
                None => panic!("a job waits for the answer to a command that has none"),
            };
            assert!(job.admits(&reply));
            match job.resume(reply) {
                Step::Await(next, commands) => {
                    job = next;
                    batch = commands;
                }
                Step::Done(commands, output) => {
                    self.perform(&commands);
                    return output;
                }
            }
        }
    }
}

fn matrix(seed: u32) -> Mat4 {
    let mut words = [0u32; 16];
    let mut i = 0;
    while i < 16 {
        words[i] = seed + i as u32;
        i += 1;
    }
    Mat4 { words }
}

fn triangle_mesh() -> Mesh {
    let one = 1.0f32.to_bits();
    let zero = 0.0f32.to_bits();
    Mesh {
        vertices: vec![
            Vertex { position: [zero, zero, zero], normal: [zero, zero, one] },
            Vertex { position: [one, zero, zero], normal: [zero, one, zero] },
            Vertex { position: [zero, one, zero], normal: [one, zero, zero] },
        ],
        indices: vec![0, 1, 2],
    }
}

#[test]
fn valid_sources_link_to_a_program() {
    let mut driver = Driver::new();
    let started = ShaderProgram::load_from(VERTEX_SOURCE.to_string(), FRAGMENT_SOURCE.to_string());
    let program = driver.drive(started).expect("the sources are valid");
    assert_eq!(program.handle(), 3);
    assert_eq!(driver.live, vec![Resource { kind: ResourceKind::Program, id: 3 }]);
}

#[test]
fn link_issues_the_protocol_in_order() {
    let mut driver = Driver::new();
    let started = ShaderProgram::load_from(VERTEX_SOURCE.to_string(), FRAGMENT_SOURCE.to_string());
    driver.drive(started).expect("the sources are valid");
    assert_eq!(
        driver.performed,
        vec![
            Command::CreateShader { stage: Stage::Vertex },
            Command::ShaderSource { shader: 1, source: VERTEX_SOURCE.to_string() },
            Command::CompileShader { shader: 1 },
            Command::ShaderInfoLog { shader: 1 },
            Command::CreateShader { stage: Stage::Fragment },
            Command::ShaderSource { shader: 2, source: FRAGMENT_SOURCE.to_string() },
            Command::CompileShader { shader: 2 },
            Command::ShaderInfoLog { shader: 2 },
            Command::CreateProgram,
            Command::AttachShader { program: 3, shader: 1 },
            Command::AttachShader { program: 3, shader: 2 },
            Command::LinkProgram { program: 3 },
            Command::ProgramInfoLog { program: 3 },
            Command::DetachShader { program: 3, shader: 1 },
            Command::DetachShader { program: 3, shader: 2 },
            Command::DeleteShader { shader: 2 },
            Command::DeleteShader { shader: 1 },
        ]
    );
}

#[test]
fn missing_uniform_gives_the_sentinel() {
    let mut driver = Driver::new();
    let started = ShaderProgram::load_from(VERTEX_SOURCE.to_string(), FRAGMENT_SOURCE.to_string());
    let program = driver.drive(started).expect("the sources are valid");
    let query = program.get_uniform("NoSuchUniform".to_string());
    assert_eq!(
        query,
        Command::UniformLocation { program: 3, name: "NoSuchUniform".to_string() }
    );
    assert_eq!(driver.perform(&[query]), Some(Reply::Location(NOT_FOUND)));
    assert_eq!(NOT_FOUND, -1);
}

#[test]
fn mvp_uniform_has_a_location() {
    let mut driver = Driver::new();
    let started = ShaderProgram::load_from(VERTEX_SOURCE.to_string(), FRAGMENT_SOURCE.to_string());
    let program = driver.drive(started).expect("the link must succeed");
    let query = program.get_uniform("MVP".to_string());
    match driver.perform(&[query]) {
        Some(Reply::Location(location)) => assert_ne!(location, NOT_FOUND),
        other => panic!("no location: {:?}", other),
    }
}

#[test]
fn vertex_syntax_error_names_the_vertex_stage() {
    let mut driver = Driver::new();
    let started = ShaderProgram::load_from(BROKEN_SOURCE.to_string(), FRAGMENT_SOURCE.to_string());
    let error = driver.drive(started).expect_err("the vertex source is broken");
    assert_eq!(
        error,
        LinkError::Compile {
            stage: Stage::Vertex,
            diagnostic: "ERROR: 0:2: syntax error in shader 1".to_string(),
        }
    );
    assert!(driver.live.is_empty());
    assert_eq!(
        driver.performed,
        vec![
            Command::CreateShader { stage: Stage::Vertex },
            Command::ShaderSource { shader: 1, source: BROKEN_SOURCE.to_string() },
            Command::CompileShader { shader: 1 },
            Command::ShaderInfoLog { shader: 1 },
            Command::DeleteShader { shader: 1 },
        ]
    );
}

#[test]
fn fragment_syntax_error_names_the_fragment_stage() {
    let mut driver = Driver::new();
    let started = ShaderProgram::load_from(VERTEX_SOURCE.to_string(), BROKEN_SOURCE.to_string());
    let error = driver.drive(started).expect_err("the fragment source is broken");
    assert_eq!(
        error,
        LinkError::Compile {
            stage: Stage::Fragment,
            diagnostic: "ERROR: 0:2: syntax error in shader 2".to_string(),
        }
    );
    assert!(driver.live.is_empty());
    let tail = &driver.performed[driver.performed.len() - 2..];
    assert_eq!(
        tail,
        &[Command::DeleteShader { shader: 2 }, Command::DeleteShader { shader: 1 }]
    );
    assert!(!driver.performed.contains(&Command::CreateProgram));
}

#[test]
fn link_error_releases_program_and_units() {
    let mut driver = Driver::new();
    let started =
        ShaderProgram::load_from(UNLINKABLE_SOURCE.to_string(), FRAGMENT_SOURCE.to_string());
    let error = driver.drive(started).expect_err("the program does not link");
    assert_eq!(
        error,
        LinkError::Link {
            diagnostic: "error: vertex shader does not write gl_Position".to_string(),
        }
    );
    assert!(driver.live.is_empty());
    let tail = &driver.performed[driver.performed.len() - 5..];
    assert_eq!(
        tail,
        &[
            Command::DeleteProgram { program: 3 },
            Command::DetachShader { program: 3, shader: 1 },
            Command::DetachShader { program: 3, shader: 2 },
            Command::DeleteShader { shader: 2 },
            Command::DeleteShader { shader: 1 },
        ]
    );
}

#[test]
fn compile_gives_a_unit_or_an_error() {
    let mut driver = Driver::new();
    let unit = driver
        .drive(Shader::load_from(FRAGMENT_SOURCE.to_string(), Stage::Fragment))
        .expect("the source is valid");
    assert_eq!(unit, Shader { id: 1, stage: Stage::Fragment });
    assert_eq!(unit.handle(), 1);
    assert_eq!(driver.live.len(), 1);
    let release = unit.destroy();
    assert_eq!(release, Command::DeleteShader { shader: 1 });
    driver.perform(&[release]);
    assert!(driver.live.is_empty());

    let error = driver
        .drive(Shader::load_from(BROKEN_SOURCE.to_string(), Stage::Vertex))
        .expect_err("the source is broken");
    assert_eq!(
        error,
        CompileError {
            stage: Stage::Vertex,
            diagnostic: "ERROR: 0:2: syntax error in shader 2".to_string(),
        }
    );
    assert!(driver.live.is_empty());
}

#[test]
fn a_job_admits_only_the_answer_it_waits_for() {
    let (job, batch) = Shader::load_from(FRAGMENT_SOURCE.to_string(), Stage::Fragment);
    assert_eq!(batch, vec![Command::CreateShader { stage: Stage::Fragment }]);
    assert!(job.admits(&Reply::Handle(9)));
    assert!(!job.admits(&Reply::Log(String::new())));
    assert!(!job.admits(&Reply::Location(0)));
    let job = match job.resume(Reply::Handle(9)) {
        Step::Await(job, _) => job,
        Step::Done(_, _) => panic!("the log has not been read yet"),
    };
    assert!(job.admits(&Reply::Log("x".to_string())));
    assert!(!job.admits(&Reply::Handle(9)));

    let (link, _) = ShaderProgram::load_from(VERTEX_SOURCE.to_string(), FRAGMENT_SOURCE.to_string());
    assert!(link.admits(&Reply::Handle(1)));
    assert!(!link.admits(&Reply::Location(1)));
}

#[test]
fn an_answer_of_the_wrong_sort_changes_nothing() {
    let (job, _) = Shader::load_from(FRAGMENT_SOURCE.to_string(), Stage::Fragment);
    match job.resume(Reply::Location(3)) {
        Step::Await(job, batch) => {
            assert!(batch.is_empty());
            let (fresh, _) = Shader::load_from(FRAGMENT_SOURCE.to_string(), Stage::Fragment);
            assert_eq!(job, fresh);
        }
        Step::Done(_, _) => panic!("nothing was compiled"),
    }

    let (link, _) = ShaderProgram::load_from(VERTEX_SOURCE.to_string(), FRAGMENT_SOURCE.to_string());
    match link.resume(Reply::Log("x".to_string())) {
        Step::Await(link, batch) => {
            assert!(batch.is_empty());
            assert!(link.admits(&Reply::Handle(1)));
        }
        Step::Done(_, _) => panic!("nothing was linked"),
    }

    let (upload, _) = GeometryBuffer::upload(vec![[0, 0, 0]], None, None, Framing::PerDraw);
    match upload.resume(Reply::Location(0)) {
        Step::Await(upload, batch) => {
            assert!(batch.is_empty());
            assert!(upload.admits(&Reply::Handle(1)));
        }
        Step::Done(_, _) => panic!("nothing was uploaded"),
    }
}

#[test]
fn mesh_indices_are_checked_on_request() {
    let mut mesh = triangle_mesh();
    assert!(mesh.is_well_formed());
    mesh.indices.push(3);
    assert!(!mesh.is_well_formed());
    let empty = Mesh { vertices: Vec::new(), indices: Vec::new() };
    assert!(empty.is_well_formed());
    let dangling = Mesh { vertices: Vec::new(), indices: vec![0] };
    assert!(!dangling.is_well_formed());
}

#[test]
fn model_uploads_a_mesh_with_dangling_indices_as_it_is() {
    let mut driver = Driver::new();
    let mut mesh = triangle_mesh();
    mesh.indices = vec![0, 1, 9];
    assert!(!mesh.is_well_formed());
    let lit = "#version 330\nuniform mat4 MVP; void main(){gl_Position=MVP*vec4(0);}";
    let started = match Model::new(Ok(mesh), lit.to_string(), FRAGMENT_SOURCE.to_string()) {
        Ok(started) => started,
        Err(error) => panic!("there is a mesh: {:?}", error),
    };
    let model = driver.drive(started).expect("the sources are valid");
    assert_eq!(model.geometry.index_count, 3);
    assert_eq!(model.locations, Locations { mvp: 0, model: -1, view: -1, light: -1 });
    assert!(driver.performed.contains(&Command::BufferData {
        target: BufferTarget::ElementArray,
        contents: BufferContents::Indices(vec![0, 1, 9]),
    }));
}

#[test]
fn use_program_and_destroy_name_the_program() {
    let program = ShaderProgram { id: 12 };
    assert_eq!(program.use_program(), Command::UseProgram { program: 12 });
    assert_eq!(program.handle(), 12);
    assert_eq!(program.destroy(), Command::DeleteProgram { program: 12 });
}

#[test]
fn upload_passes_out_of_range_indices_on() {
    let mut driver = Driver::new();
    let positions = vec![[1, 2, 3], [4, 5, 6]];
    let indices = vec![0u16, 1, 7, 65535];
    let started = GeometryBuffer::upload(
        positions.clone(),
        None,
        Some(indices.clone()),
        Framing::Recorded,
    );
    let geometry = driver.drive(started);
    assert_eq!(
        geometry,
        GeometryBuffer {
            array: 1,
            positions: 2,
            normals: None,
            indices: Some(3),
            vertex_count: 2,
            index_count: 4,
            framing: Framing::Recorded,
        }
    );
    assert_eq!(
        driver.performed,
        vec![
            Command::GenVertexArray,
            Command::BindVertexArray { array: 1 },
            Command::GenBuffer,
            Command::BindBuffer { target: BufferTarget::Array, buffer: 2 },
            Command::BufferData {
                target: BufferTarget::Array,
                contents: BufferContents::Triples(positions),
            },
            Command::EnableVertexAttribArray { slot: 0 },
            Command::VertexAttribPointer { slot: 0, components: 3 },
            Command::GenBuffer,
            Command::BindBuffer { target: BufferTarget::ElementArray, buffer: 3 },
            Command::BufferData {
                target: BufferTarget::ElementArray,
                contents: BufferContents::Indices(indices),
            },
            Command::BindVertexArray { array: 0 },
        ]
    );
    assert_eq!(
        geometry.bind_and_draw(Primitive::Triangles),
        vec![
            Command::BindVertexArray { array: 1 },
            Command::DrawElements { mode: Primitive::Triangles, count: 4 },
            Command::BindVertexArray { array: 0 },
        ]
    );
}

#[test]
fn upload_of_nothing_is_no_error() {
    let mut driver = Driver::new();
    let geometry = driver.drive(GeometryBuffer::upload(Vec::new(), None, None, Framing::PerDraw));
    assert_eq!(geometry.vertex_count, 0);
    assert_eq!(geometry.index_count, 0);
    assert_eq!(driver.live.len(), 2);
    driver.perform(&geometry.destroy());
    assert!(driver.live.is_empty());
}

#[test]
fn framed_draw_enables_and_disables_each_array() {
    let geometry = GeometryBuffer {
        array: 4,
        positions: 5,
        normals: Some(6),
        indices: None,
        vertex_count: 9,
        index_count: 0,
        framing: Framing::PerDraw,
    };
    assert_eq!(
        geometry.bind_and_draw(Primitive::Lines),
        vec![
            Command::BindVertexArray { array: 4 },
            Command::EnableVertexAttribArray { slot: 0 },
            Command::BindBuffer { target: BufferTarget::Array, buffer: 5 },
            Command::VertexAttribPointer { slot: 0, components: 3 },
            Command::EnableVertexAttribArray { slot: 1 },
            Command::BindBuffer { target: BufferTarget::Array, buffer: 6 },
            Command::VertexAttribPointer { slot: 1, components: 3 },
            Command::DrawArrays { mode: Primitive::Lines, count: 9 },
            Command::DisableVertexAttribArray { slot: 0 },
            Command::DisableVertexAttribArray { slot: 1 },
            Command::BindVertexArray { array: 0 },
        ]
    );
}

#[test]
fn teardown_deletes_buffers_before_the_array() {
    let geometry = GeometryBuffer {
        array: 4,
        positions: 5,
        normals: Some(6),
        indices: Some(7),
        vertex_count: 3,
        index_count: 3,
        framing: Framing::Recorded,
    };
    assert_eq!(
        geometry.destroy(),
        vec![
            Command::DeleteBuffer { buffer: 5 },
            Command::DeleteBuffer { buffer: 6 },
            Command::DeleteBuffer { buffer: 7 },
            Command::DeleteVertexArray { array: 4 },
        ]
    );
}

#[test]
fn angle_wraps_at_the_full_turn() {
    assert_eq!(FULL_TURN, 720);
    assert_eq!(STEP, 1);
    assert_eq!(advance_angle(0, 1), 1);
    assert_eq!(advance_angle(719, 1), 0);
    assert_eq!(advance_angle(700, 45), 25);
    assert_eq!(advance_angle(u32::MAX, u32::MAX), ((u32::MAX as u64 * 2) % 720) as u32);
}

#[test]
fn a_thousand_half_degrees_give_140_degrees() {
    let mut angle = 0;
    let mut i = 0;
    while i < 1000 {
        angle = advance_angle(angle, STEP);
        assert!(angle < FULL_TURN);
        i += 1;
    }
    assert_eq!(angle, 280);
    let degrees = angle as f32 / 2.0;
    assert!((degrees - 140.0).abs() < 1e-6);
    assert!((degrees - 500.0f32 % 360.0).abs() < 1e-6);
}

#[test]
fn cube_vertices_are_the_twelve_triangles() {
    let vertices = cube_vertices();
    assert_eq!(vertices.len(), 36);
    let one = 1.0f32.to_bits();
    let minus = (-1.0f32).to_bits();
    assert_eq!(vertices[0], [minus, minus, minus]);
    assert_eq!(vertices[1], [minus, minus, one]);
    assert_eq!(vertices[3], [one, one, minus]);
    assert_eq!(vertices[21], [one, one, one]);
    assert_eq!(vertices[35], [one, minus, one]);
    for vertex in &vertices {
        for word in vertex {
            assert!(*word == one || *word == minus);
        }
    }
}

#[test]
fn cube_is_built_from_valid_sources() {
    let mut driver = Driver::new();
    let started = Cube::new(VERTEX_SOURCE.to_string(), FRAGMENT_SOURCE.to_string());
    let cube = driver.drive(started).expect("the sources are valid");
    assert_eq!(
        cube,
        Cube {
            program: ShaderProgram { id: 3 },
            geometry: GeometryBuffer {
                array: 4,
                positions: 5,
                normals: None,
                indices: None,
                vertex_count: 36,
                index_count: 0,
                framing: Framing::PerDraw,
            },
            mvp_location: 0,
            angle: 0,
        }
    );
    let tail = &driver.performed[driver.performed.len() - 7..];
    assert_eq!(
        tail,
        &[
            Command::UniformLocation { program: 3, name: "MVP".to_string() },
            Command::GenVertexArray,
            Command::BindVertexArray { array: 4 },
            Command::GenBuffer,
            Command::BindBuffer { target: BufferTarget::Array, buffer: 5 },
            Command::BufferData {
                target: BufferTarget::Array,
                contents: BufferContents::Triples(cube_vertices()),
            },
            Command::BindVertexArray { array: 0 },
        ]
    );
}

#[test]
fn cube_without_the_uniform_is_still_built() {
    let mut driver = Driver::new();
    let plain = "#version 330\nvoid main(){gl_Position=vec4(0);}";
    let cube = driver
        .drive(Cube::new(plain.to_string(), FRAGMENT_SOURCE.to_string()))
        .expect("a missing uniform is no error");
    assert_eq!(cube.mvp_location, NOT_FOUND);
}

#[test]
fn cube_with_a_broken_shader_is_not_built() {
    let mut driver = Driver::new();
    let error = driver
        .drive(Cube::new(VERTEX_SOURCE.to_string(), BROKEN_SOURCE.to_string()))
        .expect_err("the fragment source is broken");
    assert!(matches!(error, LinkError::Compile { stage: Stage::Fragment, .. }));
    assert!(driver.live.is_empty());
    assert!(!driver.performed.contains(&Command::GenVertexArray));
}

#[test]
fn cube_render_uploads_projection_view_model_in_order() {
    let mut driver = Driver::new();
    let mut cube = driver
        .drive(Cube::new(VERTEX_SOURCE.to_string(), FRAGMENT_SOURCE.to_string()))
        .expect("the sources are valid");
    let context = RenderContext::new(matrix(100), matrix(200), None);
    let commands = cube.render(&context, 0.016f32.to_bits());
    assert_eq!(cube.angle, 1);
    assert_eq!(
        commands,
        vec![
            Command::UseProgram { program: 3 },
            Command::UniformMatrix {
                location: 0,
                value: MatrixValue::Product {
                    projection: matrix(100),
                    view: matrix(200),
                    model: ModelTransform::RotationY { half_degrees: 1 },
                },
            },
            Command::BindVertexArray { array: 4 },
            Command::EnableVertexAttribArray { slot: 0 },
            Command::BindBuffer { target: BufferTarget::Array, buffer: 5 },
            Command::VertexAttribPointer { slot: 0, components: 3 },
            Command::DrawArrays { mode: Primitive::Triangles, count: 36 },
            Command::DisableVertexAttribArray { slot: 0 },
            Command::BindVertexArray { array: 0 },
        ]
    );
}

#[test]
fn cube_turns_half_a_degree_per_frame() {
    let mut driver = Driver::new();
    let mut cube = driver
        .drive(Cube::new(VERTEX_SOURCE.to_string(), FRAGMENT_SOURCE.to_string()))
        .expect("the sources are valid");
    let context = RenderContext::new(matrix(1), matrix(2), Some([0, 0, 0]));
    let mut frames = 0;
    while frames < 1000 {
        let commands = cube.render(&context, (frames as f32).to_bits());
        assert!(cube.angle < FULL_TURN);
        assert!(matches!(
            commands[1],
            Command::UniformMatrix {
                value: MatrixValue::Product {
                    model: ModelTransform::RotationY { half_degrees },
                    ..
                },
                ..
            } if half_degrees == cube.angle
        ));
        frames += 1;
    }
    assert_eq!(cube.angle, 280);
    let mut more = 0;
    while more < 440 {
        cube.render(&context, 0);
        more += 1;
    }
    assert_eq!(cube.angle, 0);
}

#[test]
fn a_hundred_cubes_leave_no_handle() {
    let mut driver = Driver::new();
    let mut built = 0;
    while built < 100 {
        let cube = driver
            .drive(Cube::new(VERTEX_SOURCE.to_string(), FRAGMENT_SOURCE.to_string()))
            .expect("the sources are valid");
        assert_eq!(driver.live.len(), 3);
        driver.perform(&cube.destroy());
        assert!(driver.live.is_empty());
        built += 1;
    }
    assert_eq!(driver.next_id, 501);
}

#[test]
fn cube_teardown_releases_geometry_then_program() {
    let cube = Cube {
        program: ShaderProgram { id: 3 },
        geometry: GeometryBuffer {
            array: 4,
            positions: 5,
            normals: None,
            indices: None,
            vertex_count: 36,
            index_count: 0,
            framing: Framing::PerDraw,
        },
        mvp_location: 0,
        angle: 17,
    };
    assert_eq!(
        cube.destroy(),
        vec![
            Command::DeleteBuffer { buffer: 5 },
            Command::DeleteVertexArray { array: 4 },
            Command::DeleteProgram { program: 3 },
        ]
    );
}

#[test]
fn vertices_are_split_into_positions_and_normals() {
    let mesh = triangle_mesh();
    let (positions, normals) = split_vertices(&mesh.vertices);
    assert_eq!(positions, vec![mesh.vertices[0].position, mesh.vertices[1].position, mesh.vertices[2].position]);
    assert_eq!(normals, vec![mesh.vertices[0].normal, mesh.vertices[1].normal, mesh.vertices[2].normal]);
    let (none, nothing) = split_vertices(&Vec::new());
    assert!(none.is_empty());
    assert!(nothing.is_empty());
}

#[test]
fn uniforms_are_resolved_in_order() {
    assert_eq!(Uniform::Mvp.successor(), Some(Uniform::Model));
    assert_eq!(Uniform::Model.successor(), Some(Uniform::View));
    assert_eq!(Uniform::View.successor(), Some(Uniform::Light));
    assert_eq!(Uniform::Light.successor(), None);
    let names = UniformNames::new();
    assert_eq!(names.name(Uniform::Mvp), "MVP");
    assert_eq!(names.name(Uniform::Model), "M");
    assert_eq!(names.name(Uniform::View), "V");
    assert_eq!(names.name(Uniform::Light), "LightPosition_worldspace");
    let none = Locations { mvp: -1, model: -1, view: -1, light: -1 };
    assert_eq!(none.set(Uniform::View, 7), Locations { mvp: -1, model: -1, view: 7, light: -1 });
    assert_eq!(none.set(Uniform::Light, 2).set(Uniform::Mvp, 5).mvp, 5);
}

#[test]
fn model_without_a_mesh_asks_the_driver_for_nothing() {
    let failed = Model::new(
        Err(AssetLoadError::Io("No such file or directory (os error 2)".to_string())),
        VERTEX_SOURCE.to_string(),
        FRAGMENT_SOURCE.to_string(),
    );
    match failed {
        Err(error) => assert_eq!(
            error,
            AssetLoadError::Io("No such file or directory (os error 2)".to_string())
        ),
        Ok(_) => panic!("there is no mesh"),
    }
    let failed = Model::new(
        Err(AssetLoadError::Decode("Met unexpected statement".to_string())),
        VERTEX_SOURCE.to_string(),
        FRAGMENT_SOURCE.to_string(),
    );
    match failed {
        Err(error) => {
            assert_eq!(error, AssetLoadError::Decode("Met unexpected statement".to_string()))
        }
        Ok(_) => panic!("there is no mesh"),
    }
}

#[test]
fn model_is_built_and_drawn_and_torn_down() {
    let mut driver = Driver::new();
    let lit = "#version 330\nuniform mat4 MVP; uniform mat4 M; uniform mat4 V; uniform vec3 LightPosition_worldspace; void main(){gl_Position=MVP*vec4(0);}";
    let started = match Model::new(Ok(triangle_mesh()), lit.to_string(), FRAGMENT_SOURCE.to_string())
    {
        Ok(started) => started,
        Err(error) => panic!("there is a mesh: {:?}", error),
    };
    let mut model = driver.drive(started).expect("the sources are valid");
    assert_eq!(model.program, ShaderProgram { id: 3 });
    assert_eq!(model.locations, Locations { mvp: 0, model: 1, view: 2, light: 3 });
    assert_eq!(
        model.geometry,
        GeometryBuffer {
            array: 4,
            positions: 5,
            normals: Some(6),
            indices: Some(7),
            vertex_count: 3,
            index_count: 3,
            framing: Framing::Recorded,
        }
    );
    let mesh = triangle_mesh();
    let (positions, normals) = split_vertices(&mesh.vertices);
    let tail = &driver.performed[driver.performed.len() - 20..];
    assert_eq!(
        tail,
        &[
            Command::UniformLocation { program: 3, name: "MVP".to_string() },
            Command::UniformLocation { program: 3, name: "M".to_string() },
            Command::UniformLocation { program: 3, name: "V".to_string() },
            Command::UniformLocation { program: 3, name: "LightPosition_worldspace".to_string() },
            Command::GenVertexArray,
            Command::BindVertexArray { array: 4 },
            Command::GenBuffer,
            Command::BindBuffer { target: BufferTarget::Array, buffer: 5 },
            Command::BufferData {
                target: BufferTarget::Array,
                contents: BufferContents::Triples(positions),
            },
            Command::EnableVertexAttribArray { slot: 0 },
            Command::VertexAttribPointer { slot: 0, components: 3 },
            Command::GenBuffer,
            Command::BindBuffer { target: BufferTarget::Array, buffer: 6 },
            Command::BufferData {
                target: BufferTarget::Array,
                contents: BufferContents::Triples(normals),
            },
            Command::EnableVertexAttribArray { slot: 1 },
            Command::VertexAttribPointer { slot: 1, components: 3 },
            Command::GenBuffer,
            Command::BindBuffer { target: BufferTarget::ElementArray, buffer: 7 },
            Command::BufferData {
                target: BufferTarget::ElementArray,
                contents: BufferContents::Indices(vec![0, 1, 2]),
            },
            Command::BindVertexArray { array: 0 },
        ]
    );

    let context = RenderContext::new(matrix(10), matrix(20), None);
    let before = Model {
        program: ShaderProgram { id: 3 },
        geometry: GeometryBuffer { ..model.geometry },
        locations: model.locations,
    };
    let commands = model.render(&context, matrix(30));
    assert_eq!(model, before);
    assert_eq!(LIGHT_COORDINATE, 4.0f32.to_bits());
    assert_eq!(
        commands,
        vec![
            Command::UseProgram { program: 3 },
            Command::UniformMatrix {
                location: 0,
                value: MatrixValue::Product {
                    projection: matrix(10),
                    view: matrix(20),
                    model: ModelTransform::Given(matrix(30)),
                },
            },
            Command::UniformMatrix { location: 1, value: MatrixValue::Given(matrix(30)) },
            Command::UniformMatrix { location: 2, value: MatrixValue::Given(matrix(20)) },
            Command::UniformVector {
                location: 3,
                value: [LIGHT_COORDINATE, LIGHT_COORDINATE, LIGHT_COORDINATE],
            },
            Command::BindVertexArray { array: 4 },
            Command::DrawElements { mode: Primitive::Triangles, count: 3 },
            Command::BindVertexArray { array: 0 },
            Command::UseProgram { program: 0 },
        ]
    );

    assert_eq!(driver.live.len(), 5);
    let teardown = model.destroy();
    assert_eq!(
        teardown,
        vec![
            Command::DeleteBuffer { buffer: 5 },
            Command::DeleteBuffer { buffer: 6 },
            Command::DeleteBuffer { buffer: 7 },
            Command::DeleteVertexArray { array: 4 },
            Command::DeleteProgram { program: 3 },
        ]
    );
    driver.perform(&teardown);
    assert!(driver.live.is_empty());
}

#[test]
fn model_with_an_unlinkable_program_is_not_built() {
    let mut driver = Driver::new();
    let started = match Model::new(
        Ok(triangle_mesh()),
        UNLINKABLE_SOURCE.to_string(),
        FRAGMENT_SOURCE.to_string(),
    ) {
        Ok(started) => started,
        Err(error) => panic!("there is a mesh: {:?}", error),
    };
    let error = driver.drive(started).expect_err("the program does not link");
    assert!(matches!(error, LinkError::Link { .. }));
    assert!(driver.live.is_empty());
}

#[test]
fn a_driver_that_repeats_an_id_is_still_released_in_full() {
    let (job, _) = ShaderProgram::load_from(VERTEX_SOURCE.to_string(), BROKEN_SOURCE.to_string());
    let mut issued = Vec::new();
    let mut job = job;
    let replies = vec![
        Reply::Handle(0),
        Reply::Log(String::new()),
        Reply::Handle(0),
        Reply::Log("bad".to_string()),
    ];
    let mut ended = None;
    for reply in replies {
        assert!(ended.is_none());
        match job.resume(reply) {
            Step::Await(next, mut commands) => {
                issued.append(&mut commands);
                job = next;
            }
            Step::Done(mut commands, output) => {
                issued.append(&mut commands);
                ended = Some(output);
                break;
            }
        }
    }
    assert_eq!(
        ended,
        Some(Err(LinkError::Compile { stage: Stage::Fragment, diagnostic: "bad".to_string() }))
    );
    let deletes = issued
        .iter()
        .filter(|c| **c == Command::DeleteShader { shader: 0 })
        .count();
    assert_eq!(deletes, 2);
}
