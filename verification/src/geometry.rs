//! Vertex, normal and index buffers under one vertex-array object.
//!
//! The host data is uploaded once. Nothing is validated on the way: an index
//! that names no vertex is the caller's fault, and is passed on as it is.

use vstd::prelude::*;
use vstd::multiset::Multiset;
use crate::command::{BufferContents, BufferTarget, Command, Primitive, Reply, Resource};
use crate::command::{ResourceKind, Step, Turn};
use crate::command::{granted, group_ledger, honours, lemma_settle_inert, settle};
use crate::job::Job;

verus! {

/// The attribute slot of the vertex positions.
pub const POSITION_SLOT: u32 = 0;

/// The attribute slot of the vertex normals.
pub const NORMAL_SLOT: u32 = 1;

/// Single-precision components per position and per normal.
pub const COMPONENTS: u32 = 3;

/// How the attribute layout reaches the driver.
#[derive(Clone, Copy, Debug, PartialEq, Eq)]
pub enum Framing {
    /// The layout is recorded in the vertex-array object at upload and stays
    /// enabled.
    Recorded,
    /// Each draw enables the attribute arrays before it and disables them
    /// after it.
    PerDraw,
}

/// Uploaded geometry. It owns its vertex-array object and its buffers.
#[derive(Debug, PartialEq, Eq)]
pub struct GeometryBuffer {
    pub array: u32,
    pub positions: u32,
    pub normals: Option<u32>,
    pub indices: Option<u32>,
    /// The number of positions that were uploaded.
    pub vertex_count: usize,
    /// The number of indices that were uploaded, 0 without an index buffer.
    pub index_count: usize,
    pub framing: Framing,
}

/// An upload under way.
#[derive(Debug, PartialEq, Eq)]
pub enum UploadJob {
    /// The vertex-array object has been asked for.
    Array {
        positions: Vec<[u32; 3]>,
        normals: Option<Vec<[u32; 3]>>,
        indices: Option<Vec<u16>>,
        framing: Framing,
    },
    /// The buffer for the positions has been asked for.
    Positions {
        array: u32,
        positions: Vec<[u32; 3]>,
        normals: Option<Vec<[u32; 3]>>,
        indices: Option<Vec<u16>>,
        framing: Framing,
    },
    /// The positions are uploaded; the buffer for the normals has been asked
    /// for.
    Normals {
        array: u32,
        positions: u32,
        vertex_count: usize,
        normals: Vec<[u32; 3]>,
        indices: Option<Vec<u16>>,
        framing: Framing,
    },
    /// Positions and normals are uploaded; the buffer for the indices has
    /// been asked for.
    Indices {
        array: u32,
        positions: u32,
        normals: Option<u32>,
        vertex_count: usize,
        indices: Vec<u16>,
        framing: Framing,
    },
}

/// The vertex-array object with the id `id`.
pub open spec fn array_object(id: u32) -> Resource {
    Resource { kind: ResourceKind::VertexArray, id }
}

/// The buffer object with the id `id`.
pub open spec fn buffer_object(id: u32) -> Resource {
    Resource { kind: ResourceKind::Buffer, id }
}

/// The buffer `id`, where there is one.
pub open spec fn optional_buffer(id: Option<u32>) -> Multiset<Resource> {
    match id {
        Some(id) => Multiset::singleton(buffer_object(id)),
        None => Multiset::empty(),
    }
}

/// The commands that bind `buffer` to `target` and copy `contents` into it.
pub open spec fn buffer_filled(
    target: BufferTarget,
    buffer: u32,
    contents: BufferContents,
) -> Seq<Command> {
    seq![Command::BindBuffer { target, buffer }, Command::BufferData { target, contents }]
}

/// The commands that record the layout of `slot` at upload: none where each
/// draw frames its attributes itself.
pub open spec fn attribute_recorded(framing: Framing, slot: u32) -> Seq<Command> {
    match framing {
        Framing::Recorded => seq![
            Command::EnableVertexAttribArray { slot },
            Command::VertexAttribPointer { slot, components: COMPONENTS },
        ],
        Framing::PerDraw => Seq::empty(),
    }
}

/// The commands that point `slot` at `buffer` before a draw.
pub open spec fn attribute_framed(slot: u32, buffer: u32) -> Seq<Command> {
    seq![
        Command::EnableVertexAttribArray { slot },
        Command::BindBuffer { target: BufferTarget::Array, buffer },
        Command::VertexAttribPointer { slot, components: COMPONENTS },
    ]
}

/// How an upload goes on once positions and normals are dealt with: with
/// indices, it asks for their buffer; without, it unbinds the vertex-array
/// object and ends.
pub open spec fn after_attributes(
    array: u32,
    positions: u32,
    normals: Option<u32>,
    vertex_count: usize,
    indices: Option<Vec<u16>>,
    framing: Framing,
    batch: Seq<Command>,
) -> Turn<UploadJob, GeometryBuffer> {
    match indices {
        Some(indices) => Turn::Await(
            UploadJob::Indices { array, positions, normals, vertex_count, indices, framing },
            batch.push(Command::GenBuffer),
        ),
        None => Turn::Done(
            batch.push(Command::BindVertexArray { array: 0 }),
            GeometryBuffer {
                array,
                positions,
                normals,
                indices: None,
                vertex_count,
                index_count: 0,
                framing,
            },
        ),
    }
}

impl GeometryBuffer {
    /// The objects that the geometry owns: the vertex-array object and one
    /// buffer for each array that was uploaded.
    pub open spec fn holds(&self) -> Multiset<Resource> {
        Multiset::singleton(array_object(self.array)).add(
            Multiset::singleton(buffer_object(self.positions)),
        ).add(optional_buffer(self.normals)).add(optional_buffer(self.indices))
    }

    /// The draw call: indexed over all indices where there is an index
    /// buffer, over all vertices in order where there is none.
    pub open spec fn draw_call(&self, mode: Primitive) -> Command {
        if self.indices is Some {
            Command::DrawElements { mode, count: self.index_count }
        } else {
            Command::DrawArrays { mode, count: self.vertex_count }
        }
    }

    /// The commands that enable the attribute arrays before a draw: none
    /// where the layout is recorded.
    pub open spec fn frame_opened(&self) -> Seq<Command> {
        match self.framing {
            Framing::Recorded => Seq::empty(),
            Framing::PerDraw => attribute_framed(POSITION_SLOT, self.positions) + match self.normals {
                Some(normals) => attribute_framed(NORMAL_SLOT, normals),
                None => Seq::empty(),
            },
        }
    }

    /// The commands that disable the attribute arrays after a draw: none
    /// where the layout is recorded.
    pub open spec fn frame_closed(&self) -> Seq<Command> {
        match self.framing {
            Framing::Recorded => Seq::empty(),
            Framing::PerDraw => seq![Command::DisableVertexAttribArray { slot: POSITION_SLOT }]
                + match self.normals {
                Some(_) => seq![Command::DisableVertexAttribArray { slot: NORMAL_SLOT }],
                None => Seq::empty(),
            },
        }
    }

    /// One draw of the whole geometry: the vertex-array object is bound, the
    /// attributes are framed, the draw is issued, and the frame and the
    /// binding are undone in turn.
    pub open spec fn drawn(&self, mode: Primitive) -> Seq<Command> {
        seq![Command::BindVertexArray { array: self.array }] + self.frame_opened()
            + seq![self.draw_call(mode)] + self.frame_closed()
            + seq![Command::BindVertexArray { array: 0 }]
    }

    /// The teardown: the buffers are deleted, then the vertex-array object.
    pub open spec fn torn_down(&self) -> Seq<Command> {
        seq![Command::DeleteBuffer { buffer: self.positions }] + match self.normals {
            Some(buffer) => seq![Command::DeleteBuffer { buffer }],
            None => Seq::empty(),
        } + match self.indices {
            Some(buffer) => seq![Command::DeleteBuffer { buffer }],
            None => Seq::empty(),
        } + seq![Command::DeleteVertexArray { array: self.array }]
    }

    /// Begins to upload the arrays: asks the driver for a vertex-array
    /// object. No input is refused.
    pub fn upload(
        positions: Vec<[u32; 3]>,
        normals: Option<Vec<[u32; 3]>>,
        indices: Option<Vec<u16>>,
        framing: Framing,
    ) -> (started: (UploadJob, Vec<Command>))
        ensures
            started.0 == (UploadJob::Array { positions, normals, indices, framing }),
            started.1@ == seq![Command::GenVertexArray],
    {
        (UploadJob::Array { positions, normals, indices, framing }, vec![Command::GenVertexArray])
    }

    /// The commands of one draw of the whole geometry.
    pub fn bind_and_draw(&self, mode: Primitive) -> (commands: Vec<Command>)
        ensures
            commands@ == self.drawn(mode),
    {
        let mut commands = vec![Command::BindVertexArray { array: self.array }];
        match self.framing {
            Framing::Recorded => {},
            Framing::PerDraw => {
                push_attribute_framed(&mut commands, POSITION_SLOT, self.positions);
                match self.normals {
                    Some(normals) => push_attribute_framed(&mut commands, NORMAL_SLOT, normals),
                    None => {},
                }
            },
        }
        assert(commands@ =~= seq![Command::BindVertexArray { array: self.array }]
            + self.frame_opened());
        match self.indices {
            Some(_) => commands.push(Command::DrawElements { mode, count: self.index_count }),
            None => commands.push(Command::DrawArrays { mode, count: self.vertex_count }),
        }
        let ghost drawn = commands@;
        match self.framing {
            Framing::Recorded => {},
            Framing::PerDraw => {
                commands.push(Command::DisableVertexAttribArray { slot: POSITION_SLOT });
                match self.normals {
                    Some(_) => commands.push(
                        Command::DisableVertexAttribArray { slot: NORMAL_SLOT },
                    ),
                    None => {},
                }
            },
        }
        assert(commands@ =~= drawn + self.frame_closed());
        commands.push(Command::BindVertexArray { array: 0 });
        assert(commands@ =~= self.drawn(mode));
        commands
    }

    /// The commands that release everything the geometry owns. The geometry
    /// is consumed: it cannot be released twice.
    pub fn destroy(self) -> (commands: Vec<Command>)
        ensures
            commands@ == self.torn_down(),
    {
        let mut commands = vec![Command::DeleteBuffer { buffer: self.positions }];
        match self.normals {
            Some(buffer) => commands.push(Command::DeleteBuffer { buffer }),
            None => {},
        }
        match self.indices {
            Some(buffer) => commands.push(Command::DeleteBuffer { buffer }),
            None => {},
        }
        commands.push(Command::DeleteVertexArray { array: self.array });
        assert(commands@ =~= self.torn_down());
        commands
    }

    /// The teardown releases what the geometry owns, each object once, and
    /// nothing else.
    pub proof fn lemma_teardown_releases_all(self, base: Multiset<Resource>)
        ensures
            honours(base.add(self.holds()), self.torn_down()),
            settle(base.add(self.holds()), self.torn_down()) == base,
    {
        broadcast use group_ledger;

        let array = array_object(self.array);
        let positions = buffer_object(self.positions);
        let ledger = base.add(self.holds());
        let none = Seq::<Command>::empty();
        let first = none.push(Command::DeleteBuffer { buffer: self.positions });
        assert(settle(ledger, none) == ledger);
        assert(honours(ledger, none));
        let l1 = ledger.remove(positions);
        assert(settle(ledger, first) == l1);
        let second = match self.normals {
            Some(buffer) => first.push(Command::DeleteBuffer { buffer }),
            None => first,
        };
        let l2 = match self.normals {
            Some(buffer) => l1.remove(buffer_object(buffer)),
            None => l1,
        };
        assert(settle(ledger, second) == l2);
        assert(honours(ledger, second));
        let third = match self.indices {
            Some(buffer) => second.push(Command::DeleteBuffer { buffer }),
            None => second,
        };
        let l3 = match self.indices {
            Some(buffer) => l2.remove(buffer_object(buffer)),
            None => l2,
        };
        assert(settle(ledger, third) == l3);
        assert(honours(ledger, third));
        let all = third.push(Command::DeleteVertexArray { array: self.array });
        assert(all =~= self.torn_down());
        assert(l3 =~= base.add(Multiset::singleton(array)));
        assert(l3.remove(array) =~= base);
    }
}

/// Appends the commands that point `slot` at `buffer` before a draw.
fn push_attribute_framed(commands: &mut Vec<Command>, slot: u32, buffer: u32)
    ensures
        final(commands)@ == old(commands)@ + attribute_framed(slot, buffer),
{
    commands.push(Command::EnableVertexAttribArray { slot });
    commands.push(Command::BindBuffer { target: BufferTarget::Array, buffer });
    commands.push(Command::VertexAttribPointer { slot, components: COMPONENTS });
    assert(commands@ =~= old(commands)@ + attribute_framed(slot, buffer));
}

/// Appends the commands that bind `buffer` to `target` and fill it, and, for
/// an attribute, those that record its layout.
fn push_buffer_filled(
    commands: &mut Vec<Command>,
    target: BufferTarget,
    buffer: u32,
    contents: BufferContents,
    recorded: Option<(Framing, u32)>,
)
    ensures
        final(commands)@ == old(commands)@ + buffer_filled(target, buffer, contents) + match recorded {
            Some((framing, slot)) => attribute_recorded(framing, slot),
            None => Seq::empty(),
        },
{
    commands.push(Command::BindBuffer { target, buffer });
    commands.push(Command::BufferData { target, contents });
    match recorded {
        Some((Framing::Recorded, slot)) => {
            commands.push(Command::EnableVertexAttribArray { slot });
            commands.push(Command::VertexAttribPointer { slot, components: COMPONENTS });
        },
        _ => {},
    }
    assert(commands@ =~= old(commands)@ + buffer_filled(target, buffer, contents) + match recorded {
        Some((framing, slot)) => attribute_recorded(framing, slot),
        None => Seq::empty(),
    });
}

/// Goes on with an upload once positions and normals are dealt with.
fn resume_after_attributes(
    array: u32,
    positions: u32,
    normals: Option<u32>,
    vertex_count: usize,
    indices: Option<Vec<u16>>,
    framing: Framing,
    batch: Vec<Command>,
) -> (step: Step<UploadJob, GeometryBuffer>)
    ensures
        step@ == after_attributes(
            array,
            positions,
            normals,
            vertex_count,
            indices,
            framing,
            batch@,
        ),
{
    let mut batch = batch;
    match indices {
        Some(indices) => {
            batch.push(Command::GenBuffer);
            Step::Await(
                UploadJob::Indices { array, positions, normals, vertex_count, indices, framing },
                batch,
            )
        },
        None => {
            batch.push(Command::BindVertexArray { array: 0 });
            Step::Done(
                batch,
                GeometryBuffer {
                    array,
                    positions,
                    normals,
                    indices: None,
                    vertex_count,
                    index_count: 0,
                    framing,
                },
            )
        },
    }
}

impl Job for UploadJob {
    type Output = GeometryBuffer;

    open spec fn pending(&self) -> Command {
        match *self {
            UploadJob::Array { .. } => Command::GenVertexArray,
            _ => Command::GenBuffer,
        }
    }

    open spec fn accepts(&self, reply: Reply) -> bool {
        reply is Handle
    }

    /// With its vertex-array object, the job binds it. Then, for the
    /// positions, for the normals where there are any, and for the indices
    /// where there are any, it asks for a buffer, binds it and fills it; for
    /// positions and normals it records the layout where that is asked for.
    /// At the end it unbinds the vertex-array object.
    open spec fn next(self, reply: Reply) -> Turn<Self, GeometryBuffer> {
        match (self, reply) {
            (
                UploadJob::Array { positions, normals, indices, framing },
                Reply::Handle(array),
            ) => Turn::Await(
                UploadJob::Positions { array, positions, normals, indices, framing },
                seq![Command::BindVertexArray { array }, Command::GenBuffer],
            ),
            (
                UploadJob::Positions { array, positions, normals, indices, framing },
                Reply::Handle(buffer),
            ) => {
                let batch = buffer_filled(
                    BufferTarget::Array,
                    buffer,
                    BufferContents::Triples(positions),
                ) + attribute_recorded(framing, POSITION_SLOT);
                match normals {
                    Some(normals) => Turn::Await(
                        UploadJob::Normals {
                            array,
                            positions: buffer,
                            vertex_count: positions.len(),
                            normals,
                            indices,
                            framing,
                        },
                        batch.push(Command::GenBuffer),
                    ),
                    None => after_attributes(
                        array,
                        buffer,
                        None,
                        positions.len(),
                        indices,
                        framing,
                        batch,
                    ),
                }
            },
            (
                UploadJob::Normals { array, positions, vertex_count, normals, indices, framing },
                Reply::Handle(buffer),
            ) => after_attributes(
                array,
                positions,
                Some(buffer),
                vertex_count,
                indices,
                framing,
                buffer_filled(BufferTarget::Array, buffer, BufferContents::Triples(normals))
                    + attribute_recorded(framing, NORMAL_SLOT),
            ),
            (
                UploadJob::Indices { array, positions, normals, vertex_count, indices, framing },
                Reply::Handle(buffer),
            ) => Turn::Done(
                buffer_filled(
                    BufferTarget::ElementArray,
                    buffer,
                    BufferContents::Indices(indices),
                ).push(Command::BindVertexArray { array: 0 }),
                GeometryBuffer {
                    array,
                    positions,
                    normals,
                    indices: Some(buffer),
                    vertex_count,
                    index_count: indices.len(),
                    framing,
                },
            ),
            _ => Turn::Await(self, Seq::empty()),
        }
    }

    open spec fn holds(&self) -> Multiset<Resource> {
        match *self {
            UploadJob::Array { .. } => Multiset::empty(),
            UploadJob::Positions { array, .. } => Multiset::singleton(array_object(array)),
            UploadJob::Normals { array, positions, .. } => Multiset::singleton(
                array_object(array),
            ).add(Multiset::singleton(buffer_object(positions))),
            UploadJob::Indices { array, positions, normals, .. } => Multiset::singleton(
                array_object(array),
            ).add(Multiset::singleton(buffer_object(positions))).add(optional_buffer(normals)),
        }
    }

    open spec fn yields(output: GeometryBuffer) -> Multiset<Resource> {
        output.holds()
    }

    fn admits(&self, reply: &Reply) -> (ok: bool) {
        match reply {
            Reply::Handle(_) => true,
            _ => false,
        }
    }

    fn resume(self, reply: Reply) -> (step: Step<Self, GeometryBuffer>) {
        match reply {
            Reply::Handle(handle) => match self {
                UploadJob::Array { positions, normals, indices, framing } => {
                    let batch = vec![
                        Command::BindVertexArray { array: handle },
                        Command::GenBuffer,
                    ];
                    assert(batch@ =~= seq![
                        Command::BindVertexArray { array: handle },
                        Command::GenBuffer,
                    ]);
                    Step::Await(
                        UploadJob::Positions { array: handle, positions, normals, indices, framing },
                        batch,
                    )
                },
                UploadJob::Positions { array, positions, normals, indices, framing } => {
                    let vertex_count = positions.len();
                    let mut batch: Vec<Command> = Vec::new();
                    push_buffer_filled(
                        &mut batch,
                        BufferTarget::Array,
                        handle,
                        BufferContents::Triples(positions),
                        Some((framing, POSITION_SLOT)),
                    );
                    assert(batch@ =~= buffer_filled(
                        BufferTarget::Array,
                        handle,
                        BufferContents::Triples(positions),
                    ) + attribute_recorded(framing, POSITION_SLOT));
                    match normals {
                        Some(normals) => {
                            batch.push(Command::GenBuffer);
                            Step::Await(
                                UploadJob::Normals {
                                    array,
                                    positions: handle,
                                    vertex_count,
                                    normals,
                                    indices,
                                    framing,
                                },
                                batch,
                            )
                        },
                        None => resume_after_attributes(
                            array,
                            handle,
                            None,
                            vertex_count,
                            indices,
                            framing,
                            batch,
                        ),
                    }
                },
                UploadJob::Normals { array, positions, vertex_count, normals, indices, framing } => {
                    let mut batch: Vec<Command> = Vec::new();
                    push_buffer_filled(
                        &mut batch,
                        BufferTarget::Array,
                        handle,
                        BufferContents::Triples(normals),
                        Some((framing, NORMAL_SLOT)),
                    );
                    assert(batch@ =~= buffer_filled(
                        BufferTarget::Array,
                        handle,
                        BufferContents::Triples(normals),
                    ) + attribute_recorded(framing, NORMAL_SLOT));
                    resume_after_attributes(
                        array,
                        positions,
                        Some(handle),
                        vertex_count,
                        indices,
                        framing,
                        batch,
                    )
                },
                UploadJob::Indices { array, positions, normals, vertex_count, indices, framing } => {
                    let index_count = indices.len();
                    let mut batch: Vec<Command> = Vec::new();
                    push_buffer_filled(
                        &mut batch,
                        BufferTarget::ElementArray,
                        handle,
                        BufferContents::Indices(indices),
                        None,
                    );
                    batch.push(Command::BindVertexArray { array: 0 });
                    assert(batch@ =~= buffer_filled(
                        BufferTarget::ElementArray,
                        handle,
                        BufferContents::Indices(indices),
                    ).push(Command::BindVertexArray { array: 0 }));
                    Step::Done(
                        batch,
                        GeometryBuffer {
                            array,
                            positions,
                            normals,
                            indices: Some(handle),
                            vertex_count,
                            index_count,
                            framing,
                        },
                    )
                },
            },
            _ => Step::ignored(self),
        }
    }

    proof fn lemma_unaccepted_is_ignored(self, reply: Reply) {
    }

    proof fn lemma_step_accounts(self, reply: Reply) {
        let ledger = self.holds().add(granted(self.pending(), reply));
        let batch = self.next(reply).commands();
        lemma_settle_inert(ledger, batch);
        match self.next(reply) {
            Turn::Await(after, _) => {
                assert(ledger =~= after.holds());
            },
            Turn::Done(_, output) => {
                assert(ledger =~= output.holds());
            },
        }
    }
}

} // verus!
