//! The driver's single-slot state, and the discipline that the crate keeps
//! with it: what is bound for a draw is unbound after it.

use vstd::prelude::*;
use crate::RenderContext;
use crate::command::{BufferTarget, Command, Mat4, Primitive};
use crate::cube::Cube;
use crate::geometry::{COMPONENTS, Framing, GeometryBuffer, NORMAL_SLOT, POSITION_SLOT};
use crate::geometry::attribute_framed;
use crate::lifecycle::uploaded;
use crate::model::Model;

verus! {

/// What of the driver's state the commands of this crate change: the
/// vertex-array object that is bound, 0 for none; the program that is
/// current, 0 for none; and the attribute arrays that are enabled.
pub struct Bindings {
    pub array: u32,
    pub program: u32,
    pub enabled: Set<u32>,
}

/// The state after `command`.
pub open spec fn bound_after(before: Bindings, command: Command) -> Bindings {
    match command {
        Command::BindVertexArray { array } => Bindings { array, ..before },
        Command::UseProgram { program } => Bindings { program, ..before },
        Command::EnableVertexAttribArray { slot } => Bindings {
            enabled: before.enabled.insert(slot),
            ..before
        },
        Command::DisableVertexAttribArray { slot } => Bindings {
            enabled: before.enabled.remove(slot),
            ..before
        },
        _ => before,
    }
}

/// The state after the commands of `batch`, in order.
pub open spec fn bound(before: Bindings, batch: Seq<Command>) -> Bindings
    decreases batch.len(),
{
    if batch.len() == 0 {
        before
    } else {
        bound_after(bound(before, batch.drop_last()), batch.last())
    }
}

/// The state after a batch that ends in `command` is the state after what
/// precedes it, then `command`.
pub broadcast proof fn lemma_bound_push(before: Bindings, batch: Seq<Command>, command: Command)
    ensures
        #[trigger] bound(before, batch.push(command)) == bound_after(
            bound(before, batch),
            command,
        ),
{
    assert(batch.push(command).drop_last() =~= batch);
}

/// The state after two batches in a row is the state after the first, then
/// the second.
pub proof fn lemma_bound_concat(before: Bindings, first: Seq<Command>, second: Seq<Command>)
    ensures
        bound(before, first + second) == bound(bound(before, first), second),
    decreases second.len(),
{
    if second.len() == 0 {
        assert(first + second =~= first);
    } else {
        lemma_bound_concat(before, first, second.drop_last());
        assert((first + second).drop_last() =~= first + second.drop_last());
        assert((first + second).last() == second.last());
    }
}

/// The slots that the draws of `geometry` frame: none where the layout is
/// recorded, else that of the positions and, with normals, that of the
/// normals.
pub open spec fn framed_slots(geometry: GeometryBuffer) -> Set<u32> {
    match geometry.framing {
        Framing::Recorded => Set::empty(),
        Framing::PerDraw => match geometry.normals {
            Some(_) => set![POSITION_SLOT, NORMAL_SLOT],
            None => set![POSITION_SLOT],
        },
    }
}

/// Pointing a slot at a buffer enables the slot and changes nothing else.
proof fn lemma_attribute_framed(before: Bindings, slot: u32, buffer: u32)
    ensures
        bound(before, attribute_framed(slot, buffer)) == (Bindings {
            enabled: before.enabled.insert(slot),
            ..before
        }),
{
    broadcast use lemma_bound_push;

    let none = Seq::<Command>::empty();
    let a = Command::EnableVertexAttribArray { slot };
    let b = Command::BindBuffer { target: BufferTarget::Array, buffer };
    let c = Command::VertexAttribPointer { slot, components: COMPONENTS };
    assert(attribute_framed(slot, buffer) == none.push(a).push(b).push(c));
    assert(bound(before, none) == before);
}

/// A draw leaves nothing behind. Whatever was bound, current and enabled
/// before it: after it no vertex-array object is bound, the current program
/// is the same, and the attribute arrays that it framed are disabled while
/// all others are as they were.
pub proof fn lemma_draw_leaves_nothing_bound(
    geometry: GeometryBuffer,
    mode: Primitive,
    before: Bindings,
)
    ensures
        bound(before, geometry.drawn(mode)) == (Bindings {
            array: 0,
            program: before.program,
            enabled: before.enabled.difference(framed_slots(geometry)),
        }),
{
    broadcast use lemma_bound_push;

    let none = Seq::<Command>::empty();
    let bind = seq![Command::BindVertexArray { array: geometry.array }];
    let opened = geometry.frame_opened();
    let draw = seq![geometry.draw_call(mode)];
    let closed = geometry.frame_closed();
    let unbind = seq![Command::BindVertexArray { array: 0 }];
    let s1 = bound(before, bind);
    let s2 = bound(s1, opened);
    let s3 = bound(s2, draw);
    let s4 = bound(s3, closed);
    lemma_bound_concat(before, bind, opened);
    lemma_bound_concat(before, bind + opened, draw);
    lemma_bound_concat(before, bind + opened + draw, closed);
    lemma_bound_concat(before, bind + opened + draw + closed, unbind);
    assert(bound(before, none) == before);
    assert(s1 == Bindings { array: geometry.array, ..before });
    assert(bound(s1, none) == s1);
    assert(bound(s2, none) == s2);
    assert(bound(s3, none) == s3);
    assert(bound(s4, none) == s4);
    let off_positions = Command::DisableVertexAttribArray { slot: POSITION_SLOT };
    let off_normals = Command::DisableVertexAttribArray { slot: NORMAL_SLOT };
    match geometry.framing {
        Framing::Recorded => {
            assert(s4.enabled =~= before.enabled.difference(framed_slots(geometry)));
        },
        Framing::PerDraw => {
            let positions = attribute_framed(POSITION_SLOT, geometry.positions);
            lemma_attribute_framed(s1, POSITION_SLOT, geometry.positions);
            match geometry.normals {
                Some(normals) => {
                    lemma_attribute_framed(bound(s1, positions), NORMAL_SLOT, normals);
                    lemma_bound_concat(s1, positions, attribute_framed(NORMAL_SLOT, normals));
                    assert(closed =~= none.push(off_positions).push(off_normals));
                    assert(s4.enabled =~= before.enabled.difference(framed_slots(geometry)));
                },
                None => {
                    assert(positions + none =~= positions);
                    assert(closed =~= none.push(off_positions));
                    assert(s4.enabled =~= before.enabled.difference(framed_slots(geometry)));
                },
            }
        },
    }
}

/// An upload leaves no vertex-array object bound, whatever it uploaded.
pub proof fn lemma_upload_leaves_nothing_bound(
    geometry: GeometryBuffer,
    positions: Vec<[u32; 3]>,
    normals: Option<Vec<[u32; 3]>>,
    indices: Option<Vec<u16>>,
    before: Bindings,
)
    ensures
        bound(before, uploaded(geometry, positions, normals, indices)).array == 0,
{
    broadcast use lemma_bound_push;

    let all = uploaded(geometry, positions, normals, indices);
    let unbind = seq![Command::BindVertexArray { array: 0 }];
    assert(all =~= all.drop_last() + unbind);
    lemma_bound_concat(before, all.drop_last(), unbind);
    let at = bound(before, all.drop_last());
    assert(bound(at, Seq::<Command>::empty()) == at);
}

/// A frame of the cube leaves no vertex-array object bound and the
/// attribute arrays that it framed disabled; the cube's program stays
/// current.
pub proof fn lemma_cube_frame_leaves_nothing_bound(
    cube: Cube,
    context: RenderContext,
    angle: u32,
    before: Bindings,
)
    ensures
        bound(before, cube.frame(context, angle)) == (Bindings {
            array: 0,
            program: cube.program.id,
            enabled: before.enabled.difference(framed_slots(cube.geometry)),
        }),
{
    broadcast use lemma_bound_push;

    let none = Seq::<Command>::empty();
    let frame = cube.frame(context, angle);
    let head = none.push(frame[0]).push(frame[1]);
    let drawn = cube.geometry.drawn(Primitive::Triangles);
    assert(frame =~= head + drawn);
    lemma_bound_concat(before, head, drawn);
    assert(bound(before, none) == before);
    lemma_draw_leaves_nothing_bound(cube.geometry, Primitive::Triangles, bound(before, head));
}

/// A frame of the model leaves no vertex-array object bound and no program
/// current, and the attribute arrays that it framed, if any, disabled.
pub proof fn lemma_model_frame_leaves_nothing_bound(
    model: Model,
    context: RenderContext,
    matrix: Mat4,
    before: Bindings,
)
    ensures
        bound(before, model.frame(context, matrix)) == (Bindings {
            array: 0,
            program: 0,
            enabled: before.enabled.difference(framed_slots(model.geometry)),
        }),
{
    broadcast use lemma_bound_push;

    let none = Seq::<Command>::empty();
    let frame = model.frame(context, matrix);
    let head = none.push(frame[0]).push(frame[1]).push(frame[2]).push(frame[3]).push(frame[4]);
    let drawn = model.geometry.drawn(Primitive::Triangles);
    let last = seq![Command::UseProgram { program: 0 }];
    assert(frame =~= head + drawn + last);
    lemma_bound_concat(before, head, drawn);
    lemma_bound_concat(before, head + drawn, last);
    assert(bound(before, none) == before);
    lemma_draw_leaves_nothing_bound(model.geometry, Primitive::Triangles, bound(before, head));
    let at = bound(before, head + drawn);
    assert(bound(at, none) == at);
}

} // verus!
