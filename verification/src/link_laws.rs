//! What holds of every link, whatever ids the driver hands out.

use vstd::prelude::*;
use vstd::multiset::Multiset;
use crate::command::{Command, Reply, Resource, Stage};
use crate::job::{Job, Progress, follows, issued, outstanding, progress};
use crate::job::{lemma_exchange_balances, lemma_exchange_unfolds};
use crate::shader::{LinkError, LinkJob, ShaderProgram, link_of, units_released};

verus! {

/// The commands that compile `source` as the unit `shader`, once the shader
/// object is there.
pub open spec fn unit_compiled(shader: u32, source: String) -> Seq<Command> {
    seq![
        Command::ShaderSource { shader, source },
        Command::CompileShader { shader },
        Command::ShaderInfoLog { shader },
    ]
}

/// The commands that link `program` from the two units.
pub open spec fn program_linked(program: u32, vertex: u32, fragment: u32) -> Seq<Command> {
    seq![
        Command::AttachShader { program, shader: vertex },
        Command::AttachShader { program, shader: fragment },
        Command::LinkProgram { program },
        Command::ProgramInfoLog { program },
    ]
}

/// Two sources that compile and link without a word from the driver give a
/// program: the link ends with the program object that the driver handed
/// out. After its first command, which asks for the vertex shader object,
/// it issues the commands below and no others, and in the end the driver
/// holds the program object and nothing else of this link.
pub proof fn lemma_clean_link_succeeds(
    vertex_source: String,
    fragment_source: String,
    vertex: u32,
    fragment: u32,
    program: u32,
    vertex_log: String,
    fragment_log: String,
    link_log: String,
    base: Multiset<Resource>,
)
    requires
        vertex_log@.len() == 0,
        fragment_log@.len() == 0,
        link_log@.len() == 0,
    ensures
        ({
            let job = link_of(vertex_source, fragment_source);
            let replies = seq![
                Reply::Handle(vertex),
                Reply::Log(vertex_log),
                Reply::Handle(fragment),
                Reply::Log(fragment_log),
                Reply::Handle(program),
                Reply::Log(link_log),
            ];
            &&& follows(job, replies)
            &&& progress(job, replies) == Progress::<LinkJob, Result<ShaderProgram, LinkError>>::Finished(
                Ok(ShaderProgram { id: program }),
            )
            &&& issued(job, replies) == unit_compiled(vertex, vertex_source)
                + seq![Command::CreateShader { stage: Stage::Fragment }]
                + unit_compiled(fragment, fragment_source)
                + seq![Command::CreateProgram]
                + program_linked(program, vertex, fragment)
                + units_released(program, vertex, fragment)
            &&& outstanding(job, base, replies) == base.add(
                (ShaderProgram { id: program }).holds(),
            )
        }),
{
    let job = link_of(vertex_source, fragment_source);
    let r1 = Reply::Handle(vertex);
    let r2 = Reply::Log(vertex_log);
    let r3 = Reply::Handle(fragment);
    let r4 = Reply::Log(fragment_log);
    let r5 = Reply::Handle(program);
    let r6 = Reply::Log(link_log);
    let t5 = seq![r6];
    let t4 = seq![r5] + t5;
    let t3 = seq![r4] + t4;
    let t2 = seq![r3] + t3;
    let t1 = seq![r2] + t2;
    let t0 = seq![r1] + t1;
    assert(t0 =~= seq![r1, r2, r3, r4, r5, r6]);
    assert(t5 =~= seq![r6] + Seq::empty());
    let j1 = job.next(r1)->Await_0;
    let j2 = j1.next(r2)->Await_0;
    let j3 = j2.next(r3)->Await_0;
    let j4 = j3.next(r4)->Await_0;
    let j5 = j4.next(r5)->Await_0;
    lemma_exchange_unfolds(job, r1, t1);
    lemma_exchange_unfolds(j1, r2, t2);
    lemma_exchange_unfolds(j2, r3, t3);
    lemma_exchange_unfolds(j3, r4, t4);
    lemma_exchange_unfolds(j4, r5, t5);
    lemma_exchange_unfolds(j5, r6, Seq::empty());
    assert(issued(j5, t5) == units_released(program, vertex, fragment));
    assert(issued(j4, t4) =~= program_linked(program, vertex, fragment) + issued(j5, t5));
    assert(issued(j3, t3) =~= seq![Command::CreateProgram] + issued(j4, t4));
    assert(issued(j2, t2) =~= unit_compiled(fragment, fragment_source) + issued(j3, t3));
    assert(issued(j1, t1) =~= seq![Command::CreateShader { stage: Stage::Fragment }] + issued(
        j2,
        t2,
    ));
    assert(issued(job, t0) =~= unit_compiled(vertex, vertex_source) + issued(j1, t1));
    assert(issued(job, t0) =~= unit_compiled(vertex, vertex_source)
        + seq![Command::CreateShader { stage: Stage::Fragment }]
        + unit_compiled(fragment, fragment_source)
        + seq![Command::CreateProgram]
        + program_linked(program, vertex, fragment)
        + units_released(program, vertex, fragment));
    lemma_exchange_balances(job, base, t0);
    assert(base.add(job.holds()) =~= base);
}

/// A vertex source that draws a word from the compiler ends the link there:
/// the error names the vertex stage and carries the log, the fragment source
/// is never touched, the one shader object is deleted, and the driver holds
/// nothing of this link.
pub proof fn lemma_vertex_error_ends_link(
    vertex_source: String,
    fragment_source: String,
    vertex: u32,
    log: String,
    base: Multiset<Resource>,
)
    requires
        log@.len() > 0,
    ensures
        ({
            let job = link_of(vertex_source, fragment_source);
            let replies = seq![Reply::Handle(vertex), Reply::Log(log)];
            &&& follows(job, replies)
            &&& progress(job, replies) == Progress::<LinkJob, Result<ShaderProgram, LinkError>>::Finished(
                Err(LinkError::Compile { stage: Stage::Vertex, diagnostic: log }),
            )
            &&& issued(job, replies) == unit_compiled(vertex, vertex_source)
                + seq![Command::DeleteShader { shader: vertex }]
            &&& outstanding(job, base, replies) == base
        }),
{
    let job = link_of(vertex_source, fragment_source);
    let r1 = Reply::Handle(vertex);
    let r2 = Reply::Log(log);
    let t1 = seq![r2];
    let t0 = seq![r1] + t1;
    assert(t0 =~= seq![r1, r2]);
    assert(t1 =~= seq![r2] + Seq::empty());
    let j1 = job.next(r1)->Await_0;
    lemma_exchange_unfolds(job, r1, t1);
    lemma_exchange_unfolds(j1, r2, Seq::empty());
    lemma_exchange_balances(job, base, t0);
    assert(base.add(job.holds()) =~= base);
    assert(base.add(Multiset::empty()) =~= base);
}

/// A fragment source that draws a word from the compiler ends the link
/// there: the error names the fragment stage and carries the log, both
/// shader objects are deleted, no program object is asked for, and the
/// driver holds nothing of this link.
pub proof fn lemma_fragment_error_ends_link(
    vertex_source: String,
    fragment_source: String,
    vertex: u32,
    fragment: u32,
    vertex_log: String,
    log: String,
    base: Multiset<Resource>,
)
    requires
        vertex_log@.len() == 0,
        log@.len() > 0,
    ensures
        ({
            let job = link_of(vertex_source, fragment_source);
            let replies = seq![
                Reply::Handle(vertex),
                Reply::Log(vertex_log),
                Reply::Handle(fragment),
                Reply::Log(log),
            ];
            &&& follows(job, replies)
            &&& progress(job, replies) == Progress::<LinkJob, Result<ShaderProgram, LinkError>>::Finished(
                Err(LinkError::Compile { stage: Stage::Fragment, diagnostic: log }),
            )
            &&& issued(job, replies) == unit_compiled(vertex, vertex_source)
                + seq![Command::CreateShader { stage: Stage::Fragment }]
                + unit_compiled(fragment, fragment_source)
                + seq![
                    Command::DeleteShader { shader: fragment },
                    Command::DeleteShader { shader: vertex },
                ]
            &&& outstanding(job, base, replies) == base
        }),
{
    let job = link_of(vertex_source, fragment_source);
    let r1 = Reply::Handle(vertex);
    let r2 = Reply::Log(vertex_log);
    let r3 = Reply::Handle(fragment);
    let r4 = Reply::Log(log);
    let t3 = seq![r4];
    let t2 = seq![r3] + t3;
    let t1 = seq![r2] + t2;
    let t0 = seq![r1] + t1;
    assert(t0 =~= seq![r1, r2, r3, r4]);
    assert(t3 =~= seq![r4] + Seq::empty());
    let j1 = job.next(r1)->Await_0;
    let j2 = j1.next(r2)->Await_0;
    let j3 = j2.next(r3)->Await_0;
    lemma_exchange_unfolds(job, r1, t1);
    lemma_exchange_unfolds(j1, r2, t2);
    lemma_exchange_unfolds(j2, r3, t3);
    lemma_exchange_unfolds(j3, r4, Seq::empty());
    assert(issued(j3, t3) =~= seq![
        Command::DeleteShader { shader: fragment },
        Command::DeleteShader { shader: vertex },
    ]);
    assert(issued(j2, t2) =~= unit_compiled(fragment, fragment_source) + issued(j3, t3));
    assert(issued(j1, t1) =~= seq![Command::CreateShader { stage: Stage::Fragment }] + issued(
        j2,
        t2,
    ));
    assert(issued(job, t0) =~= unit_compiled(vertex, vertex_source)
        + seq![Command::CreateShader { stage: Stage::Fragment }]
        + unit_compiled(fragment, fragment_source)
        + seq![
            Command::DeleteShader { shader: fragment },
            Command::DeleteShader { shader: vertex },
        ]);
    lemma_exchange_balances(job, base, t0);
    assert(base.add(job.holds()) =~= base);
    assert(base.add(Multiset::empty()) =~= base);
}

/// Two units that compile and do not link end the link with the linker's
/// log: the program object is deleted, the units are detached and deleted,
/// and the driver holds nothing of this link.
pub proof fn lemma_link_error_releases_all(
    vertex_source: String,
    fragment_source: String,
    vertex: u32,
    fragment: u32,
    program: u32,
    vertex_log: String,
    fragment_log: String,
    log: String,
    base: Multiset<Resource>,
)
    requires
        vertex_log@.len() == 0,
        fragment_log@.len() == 0,
        log@.len() > 0,
    ensures
        ({
            let job = link_of(vertex_source, fragment_source);
            let replies = seq![
                Reply::Handle(vertex),
                Reply::Log(vertex_log),
                Reply::Handle(fragment),
                Reply::Log(fragment_log),
                Reply::Handle(program),
                Reply::Log(log),
            ];
            &&& follows(job, replies)
            &&& progress(job, replies) == Progress::<LinkJob, Result<ShaderProgram, LinkError>>::Finished(
                Err(LinkError::Link { diagnostic: log }),
            )
            &&& issued(job, replies) == unit_compiled(vertex, vertex_source)
                + seq![Command::CreateShader { stage: Stage::Fragment }]
                + unit_compiled(fragment, fragment_source)
                + seq![Command::CreateProgram]
                + program_linked(program, vertex, fragment)
                + seq![Command::DeleteProgram { program }]
                + units_released(program, vertex, fragment)
            &&& outstanding(job, base, replies) == base
        }),
{
    let job = link_of(vertex_source, fragment_source);
    let r1 = Reply::Handle(vertex);
    let r2 = Reply::Log(vertex_log);
    let r3 = Reply::Handle(fragment);
    let r4 = Reply::Log(fragment_log);
    let r5 = Reply::Handle(program);
    let r6 = Reply::Log(log);
    let t5 = seq![r6];
    let t4 = seq![r5] + t5;
    let t3 = seq![r4] + t4;
    let t2 = seq![r3] + t3;
    let t1 = seq![r2] + t2;
    let t0 = seq![r1] + t1;
    assert(t0 =~= seq![r1, r2, r3, r4, r5, r6]);
    assert(t5 =~= seq![r6] + Seq::empty());
    let j1 = job.next(r1)->Await_0;
    let j2 = j1.next(r2)->Await_0;
    let j3 = j2.next(r3)->Await_0;
    let j4 = j3.next(r4)->Await_0;
    let j5 = j4.next(r5)->Await_0;
    lemma_exchange_unfolds(job, r1, t1);
    lemma_exchange_unfolds(j1, r2, t2);
    lemma_exchange_unfolds(j2, r3, t3);
    lemma_exchange_unfolds(j3, r4, t4);
    lemma_exchange_unfolds(j4, r5, t5);
    lemma_exchange_unfolds(j5, r6, Seq::empty());
    assert(issued(j5, t5) == seq![Command::DeleteProgram { program }] + units_released(
        program,
        vertex,
        fragment,
    ));
    assert(issued(j4, t4) =~= program_linked(program, vertex, fragment) + issued(j5, t5));
    assert(issued(j3, t3) =~= seq![Command::CreateProgram] + issued(j4, t4));
    assert(issued(j2, t2) =~= unit_compiled(fragment, fragment_source) + issued(j3, t3));
    assert(issued(j1, t1) =~= seq![Command::CreateShader { stage: Stage::Fragment }] + issued(
        j2,
        t2,
    ));
    assert(issued(job, t0) =~= unit_compiled(vertex, vertex_source) + issued(j1, t1));
    assert(issued(job, t0) =~= unit_compiled(vertex, vertex_source)
        + seq![Command::CreateShader { stage: Stage::Fragment }]
        + unit_compiled(fragment, fragment_source)
        + seq![Command::CreateProgram]
        + program_linked(program, vertex, fragment)
        + seq![Command::DeleteProgram { program }]
        + units_released(program, vertex, fragment));
    lemma_exchange_balances(job, base, t0);
    assert(base.add(job.holds()) =~= base);
    assert(base.add(Multiset::empty()) =~= base);
}

} // verus!
