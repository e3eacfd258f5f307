//! Work that needs the driver's answers, and the law that all of it obeys:
//! what a job says it holds is exactly what the driver has outstanding.

use vstd::prelude::*;
use vstd::multiset::Multiset;
use crate::command::{Command, Reply, Resource, Step, Turn, granted, honours, settle};

verus! {

/// A piece of work in progress. It has issued a batch of commands and waits
/// for the answer to the last of them.
pub trait Job: Sized {
    /// What the job ends with.
    type Output;

    /// The query whose answer the job waits for.
    spec fn pending(&self) -> Command;

    /// `reply` is an answer of the sort that the pending query asks for.
    spec fn accepts(&self, reply: Reply) -> bool;

    /// The step that `reply` leads to. An answer that is not accepted leads
    /// nowhere: the job stays as it is and issues nothing.
    spec fn next(self, reply: Reply) -> Turn<Self, Self::Output>;

    /// The objects that the job has been granted and not yet released.
    spec fn holds(&self) -> Multiset<Resource>;

    /// The objects that a result of the job owns.
    spec fn yields(output: Self::Output) -> Multiset<Resource>;

    /// Tells whether `reply` is of the sort that the job waits for.
    fn admits(&self, reply: &Reply) -> (ok: bool)
        ensures
            ok == self.accepts(*reply),
    ;

    /// Takes the driver's answer and decides what to do next.
    fn resume(self, reply: Reply) -> (step: Step<Self, Self::Output>)
        ensures
            step@ == self.next(reply),
    ;

    /// An answer that is not accepted changes nothing.
    proof fn lemma_unaccepted_is_ignored(self, reply: Reply)
        requires
            !self.accepts(reply),
        ensures
            self.next(reply) == Turn::<Self, Self::Output>::Await(self, Seq::empty()),
    ;

    /// Every step keeps the books, whatever the answer. Start from what the
    /// job held and add what the answer granted. Then the batch that the step
    /// issues releases only objects that are outstanding when their turn
    /// comes, and what is outstanding after it is exactly what the step
    /// leaves behind. A job that goes on after an answer that it accepts
    /// waits for the answer to the last command of that batch.
    proof fn lemma_step_accounts(self, reply: Reply)
        ensures
            honours(
                self.holds().add(granted(self.pending(), reply)),
                self.next(reply).commands(),
            ),
            settle(self.holds().add(granted(self.pending(), reply)), self.next(reply).commands())
                == match self.next(reply) {
                Turn::Await(after, _) => after.holds(),
                Turn::Done(_, output) => Self::yields(output),
            },
            self.accepts(reply) ==> match self.next(reply) {
                Turn::Await(after, batch) => batch.len() > 0 && batch.last() == after.pending(),
                Turn::Done(_, _) => true,
            },
    ;
}

/// Where an exchange with the driver stands.
pub enum Progress<J, T> {
    Waiting(J),
    Finished(T),
}

/// `replies` can be the driver's answers to `job`, one after the other: each
/// is of the sort asked for, and none comes after the job has ended.
pub open spec fn follows<J: Job>(job: J, replies: Seq<Reply>) -> bool
    decreases replies.len(),
{
    replies.len() == 0 || (job.accepts(replies.first()) && match job.next(replies.first()) {
        Turn::Await(after, _) => follows(after, replies.drop_first()),
        Turn::Done(_, _) => replies.len() == 1,
    })
}

/// Where `job` stands after the answers `replies`.
pub open spec fn progress<J: Job>(job: J, replies: Seq<Reply>) -> Progress<J, J::Output>
    decreases replies.len(),
{
    if replies.len() == 0 {
        Progress::Waiting(job)
    } else {
        match job.next(replies.first()) {
            Turn::Await(after, _) => progress(after, replies.drop_first()),
            Turn::Done(_, output) => Progress::Finished(output),
        }
    }
}

/// The commands that `job` issues in answer to `replies`, in order.
pub open spec fn issued<J: Job>(job: J, replies: Seq<Reply>) -> Seq<Command>
    decreases replies.len(),
{
    if replies.len() == 0 {
        Seq::empty()
    } else {
        match job.next(replies.first()) {
            Turn::Await(after, batch) => batch + issued(after, replies.drop_first()),
            Turn::Done(batch, _) => batch,
        }
    }
}

/// The driver's ledger after the exchange: it grants what each answer hands
/// out and takes back what each command releases.
pub open spec fn outstanding<J: Job>(
    job: J,
    ledger: Multiset<Resource>,
    replies: Seq<Reply>,
) -> Multiset<Resource>
    decreases replies.len(),
{
    if replies.len() == 0 {
        ledger
    } else {
        let turn = job.next(replies.first());
        let after = settle(ledger.add(granted(job.pending(), replies.first())), turn.commands());
        match turn {
            Turn::Await(rest, _) => outstanding(rest, after, replies.drop_first()),
            Turn::Done(_, _) => after,
        }
    }
}

/// No command of the exchange releases an object that the ledger does not
/// hold at that moment.
pub open spec fn orderly<J: Job>(job: J, ledger: Multiset<Resource>, replies: Seq<Reply>) -> bool
    decreases replies.len(),
{
    replies.len() == 0 || {
        let turn = job.next(replies.first());
        let credited = ledger.add(granted(job.pending(), replies.first()));
        honours(credited, turn.commands()) && match turn {
            Turn::Await(rest, _) => orderly(
                rest,
                settle(credited, turn.commands()),
                replies.drop_first(),
            ),
            Turn::Done(_, _) => true,
        }
    }
}

/// The objects owned at a point of an exchange.
pub open spec fn owned<J: Job>(at: Progress<J, J::Output>) -> Multiset<Resource> {
    match at {
        Progress::Waiting(job) => job.holds(),
        Progress::Finished(output) => J::yields(output),
    }
}

/// Objects that a batch does not touch stay as they are: a batch that is in
/// order on `ledger` is in order on `base + ledger` and leaves `base` alone.
pub proof fn lemma_settle_frame(
    base: Multiset<Resource>,
    ledger: Multiset<Resource>,
    batch: Seq<Command>,
)
    requires
        honours(ledger, batch),
    ensures
        honours(base.add(ledger), batch),
        settle(base.add(ledger), batch) == base.add(settle(ledger, batch)),
    decreases batch.len(),
{
    if batch.len() > 0 {
        lemma_settle_frame(base, ledger, batch.drop_last());
        let before = settle(ledger, batch.drop_last());
        match crate::command::released(batch.last()) {
            Some(resource) => {
                assert(base.add(before).remove(resource) =~= base.add(before.remove(resource)));
            },
            None => {},
        }
    }
}

/// An exchange unfolds from its first answer: the step that the answer leads
/// to, then the exchange of the job that goes on with the answers that are
/// left.
pub proof fn lemma_exchange_unfolds<J: Job>(job: J, first: Reply, rest: Seq<Reply>)
    ensures
        follows(job, seq![first] + rest) == (job.accepts(first) && match job.next(first) {
            Turn::Await(after, _) => follows(after, rest),
            Turn::Done(_, _) => rest.len() == 0,
        }),
        progress(job, seq![first] + rest) == match job.next(first) {
            Turn::Await(after, _) => progress(after, rest),
            Turn::Done(_, output) => Progress::Finished(output),
        },
        issued(job, seq![first] + rest) == match job.next(first) {
            Turn::Await(after, batch) => batch + issued(after, rest),
            Turn::Done(batch, _) => batch,
        },
{
    let all = seq![first] + rest;
    assert(all.first() == first);
    assert(all.drop_first() =~= rest);
}

/// Whatever the driver answers, the books balance. Let the driver hold
/// `base` besides what `job` holds. Then, for every sequence of answers,
/// no object is released that is not outstanding, and after the answers
/// the driver holds `base` and what the job, or its result, owns: nothing
/// is leaked and nothing is released twice.
pub proof fn lemma_exchange_balances<J: Job>(job: J, base: Multiset<Resource>, replies: Seq<Reply>)
    ensures
        orderly(job, base.add(job.holds()), replies),
        outstanding(job, base.add(job.holds()), replies) == base.add(
            owned(progress(job, replies)),
        ),
    decreases replies.len(),
{
    if replies.len() > 0 {
        let reply = replies.first();
        job.lemma_step_accounts(reply);
        let turn = job.next(reply);
        let fresh = granted(job.pending(), reply);
        let credited = job.holds().add(fresh);
        assert(base.add(job.holds()).add(fresh) =~= base.add(credited));
        lemma_settle_frame(base, credited, turn.commands());
        match turn {
            Turn::Await(rest, _) => {
                lemma_exchange_balances(rest, base, replies.drop_first());
            },
            Turn::Done(_, _) => {},
        }
    }
}

} // verus!
