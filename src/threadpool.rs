//! The worker pool's job queue: messages for the workers, taken first in,
//! first out. The threads that run the jobs hold it behind a lock.

use vstd::prelude::*;
use std::collections::VecDeque;

verus! {

/// A message for a worker: a job to run, or the signal to stop.
pub enum Message<J> {
    NewJob(J),
    Terminate,
}

/// The jobs of a list of messages, in order.
pub open spec fn jobs_in<J>(messages: Seq<Message<J>>) -> Seq<J>
    decreases messages.len(),
{
    if messages.len() == 0 {
        Seq::empty()
    } else {
        let rest = jobs_in(messages.drop_first());
        match messages[0] {
            Message::NewJob(j) => seq![j] + rest,
            Message::Terminate => rest,
        }
    }
}

/// The number of stop signals in a list of messages.
pub open spec fn terminate_count<J>(messages: Seq<Message<J>>) -> nat
    decreases messages.len(),
{
    if messages.len() == 0 {
        0
    } else {
        let rest = terminate_count(messages.drop_first());
        match messages[0] {
            Message::NewJob(_) => rest,
            Message::Terminate => rest + 1,
        }
    }
}

/// No job comes after a stop signal.
pub open spec fn terminates_last<J>(messages: Seq<Message<J>>) -> bool {
    forall|i: int, j: int|
        0 <= i < j < messages.len() && #[trigger] messages[i] is Terminate ==> #[trigger] messages[j] is Terminate
}

/// `n` stop signals.
pub open spec fn terminates<J>(n: nat) -> Seq<Message<J>> {
    Seq::new(n, |i: int| Message::<J>::Terminate)
}

/// The job queue, as values: the waiting messages, the number of workers,
/// whether shutdown has begun, and the jobs submitted and handed out so far.
pub struct QueueModel<J> {
    pub messages: Seq<Message<J>>,
    pub workers: nat,
    pub closed: bool,
    pub submitted: Seq<J>,
    pub delivered: Seq<J>,
}

impl<J> QueueModel<J> {
    /// The queue's invariant: the jobs handed out, then the jobs waiting,
    /// are the jobs submitted; stop signals come only after shutdown and
    /// behind every waiting job.
    pub open spec fn wf(self) -> bool {
        &&& self.workers > 0
        &&& self.delivered + jobs_in(self.messages) == self.submitted
        &&& !self.closed ==> terminate_count(self.messages) == 0
        &&& terminates_last(self.messages)
    }
}

/// The queue that the pool's workers take their messages from.
pub struct JobQueue<J> {
    messages: VecDeque<Message<J>>,
    workers: usize,
    closed: bool,
    submitted: Ghost<Seq<J>>,
    delivered: Ghost<Seq<J>>,
}

impl<J> View for JobQueue<J> {
    type V = QueueModel<J>;

    closed spec fn view(&self) -> QueueModel<J> {
        QueueModel {
            messages: self.messages@,
            workers: self.workers as nat,
            closed: self.closed,
            submitted: self.submitted@,
            delivered: self.delivered@,
        }
    }
}

proof fn lemma_push<J>(messages: Seq<Message<J>>, m: Message<J>)
    ensures
        jobs_in(messages.push(m)) == match m {
            Message::NewJob(j) => jobs_in(messages).push(j),
            Message::Terminate => jobs_in(messages),
        },
        terminate_count(messages.push(m)) == terminate_count(messages) + if m is Terminate {
            1nat
        } else {
            0nat
        },
    decreases messages.len(),
{
    let pushed = messages.push(m);
    if messages.len() > 0 {
        assert(pushed.drop_first() =~= messages.drop_first().push(m));
        lemma_push(messages.drop_first(), m);
    } else {
        assert(jobs_in(pushed.drop_first()) =~= Seq::<J>::empty());
        assert(terminate_count(pushed.drop_first()) == 0);
    }
}

proof fn lemma_no_terminates<J>(messages: Seq<Message<J>>)
    requires
        terminate_count(messages) == 0,
    ensures
        forall|k: int| 0 <= k < messages.len() ==> #[trigger] messages[k] is NewJob,
    decreases messages.len(),
{
    if messages.len() > 0 {
        lemma_no_terminates(messages.drop_first());
        assert forall|k: int| 0 <= k < messages.len() implies #[trigger] messages[k] is NewJob by {
            if k > 0 {
                assert(messages[k] == messages.drop_first()[k - 1]);
            }
        }
    }
}

impl<J> JobQueue<J> {
    /// An empty queue for `workers` workers. A pool without workers is
    /// refused.
    pub fn new(workers: usize) -> (r: JobQueue<J>)
        requires
            workers > 0,
        ensures
            r@.wf(),
            r@.messages.len() == 0,
            r@.workers == workers,
            !r@.closed,
            r@.submitted.len() == 0,
            r@.delivered.len() == 0,
    {
        let r = JobQueue {
            messages: VecDeque::new(),
            workers,
            closed: false,
            submitted: Ghost(Seq::empty()),
            delivered: Ghost(Seq::empty()),
        };
        r
    }

    /// The number of workers the queue serves.
    pub fn workers(&self) -> (r: usize)
        ensures
            r == self@.workers,
    {
        self.workers
    }

    /// Queues a job behind the waiting ones. Once shutdown has begun no job
    /// is taken: the result says whether it was.
    pub fn submit(&mut self, job: J) -> (r: bool)
        requires
            old(self)@.wf(),
        ensures
            final(self)@.wf(),
            r == !old(self)@.closed,
            r ==> final(self)@ == (QueueModel {
                messages: old(self)@.messages.push(Message::NewJob(job)),
                submitted: old(self)@.submitted.push(job),
                ..old(self)@
            }),
            !r ==> final(self)@ == old(self)@,
    {
        if self.closed {
            return false;
        }
        proof {
            lemma_push(self.messages@, Message::NewJob(job));
            lemma_no_terminates(self.messages@);
            lemma_no_terminates(self.messages@.push(Message::NewJob(job)));
        }
        self.messages.push_back(Message::NewJob(job));
        self.submitted = Ghost(self.submitted@.push(job));
        true
    }

    /// Begins shutdown: queues one stop signal per worker behind the waiting
    /// jobs. Nothing changes when shutdown has already begun.
    pub fn shutdown(&mut self)
        requires
            old(self)@.wf(),
        ensures
            final(self)@.wf(),
            old(self)@.closed ==> final(self)@ == old(self)@,
            !old(self)@.closed ==> final(self)@ == (QueueModel {
                messages: old(self)@.messages + terminates(old(self)@.workers),
                closed: true,
                ..old(self)@
            }),
    {
        if self.closed {
            return;
        }
        let ghost start = self.messages@;
        proof {
            lemma_no_terminates(start);
        }
        let n = self.workers;
        let mut i: usize = 0;
        while i < n
            invariant
                n == self.workers,
                !self.closed,
                i <= n,
                self.messages@ == start + terminates::<J>(i as nat),
                jobs_in(self.messages@) == jobs_in(start),
                terminate_count(start) == 0,
                old(self)@.wf(),
                start == old(self)@.messages,
                self.submitted == old(self).submitted,
                self.delivered == old(self).delivered,
                self.workers == old(self).workers,
                forall|k: int| 0 <= k < start.len() ==> #[trigger] start[k] is NewJob,
            decreases n - i,
        {
            proof {
                lemma_push(self.messages@, Message::Terminate);
                assert(start + terminates::<J>((i + 1) as nat) =~= (start + terminates::<J>(
                    i as nat,
                )).push(Message::Terminate));
            }
            self.messages.push_back(Message::Terminate);
            i = i + 1;
        }
        self.closed = true;
        assert(forall|a: int, b: int|
            0 <= a < b < self.messages@.len() && #[trigger] self.messages@[a] is Terminate
                ==> #[trigger] self.messages@[b] is Terminate);
    }

    /// Takes the first waiting message, if there is one. A job taken is
    /// recorded as handed out.
    pub fn take(&mut self) -> (r: Option<Message<J>>)
        requires
            old(self)@.wf(),
        ensures
            final(self)@.wf(),
            final(self)@.workers == old(self)@.workers,
            final(self)@.closed == old(self)@.closed,
            final(self)@.submitted == old(self)@.submitted,
            match r {
                None => old(self)@.messages.len() == 0 && final(self)@ == old(self)@,
                Some(m) => {
                    &&& old(self)@.messages.len() > 0
                    &&& m == old(self)@.messages[0]
                    &&& final(self)@.messages == old(self)@.messages.drop_first()
                    &&& final(self)@.delivered == match m {
                        Message::NewJob(j) => old(self)@.delivered.push(j),
                        Message::Terminate => old(self)@.delivered,
                    }
                },
            },
    {
        let ghost before = self.messages@;
        let r = self.messages.pop_front();
        match &r {
            Some(m) => {
                proof {
                    match m {
                        Message::NewJob(j) => {
                            self.delivered@ = self.delivered@.push(*j);
                            assert(self.delivered@ + jobs_in(self.messages@) =~= old(
                                self,
                            ).delivered@ + jobs_in(before));
                        },
                        Message::Terminate => {},
                    }
                }
            },
            None => {},
        }
        r
    }
}

/// Once no job waits in the queue, the jobs handed to the workers are
/// exactly the jobs submitted, each once and in the order of submission:
/// none is dropped and none is run twice.
pub proof fn lemma_every_job_handed_out_once<J>(q: QueueModel<J>)
    requires
        q.wf(),
        jobs_in(q.messages).len() == 0,
    ensures
        q.delivered == q.submitted,
{
}

} // verus!
