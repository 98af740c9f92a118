use vstd::prelude::*;

verus! {

/// The recipients whose send failed, in the order in which they were tried.
pub open spec fn failures(recipients: Seq<i64>, outcomes: Seq<bool>) -> Seq<i64>
    decreases outcomes.len(),
{
    if outcomes.len() == 0 {
        Seq::empty()
    } else {
        let rest = failures(recipients, outcomes.drop_last());
        if outcomes.last() {
            rest
        } else {
            rest.push(recipients[outcomes.len() - 1])
        }
    }
}

/// The number of sends that succeeded.
pub open spec fn successes(outcomes: Seq<bool>) -> nat
    decreases outcomes.len(),
{
    if outcomes.len() == 0 {
        0
    } else {
        successes(outcomes.drop_last()) + if outcomes.last() {
            1nat
        } else {
            0nat
        }
    }
}

/// The number of sends that failed.
pub open spec fn failure_count(outcomes: Seq<bool>) -> nat
    decreases outcomes.len(),
{
    if outcomes.len() == 0 {
        0
    } else {
        failure_count(outcomes.drop_last()) + if outcomes.last() {
            0nat
        } else {
            1nat
        }
    }
}

/// Of the sends to a broadcast's recipients, as many are reported failed as
/// failed, and the rest are reported delivered.
pub proof fn lemma_report_counts(recipients: Seq<i64>, outcomes: Seq<bool>)
    ensures
        failures(recipients, outcomes).len() == failure_count(outcomes),
        successes(outcomes) + failure_count(outcomes) == outcomes.len(),
    decreases outcomes.len(),
{
    if outcomes.len() > 0 {
        lemma_report_counts(recipients, outcomes.drop_last());
    }
}

/// How a broadcast went.
#[derive(Clone, Debug)]
pub struct DeliveryReport {
    /// The number of recipients that the content reached.
    pub delivered: usize,
    /// The recipients that it did not reach.
    pub failed: Vec<i64>,
}

/// One broadcast of the day's content to a fixed list of recipients, taken
/// from the registry when it starts. Each recipient is tried once, in order,
/// whatever became of the others.
pub struct Broadcast {
    recipients: Vec<i64>,
    outcomes: Vec<bool>,
    delivered: usize,
    failed: Vec<i64>,
}

impl Broadcast {
    pub closed spec fn recipients(&self) -> Seq<i64> {
        self.recipients@
    }

    /// Whether each send tried so far succeeded.
    pub closed spec fn outcomes(&self) -> Seq<bool> {
        self.outcomes@
    }

    pub closed spec fn wf(&self) -> bool {
        &&& self.outcomes@.len() <= self.recipients@.len()
        &&& self.delivered == successes(self.outcomes@)
        &&& self.failed@ == failures(self.recipients@, self.outcomes@)
    }

    /// A broadcast to `recipients` in which nothing has been sent yet.
    pub fn new(recipients: Vec<i64>) -> (r: Broadcast)
        ensures
            r.wf(),
            r.recipients() == recipients@,
            r.outcomes() == Seq::<bool>::empty(),
    {
        Broadcast { recipients, outcomes: Vec::new(), delivered: 0, failed: Vec::new() }
    }

    /// The recipient to send to next, or `None` once every recipient was tried.
    pub fn next_recipient(&self) -> (r: Option<i64>)
        requires
            self.wf(),
        ensures
            r == (if self.outcomes().len() < self.recipients().len() {
                Some(self.recipients()[self.outcomes().len() as int])
            } else {
                None::<i64>
            }),
    {
        if self.outcomes.len() < self.recipients.len() {
            Some(self.recipients[self.outcomes.len()])
        } else {
            None
        }
    }

    /// Records whether the send to the next recipient succeeded. Once every
    /// recipient was tried, nothing is recorded.
    pub fn record(&mut self, sent: bool)
        requires
            old(self).wf(),
        ensures
            final(self).wf(),
            final(self).recipients() == old(self).recipients(),
            final(self).outcomes() == (if old(self).outcomes().len() < old(
                self,
            ).recipients().len() {
                old(self).outcomes().push(sent)
            } else {
                old(self).outcomes()
            }),
    {
        if self.outcomes.len() >= self.recipients.len() {
            return;
        }
        let ghost before = self.outcomes@;
        let i = self.outcomes.len();
        proof {
            lemma_report_counts(self.recipients@, before);
        }
        if sent {
            self.delivered = self.delivered + 1;
        } else {
            self.failed.push(self.recipients[i]);
        }
        self.outcomes.push(sent);
        proof {
            assert(self.outcomes@.drop_last() =~= before);
        }
    }

    /// How the broadcast went so far.
    pub fn report(&self) -> (r: DeliveryReport)
        requires
            self.wf(),
        ensures
            r.delivered == successes(self.outcomes()),
            r.failed@ == failures(self.recipients(), self.outcomes()),
            r.failed@.len() == failure_count(self.outcomes()),
            r.delivered + r.failed@.len() == self.outcomes().len(),
    {
        proof {
            lemma_report_counts(self.recipients@, self.outcomes@);
        }
        DeliveryReport { delivered: self.delivered, failed: self.failed.clone() }
    }
}

} // verus!
