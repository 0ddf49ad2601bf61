use vstd::prelude::*;

verus! {

/// The state of one batch of service starts: the services to start, in order,
/// and the outcome of each start requested so far.
pub ghost struct BatchModel {
    pub services: Seq<Seq<char>>,
    pub outcomes: Seq<bool>,
}

impl BatchModel {
    /// A batch over `services` with nothing started yet.
    pub open spec fn start(services: Seq<Seq<char>>) -> BatchModel {
        BatchModel { services, outcomes: Seq::empty() }
    }

    pub open spec fn wf(self) -> bool {
        self.outcomes.len() <= self.services.len()
    }

    /// Every service has been asked to start.
    pub open spec fn done(self) -> bool {
        self.outcomes.len() == self.services.len()
    }

    /// The service to start next: the first one without an outcome. Earlier
    /// outcomes, failures included, play no part.
    pub open spec fn next(self) -> Option<Seq<char>> {
        if self.outcomes.len() < self.services.len() {
            Some(self.services[self.outcomes.len() as int])
        } else {
            None
        }
    }

    /// The batch after the start of the next service has given `started`.
    pub open spec fn record(self, started: bool) -> BatchModel {
        BatchModel { services: self.services, outcomes: self.outcomes.push(started) }
    }
}

/// The batch over `services` after the outcomes `outcomes` have been recorded,
/// one by one and in order.
pub open spec fn replay(services: Seq<Seq<char>>, outcomes: Seq<bool>) -> BatchModel
    decreases outcomes.len(),
{
    if outcomes.len() == 0 {
        BatchModel::start(services)
    } else {
        replay(services, outcomes.drop_last()).record(outcomes.last())
    }
}

/// Starts each configured service in turn, whatever became of the ones before:
/// the caller asks for the next service, starts it, and records the outcome.
pub struct ServiceBatch {
    services: Vec<String>,
    outcomes: Vec<bool>,
}

impl View for ServiceBatch {
    type V = BatchModel;

    closed spec fn view(&self) -> BatchModel {
        BatchModel {
            services: self.services@.map_values(|s: String| s@),
            outcomes: self.outcomes@,
        }
    }
}

impl ServiceBatch {
    pub fn new(services: Vec<String>) -> (r: ServiceBatch)
        ensures
            r@ == BatchModel::start(services@.map_values(|s: String| s@)),
    {
        let r = ServiceBatch { services, outcomes: Vec::new() };
        proof {
            assert(r@.outcomes =~= Seq::<bool>::empty());
        }
        r
    }

    /// The name of the service to start next, or `None` once every service has
    /// an outcome.
    pub fn next_service(&self) -> (r: Option<&str>)
        requires
            self@.wf(),
        ensures
            r is Some <==> self@.next() is Some,
            r matches Some(s) ==> self@.next() == Some(s@),
    {
        let k = self.outcomes.len();
        if k < self.services.len() {
            Some(self.services[k].as_str())
        } else {
            None
        }
    }

    /// Records whether the start of the next service succeeded.
    pub fn record(&mut self, started: bool)
        requires
            old(self)@.wf(),
            !old(self)@.done(),
        ensures
            final(self)@ == old(self)@.record(started),
            final(self)@.wf(),
    {
        self.outcomes.push(started);
        proof {
            assert(self@.services =~= old(self)@.services);
        }
    }

    /// Every service has been asked to start.
    pub fn is_done(&self) -> (r: bool)
        requires
            self@.wf(),
        ensures
            r == self@.done(),
    {
        self.outcomes.len() == self.services.len()
    }

    /// The outcome of each start requested so far, in order.
    pub fn outcomes(&self) -> (r: &Vec<bool>)
        ensures
            r@ == self@.outcomes,
    {
        &self.outcomes
    }
}

/// The word that reports the outcome of one start or stop.
pub fn outcome_label(succeeded: bool) -> (r: &'static str)
    ensures
        succeeded ==> r@ == "OK"@,
        !succeeded ==> r@ == "Erreur"@,
{
    if succeeded {
        "OK"
    } else {
        "Erreur"
    }
}

/// A failed start never ends a batch early: whatever outcomes the first `k`
/// starts had, the batch has recorded exactly those and goes on with service
/// `k`, until every service has been asked once.
pub proof fn lemma_failures_do_not_stop_batch(services: Seq<Seq<char>>, outcomes: Seq<bool>)
    requires
        outcomes.len() <= services.len(),
    ensures
        replay(services, outcomes).wf(),
        replay(services, outcomes).services == services,
        replay(services, outcomes).outcomes == outcomes,
        outcomes.len() < services.len() ==> replay(services, outcomes).next() == Some(
            services[outcomes.len() as int],
        ),
        outcomes.len() == services.len() ==> replay(services, outcomes).done(),
    decreases outcomes.len(),
{
    if outcomes.len() == 0 {
        assert(outcomes =~= Seq::<bool>::empty());
    } else {
        lemma_failures_do_not_stop_batch(services, outcomes.drop_last());
        assert(outcomes.drop_last().push(outcomes.last()) =~= outcomes);
    }
}

} // verus!
