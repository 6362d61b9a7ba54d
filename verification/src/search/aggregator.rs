//! The search aggregator: one race per phrase, between the answers of the
//! enabled providers and a timeout. The queries themselves and the timer
//! run outside; this is the state of the race and what it publishes.

use vstd::prelude::*;
use crate::hub::{Hub, HubView};
use crate::messages::{
    Command, CommandView, ProviderError, ProviderResponse, UpdateAction, UpdateActionView,
    WhichProvider,
};

verus! {

/// What a provider answered.
pub enum Answer {
    Found(ProviderResponse),
    Failed(ProviderError),
}

impl Answer {
    /// The provider that answered.
    pub open spec fn provider(self) -> WhichProvider {
        match self {
            Answer::Found(response) => response.provider,
            Answer::Failed(error) => error.provider,
        }
    }

    /// The update that publishes the answer.
    pub open spec fn update(self) -> UpdateActionView {
        match self {
            Answer::Found(response) => UpdateActionView::ProviderResult(response),
            Answer::Failed(error) => UpdateActionView::ProviderError(error),
        }
    }
}

pub struct SearchAggregator {
    /// The enabled providers, each once.
    pub providers: Vec<WhichProvider>,
    /// The number of the race last started; every answer and timeout names
    /// the race it belongs to.
    pub generation: u64,
    /// The providers that the race still waits for.
    pub pending: Vec<WhichProvider>,
    pub racing: bool,
}

pub struct AggregatorView {
    pub providers: Seq<WhichProvider>,
    pub generation: u64,
    pub pending: Seq<WhichProvider>,
    pub racing: bool,
}

impl View for SearchAggregator {
    type V = AggregatorView;

    open spec fn view(&self) -> AggregatorView {
        AggregatorView {
            providers: self.providers@,
            generation: self.generation,
            pending: self.pending@,
            racing: self.racing,
        }
    }
}

/// The providers without `provider`, in their order.
pub open spec fn without(list: Seq<WhichProvider>, provider: WhichProvider) -> Seq<WhichProvider>
    decreases list.len(),
{
    if list.len() == 0 {
        Seq::empty()
    } else if list.last() == provider {
        without(list.drop_last(), provider)
    } else {
        without(list.drop_last(), provider).push(list.last())
    }
}

/// What is left without a provider: the others, each as often as before;
/// if every provider was listed once, the list is shorter by one exactly
/// when the provider was on it.
pub proof fn lemma_without(list: Seq<WhichProvider>, provider: WhichProvider)
    ensures
        forall|q: WhichProvider|
            #[trigger] without(list, provider).contains(q) <==> q != provider && list.contains(q),
        list.no_duplicates() ==> without(list, provider).no_duplicates(),
        list.no_duplicates() ==> without(list, provider).len() + (if list.contains(provider) {
            1int
        } else {
            0int
        }) == list.len(),
    decreases list.len(),
{
    if list.len() > 0 {
        let shorter = list.drop_last();
        let rest = without(shorter, provider);
        let all = without(list, provider);
        lemma_without(shorter, provider);
        assert forall|q: WhichProvider| #[trigger] all.contains(q) <==> q != provider
            && list.contains(q) by {
            if all.contains(q) {
                let k = choose|k: int| 0 <= k < all.len() && all[k] == q;
                if k < rest.len() {
                    assert(rest[k] == q);
                    assert(rest.contains(q));
                    let j = choose|j: int| 0 <= j < shorter.len() && shorter[j] == q;
                    assert(list[j] == q);
                } else {
                    assert(list[list.len() - 1] == q);
                }
            }
            if q != provider && list.contains(q) {
                let j = choose|j: int| 0 <= j < list.len() && list[j] == q;
                if j < shorter.len() {
                    assert(shorter[j] == q);
                    assert(shorter.contains(q));
                    assert(rest.contains(q));
                    let k = choose|k: int| 0 <= k < rest.len() && rest[k] == q;
                    assert(all[k] == q);
                } else {
                    assert(all[all.len() - 1] == q);
                }
            }
        }
        if list.no_duplicates() {
            assert(shorter.no_duplicates());
            assert(!shorter.contains(list.last())) by {
                if shorter.contains(list.last()) {
                    let j = choose|j: int| 0 <= j < shorter.len() && shorter[j] == list.last();
                    assert(list[j] == list[list.len() - 1]);
                }
            }
            if list.last() == provider {
                assert(list.contains(provider)) by {
                    assert(list[list.len() - 1] == provider);
                }
            } else {
                assert(!rest.contains(list.last()));
                assert(all.no_duplicates());
                assert(list.contains(provider) == shorter.contains(provider)) by {
                    if list.contains(provider) {
                        let j = choose|j: int| 0 <= j < list.len() && list[j] == provider;
                        assert(shorter[j] == provider);
                    }
                    if shorter.contains(provider) {
                        let j = choose|j: int| 0 <= j < shorter.len() && shorter[j] == provider;
                        assert(list[j] == provider);
                    }
                }
            }
        }
    }
}

/// The providers in the order of their first listing, each once.
pub open spec fn each_once(list: Seq<WhichProvider>) -> Seq<WhichProvider>
    decreases list.len(),
{
    if list.len() == 0 {
        Seq::empty()
    } else if each_once(list.drop_last()).contains(list.last()) {
        each_once(list.drop_last())
    } else {
        each_once(list.drop_last()).push(list.last())
    }
}

/// The number of the race after race `generation`.
pub open spec fn generation_after(generation: u64) -> u64 {
    if generation == u64::MAX {
        0
    } else {
        (generation + 1) as u64
    }
}

impl AggregatorView {
    /// No provider is listed twice, and a race that is on waits for
    /// someone.
    pub open spec fn wf(self) -> bool {
        &&& self.providers.no_duplicates()
        &&& self.pending.no_duplicates()
        &&& self.racing ==> self.pending.len() > 0
    }

    /// A phrase starts a fresh race, which takes the place of one that may
    /// be on: the start is published, the runtime is told to query every
    /// enabled provider, and the race waits for all of them. Without any
    /// enabled provider the race is over at once.
    pub open spec fn start(self, phrase: Seq<char>, hub: HubView) -> (AggregatorView, HubView) {
        let generation = generation_after(self.generation);
        let started = hub.with_update(UpdateActionView::SearchStarted).with_command(
            CommandView::StartSearch { generation, phrase, providers: self.providers },
        );
        if self.providers.len() == 0 {
            (
                AggregatorView { generation, pending: self.providers, racing: false, ..self },
                started.with_update(UpdateActionView::SearchFinished),
            )
        } else {
            (AggregatorView { generation, pending: self.providers, racing: true, ..self }, started)
        }
    }

    /// Whether an answer counts: it belongs to the race that is on, and
    /// comes from a provider that the race still waits for.
    pub open spec fn awaits(self, generation: u64, provider: WhichProvider) -> bool {
        self.racing && generation == self.generation && self.pending.contains(provider)
    }

    /// An answer arrives. One that counts is published, success or failure
    /// alike, and its provider is waited for no longer; with the last one
    /// the race is over and its end is published. Any other answer, of an
    /// earlier race or behind the timeout, is dropped without a trace.
    pub open spec fn on_answer(self, generation: u64, answer: Answer, hub: HubView) -> (
        AggregatorView,
        HubView,
    ) {
        if self.awaits(generation, answer.provider()) {
            let pending = without(self.pending, answer.provider());
            let published = hub.with_update(answer.update());
            if pending.len() == 0 {
                (
                    AggregatorView { pending, racing: false, ..self },
                    published.with_update(UpdateActionView::SearchFinished),
                )
            } else {
                (AggregatorView { pending, ..self }, published)
            }
        } else {
            (self, hub)
        }
    }

    /// The timeout of a race runs out. If it is the race that is on, the
    /// race is over and its end is published; the providers still awaited
    /// stay on record. The timeout of any other race is dropped.
    pub open spec fn on_timeout(self, generation: u64, hub: HubView) -> (AggregatorView, HubView) {
        if self.racing && generation == self.generation {
            (
                AggregatorView { racing: false, ..self },
                hub.with_update(UpdateActionView::SearchFinished),
            )
        } else {
            (self, hub)
        }
    }

    /// The answers of one race, taken in one after the other.
    pub open spec fn on_answers(self, generation: u64, answers: Seq<Answer>, hub: HubView) -> (
        AggregatorView,
        HubView,
    )
        decreases answers.len(),
    {
        if answers.len() == 0 {
            (self, hub)
        } else {
            let before = self.on_answers(generation, answers.drop_last(), hub);
            before.0.on_answer(generation, answers.last(), before.1)
        }
    }
}

/// The updates that publish the answers, in their order.
pub open spec fn published(answers: Seq<Answer>) -> Seq<UpdateActionView> {
    answers.map_values(|a: Answer| a.update())
}

/// The providers that answered, in the order of their answers.
pub open spec fn answering(answers: Seq<Answer>) -> Seq<WhichProvider> {
    answers.map_values(|a: Answer| a.provider())
}

impl SearchAggregator {
    /// An aggregator at rest for the given providers. A provider listed
    /// more than once is taken once.
    pub fn new(enabled: &Vec<WhichProvider>) -> (aggregator: SearchAggregator)
        ensures
            aggregator@.wf(),
            aggregator@ == (AggregatorView {
                providers: each_once(enabled@),
                generation: 0,
                pending: Seq::empty(),
                racing: false,
            }),
    {
        let mut providers: Vec<WhichProvider> = Vec::new();
        let mut i: usize = 0;
        assert(enabled@.take(0) =~= Seq::<WhichProvider>::empty());
        while i < enabled.len()
            invariant
                0 <= i <= enabled@.len(),
                providers@.no_duplicates(),
                providers@ == each_once(enabled@.take(i as int)),
            decreases enabled@.len() - i,
        {
            let p = enabled[i];
            assert(enabled@.take(i + 1).drop_last() =~= enabled@.take(i as int));
            assert(enabled@.take(i + 1).last() == p);
            if Self::position(&providers, p).is_none() {
                providers.push(p);
            }
            i = i + 1;
        }
        assert(enabled@.take(enabled@.len() as int) =~= enabled@);
        let aggregator = SearchAggregator {
            providers,
            generation: 0,
            pending: Vec::new(),
            racing: false,
        };
        assert(aggregator@.pending =~= Seq::<WhichProvider>::empty());
        aggregator
    }

    fn position(list: &Vec<WhichProvider>, provider: WhichProvider) -> (found: Option<usize>)
        ensures
            match found {
                Some(i) => i < list@.len() && list@[i as int] == provider,
                None => !list@.contains(provider),
            },
    {
        let mut i: usize = 0;
        while i < list.len()
            invariant
                0 <= i <= list@.len(),
                forall|k: int| 0 <= k < i ==> list@[k] != provider,
            decreases list@.len() - i,
        {
            if list[i] == provider {
                return Some(i);
            }
            i = i + 1;
        }
        None
    }

    fn rest(list: &Vec<WhichProvider>, provider: WhichProvider) -> (rest: Vec<WhichProvider>)
        ensures
            rest@ == without(list@, provider),
    {
        let mut rest: Vec<WhichProvider> = Vec::new();
        let mut i: usize = 0;
        assert(list@.take(0) =~= Seq::<WhichProvider>::empty());
        while i < list.len()
            invariant
                0 <= i <= list@.len(),
                rest@ == without(list@.take(i as int), provider),
            decreases list@.len() - i,
        {
            assert(list@.take(i + 1).drop_last() =~= list@.take(i as int));
            assert(list@.take(i + 1).last() == list@[i as int]);
            if list[i] != provider {
                rest.push(list[i]);
            }
            i = i + 1;
        }
        assert(list@.take(list@.len() as int) =~= list@);
        rest
    }

    /// Starts the race for a phrase.
    pub fn start(&mut self, phrase: String, hub: &mut Hub)
        requires
            old(self)@.wf(),
        ensures
            final(self)@.wf(),
            (final(self)@, final(hub)@) == old(self)@.start(phrase@, old(hub)@),
    {
        self.generation = if self.generation == u64::MAX {
            0
        } else {
            self.generation + 1
        };
        let providers = self.providers.clone();
        assert(providers@ =~= self.providers@);
        self.pending = self.providers.clone();
        assert(self.pending@ =~= self.providers@);
        hub.send_update_action(UpdateAction::SearchStarted);
        hub.send_command(
            Command::StartSearch { generation: self.generation, phrase, providers },
        );
        if self.providers.len() == 0 {
            self.racing = false;
            hub.send_update_action(UpdateAction::SearchFinished);
        } else {
            self.racing = true;
        }
    }

    /// Takes in the answer of one provider to the race `generation`.
    pub fn on_answer(&mut self, generation: u64, answer: Answer, hub: &mut Hub)
        requires
            old(self)@.wf(),
        ensures
            final(self)@.wf(),
            (final(self)@, final(hub)@) == old(self)@.on_answer(generation, answer, old(hub)@),
    {
        if !self.racing || generation != self.generation {
            return;
        }
        let provider = match &answer {
            Answer::Found(response) => response.provider,
            Answer::Failed(error) => error.provider,
        };
        if Self::position(&self.pending, provider).is_none() {
            return;
        }
        let ghost before = self.pending@;
        self.pending = Self::rest(&self.pending, provider);
        proof {
            lemma_without(before, provider);
        }
        match answer {
            Answer::Found(response) => {
                hub.send_update_action(UpdateAction::ProviderResult(response));
            },
            Answer::Failed(error) => {
                hub.send_update_action(UpdateAction::ProviderError(error));
            },
        }
        if self.pending.len() == 0 {
            self.racing = false;
            hub.send_update_action(UpdateAction::SearchFinished);
        }
    }

    /// Takes in the timeout of the race `generation`.
    pub fn on_timeout(&mut self, generation: u64, hub: &mut Hub)
        requires
            old(self)@.wf(),
        ensures
            final(self)@.wf(),
            (final(self)@, final(hub)@) == old(self)@.on_timeout(generation, old(hub)@),
    {
        if self.racing && generation == self.generation {
            self.racing = false;
            hub.send_update_action(UpdateAction::SearchFinished);
        }
    }
}

/// Whether the answers can be those of one race: each from a provider
/// that the race waits for, and no two from the same provider.
pub open spec fn answers_of_race(agg: AggregatorView, answers: Seq<Answer>) -> bool {
    &&& answering(answers).no_duplicates()
    &&& forall|k: int|
        0 <= k < answers.len() ==> agg.pending.contains((#[trigger] answers[k]).provider())
}

/// The course of a race. While answers of the race come in, each is
/// published in its turn, and the race waits for exactly the providers that
/// have not answered yet. It stays on as long as it waits for someone, and
/// its end is published behind the last answer, not before.
pub proof fn lemma_race_course(agg: AggregatorView, answers: Seq<Answer>, hub: HubView)
    requires
        agg.wf(),
        agg.racing,
        answers_of_race(agg, answers),
    ensures
        ({
            let end = agg.on_answers(agg.generation, answers, hub);
            let done = end.0.pending.len() == 0;
            &&& end.0.wf()
            &&& end.0.generation == agg.generation
            &&& end.0.providers == agg.providers
            &&& end.0.pending.len() == agg.pending.len() - answers.len()
            &&& forall|q: WhichProvider|
                end.0.pending.contains(q) <==> agg.pending.contains(q) && !answering(
                    answers,
                ).contains(q)
            &&& end.0.racing == !done
            &&& end.1 == (HubView {
                updates: hub.updates + published(answers) + (if done {
                    seq![UpdateActionView::SearchFinished]
                } else {
                    Seq::empty()
                }),
                ..hub
            })
        }),
    decreases answers.len(),
{
    let end = agg.on_answers(agg.generation, answers, hub);
    if answers.len() == 0 {
        assert(hub.updates + published(answers) + Seq::<UpdateActionView>::empty()
            =~= hub.updates);
        assert forall|q: WhichProvider|
            end.0.pending.contains(q) <==> agg.pending.contains(q) && !answering(answers).contains(
                q,
            ) by {}
    } else {
        let earlier = answers.drop_last();
        let last = answers.last();
        assert(answering(earlier) =~= answering(answers).drop_last());
        assert(answers_of_race(agg, earlier)) by {
            assert forall|k: int| 0 <= k < earlier.len() implies agg.pending.contains(
                (#[trigger] earlier[k]).provider(),
            ) by {
                assert(earlier[k] == answers[k]);
            }
        }
        lemma_race_course(agg, earlier, hub);
        let before = agg.on_answers(agg.generation, earlier, hub);
        let p = last.provider();
        assert(answering(answers)[answers.len() - 1] == p);
        assert(!answering(earlier).contains(p)) by {
            if answering(earlier).contains(p) {
                let j = choose|j: int| 0 <= j < earlier.len() && answering(earlier)[j] == p;
                assert(answering(answers)[j] == p);
            }
        }
        assert(agg.pending.contains(p));
        assert(before.0.pending.contains(p));
        assert(before.0.pending.len() > 0) by {
            let j = choose|j: int| 0 <= j < before.0.pending.len() && before.0.pending[j] == p;
        }
        assert(before.0.awaits(agg.generation, p));
        lemma_without(before.0.pending, p);
        let rest = without(before.0.pending, p);
        assert(end.0.pending == rest);
        assert(published(answers) =~= published(earlier).push(last.update()));
        assert forall|q: WhichProvider|
            end.0.pending.contains(q) <==> agg.pending.contains(q) && !answering(answers).contains(
                q,
            ) by {
            assert(rest.contains(q) <==> q != p && before.0.pending.contains(q));
            if answering(answers).contains(q) && q != p {
                let j = choose|j: int| 0 <= j < answers.len() && answering(answers)[j] == q;
                assert(answering(earlier)[j] == q);
            }
            if answering(earlier).contains(q) {
                let j = choose|j: int| 0 <= j < earlier.len() && answering(earlier)[j] == q;
                assert(answering(answers)[j] == q);
            }
        }
        if rest.len() == 0 {
            assert(end.1.updates =~= hub.updates + published(answers)
                + seq![UpdateActionView::SearchFinished]);
        } else {
            assert(end.1.updates =~= hub.updates + published(answers)
                + Seq::<UpdateActionView>::empty());
        }
    }
}

/// Where every awaited provider answers, the end of the race is published
/// right behind the last answer, once, and nobody is waited for any more.
pub proof fn lemma_race_all_answer(agg: AggregatorView, answers: Seq<Answer>, hub: HubView)
    requires
        agg.wf(),
        agg.racing,
        answers_of_race(agg, answers),
        answers.len() == agg.pending.len(),
    ensures
        ({
            let end = agg.on_answers(agg.generation, answers, hub);
            &&& !end.0.racing
            &&& end.0.pending.len() == 0
            &&& end.1 == (HubView {
                updates: hub.updates + published(answers) + seq![UpdateActionView::SearchFinished],
                ..hub
            })
        }),
{
    lemma_race_course(agg, answers, hub);
}

/// Where one awaited provider stays silent, nothing but the answers of
/// the others is published until the timeout; the timeout ends the race and
/// publishes its end; the silent provider, and only that one, is still on
/// record as awaited; and whatever arrives later, an answer or a second
/// timeout, changes and publishes nothing.
pub proof fn lemma_race_one_silent(
    agg: AggregatorView,
    answers: Seq<Answer>,
    late: Answer,
    hub: HubView,
)
    requires
        agg.wf(),
        agg.racing,
        answers_of_race(agg, answers),
        answers.len() + 1 == agg.pending.len(),
    ensures
        ({
            let waiting = agg.on_answers(agg.generation, answers, hub);
            let end = waiting.0.on_timeout(agg.generation, waiting.1);
            &&& waiting.0.racing
            &&& waiting.1 == (HubView { updates: hub.updates + published(answers), ..hub })
            &&& !end.0.racing
            &&& end.1 == (HubView {
                updates: hub.updates + published(answers) + seq![UpdateActionView::SearchFinished],
                ..hub
            })
            &&& end.0.pending.len() == 1
            &&& agg.pending.contains(end.0.pending[0])
            &&& !answering(answers).contains(end.0.pending[0])
            &&& end.0.on_answer(agg.generation, late, end.1) == end
            &&& end.0.on_timeout(agg.generation, end.1) == end
        }),
{
    lemma_race_course(agg, answers, hub);
    let waiting = agg.on_answers(agg.generation, answers, hub);
    assert(waiting.0.pending.contains(waiting.0.pending[0]));
    assert(hub.updates + published(answers) + Seq::<UpdateActionView>::empty() =~= hub.updates
        + published(answers));
    assert((hub.updates + published(answers)).push(UpdateActionView::SearchFinished)
        =~= hub.updates + published(answers) + seq![UpdateActionView::SearchFinished]);
}

/// An answer or a timeout that names another race than the one last
/// started changes and publishes nothing.
pub proof fn lemma_superseded_is_dropped(
    agg: AggregatorView,
    generation: u64,
    answer: Answer,
    hub: HubView,
)
    requires
        generation != agg.generation,
    ensures
        agg.on_answer(generation, answer, hub) == (agg, hub),
        agg.on_timeout(generation, hub) == (agg, hub),
{
}

} // verus!
