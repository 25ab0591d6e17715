use vstd::prelude::*;

use crate::feeds::{FeedData, FeedMessage};
use crate::widgets::{source_kind, source_settings, widget_id_text, FeedSource, Widget};

verus! {

/// Where one widget's polling loop stands.
#[derive(Clone, Copy, Debug, PartialEq, Eq, Structural)]
pub enum PollPhase {
    Fetching,
    Sleeping,
}

/// What happened to a polling loop: a fetch finished, or its sleep ended.
pub enum PollEvent {
    Fetched(Result<FeedData, String>),
    Woke,
}

/// What the loop's runner must do next: publish a message then sleep the given
/// seconds, or start a fetch. There is no action that ends a loop.
pub enum PollAction {
    Publish(FeedMessage, u64),
    Fetch,
}

/// One widget's polling loop: fetch, publish the result or the error, sleep the
/// interval, and again.
pub struct PollTask {
    pub widget_id: String,
    pub source: FeedSource,
    pub interval_secs: u64,
    pub phase: PollPhase,
}

/// `after` and `a` are the loop state and action after `before` meets `ev`.
pub open spec fn stepped(before: PollTask, ev: PollEvent, after: PollTask, a: PollAction) -> bool {
    &&& after.widget_id == before.widget_id
    &&& after.source == before.source
    &&& after.interval_secs == before.interval_secs
    &&& match ev {
        PollEvent::Fetched(res) => {
            &&& after.phase == PollPhase::Sleeping
            &&& match a {
                PollAction::Publish(m, secs) => {
                    &&& m.widget_id@ == before.widget_id@
                    &&& secs == before.interval_secs
                    &&& match res {
                        Ok(d) => m.data == d,
                        Err(e) => m.data == FeedData::Error(e),
                    }
                },
                PollAction::Fetch => false,
            }
        },
        PollEvent::Woke => after.phase == PollPhase::Fetching && a is Fetch,
    }
}

impl PollTask {
    /// Advances the loop by one event. A finished fetch, successful or not, is
    /// published under the widget's identity (a failure as an error payload) and
    /// followed by a sleep of the fixed interval; the end of a sleep starts the next
    /// fetch.
    pub fn step(&mut self, ev: PollEvent) -> (a: PollAction)
        ensures
            stepped(*old(self), ev, *final(self), a),
    {
        match ev {
            PollEvent::Fetched(res) => {
                self.phase = PollPhase::Sleeping;
                let data = match res {
                    Ok(d) => d,
                    Err(e) => FeedData::Error(e),
                };
                PollAction::Publish(
                    FeedMessage { widget_id: self.widget_id.clone(), data },
                    self.interval_secs,
                )
            },
            PollEvent::Woke => {
                self.phase = PollPhase::Fetching;
                PollAction::Fetch
            },
        }
    }
}

/// The polling loops, one per registered widget.
pub struct Scheduler {
    pub tasks: Vec<PollTask>,
}

impl Scheduler {
    /// One loop per widget, in registry order, each bound to the widget's identity
    /// and source, all with the same interval, all about to fetch.
    pub fn new(widgets: &Vec<Widget>, interval_secs: u64) -> (r: Scheduler)
        ensures
            r.tasks@.len() == widgets@.len(),
            forall|i: int|
                0 <= i < r.tasks@.len() ==> {
                    &&& (#[trigger] r.tasks@[i]).widget_id@ == widget_id_text(widgets@[i].config)
                    &&& source_kind(r.tasks@[i].source) == widgets@[i].kind()
                    &&& source_settings(r.tasks@[i].source, widgets@[i].config)
                    &&& r.tasks@[i].interval_secs == interval_secs
                    &&& r.tasks@[i].phase == PollPhase::Fetching
                },
    {
        let mut tasks: Vec<PollTask> = Vec::new();
        let mut i: usize = 0;
        while i < widgets.len()
            invariant
                0 <= i <= widgets@.len(),
                tasks@.len() == i,
                forall|j: int|
                    0 <= j < i ==> {
                        &&& (#[trigger] tasks@[j]).widget_id@ == widget_id_text(
                            widgets@[j].config,
                        )
                        &&& source_kind(tasks@[j].source) == widgets@[j].kind()
                        &&& source_settings(tasks@[j].source, widgets@[j].config)
                        &&& tasks@[j].interval_secs == interval_secs
                        &&& tasks@[j].phase == PollPhase::Fetching
                    },
            decreases widgets.len() - i,
        {
            let w = &widgets[i];
            tasks.push(
                PollTask {
                    widget_id: w.id(),
                    source: w.create_fetcher(),
                    interval_secs,
                    phase: PollPhase::Fetching,
                },
            );
            i += 1;
        }
        Scheduler { tasks }
    }

    /// Advances loop `i` by one event; every other loop is untouched.
    pub fn step(&mut self, i: usize, ev: PollEvent) -> (a: PollAction)
        requires
            i < old(self).tasks@.len(),
        ensures
            final(self).tasks@.len() == old(self).tasks@.len(),
            stepped(old(self).tasks@[i as int], ev, final(self).tasks@[i as int], a),
            forall|j: int|
                0 <= j < old(self).tasks@.len() && j != i ==> #[trigger] final(self).tasks@[j]
                    == old(self).tasks@[j],
    {
        self.tasks[i].step(ev)
    }
}

/// A failed fetch never ends or slows its loop: the failure is published as an
/// error payload under the widget's identity, the loop sleeps the same fixed
/// interval, and waking starts the next fetch with identity and interval intact.
pub proof fn lemma_failure_keeps_polling(
    t: PollTask,
    e: String,
    t2: PollTask,
    a2: PollAction,
    t3: PollTask,
    a3: PollAction,
)
    requires
        stepped(t, PollEvent::Fetched(Err(e)), t2, a2),
        stepped(t2, PollEvent::Woke, t3, a3),
    ensures
        a2 matches PollAction::Publish(m, secs) && m.widget_id@ == t.widget_id@ && m.data
            == FeedData::Error(e) && secs == t.interval_secs,
        a3 is Fetch,
        t3.phase == PollPhase::Fetching,
        t3.widget_id == t.widget_id,
        t3.interval_secs == t.interval_secs,
        t3.source == t.source,
{
}

} // verus!
