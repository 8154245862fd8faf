//! What a loaded plugin offers: its name, its summary and its actions, each
//! of which may have a planning function besides the function that runs it.
use crate::steps::{bare, Atom, AtomModel, Step, StepModel};
use crate::keyed::{keyed_get, keyed_insert, keyed_map, keys_of};
use crate::text::clone_strings;
use vstd::prelude::*;

verus! {

/// An action of a plugin: whether it has a planning function, and whether
/// it runs with privileges.
#[derive(PartialEq, Eq, Structural, Clone, Copy, Debug)]
pub struct PluginAction {
    pub has_plan: bool,
    pub is_privileged: bool,
}

/// A loaded plugin. Its actions are keyed by name, each name once.
#[derive(Debug, PartialEq, Eq)]
pub struct PluginSpec {
    pub name: String,
    pub summary: Option<String>,
    pub actions: Vec<(String, PluginAction)>,
}

/// What a request for one action of a plugin turned into when its planning
/// function was run.
#[derive(PartialEq, Eq, Structural, Clone, Copy, Debug)]
pub enum PlanOutcome {
    /// The planning function was not run.
    NotRun,
    /// The planning function returned.
    Passed,
    /// The planning function raised an error.
    Raised,
}

/// A request, written in a manifest, for an action of a plugin.
#[derive(Debug, PartialEq, Eq)]
pub struct PluginRequest {
    pub name: String,
    /// The request's arguments, as handed to the action.
    pub arguments: Vec<String>,
    /// Whether the arguments could be handed to the plugin.
    pub converted: bool,
    pub plan: PlanOutcome,
}

/// The error that ends planning: the planning function of this action
/// raised one.
#[derive(PartialEq, Eq, Debug)]
pub struct PlanRaised {
    pub action: String,
}

impl PluginSpec {
    /// Each action name occurs once.
    pub open spec fn wf(&self) -> bool {
        keys_of(self.actions@).no_duplicates()
    }

    pub open spec fn action_view(&self) -> Map<Seq<char>, PluginAction> {
        keyed_map(self.actions@)
    }

    /// A plugin with this name and summary, and no action yet.
    pub fn new(name: String, summary: Option<String>) -> (p: PluginSpec)
        ensures
            p.wf(),
            p.name == name,
            p.summary == summary,
            p.action_view() == Map::<Seq<char>, PluginAction>::empty(),
    {
        let p = PluginSpec { name, summary, actions: Vec::new() };
        assert(p.action_view() =~= Map::<Seq<char>, PluginAction>::empty());
        p
    }

    /// The action named `name`, if the plugin has one.
    pub fn get_action(&self, name: &str) -> (r: Option<&PluginAction>)
        requires
            self.wf(),
        ensures
            r is Some <==> self.action_view().dom().contains(name@),
            r matches Some(a) ==> *a == self.action_view()[name@],
    {
        keyed_get(&self.actions, name)
    }

    /// Adds the action `name`, or replaces the one of that name.
    pub fn insert_action(&mut self, name: String, action: PluginAction)
        requires
            old(self).wf(),
        ensures
            final(self).wf(),
            final(self).name == old(self).name,
            final(self).summary == old(self).summary,
            final(self).action_view() == old(self).action_view().insert(name@, action),
    {
        keyed_insert(&mut self.actions, name, action);
    }
}

} // verus!

verus! {

/// What a single request becomes: no step, a step that calls the action
/// with the request's arguments, or the end of planning.
pub enum RequestVerdict {
    Skip,
    Call(StepModel),
    Abort(Seq<char>),
}

/// The verdict on one request: a request for an action the plugin lacks,
/// whose arguments could not be handed over, or whose action has no
/// planning function (or whose planning function was not run) adds
/// nothing; one whose planning function raised an error ends planning;
/// one whose planning function returned adds a call of the action.
pub open spec fn request_verdict(actions: Map<Seq<char>, PluginAction>, r: PluginRequest) -> RequestVerdict {
    if !actions.dom().contains(r.name@) || !r.converted || !actions[r.name@].has_plan {
        RequestVerdict::Skip
    } else {
        match r.plan {
            PlanOutcome::Raised => RequestVerdict::Abort(r.name@),
            PlanOutcome::Passed => RequestVerdict::Call(
                bare(AtomModel::PluginCall { name: r.name@, arguments: r.arguments.deep_view() }),
            ),
            PlanOutcome::NotRun => RequestVerdict::Skip,
        }
    }
}

/// The steps that the requests give, in order, or the name of the first
/// action whose planning raised an error.
pub open spec fn request_steps(actions: Map<Seq<char>, PluginAction>, reqs: Seq<PluginRequest>) -> Result<
    Seq<StepModel>,
    Seq<char>,
>
    decreases reqs.len(),
{
    if reqs.len() == 0 {
        Ok(seq![])
    } else {
        match request_steps(actions, reqs.drop_last()) {
            Err(e) => Err(e),
            Ok(steps) => match request_verdict(actions, reqs.last()) {
                RequestVerdict::Skip => Ok(steps),
                RequestVerdict::Call(step) => Ok(steps.push(step)),
                RequestVerdict::Abort(name) => Err(name),
            },
        }
    }
}

proof fn lemma_request_steps_error_stays(
    actions: Map<Seq<char>, PluginAction>,
    reqs: Seq<PluginRequest>,
    k: int,
)
    requires
        0 <= k <= reqs.len(),
        request_steps(actions, reqs.subrange(0, k)) is Err,
    ensures
        request_steps(actions, reqs) == request_steps(actions, reqs.subrange(0, k)),
    decreases reqs.len() - k,
{
    if k < reqs.len() {
        let longer = reqs.subrange(0, k + 1);
        assert(longer.drop_last() =~= reqs.subrange(0, k));
        lemma_request_steps_error_stays(actions, reqs, k + 1);
    } else {
        assert(reqs.subrange(0, k) =~= reqs);
    }
}

impl PluginSpec {
    /// The steps that a manifest's requests of this plugin give.
    pub fn plan_steps(&self, requests: &Vec<PluginRequest>) -> (r: Result<Vec<Step>, PlanRaised>)
        requires
            self.wf(),
        ensures
            match request_steps(self.action_view(), requests@) {
                Ok(steps) => r matches Ok(v) && v.deep_view() == steps,
                Err(name) => r matches Err(e) && e.action@ == name,
            },
    {
        let mut steps: Vec<Step> = Vec::new();
        let mut i: usize = 0;
        assert(steps.deep_view() =~= Seq::<StepModel>::empty());
        assert(requests@.subrange(0, 0).len() == 0);
        while i < requests.len()
            invariant
                self.wf(),
                i <= requests@.len(),
                request_steps(self.action_view(), requests@.subrange(0, i as int)) == Ok::<
                    Seq<StepModel>,
                    Seq<char>,
                >(steps.deep_view()),
            decreases requests.len() - i,
        {
            let ghost prefix = requests@.subrange(0, i + 1);
            assert(prefix.drop_last() =~= requests@.subrange(0, i as int));
            assert(prefix.last() == requests@[i as int]);
            let req = &requests[i];
            match self.get_action(req.name.as_str()) {
                None => {},
                Some(action) => {
                    if req.converted && action.has_plan {
                        match req.plan {
                            PlanOutcome::Raised => {
                                proof {
                                    lemma_request_steps_error_stays(self.action_view(), requests@, i + 1);
                                }
                                return Err(PlanRaised { action: req.name.clone() });
                            },
                            PlanOutcome::Passed => {
                                let step = Step::bare(
                                    Atom::PluginCall {
                                        name: req.name.clone(),
                                        arguments: clone_strings(&req.arguments),
                                    },
                                );
                                steps.push(step);
                                assert(steps.deep_view() =~= request_steps(self.action_view(), requests@.subrange(0, i as int))->Ok_0.push(step.deep_view()));
                            },
                            PlanOutcome::NotRun => {},
                        }
                    }
                },
            }
            i = i + 1;
        }
        assert(requests@.subrange(0, requests@.len() as int) =~= requests@);
        Ok(steps)
    }
}
} // verus!
