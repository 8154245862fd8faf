//! Applying manifests: the decisions taken while the manifests reachable
//! from a starting point are visited in dependency order. Everything that
//! touches the machine (evaluating a `where` condition, planning an action,
//! checking, running and finalizing a step) is asked of the caller through
//! an [`ApplyCommand`], whose answer comes back as an [`ApplyEvent`].
use crate::dag::entry_names;
use crate::manifest::Manifest;
use crate::providers::contains_str;
use crate::text::find_char;
use vstd::prelude::*;

verus! {

/// What the run reads of one manifest of the graph.
#[derive(Debug, PartialEq, Eq)]
pub struct RunNode {
    /// The root of the graph, which stands for no manifest.
    pub is_root: bool,
    pub labels: Vec<String>,
    pub has_where: bool,
    pub action_count: usize,
}

/// A run over the manifests reachable from one starting point.
#[derive(Debug, PartialEq, Eq)]
pub struct ApplyRun {
    pub dry_run: bool,
    pub label: Option<String>,
    /// The nodes to visit, in the order of the traversal.
    pub order: Vec<usize>,
    /// Every node of the graph, by index.
    pub nodes: Vec<RunNode>,
}

/// Why a manifest was passed over.
#[derive(PartialEq, Eq, Structural, Clone, Copy, Debug)]
pub enum SkipReason {
    Root,
    LabelNotFound,
    WhereFalse,
}

/// How the work on a manifest ended.
#[derive(PartialEq, Eq, Structural, Clone, Copy, Debug)]
pub enum ManifestOutcome {
    DryRun,
    Completed,
    Failed,
}

/// Where the run stands, and so which event it waits for.
#[derive(PartialEq, Eq, Structural, Clone, Copy, Debug)]
pub enum Stage {
    /// Waits for `Proceed` to look at the node at `position`.
    Visit,
    /// Waits for the value of the current node's `where` condition.
    AwaitWhere,
    /// Waits for `Proceed` to begin the action `action`.
    NextAction,
    /// Waits for the plan of the current action.
    AwaitPlan,
    /// Waits for the verdict on whether step `step` should run.
    AwaitCheck,
    /// Waits for the outcome of running step `step`.
    AwaitExecute,
    /// Waits for the verdict of the finalizers of step `step`.
    AwaitFinalize,
    /// The traversal is over.
    Done,
}

/// The state of a run.
#[derive(PartialEq, Eq, Structural, Clone, Copy, Debug)]
pub struct ApplyState {
    pub stage: Stage,
    pub position: usize,
    pub action: usize,
    pub step: usize,
    pub steps: usize,
    pub found: bool,
    pub successful: bool,
}

/// What the run asks of its caller.
#[derive(PartialEq, Eq, Structural, Clone, Copy, Debug)]
pub enum ApplyCommand {
    Skip { node: usize, reason: SkipReason },
    EvaluateWhere { node: usize },
    PlanAction { node: usize, action: usize },
    CheckStep { node: usize, action: usize, step: usize },
    ExecuteStep { node: usize, action: usize, step: usize },
    CheckFinalizers { node: usize, action: usize, step: usize },
    NothingToDo { node: usize, action: usize },
    Summarize { node: usize, action: usize },
    Finished { node: usize, outcome: ManifestOutcome },
    /// The event did not answer what the run waits for; nothing changed.
    Ignored,
    Stop,
}

/// The answer to the last command.
#[derive(PartialEq, Eq, Structural, Clone, Copy, Debug)]
pub enum ApplyEvent {
    Proceed,
    WhereResult(bool),
    /// The number of planned steps, or `None` where planning failed.
    Planned(Option<usize>),
    Checked(bool),
    Executed(bool),
    Finalized(bool),
}

/// Whether `label` is among `labels`.
pub open spec fn has_label(labels: Seq<Seq<char>>, label: Seq<char>) -> bool {
    labels.contains(label)
}

impl RunNode {
    /// Whether a run filtered by `label` works on this node.
    pub open spec fn passes(&self, label: Option<Seq<char>>) -> bool {
        !self.is_root && match label {
            Some(l) => has_label(self.labels.deep_view(), l),
            None => true,
        }
    }
}

impl ApplyRun {
    /// Every node of the traversal is a node of the graph.
    pub open spec fn wf(&self) -> bool {
        forall|i: int| 0 <= i < self.order@.len() ==> (#[trigger] self.order@[i]) < self.nodes@.len()
    }

    pub open spec fn node_at(&self, position: int) -> RunNode {
        self.nodes@[self.order@[position] as int]
    }

    pub open spec fn label_view(&self) -> Option<Seq<char>> {
        match self.label {
            Some(l) => Some(l@),
            None => None,
        }
    }

    /// The state from which `action` of the current node begins: its plan
    /// is asked for, or, past the last action, the node is finished.
    pub open spec fn begin_action(&self, s: ApplyState, action: usize) -> (ApplyState, ApplyCommand) {
        let node = self.order@[s.position as int];
        if action < self.node_at(s.position as int).action_count {
            (
                ApplyState { stage: Stage::AwaitPlan, action, ..s },
                ApplyCommand::PlanAction { node, action },
            )
        } else if self.dry_run {
            (
                ApplyState { stage: Stage::Visit, position: (s.position + 1) as usize, action, ..s },
                ApplyCommand::Finished { node, outcome: ManifestOutcome::DryRun },
            )
        } else if !s.successful {
            (
                ApplyState { stage: Stage::Done, action, ..s },
                ApplyCommand::Finished { node, outcome: ManifestOutcome::Failed },
            )
        } else {
            (
                ApplyState { stage: Stage::Visit, position: (s.position + 1) as usize, action, ..s },
                ApplyCommand::Finished { node, outcome: ManifestOutcome::Completed },
            )
        }
    }

    /// The state after step `step` of the current action: the next step is
    /// checked, or, past the last one, the action is summarized (or found
    /// to have had nothing to do).
    pub open spec fn after_step(&self, s: ApplyState, step: usize) -> (ApplyState, ApplyCommand) {
        let node = self.order@[s.position as int];
        if step < s.steps {
            (
                ApplyState { stage: Stage::AwaitCheck, step, ..s },
                ApplyCommand::CheckStep { node, action: s.action, step },
            )
        } else {
            self.end_action(ApplyState { step, ..s })
        }
    }

    /// The end of the current action.
    pub open spec fn end_action(&self, s: ApplyState) -> (ApplyState, ApplyCommand) {
        let node = self.order@[s.position as int];
        let next = ApplyState { stage: Stage::NextAction, action: (s.action + 1) as usize, ..s };
        if s.found {
            (next, ApplyCommand::Summarize { node, action: s.action })
        } else {
            (next, ApplyCommand::NothingToDo { node, action: s.action })
        }
    }

    /// Looking at the node at the current position: past the end the
    /// traversal is over; the root and a node without the run's label are
    /// skipped; a node with a `where` condition has it evaluated first; any
    /// other node begins its first action. Work on a node starts out
    /// successful.
    pub open spec fn on_visit(&self, s: ApplyState) -> (ApplyState, ApplyCommand) {
        let node = self.order@[s.position as int];
        let n = self.node_at(s.position as int);
        let skip = ApplyState { position: (s.position + 1) as usize, ..s };
        if s.position >= self.order@.len() {
            (ApplyState { stage: Stage::Done, ..s }, ApplyCommand::Stop)
        } else if n.is_root {
            (skip, ApplyCommand::Skip { node, reason: SkipReason::Root })
        } else if !n.passes(self.label_view()) {
            (skip, ApplyCommand::Skip { node, reason: SkipReason::LabelNotFound })
        } else if n.has_where {
            (
                ApplyState { stage: Stage::AwaitWhere, successful: true, action: 0, ..s },
                ApplyCommand::EvaluateWhere { node },
            )
        } else {
            self.begin_action(ApplyState { successful: true, ..s }, 0)
        }
    }

    /// A node whose `where` condition holds begins its first action; one
    /// whose condition fails is skipped.
    pub open spec fn on_where(&self, s: ApplyState, holds: bool) -> (ApplyState, ApplyCommand) {
        if holds {
            self.begin_action(s, 0)
        } else {
            (
                ApplyState { stage: Stage::Visit, position: (s.position + 1) as usize, ..s },
                ApplyCommand::Skip { node: self.order@[s.position as int], reason: SkipReason::WhereFalse },
            )
        }
    }

    /// An action whose planning failed marks the node as failed and the
    /// next action begins; a planned action has its steps checked from the
    /// first, none found to run yet.
    pub open spec fn on_planned(&self, s: ApplyState, planned: Option<usize>) -> (ApplyState, ApplyCommand) {
        match planned {
            None => self.begin_action(ApplyState { successful: false, ..s }, (s.action + 1) as usize),
            Some(n) => self.after_step(ApplyState { steps: n, found: false, ..s }, 0),
        }
    }

    /// A step that need not run is passed over; one that should run is only
    /// counted in a dry run, and otherwise run.
    pub open spec fn on_checked(&self, s: ApplyState, should_run: bool) -> (ApplyState, ApplyCommand) {
        if !should_run {
            self.after_step(s, (s.step + 1) as usize)
        } else if self.dry_run {
            self.after_step(ApplyState { found: true, ..s }, (s.step + 1) as usize)
        } else {
            (
                ApplyState { stage: Stage::AwaitExecute, found: true, ..s },
                ApplyCommand::ExecuteStep { node: self.order@[s.position as int], action: s.action, step: s.step },
            )
        }
    }

    /// A step that ran has its finalizers checked; one that failed ends the
    /// action and marks the node as failed.
    pub open spec fn on_executed(&self, s: ApplyState, ok: bool) -> (ApplyState, ApplyCommand) {
        if ok {
            (
                ApplyState { stage: Stage::AwaitFinalize, ..s },
                ApplyCommand::CheckFinalizers { node: self.order@[s.position as int], action: s.action, step: s.step },
            )
        } else {
            self.end_action(ApplyState { successful: false, ..s })
        }
    }

    /// Finalizers that allow it let the next step be checked; otherwise the
    /// action ends and the node is marked as failed.
    pub open spec fn on_finalized(&self, s: ApplyState, allow: bool) -> (ApplyState, ApplyCommand) {
        if allow {
            self.after_step(s, (s.step + 1) as usize)
        } else {
            self.end_action(ApplyState { successful: false, ..s })
        }
    }

    /// One move of the run: the state it reaches from `s` on `e`, and what
    /// it asks next. Each stage answers only the event it waits for, by its
    /// own rule; any other event is ignored, and once the traversal is over
    /// every event is answered with `Stop`.
    pub open spec fn transition(&self, s: ApplyState, e: ApplyEvent) -> (ApplyState, ApplyCommand) {
        match (s.stage, e) {
            (Stage::Done, _) => (s, ApplyCommand::Stop),
            (Stage::Visit, ApplyEvent::Proceed) => self.on_visit(s),
            (Stage::AwaitWhere, ApplyEvent::WhereResult(holds)) => self.on_where(s, holds),
            (Stage::NextAction, ApplyEvent::Proceed) => self.begin_action(s, s.action),
            (Stage::AwaitPlan, ApplyEvent::Planned(planned)) => self.on_planned(s, planned),
            (Stage::AwaitCheck, ApplyEvent::Checked(should_run)) => self.on_checked(s, should_run),
            (Stage::AwaitExecute, ApplyEvent::Executed(ok)) => self.on_executed(s, ok),
            (Stage::AwaitFinalize, ApplyEvent::Finalized(allow)) => self.on_finalized(s, allow),
            _ => (s, ApplyCommand::Ignored),
        }
    }

    /// The states that the run can be in between two events.
    pub open spec fn state_wf(&self, s: ApplyState) -> bool {
        match s.stage {
            Stage::Done => true,
            Stage::Visit => s.position <= self.order@.len(),
            _ => {
                &&& s.position < self.order@.len()
                &&& self.node_at(s.position as int).passes(self.label_view())
                &&& s.action <= self.node_at(s.position as int).action_count
                &&& (s.stage != Stage::NextAction && s.stage != Stage::AwaitWhere) ==> s.action
                    < self.node_at(s.position as int).action_count
                &&& (s.stage == Stage::AwaitCheck || s.stage == Stage::AwaitExecute || s.stage
                    == Stage::AwaitFinalize) ==> s.step < s.steps
                &&& (s.stage == Stage::AwaitExecute || s.stage == Stage::AwaitFinalize) ==> s.found
                    && !self.dry_run
            },
        }
    }
}

impl ApplyState {
    /// The state in which a run begins.
    pub fn start() -> (s: ApplyState)
        ensures
            s.stage == Stage::Visit,
            s.position == 0,
            s.successful,
    {
        ApplyState { stage: Stage::Visit, position: 0, action: 0, step: 0, steps: 0, found: false, successful: true }
    }
}

impl ApplyRun {
    /// A run over `order` among `nodes`, where every node of `order` is one
    /// of `nodes`; `None` otherwise.
    pub fn new(dry_run: bool, label: Option<String>, order: Vec<usize>, nodes: Vec<RunNode>) -> (r: Option<ApplyRun>)
        ensures
            r is Some <==> forall|i: int| 0 <= i < order@.len() ==> #[trigger] order@[i] < nodes@.len(),
            r matches Some(run) ==> run.wf() && run.dry_run == dry_run && run.label == label && run.order@
                == order@ && run.nodes@ == nodes@,
    {
        let mut i: usize = 0;
        while i < order.len()
            invariant
                i <= order@.len(),
                forall|j: int| 0 <= j < i ==> #[trigger] order@[j] < nodes@.len(),
            decreases order.len() - i,
        {
            if order[i] >= nodes.len() {
                return None;
            }
            i = i + 1;
        }
        Some(ApplyRun { dry_run, label, order, nodes })
    }

    fn passes_filter(&self, position: usize) -> (r: bool)
        requires
            self.wf(),
            position < self.order@.len(),
        ensures
            r == self.node_at(position as int).passes(self.label_view()),
    {
        let node = &self.nodes[self.order[position]];
        if node.is_root {
            return false;
        }
        match &self.label {
            Some(l) => contains_str(&node.labels, l.as_str()),
            None => true,
        }
    }

    fn exec_begin_action(&self, s: ApplyState, action: usize) -> (r: (ApplyState, ApplyCommand))
        requires
            self.wf(),
            s.position < self.order@.len(),
        ensures
            r == self.begin_action(s, action),
    {
        let _ = self.order.len();
        let node = self.order[s.position];
        if action < self.nodes[node].action_count {
            (ApplyState { stage: Stage::AwaitPlan, action, ..s }, ApplyCommand::PlanAction { node, action })
        } else if self.dry_run {
            (
                ApplyState { stage: Stage::Visit, position: s.position + 1, action, ..s },
                ApplyCommand::Finished { node, outcome: ManifestOutcome::DryRun },
            )
        } else if !s.successful {
            (
                ApplyState { stage: Stage::Done, action, ..s },
                ApplyCommand::Finished { node, outcome: ManifestOutcome::Failed },
            )
        } else {
            (
                ApplyState { stage: Stage::Visit, position: s.position + 1, action, ..s },
                ApplyCommand::Finished { node, outcome: ManifestOutcome::Completed },
            )
        }
    }

    fn exec_end_action(&self, s: ApplyState) -> (r: (ApplyState, ApplyCommand))
        requires
            self.wf(),
            s.position < self.order@.len(),
            s.action < usize::MAX,
        ensures
            r == self.end_action(s),
    {
        let node = self.order[s.position];
        let next = ApplyState { stage: Stage::NextAction, action: s.action + 1, ..s };
        if s.found {
            (next, ApplyCommand::Summarize { node, action: s.action })
        } else {
            (next, ApplyCommand::NothingToDo { node, action: s.action })
        }
    }

    fn exec_after_step(&self, s: ApplyState, step: usize) -> (r: (ApplyState, ApplyCommand))
        requires
            self.wf(),
            s.position < self.order@.len(),
            s.action < usize::MAX,
        ensures
            r == self.after_step(s, step),
    {
        if step < s.steps {
            (
                ApplyState { stage: Stage::AwaitCheck, step, ..s },
                ApplyCommand::CheckStep { node: self.order[s.position], action: s.action, step },
            )
        } else {
            self.exec_end_action(ApplyState { step, ..s })
        }
    }

    /// One move of the run: from state `s`, on event `e`, the next state and
    /// what the caller is asked to do next.
    pub fn advance(&self, s: ApplyState, e: ApplyEvent) -> (r: (ApplyState, ApplyCommand))
        requires
            self.wf(),
            self.state_wf(s),
        ensures
            r == self.transition(s, e),
            self.state_wf(r.0),
    {
        match (s.stage, e) {
            (Stage::Done, _) => (s, ApplyCommand::Stop),
            (Stage::Visit, ApplyEvent::Proceed) => {
                if s.position >= self.order.len() {
                    (ApplyState { stage: Stage::Done, ..s }, ApplyCommand::Stop)
                } else {
                    let node = self.order[s.position];
                    let skip = ApplyState { position: s.position + 1, ..s };
                    if self.nodes[node].is_root {
                        (skip, ApplyCommand::Skip { node, reason: SkipReason::Root })
                    } else if !self.passes_filter(s.position) {
                        (skip, ApplyCommand::Skip { node, reason: SkipReason::LabelNotFound })
                    } else if self.nodes[node].has_where {
                        (
                            ApplyState { stage: Stage::AwaitWhere, successful: true, action: 0, ..s },
                            ApplyCommand::EvaluateWhere { node },
                        )
                    } else {
                        self.exec_begin_action(ApplyState { successful: true, ..s }, 0)
                    }
                }
            },
            (Stage::AwaitWhere, ApplyEvent::WhereResult(holds)) => {
                let _ = self.order.len();
                if holds {
                    self.exec_begin_action(s, 0)
                } else {
                    (
                        ApplyState { stage: Stage::Visit, position: s.position + 1, ..s },
                        ApplyCommand::Skip { node: self.order[s.position], reason: SkipReason::WhereFalse },
                    )
                }
            },
            (Stage::NextAction, ApplyEvent::Proceed) => self.exec_begin_action(s, s.action),
            (Stage::AwaitPlan, ApplyEvent::Planned(planned)) => match planned {
                None => self.exec_begin_action(ApplyState { successful: false, ..s }, s.action + 1),
                Some(n) => self.exec_after_step(ApplyState { steps: n, found: false, ..s }, 0),
            },
            (Stage::AwaitCheck, ApplyEvent::Checked(should_run)) => {
                if !should_run {
                    self.exec_after_step(s, s.step + 1)
                } else if self.dry_run {
                    self.exec_after_step(ApplyState { found: true, ..s }, s.step + 1)
                } else {
                    (
                        ApplyState { stage: Stage::AwaitExecute, found: true, ..s },
                        ApplyCommand::ExecuteStep { node: self.order[s.position], action: s.action, step: s.step },
                    )
                }
            },
            (Stage::AwaitExecute, ApplyEvent::Executed(ok)) => {
                if ok {
                    (
                        ApplyState { stage: Stage::AwaitFinalize, ..s },
                        ApplyCommand::CheckFinalizers {
                            node: self.order[s.position],
                            action: s.action,
                            step: s.step,
                        },
                    )
                } else {
                    self.exec_end_action(ApplyState { successful: false, ..s })
                }
            },
            (Stage::AwaitFinalize, ApplyEvent::Finalized(allow)) => {
                if allow {
                    self.exec_after_step(s, s.step + 1)
                } else {
                    self.exec_end_action(ApplyState { successful: false, ..s })
                }
            },
            _ => (s, ApplyCommand::Ignored),
        }
    }
}


/// The node that a command is about, where it is about one that is worked on.
pub open spec fn worked_node(c: ApplyCommand) -> Option<usize> {
    match c {
        ApplyCommand::EvaluateWhere { node } => Some(node),
        ApplyCommand::PlanAction { node, .. } => Some(node),
        ApplyCommand::CheckStep { node, .. } => Some(node),
        ApplyCommand::ExecuteStep { node, .. } => Some(node),
        ApplyCommand::CheckFinalizers { node, .. } => Some(node),
        ApplyCommand::Summarize { node, .. } => Some(node),
        ApplyCommand::NothingToDo { node, .. } => Some(node),
        _ => None,
    }
}

/// Every move keeps the run in a state that it can be in between events.
pub proof fn lemma_transition_keeps_state_wf(run: ApplyRun, s: ApplyState, e: ApplyEvent)
    requires
        run.wf(),
        run.state_wf(s),
    ensures
        run.state_wf(run.transition(s, e).0),
{
}

/// A dry run never runs a step nor its finalizers, and never reports a
/// manifest as completed or failed.
pub proof fn lemma_dry_run_changes_nothing(run: ApplyRun, s: ApplyState, e: ApplyEvent)
    requires
        run.wf(),
        run.state_wf(s),
        run.dry_run,
    ensures
        !(run.transition(s, e).1 is ExecuteStep),
        !(run.transition(s, e).1 is CheckFinalizers),
        run.transition(s, e).1 matches ApplyCommand::Finished { outcome, .. } ==> outcome
            == ManifestOutcome::DryRun,
{
}

/// Once the traversal is over, every event leaves it over.
pub proof fn lemma_done_is_final(run: ApplyRun, s: ApplyState, e: ApplyEvent)
    requires
        s.stage == Stage::Done,
    ensures
        run.transition(s, e) == (s, ApplyCommand::Stop),
{
}

/// A manifest that failed ends the traversal: no later manifest is visited.
pub proof fn lemma_failure_stops_traversal(run: ApplyRun, s: ApplyState, e: ApplyEvent)
    requires
        run.wf(),
        run.state_wf(s),
        run.transition(s, e).1 matches ApplyCommand::Finished { outcome, .. } && outcome
            == ManifestOutcome::Failed,
    ensures
        run.transition(s, e).0.stage == Stage::Done,
{
}

/// Only the manifest at the current position of the traversal is worked on,
/// never the root, and, in a run filtered by a label, only one that carries
/// the label; an action is planned only where the manifest has it.
pub proof fn lemma_only_selected_manifests_are_worked_on(run: ApplyRun, s: ApplyState, e: ApplyEvent)
    requires
        run.wf(),
        run.state_wf(s),
    ensures
        ({
            let (t, c) = run.transition(s, e);
            worked_node(c) matches Some(node) ==> {
                &&& node == run.order@[s.position as int]
                &&& run.nodes@[node as int].passes(run.label_view())
            }
        }),
        run.transition(s, e).1 matches ApplyCommand::PlanAction { node, action } ==> action
            < run.nodes@[node as int].action_count,
{
}

/// A step is run only right after the check of that very step found that
/// it may run, and its finalizers are checked only right after it ran
/// without error.
pub proof fn lemma_steps_run_only_when_allowed(run: ApplyRun, s: ApplyState, e: ApplyEvent)
    requires
        run.wf(),
        run.state_wf(s),
    ensures
        run.transition(s, e).1 matches ApplyCommand::ExecuteStep { step, .. } ==> (s.stage == Stage::AwaitCheck
            && e == ApplyEvent::Checked(true) && s.step == step),
        run.transition(s, e).1 matches ApplyCommand::CheckFinalizers { step, .. } ==> (s.stage
            == Stage::AwaitExecute && e == ApplyEvent::Executed(true) && s.step == step),
{
}

/// The traversal only moves forward.
pub proof fn lemma_position_never_decreases(run: ApplyRun, s: ApplyState, e: ApplyEvent)
    requires
        run.wf(),
        run.state_wf(s),
    ensures
        run.transition(s, e).0.position >= s.position,
        run.transition(s, e).0.position <= s.position + 1,
{
    assert(run.order.len() == run.order@.len());
}


/// The options of the `apply` command.
#[derive(Debug, PartialEq, Eq)]
pub struct Apply {
    /// The names of the manifests to run; all of them where empty.
    pub manifests: Vec<String>,
    /// Plan and check, but change nothing.
    pub dry_run: bool,
    /// Run only the manifests that carry this label.
    pub label: Option<String>,
}

/// Why the manifests cannot be located.
#[derive(PartialEq, Eq, Structural, Clone, Copy, Debug)]
pub enum ApplyError {
    /// A manifest was named by a path rather than by its name.
    PathGiven,
    /// The configuration lists no directory of manifests.
    NoManifestPaths,
}

/// Whether some name in `names` contains the character `c`.
pub open spec fn some_contains(names: Seq<Seq<char>>, c: char) -> bool {
    exists|i: int, j: int| 0 <= i < names.len() && 0 <= j < names[i].len() && names[i][j] == c
}

/// The nodes of the manifests picked by name: node `i + 1` for each entry
/// `i` whose name is among `requested`, in the order of the entries.
pub open spec fn selected_nodes(requested: Seq<Seq<char>>, names: Seq<Seq<char>>) -> Seq<usize>
    decreases names.len(),
{
    if names.len() == 0 {
        seq![]
    } else {
        let prev = selected_nodes(requested, names.drop_last());
        if has_label(requested, names.last()) {
            prev.push(names.len() as usize)
        } else {
            prev
        }
    }
}

impl Apply {
    /// The directory of manifests to load: the first one configured. Names
    /// given on the command line must be names, not paths.
    pub fn manifest_path(&self, manifest_paths: &Vec<String>, separator: char) -> (r: Result<String, ApplyError>)
        ensures
            some_contains(self.manifests.deep_view(), separator) ==> r == Err::<String, ApplyError>(ApplyError::PathGiven),
            !some_contains(self.manifests.deep_view(), separator) && manifest_paths@.len() == 0 ==> r == Err::<
                String,
                ApplyError,
            >(ApplyError::NoManifestPaths),
            !some_contains(self.manifests.deep_view(), separator) && manifest_paths@.len() > 0 ==> (r matches Ok(
                p,
            ) && p@ == manifest_paths@[0]@),
    {
        let mut i: usize = 0;
        while i < self.manifests.len()
            invariant
                i <= self.manifests@.len(),
                forall|k: int, j: int|
                    0 <= k < i && 0 <= j < self.manifests.deep_view()[k].len() ==> self.manifests.deep_view()[k][j]
                        != separator,
            decreases self.manifests.len() - i,
        {
            let found = find_char(self.manifests[i].as_str(), separator);
            if let Some(j) = found {
                assert(self.manifests.deep_view()[i as int][j as int] == separator);
                return Err(ApplyError::PathGiven);
            }
            assert(self.manifests.deep_view()[i as int] == self.manifests@[i as int]@);
            i = i + 1;
        }
        if manifest_paths.len() == 0 {
            Err(ApplyError::NoManifestPaths)
        } else {
            Ok(manifest_paths[0].clone())
        }
    }

    /// The nodes from which the traversals start: the root when no manifest
    /// was named, else the nodes of the named manifests that exist, in the
    /// order of the entries.
    pub fn start_nodes(&self, entries: &Vec<(String, Manifest)>) -> (r: Vec<usize>)
        requires
            entries@.len() < usize::MAX,
        ensures
            self.manifests@.len() == 0 ==> r@ == seq![0usize],
            self.manifests@.len() > 0 ==> r@ == selected_nodes(self.manifests.deep_view(), entry_names(entries@)),
    {
        if self.manifests.len() == 0 {
            return vec![0];
        }
        let ghost names = entry_names(entries@);
        let mut r: Vec<usize> = Vec::new();
        let mut i: usize = 0;
        while i < entries.len()
            invariant
                i <= entries@.len(),
                entries@.len() < usize::MAX,
                names == entry_names(entries@),
                r@ == selected_nodes(self.manifests.deep_view(), names.subrange(0, i as int)),
            decreases entries.len() - i,
        {
            assert(names.subrange(0, i + 1).drop_last() =~= names.subrange(0, i as int));
            assert(names.subrange(0, i + 1).last() == entries@[i as int].0@);
            if contains_str(&self.manifests, entries[i].0.as_str()) {
                r.push(i + 1);
            }
            i = i + 1;
        }
        assert(names.subrange(0, entries@.len() as int) =~= names);
        r
    }
}

/// The node that stands for the root of the graph.
pub fn root_node() -> (n: RunNode)
    ensures
        n.is_root,
        n.labels@.len() == 0,
        !n.has_where,
        n.action_count == 0,
{
    RunNode { is_root: true, labels: Vec::new(), has_where: false, action_count: 0 }
}

/// The node of a loaded manifest.
pub fn manifest_node(manifest: &Manifest) -> (n: RunNode)
    ensures
        !n.is_root,
        n.labels.deep_view() == manifest.labels.deep_view(),
        n.has_where == manifest.where_condition is Some,
        n.action_count == manifest.actions@.len(),
{
    let labels = crate::text::clone_strings(&manifest.labels);
    RunNode { is_root: false, labels, has_where: manifest.where_condition.is_some(), action_count: manifest.actions.len() }
}

} // verus!
