//! The session state machine that orders the two remote operations: one
//! "list tasks" call, then one "describe tasks" call per returned task
//! identifier, in order, printing one block per task; any remote failure
//! ends the run at once.
//!
//! The caller that owns the network runs the loop: it asks `next_action`,
//! performs the remote call the action names, and reports the outcome
//! through the `on_*` methods. Each method is tied to the ghost transition
//! function `spec_step`, so the laws proved about the ghost machine hold of
//! every run of the loop.

use vstd::prelude::*;
use crate::model::TaskDesc;
use crate::render::{render_task_block, spec_task_block};

verus! {

/// Where the session stands: before the list call, after a successful list
/// call (describing tasks one by one), or after a remote failure.
pub enum Phase {
    BeforeList,
    Listed,
    Failed,
}

/// What the driving loop must do next.
pub enum Action {
    /// Call the "list tasks" operation for the session's cluster and service.
    CallList,
    /// Call the "describe tasks" operation for the named task identifier.
    CallDescribe(String),
    /// All tasks processed: exit with success.
    ExitOk,
    /// A remote call failed: exit with failure.
    ExitErr,
}

/// Ghost image of a session.
#[verifier::ext_equal]
pub struct ModelState {
    pub region: Seq<char>,
    pub cluster: Seq<char>,
    pub service_name: Seq<char>,
    pub container: Seq<char>,
    pub arns: Seq<Seq<char>>,
    pub next: nat,
    pub phase: Phase,
}

/// Ghost image of an outcome the driving loop reports.
pub enum SpecEvent {
    ListOk(Seq<Seq<char>>),
    ListErr,
    DescribeOk(Seq<TaskDesc>),
    DescribeErr,
}

/// Ghost image of an `Action`.
pub enum SpecAction {
    CallList,
    CallDescribe(Seq<char>),
    ExitOk,
    ExitErr,
}

/// The views of a list of task identifiers.
pub open spec fn arns_view(v: Seq<String>) -> Seq<Seq<char>> {
    Seq::new(v.len(), |i: int| v[i]@)
}

/// The action a session in state `s` asks for.
pub open spec fn spec_action(s: ModelState) -> SpecAction {
    match s.phase {
        Phase::BeforeList => SpecAction::CallList,
        Phase::Listed => if s.next < s.arns.len() {
            SpecAction::CallDescribe(s.arns[s.next as int])
        } else {
            SpecAction::ExitOk
        },
        Phase::Failed => SpecAction::ExitErr,
    }
}

/// How a reported outcome moves the session forward. An outcome that does
/// not answer the pending action leaves the state unchanged.
pub open spec fn spec_step(s: ModelState, e: SpecEvent) -> ModelState {
    match e {
        SpecEvent::ListOk(arns) => if s.phase is BeforeList {
            ModelState { arns, next: 0, phase: Phase::Listed, ..s }
        } else {
            s
        },
        SpecEvent::ListErr => if s.phase is BeforeList {
            ModelState { phase: Phase::Failed, ..s }
        } else {
            s
        },
        SpecEvent::DescribeOk(_) => if s.phase is Listed && s.next < s.arns.len() {
            ModelState { next: s.next + 1, ..s }
        } else {
            s
        },
        SpecEvent::DescribeErr => if s.phase is Listed && s.next < s.arns.len() {
            ModelState { phase: Phase::Failed, ..s }
        } else {
            s
        },
    }
}

/// The text printed when outcome `e` arrives in state `s`: the block for the
/// task being described, on a successful describe; nothing otherwise.
pub open spec fn spec_step_output(s: ModelState, e: SpecEvent) -> Seq<char> {
    match e {
        SpecEvent::DescribeOk(ts) => if s.phase is Listed && s.next < s.arns.len() {
            spec_task_block(s.region, s.cluster, s.container, s.arns[s.next as int], ts)
        } else {
            Seq::empty()
        },
        _ => Seq::empty(),
    }
}

/// One run of the tool: region, cluster, service and container fixed at
/// start, then the list call, then a describe call per task identifier.
pub struct Session {
    pub region: String,
    pub cluster: String,
    pub service_name: String,
    pub container_name: String,
    pub task_arns: Vec<String>,
    pub next_index: usize,
    pub phase: Phase,
}

impl Session {
    /// The ghost image of this session.
    pub open spec fn model(self) -> ModelState {
        ModelState {
            region: self.region@,
            cluster: self.cluster@,
            service_name: self.service_name@,
            container: self.container_name@,
            arns: arns_view(self.task_arns@),
            next: self.next_index as nat,
            phase: self.phase,
        }
    }

    /// A fresh session, before any remote call.
    pub fn new(
        region: String,
        cluster: String,
        service_name: String,
        container_name: String,
    ) -> (s: Session)
        ensures
            s.model() == (ModelState {
                region: region@,
                cluster: cluster@,
                service_name: service_name@,
                container: container_name@,
                arns: Seq::empty(),
                next: 0,
                phase: Phase::BeforeList,
            }),
    {
        let s = Session {
            region,
            cluster,
            service_name,
            container_name,
            task_arns: Vec::new(),
            next_index: 0,
            phase: Phase::BeforeList,
        };
        proof {
            assert(arns_view(s.task_arns@) =~= Seq::<Seq<char>>::empty());
            assert(s.model() =~= (ModelState {
                region: s.region@,
                cluster: s.cluster@,
                service_name: s.service_name@,
                container: s.container_name@,
                arns: Seq::empty(),
                next: 0,
                phase: Phase::BeforeList,
            }));
        }
        s
    }

    /// What the driving loop must do next.
    pub fn next_action(&self) -> (a: Action)
        ensures
            action_view(a) == spec_action(self.model()),
    {
        match self.phase {
            Phase::BeforeList => Action::CallList,
            Phase::Listed => {
                if self.next_index < self.task_arns.len() {
                    let arn = self.task_arns[self.next_index].clone();
                    Action::CallDescribe(arn)
                } else {
                    Action::ExitOk
                }
            },
            Phase::Failed => Action::ExitErr,
        }
    }

    /// Record a successful list call: its task identifiers, in the order the
    /// service returned them.
    pub fn on_list_ok(&mut self, arns: Vec<String>)
        requires
            old(self).phase is BeforeList,
        ensures
            final(self).model() == spec_step(
                old(self).model(),
                SpecEvent::ListOk(arns_view(arns@)),
            ),
    {
        self.task_arns = arns;
        self.next_index = 0;
        self.phase = Phase::Listed;
        proof {
            assert(self.model() =~= spec_step(
                old(self).model(),
                SpecEvent::ListOk(arns_view(self.task_arns@)),
            ));
        }
    }

    /// Record a failed list call.
    pub fn on_list_err(&mut self)
        requires
            old(self).phase is BeforeList,
        ensures
            final(self).model() == spec_step(old(self).model(), SpecEvent::ListErr),
    {
        self.phase = Phase::Failed;
        proof {
            assert(self.model() =~= spec_step(old(self).model(), SpecEvent::ListErr));
        }
    }

    /// Record a successful describe call for the current task identifier and
    /// hand back the text to print for it.
    pub fn on_describe_ok(&mut self, tasks: &Vec<TaskDesc>) -> (out: String)
        requires
            old(self).phase is Listed,
            old(self).next_index < old(self).task_arns.len(),
        ensures
            final(self).model() == spec_step(old(self).model(), SpecEvent::DescribeOk(tasks@)),
            out@ == spec_step_output(old(self).model(), SpecEvent::DescribeOk(tasks@)),
    {
        let arn = self.task_arns[self.next_index].clone();
        let out = render_task_block(
            self.region.as_str(),
            self.cluster.as_str(),
            self.container_name.as_str(),
            arn.as_str(),
            tasks,
        );
        self.next_index = self.next_index + 1;
        proof {
            assert(self.model() =~= spec_step(old(self).model(), SpecEvent::DescribeOk(tasks@)));
        }
        out
    }

    /// Record a failed describe call.
    pub fn on_describe_err(&mut self)
        requires
            old(self).phase is Listed,
            old(self).next_index < old(self).task_arns.len(),
        ensures
            final(self).model() == spec_step(old(self).model(), SpecEvent::DescribeErr),
    {
        self.phase = Phase::Failed;
        proof {
            assert(self.model() =~= spec_step(old(self).model(), SpecEvent::DescribeErr));
        }
    }
}

/// The ghost image of an `Action`.
pub open spec fn action_view(a: Action) -> SpecAction {
    match a {
        Action::CallList => SpecAction::CallList,
        Action::CallDescribe(arn) => SpecAction::CallDescribe(arn@),
        Action::ExitOk => SpecAction::ExitOk,
        Action::ExitErr => SpecAction::ExitErr,
    }
}

} // verus!
