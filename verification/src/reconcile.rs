//! The reconciliation core: the wipe-then-recreate plan, the step
//! machine the surrounding process drives, the classification of each
//! provider answer, and the laws the procedure obeys.

use vstd::prelude::*;
use vstd::string::StringExecFns;

use crate::config::AppConfig;
use crate::ip::{cidr_chars, cidr_of, PublicIp};
use crate::rules::{wipe_target, IngressRule};
use crate::text::{contains_bytes, contains_seq};
use vstd::utf8::encode_utf8;

verus! {

/// One step of a run's plan, in the order the provider is asked.
#[derive(Clone)]
pub enum Action {
    /// Delete the ingress rule `rule_id` from group `group_id`.
    Revoke { group_id: String, rule_id: String },
    /// Leave the rule alone and log a skip: it has no IPv4 CIDR.
    SkipNoCidr { rule_id: String },
    /// Leave the rule alone and log a skip: it is an egress rule.
    SkipEgress { rule_id: String },
    /// Create an ingress rule on `group_id` opening `from_port..=to_port`
    /// for `cidr` over `protocol`.
    Authorize { group_id: String, cidr: String, protocol: String, from_port: i32, to_port: i32 },
}

/// What the provider answered for one step; steps that ask nothing of
/// the provider (skips) report success.
pub enum ApiEvent {
    Success,
    /// The provider refused, with its error rendered as text.
    Failure(String),
}

/// How one step of the run went, as kept for the caller's exit policy.
#[derive(Clone, Copy, PartialEq, Eq, Structural, Debug)]
pub enum Outcome {
    /// The rule was left alone (no IPv4 CIDR, or egress).
    Skipped,
    /// A delete succeeded.
    Removed,
    /// A delete failed; the run goes on.
    RemoveFailed,
    /// A create succeeded.
    Created,
    /// A create hit the provider's "already exists" guard: the desired
    /// rule is already in place, which is success-equivalent.
    AlreadyExists,
    /// A create failed for any other reason; the run goes on.
    CreateFailed,
}

/// The provider's conflict signal: the error text carries the
/// "already exists" marker, meaning the desired rule was already there.
pub open spec fn benign_create_error(msg: Seq<char>) -> bool {
    contains_seq(encode_utf8(msg), encode_utf8("already exists"@))
}

/// Classifies a creation failure: benign exactly when the provider's
/// message carries the "already exists" marker.
pub fn is_benign_create_error(msg: &str) -> (b: bool)
    ensures
        b == benign_create_error(msg@),
{
    contains_bytes(msg.as_bytes(), "already exists".as_bytes())
}

/// `a` is the planned wipe step for the listed rule `r`: a delete
/// exactly when `r` is ingress with an IPv4 CIDR, a logged skip
/// otherwise.
pub open spec fn wipe_step_for(a: Action, r: IngressRule) -> bool {
    match a {
        Action::Revoke { group_id, rule_id } => {
            &&& wipe_target(r)
            &&& group_id@ == r.group_id@
            &&& rule_id@ == r.rule_id@
        },
        Action::SkipNoCidr { rule_id } => r.ipv4_cidr is None && rule_id@ == r.rule_id@,
        Action::SkipEgress { rule_id } => {
            &&& r.ipv4_cidr is Some
            &&& r.is_egress
            &&& rule_id@ == r.rule_id@
        },
        Action::Authorize { .. } => false,
    }
}

/// `a` is the planned creation step for `port`: authorize `group` to
/// accept the resolved address' host-only CIDR on exactly that port,
/// over TCP.
pub open spec fn create_step_for(a: Action, group: Seq<char>, port: i32, ip: PublicIp) -> bool {
    match a {
        Action::Authorize { group_id, cidr, protocol, from_port, to_port } => {
            &&& group_id@ == group
            &&& cidr@ == cidr_chars(ip)
            &&& protocol@ == "tcp"@
            &&& from_port == port
            &&& to_port == port
        },
        _ => false,
    }
}

/// The whole plan of one run: one wipe step per listed rule, in listing
/// order, then one creation step per configured port, in port order.
pub open spec fn plan_for(
    plan: Seq<Action>,
    rules: Seq<IngressRule>,
    group: Seq<char>,
    ports: Seq<i32>,
    ip: PublicIp,
) -> bool {
    &&& plan.len() == rules.len() + ports.len()
    &&& forall|i: int| 0 <= i < rules.len() ==> wipe_step_for(#[trigger] plan[i], rules[i])
    &&& forall|i: int|
        rules.len() <= i < plan.len() ==> create_step_for(
            #[trigger] plan[i],
            group,
            ports[i - rules.len()],
            ip,
        )
}

/// Selectivity of the wipe phase: the planned step is a delete exactly
/// when the rule is ingress and carries an IPv4 CIDR; every other rule
/// gets a skip, and no wipe step ever creates anything.
pub proof fn lemma_wipe_selectivity(a: Action, r: IngressRule)
    requires
        wipe_step_for(a, r),
    ensures
        (a is Revoke) <==> wipe_target(r),
        !(a is Authorize),
{
}

/// How one step's answer is kept: skips never fail, deletes succeed or
/// fail, creates distinguish the benign "already exists" conflict from
/// a real failure.
pub open spec fn outcome_for(a: Action, ev: ApiEvent) -> Outcome {
    match a {
        Action::Revoke { .. } => match ev {
            ApiEvent::Success => Outcome::Removed,
            ApiEvent::Failure(_) => Outcome::RemoveFailed,
        },
        Action::SkipNoCidr { .. } => Outcome::Skipped,
        Action::SkipEgress { .. } => Outcome::Skipped,
        Action::Authorize { .. } => match ev {
            ApiEvent::Success => Outcome::Created,
            ApiEvent::Failure(msg) => if benign_create_error(msg@) {
                Outcome::AlreadyExists
            } else {
                Outcome::CreateFailed
            },
        },
    }
}

/// Classifies the provider's answer to one step.
pub fn classify_step(a: &Action, ev: &ApiEvent) -> (o: Outcome)
    ensures
        o == outcome_for(*a, *ev),
{
    match a {
        Action::Revoke { .. } => match ev {
            ApiEvent::Success => Outcome::Removed,
            ApiEvent::Failure(_) => Outcome::RemoveFailed,
        },
        Action::SkipNoCidr { .. } => Outcome::Skipped,
        Action::SkipEgress { .. } => Outcome::Skipped,
        Action::Authorize { .. } => match ev {
            ApiEvent::Success => Outcome::Created,
            ApiEvent::Failure(msg) => {
                if is_benign_create_error(msg.as_str()) {
                    Outcome::AlreadyExists
                } else {
                    Outcome::CreateFailed
                }
            },
        },
    }
}

/// Drives one run: the plan is fixed up front from the listed rules,
/// the configuration and the resolved address; the surrounding process
/// performs each step's provider call and hands the answer back through
/// [`Reconciler::record`]. The plan never changes after construction,
/// so no failed call can unschedule a later one.
pub struct Reconciler {
    pub plan: Vec<Action>,
    pub next: usize,
    pub outcomes: Vec<Outcome>,
}

impl Reconciler {
    /// The cursor and the outcome log move together through the plan.
    pub open spec fn wf(&self) -> bool {
        &&& self.next <= self.plan@.len()
        &&& self.outcomes@.len() == self.next
    }

    /// Plans one run: a wipe step per listed rule, then a creation step
    /// per configured port.
    pub fn new(config: &AppConfig, ip: &PublicIp, rules: &Vec<IngressRule>) -> (rec: Reconciler)
        ensures
            rec.wf(),
            rec.next == 0,
            plan_for(rec.plan@, rules@, config.security_group_id@, config.ports@, *ip),
    {
        let n: usize = rules.len();
        let mut plan: Vec<Action> = Vec::new();
        let mut i: usize = 0;
        while i < n
            invariant
                i <= n,
                n == rules@.len(),
                plan@.len() == i,
                forall|k: int| 0 <= k < i ==> wipe_step_for(#[trigger] plan@[k], rules@[k]),
            decreases n - i,
        {
            let r = &rules[i];
            match &r.ipv4_cidr {
                Option::Some(_) => {
                    if !r.is_egress {
                        plan.push(
                            Action::Revoke {
                                group_id: r.group_id.clone(),
                                rule_id: r.rule_id.clone(),
                            },
                        );
                    } else {
                        plan.push(Action::SkipEgress { rule_id: r.rule_id.clone() });
                    }
                },
                Option::None => {
                    plan.push(Action::SkipNoCidr { rule_id: r.rule_id.clone() });
                },
            }
            i += 1;
        }
        let cidr = cidr_of(ip);
        let m: usize = config.ports.len();
        let mut j: usize = 0;
        while j < m
            invariant
                j <= m,
                m == config.ports@.len(),
                n == rules@.len(),
                plan@.len() == n + j,
                cidr@ == cidr_chars(*ip),
                forall|k: int| 0 <= k < n ==> wipe_step_for(#[trigger] plan@[k], rules@[k]),
                forall|k: int|
                    n <= k < n + j ==> create_step_for(
                        #[trigger] plan@[k],
                        config.security_group_id@,
                        config.ports@[k - n],
                        *ip,
                    ),
            decreases m - j,
        {
            let port = config.ports[j];
            plan.push(
                Action::Authorize {
                    group_id: config.security_group_id.clone(),
                    cidr: cidr.clone(),
                    protocol: String::from_str("tcp"),
                    from_port: port,
                    to_port: port,
                },
            );
            j += 1;
        }
        Reconciler { plan, next: 0, outcomes: Vec::new() }
    }

    /// The step the provider should be asked to perform now, or `None`
    /// once the run is complete.
    pub fn next_action(&self) -> (r: Option<&Action>)
        ensures
            match r {
                Option::Some(a) => {
                    &&& self.next < self.plan@.len()
                    &&& *a == self.plan@[self.next as int]
                },
                Option::None => self.next >= self.plan@.len(),
            },
    {
        if self.next < self.plan.len() {
            Some(&self.plan[self.next])
        } else {
            None
        }
    }

    /// Records the provider's answer to the current step and moves on.
    /// Fault isolation: whatever the event says — success or failure —
    /// the plan is untouched and exactly one step is consumed, so one
    /// failed delete or create never unschedules the remaining steps.
    pub fn record(&mut self, ev: ApiEvent)
        requires
            old(self).wf(),
            old(self).next < old(self).plan@.len(),
        ensures
            final(self).wf(),
            final(self).plan@ == old(self).plan@,
            final(self).next == old(self).next + 1,
            final(self).outcomes@ == old(self).outcomes@.push(
                outcome_for(old(self).plan@[old(self).next as int], ev),
            ),
    {
        let n: usize = self.plan.len();
        let o = classify_step(&self.plan[self.next], &ev);
        self.outcomes.push(o);
        assert(self.next < n);
        self.next = self.next + 1;
    }

    /// Every planned step has been performed and recorded.
    pub fn is_done(&self) -> (b: bool)
        ensures
            b == (self.next >= self.plan@.len()),
    {
        self.next >= self.plan.len()
    }
}

/// Provider-side model of one rule, carrying what the plan's steps set.
/// Rule identifiers are provider-assigned and not modeled.
pub ghost struct GroupRule {
    pub group_id: Seq<char>,
    pub is_egress: bool,
    pub ipv4_cidr: Option<Seq<char>>,
    pub protocol: Seq<char>,
    pub from_port: i32,
    pub to_port: i32,
}

/// A rule the wipe phase leaves standing: egress, or no IPv4 CIDR.
pub open spec fn survives_wipe(r: GroupRule) -> bool {
    !(r.ipv4_cidr is Some && !r.is_egress)
}

/// The rules the wipe phase leaves standing, in their original order.
pub open spec fn surviving(rules: Seq<GroupRule>) -> Seq<GroupRule> {
    rules.filter(|r: GroupRule| survives_wipe(r))
}

/// The rule one authorize call asks for: ingress, TCP, the resolved
/// address' host-only CIDR, one port.
pub open spec fn desired_rule(group: Seq<char>, port: i32, ip: PublicIp) -> GroupRule {
    GroupRule {
        group_id: group,
        is_egress: false,
        ipv4_cidr: Some(cidr_chars(ip)),
        protocol: "tcp"@,
        from_port: port,
        to_port: port,
    }
}

/// The rules the recreate phase asks for, one per configured port.
pub open spec fn desired_rules(group: Seq<char>, ports: Seq<i32>, ip: PublicIp) -> Seq<GroupRule> {
    Seq::new(ports.len(), |j: int| desired_rule(group, ports[j], ip))
}

/// The rule set after one run in which every provider call succeeds:
/// the wipe phase has removed every ingress rule with an IPv4 CIDR, and
/// the recreate phase has added one rule per configured port.
pub open spec fn run_result(
    rules: Seq<GroupRule>,
    group: Seq<char>,
    ports: Seq<i32>,
    ip: PublicIp,
) -> Seq<GroupRule> {
    surviving(rules) + desired_rules(group, ports, ip)
}

/// The model and the planner agree: a provider rule survives the wipe
/// phase exactly when its listing is not a wipe target.
pub proof fn lemma_wipe_matches_model(r: IngressRule, g: GroupRule)
    requires
        g.is_egress == r.is_egress,
        g.ipv4_cidr is Some <==> r.ipv4_cidr is Some,
    ensures
        survives_wipe(g) <==> !wipe_target(r),
{
}

proof fn lemma_surviving_all(s: Seq<GroupRule>)
    requires
        forall|i: int| 0 <= i < s.len() ==> survives_wipe(#[trigger] s[i]),
    ensures
        surviving(s) == s,
    decreases s.len(),
{
    reveal(Seq::filter);
    if s.len() == 0 {
        assert(surviving(s) =~= s);
    } else {
        assert(forall|i: int|
            0 <= i < s.drop_last().len() ==> survives_wipe(#[trigger] s.drop_last()[i]));
        lemma_surviving_all(s.drop_last());
        assert(survives_wipe(s.last()));
        assert(surviving(s) == surviving(s.drop_last()).push(s.last()));
        assert(s.drop_last().push(s.last()) =~= s);
    }
}

proof fn lemma_surviving_none(s: Seq<GroupRule>)
    requires
        forall|i: int| 0 <= i < s.len() ==> !survives_wipe(#[trigger] s[i]),
    ensures
        surviving(s) == Seq::<GroupRule>::empty(),
    decreases s.len(),
{
    reveal(Seq::filter);
    if s.len() == 0 {
        assert(surviving(s) =~= Seq::<GroupRule>::empty());
    } else {
        assert(forall|i: int|
            0 <= i < s.drop_last().len() ==> !survives_wipe(#[trigger] s.drop_last()[i]));
        lemma_surviving_none(s.drop_last());
        assert(!survives_wipe(s.last()));
    }
}

/// Idempotence: with an unchanged resolved address, a second run leaves
/// the rule set exactly as a successful first run produced it — its
/// wipe phase removes precisely what the first run created, and its
/// recreate phase puts the identical rules back.
pub proof fn lemma_run_idempotent(
    rules: Seq<GroupRule>,
    group: Seq<char>,
    ports: Seq<i32>,
    ip: PublicIp,
)
    ensures
        run_result(run_result(rules, group, ports, ip), group, ports, ip) == run_result(
            rules,
            group,
            ports,
            ip,
        ),
{
    broadcast use vstd::seq_lib::group_filter_ensures;
    broadcast use Seq::filter_distributes_over_add;

    let survivors = surviving(rules);
    let created = desired_rules(group, ports, ip);
    let once = run_result(rules, group, ports, ip);
    assert(surviving(once) == surviving(survivors) + surviving(created));
    assert(forall|i: int| 0 <= i < survivors.len() ==> survives_wipe(#[trigger] survivors[i]));
    lemma_surviving_all(survivors);
    assert(forall|i: int|
        0 <= i < created.len() ==> !survives_wipe(#[trigger] created[i])) by {
        assert(forall|i: int| 0 <= i < created.len() ==> #[trigger] created[i] == desired_rule(group, ports[i], ip));
    }
    lemma_surviving_none(created);
    assert(surviving(once) =~= survivors);
    assert(run_result(once, group, ports, ip) =~= once);
}

} // verus!

