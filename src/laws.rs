//! Laws of the orchestrator, proved over its transition function.

use vstd::prelude::*;

use crate::config::{ConfigView, EnvContentsView};
use crate::health::HealthState;
use crate::service::{nitro_base_args, nitro_das_args, nitro_role_args};
use crate::stack::{
    ActionView, EntryView, ErrView, EventView, OpView, StackView, StepView, begin_cleanup, finish, gate_timeout_ms,
    is_reply, lemma_next_wf, network_name, next, remove_of, startup_plan, stop_of, with_op, wf,
};

verus! {

broadcast use vstd::seq_lib::group_seq_properties;

/// The state reached and the requests made when the replies `evs` come in turn.
pub open spec fn run(s: StackView, evs: Seq<EventView>) -> (StackView, Seq<ActionView>)
    decreases evs.len(),
{
    if evs.len() == 0 {
        (s, Seq::empty())
    } else {
        let (s1, a) = next(s, evs[0]);
        let (s2, acts) = run(s1, evs.drop_first());
        (s2, seq![a] + acts)
    }
}

pub open spec fn stops(reg: Seq<EntryView>) -> Seq<ActionView> {
    reg.map_values(|e: EntryView| stop_of(e))
}

pub open spec fn removals(reg: Seq<EntryView>) -> Seq<ActionView> {
    reg.map_values(|e: EntryView| remove_of(e))
}

pub open spec fn all_replies(evs: Seq<EventView>) -> bool {
    forall|i: int| 0 <= i < evs.len() ==> is_reply(#[trigger] evs[i])
}

proof fn lemma_run_append(s: StackView, a: Seq<EventView>, b: Seq<EventView>)
    ensures
        run(s, a + b) == ({
            let (s1, x) = run(s, a);
            let (s2, y) = run(s1, b);
            (s2, x + y)
        }),
    decreases a.len(),
{
    if a.len() > 0 {
        let (s1, act) = next(s, a[0]);
        assert((a + b).drop_first() =~= a.drop_first() + b);
        lemma_run_append(s1, a.drop_first(), b);
        let (t1, x) = run(s1, a.drop_first());
        let (t2, y) = run(t1, b);
        assert(seq![act] + (x + y) =~= (seq![act] + x) + y);
    } else {
        assert(a + b =~= b);
        let (s2, y) = run(s, b);
        assert(Seq::<ActionView>::empty() + y =~= y);
    }
}

/// The stop phase of a cleanup, from the reply to the stop at `pos` on.
proof fn lemma_clean_stops(s: StackView, evs: Seq<EventView>)
    requires
        wf(s),
        s.op is CleanStopping,
        evs.len() == s.registry.len() - s.op->CleanStopping_pos,
        all_replies(evs),
    ensures
        ({
            let (s2, acts) = run(s, evs);
            &&& acts == stops(s.registry.subrange(s.op->CleanStopping_pos + 1, s.registry.len() as int))
                + seq![remove_of(s.registry[0])]
            &&& s2.registry == s.registry.drop_first()
            &&& s2.op is Removing && s2.op->Removing_all
            &&& s2.plan == s.plan
        }),
    decreases evs.len(),
{
    let pos = s.op->CleanStopping_pos;
    let reg = s.registry;
    let n = reg.len();
    assert(is_reply(evs[0]));
    let (s1, a) = next(s, evs[0]);
    let rest = evs.drop_first();
    lemma_next_wf(s, evs[0]);
    if pos + 1 < n {
        assert(all_replies(rest)) by {
            assert forall|i: int| 0 <= i < rest.len() implies is_reply(#[trigger] rest[i]) by {
                assert(rest[i] == evs[i + 1]);
            }
        }
        lemma_clean_stops(s1, rest);
        assert(stops(reg.subrange(pos + 1, n as int))
            =~= seq![stop_of(reg[pos + 1])] + stops(reg.subrange(pos + 2, n as int)));
        let (s2, acts) = run(s1, rest);
        assert(seq![a] + acts =~= stops(reg.subrange(pos + 1, n as int)) + seq![remove_of(reg[0])]);
    } else {
        assert(rest.len() == 0);
        assert(stops(reg.subrange(n as int, n as int)) =~= Seq::<ActionView>::empty());
        assert(seq![a] + Seq::<ActionView>::empty() =~= seq![remove_of(reg[0])]);
    }
}

/// The removal phase of a cleanup.
proof fn lemma_removals(s: StackView, evs: Seq<EventView>)
    requires
        s.op is Removing && s.op->Removing_all,
        evs.len() == s.registry.len() + 1,
        all_replies(evs),
    ensures
        ({
            let (s2, acts) = run(s, evs);
            &&& acts.len() == evs.len()
            &&& acts.drop_last() == removals(s.registry)
            &&& acts.last() is Finished
            &&& s2.registry.len() == 0
            &&& s2.op is Idle
        }),
    decreases evs.len(),
{
    let reg = s.registry;
    assert(is_reply(evs[0]));
    let (s1, a) = next(s, evs[0]);
    let rest = evs.drop_first();
    if reg.len() == 0 {
        assert(rest.len() == 0);
        assert(removals(reg) =~= Seq::<ActionView>::empty());
        assert((seq![a] + Seq::<ActionView>::empty()).drop_last() =~= Seq::<ActionView>::empty());
    } else {
        assert(all_replies(rest)) by {
            assert forall|i: int| 0 <= i < rest.len() implies is_reply(#[trigger] rest[i]) by {
                assert(rest[i] == evs[i + 1]);
            }
        }
        lemma_removals(s1, rest);
        let (s2, acts) = run(s1, rest);
        assert(removals(reg) =~= seq![remove_of(reg[0])] + removals(reg.drop_first()));
        assert((seq![a] + acts).drop_last() =~= seq![a] + acts.drop_last());
    }
}

/// Cleanup of a stack with N registered services asks for N stops and then
/// N forced removals, one of each per service in registry order, whatever
/// each reply says; it then ends, with the registry empty.
pub proof fn cleanup_is_complete(s: StackView, replies: Seq<EventView>)
    requires
        wf(s),
        s.op is Idle,
        replies.len() == 2 * s.registry.len(),
        all_replies(replies),
    ensures
        ({
            let (s1, first) = begin_cleanup(s);
            let (s2, acts) = run(s1, replies);
            let asked = seq![first] + acts;
            &&& asked.drop_last() == stops(s.registry) + removals(s.registry)
            &&& asked.last() is Finished
            &&& s2.registry.len() == 0
            &&& s2.op is Idle
        }),
{
    let reg = s.registry;
    let n = reg.len();
    let (s1, first) = begin_cleanup(s);
    if n == 0 {
        assert(replies.len() == 0);
        assert(stops(reg) + removals(reg) =~= Seq::<ActionView>::empty());
        assert((seq![first] + Seq::<ActionView>::empty()).drop_last() =~= Seq::<ActionView>::empty());
    } else {
        let r1 = replies.subrange(0, n as int);
        let r2 = replies.subrange(n as int, 2 * n as int);
        assert(replies =~= r1 + r2);
        assert(all_replies(r1)) by {
            assert forall|i: int| 0 <= i < r1.len() implies is_reply(#[trigger] r1[i]) by {
                assert(r1[i] == replies[i]);
            }
        }
        assert(all_replies(r2)) by {
            assert forall|i: int| 0 <= i < r2.len() implies is_reply(#[trigger] r2[i]) by {
                assert(r2[i] == replies[i + n]);
            }
        }
        lemma_run_append(s1, r1, r2);
        lemma_clean_stops(s1, r1);
        let (t1, x) = run(s1, r1);
        lemma_removals(t1, r2);
        let (t2, y) = run(t1, r2);
        assert(stops(reg) =~= seq![stop_of(reg[0])] + stops(reg.subrange(1, n as int)));
        assert(removals(reg) =~= seq![remove_of(reg[0])] + removals(reg.drop_first()));
        assert(reg.drop_first() =~= reg.subrange(1, n as int));
        assert(y =~= y.drop_last().push(y.last()));
        assert((seq![first] + (x + y)).drop_last() =~= seq![first] + x + y.drop_last());
        assert(seq![first] + x + y.drop_last() =~= stops(reg) + removals(reg));
        assert((seq![first] + (x + y)).last() == y.last());
    }
}

/// Once nothing is in progress, replies change nothing and ask for nothing.
pub proof fn idle_stays_idle(s: StackView, evs: Seq<EventView>)
    requires
        s.op is Idle,
    ensures
        run(s, evs).0 == s,
        run(s, evs).1.len() == evs.len(),
        forall|i: int| 0 <= i < evs.len() ==> run(s, evs).1[i] == ActionView::Idle,
    decreases evs.len(),
{
    if evs.len() > 0 {
        idle_stays_idle(s, evs.drop_first());
    }
}

/// A gate whose service is not healthy within its time ends the start with a
/// timeout that names the service and the time waited; the start launches
/// nothing after it, whatever comes in.
pub proof fn gate_timeout_ends_start(s: StackView, elapsed_ms: u64, later: Seq<EventView>)
    requires
        wf(s),
        s.op is Sleeping,
        elapsed_ms >= s.plan[s.op->Sleeping_pos]->Gate_timeout_ms,
    ensures
        next(s, EventView::Slept { elapsed_ms }) == finish(
            s,
            Err(ErrView::Timeout { service: s.plan[s.op->Sleeping_pos]->Gate_service, elapsed_ms }),
        ),
        forall|i: int| 0 <= i < later.len()
            ==> !(run(next(s, EventView::Slept { elapsed_ms }).0, later).1[i] is CreateAndStart),
{
    idle_stays_idle(next(s, EventView::Slept { elapsed_ms }).0, later);
}

/// A gate lets the start go on only on a report that its service is healthy.
pub proof fn gate_passes_only_when_healthy(s: StackView, ev: EventView)
    requires
        wf(s),
        s.op is Inspecting || s.op is Sleeping,
    ensures
        ({
            let (s2, a) = next(s, ev);
            let pos = if s.op is Inspecting { s.op->Inspecting_pos } else { s.op->Sleeping_pos };
            (a is CreateAndStart || position(s2.op) > pos)
                ==> s.op is Inspecting && ev == (EventView::Health { state: HealthState::Healthy })
        }),
{
}

/// How far a start has come in its plan (the network comes before the plan).
pub open spec fn position(op: OpView) -> int {
    match op {
        OpView::Listing => -1,
        OpView::CreatingNetwork => -1,
        OpView::Launching { pos } => pos,
        OpView::Inspecting { pos, .. } => pos,
        OpView::Sleeping { pos, .. } => pos,
        _ => 0,
    }
}

pub open spec fn starting(op: OpView) -> bool {
    op is Listing || op is CreatingNetwork || op is Launching || op is Inspecting || op is Sleeping
}

/// A start follows its plan: what it awaits never goes back in the plan, and
/// every launch it asks for is the one the plan holds where it stands.
pub proof fn start_follows_plan(s: StackView, ev: EventView)
    requires
        wf(s),
        starting(s.op),
    ensures
        ({
            let (s2, a) = next(s, ev);
            &&& starting(s2.op) ==> position(s2.op) >= position(s.op)
            &&& a is CreateAndStart ==> s2.op is Launching
                && s.plan[s2.op->Launching_pos] == StepView::Launch(a->CreateAndStart_spec)
        }),
{
}

/// A launch that the runtime refuses ends the start with that service's
/// error, leaves every registered service registered, and asks for no stop
/// or removal.
pub proof fn failed_launch_keeps_earlier_tiers(s: StackView, message: Seq<char>)
    requires
        wf(s),
        s.op is Launching,
    ensures
        next(s, EventView::Failed { message }) == finish(
            s,
            Err(ErrView::Create { service: s.plan[s.op->Launching_pos]->Launch_0.name, message }),
        ),
        next(s, EventView::Failed { message }).0.registry == s.registry,
{
}

/// Ensuring the network twice asks for its creation at most once: after a
/// creation the runtime lists the network, and a listed network is not
/// created again. A creation that finds the network there already counts as
/// success, as a creation does.
pub proof fn network_created_at_most_once(s: StackView, listed: Seq<Seq<char>>)
    requires
        s.op is Listing,
    ensures
        ({
            let first = next(s, EventView::Networks { names: listed }).1;
            let after = if first is CreateNetwork { listed.push(network_name()) } else { listed };
            !(first is CreateNetwork && next(s, EventView::Networks { names: after }).1 is CreateNetwork)
        }),
        next(with_op(s, OpView::CreatingNetwork), EventView::AlreadyExists)
            == next(with_op(s, OpView::CreatingNetwork), EventView::Done),
{
    let first = next(s, EventView::Networks { names: listed }).1;
    if first is CreateNetwork {
        assert(listed.push(network_name())[listed.len() as int] == network_name());
    }
}

/// The services a plan launches, in order.
pub open spec fn launches(plan: Seq<StepView>) -> Seq<Seq<char>>
    decreases plan.len(),
{
    if plan.len() == 0 {
        Seq::empty()
    } else {
        let init = launches(plan.drop_last());
        match plan.last() {
            StepView::Launch(spec) => init.push(spec.name),
            StepView::Gate { .. } => init,
        }
    }
}

/// The plan launches the primary database before the proxy, and the proxy last.
pub proof fn database_before_proxy(c: ConfigView, e: EnvContentsView)
    ensures
        ({
            let p = startup_plan(c, e);
            &&& p[1] is Launch && p[1]->Launch_0.name == "db"@
            &&& p.last() is Launch && p.last()->Launch_0.name == "proxy"@
            &&& 1 < p.len() - 1
        }),
{
}

/// Without DAS, the plan launches thirteen services, in this order, and no
/// DAS server; it waits for the health of each database right after
/// launching it, before anything of a later tier. A sequencer's chain node
/// publishes its feed.
pub proof fn plan_without_das(c: ConfigView, e: EnvContentsView)
    requires
        !c.enable_das,
        c.is_sequencer,
    ensures
        launches(startup_plan(c, e)) == seq![
            "db-init"@, "db"@, "stats-db-init"@, "stats-db"@, "redis_db"@, "nitro-node"@, "backend"@,
            "frontend"@, "stats"@, "visualizer"@, "sig-provider"@, "smart-contract-verifier"@, "proxy"@,
        ],
        startup_plan(c, e)[2] == (StepView::Gate { service: "db"@, timeout_ms: gate_timeout_ms() }),
        startup_plan(c, e)[5] == (StepView::Gate { service: "stats-db"@, timeout_ms: gate_timeout_ms() }),
        startup_plan(c, e)[7]->Launch_0.cmd.contains("--node.feed.output.enable=true"@),
{
    let p = startup_plan(c, e);
    reveal_with_fuel(launches, 16);
    assert(p.len() == 15);
    let cmd = nitro_base_args(c) + nitro_role_args(c) + nitro_das_args(c);
    assert(cmd[11] == "--node.feed.output.enable=true"@);
    assert(launches(p) =~= seq![
        "db-init"@, "db"@, "stats-db-init"@, "stats-db"@, "redis_db"@, "nitro-node"@, "backend"@,
        "frontend"@, "stats"@, "visualizer"@, "sig-provider"@, "smart-contract-verifier"@, "proxy"@,
    ]);
}

} // verus!
