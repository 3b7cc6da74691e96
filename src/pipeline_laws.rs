use vstd::prelude::*;
use crate::commit_id::SHORT_ID_LEN;
use crate::error::GitCommand;
use crate::pipeline::{EventView, ProvisioningView, Stage, StepView, git_step, transition};
use crate::process::ProcessOutcome;

verus! {

/// Run `p` moved on to stage `s`.
pub open spec fn at_stage(p: ProvisioningView, s: Stage) -> ProvisioningView {
    ProvisioningView { stage: s, ..p }
}

/// The stage reached and the steps asked for when `events` are reported in
/// turn to run `p`.
pub open spec fn run(p: ProvisioningView, events: Seq<EventView>) -> (Stage, Seq<StepView>)
    decreases events.len(),
{
    if events.len() == 0 {
        (p.stage, Seq::empty())
    } else {
        let (s, step) = transition(p, events[0]);
        let rest = run(at_stage(p, s), events.drop_first());
        (rest.0, seq![step] + rest.1)
    }
}

/// The reports of a run in which every outside operation after the embedded
/// clone succeeds; `oldest` is the raw id of the oldest commit.
pub open spec fn successful_events(oldest: Seq<u8>) -> Seq<EventView> {
    let ok = EventView::CommandFinished(ProcessOutcome::Success);
    seq![
        EventView::LibraryOk,
        ok,
        EventView::LibraryOk,
        EventView::OldestCommit(oldest),
        ok,
        ok,
        ok,
    ]
}

/// The steps that such a run asks for after the embedded clone.
pub open spec fn successful_steps(p: ProvisioningView, oldest: Seq<u8>) -> Seq<StepView> {
    let none = Seq::<u8>::empty();
    seq![
        git_step(p, GitCommand::Checkout, none),
        StepView::RemoveRemote { remote: "origin"@ },
        StepView::FindOldestCommit,
        git_step(p, GitCommand::Reset, oldest),
        git_step(p, GitCommand::Add, none),
        git_step(p, GitCommand::Commit, none),
        StepView::Exit { code: 0 },
    ]
}

/// How far along the provisioning sequence a stage lies; a failed run has no place.
pub open spec fn progress(s: Stage) -> int {
    match s {
        Stage::Cloning => 0,
        Stage::FallbackCloning => 1,
        Stage::Reopening => 2,
        Stage::CheckingOut => 3,
        Stage::DetachingOrigin => 4,
        Stage::FindingOldest => 5,
        Stage::Resetting => 6,
        Stage::Staging => 7,
        Stage::Committing => 8,
        Stage::Done => 9,
        Stage::Failed => -1,
    }
}

proof fn lemma_run_unfold(p: ProvisioningView, events: Seq<EventView>)
    requires
        events.len() > 0,
    ensures
        run(p, events).0 == run(at_stage(p, transition(p, events[0]).0), events.drop_first()).0,
        run(p, events).1 == seq![transition(p, events[0]).1]
            + run(at_stage(p, transition(p, events[0]).0), events.drop_first()).1,
{
}

/// A failed run stays failed, whatever is reported afterwards.
proof fn lemma_failed_stays(p: ProvisioningView, events: Seq<EventView>)
    requires
        p.stage == Stage::Failed,
    ensures
        run(p, events).0 == Stage::Failed,
    decreases events.len(),
{
    if events.len() > 0 {
        assert(at_stage(p, transition(p, events[0]).0) == p);
        lemma_failed_stays(p, events.drop_first());
    }
}

/// Each report either fails the run or moves it forward, or leaves a finished run finished.
proof fn lemma_transition_progress(p: ProvisioningView, e: EventView)
    requires
        p.stage != Stage::Failed,
    ensures
        transition(p, e).0 == Stage::Failed || transition(p, e).0 == Stage::Done
            || progress(transition(p, e).0) > progress(p.stage),
{
}

/// Every run that ends provisioned, from a stage before the amend, asked for
/// the amend commit with the provenance message; from a stage before the reset,
/// for a reset to a reported oldest commit; and from a stage before the remote's
/// removal, for the removal of `origin`.
proof fn lemma_done_run(p: ProvisioningView, events: Seq<EventView>)
    requires
        run(p, events).0 == Stage::Done,
    ensures
        0 <= progress(p.stage) <= 7 ==> run(p, events).1.contains(
            git_step(p, GitCommand::Commit, Seq::empty()),
        ),
        0 <= progress(p.stage) <= 5 ==> exists|id: Seq<u8>|
            2 * id.len() >= SHORT_ID_LEN && #[trigger] run(p, events).1.contains(
                git_step(p, GitCommand::Reset, id),
            ),
        0 <= progress(p.stage) <= 3 ==> run(p, events).1.contains(
            StepView::RemoveRemote { remote: "origin"@ },
        ),
    decreases events.len(),
{
    if p.stage == Stage::Failed {
        lemma_failed_stays(p, events);
    } else if events.len() > 0 {
        let e = events[0];
        let (s, step) = transition(p, e);
        let q = at_stage(p, s);
        let tail = events.drop_first();
        lemma_run_unfold(p, events);
        let whole = run(p, events).1;
        let rest = run(q, tail).1;
        assert(whole == seq![step] + rest);
        if s == Stage::Failed {
            lemma_failed_stays(q, tail);
        } else {
            lemma_done_run(q, tail);
            lemma_transition_progress(p, e);
            assert forall|x: StepView| rest.contains(x) implies whole.contains(x) by {
                let k = choose|k: int| 0 <= k < rest.len() && rest[k] == x;
                assert(whole[k + 1] == x);
            }
            assert(git_step(q, GitCommand::Commit, Seq::empty()) == git_step(
                p,
                GitCommand::Commit,
                Seq::empty(),
            ));
            assert(whole[0] == step);
            if 0 <= progress(p.stage) <= 5 {
                if p.stage == Stage::FindingOldest {
                    if let EventView::OldestCommit(id) = e {
                        assert(whole.contains(git_step(p, GitCommand::Reset, id)));
                    }
                } else {
                    let id = choose|id: Seq<u8>|
                        2 * id.len() >= SHORT_ID_LEN && #[trigger] rest.contains(
                            git_step(q, GitCommand::Reset, id),
                        );
                    assert(git_step(q, GitCommand::Reset, id) == git_step(p, GitCommand::Reset, id));
                    assert(whole.contains(git_step(p, GitCommand::Reset, id)));
                }
            }
        }
    }
}

/// A run that starts with the embedded clone and ends provisioned has asked
/// for the removal of the remote `origin`, for a mixed reset to the oldest
/// commit it was told of, and for the amend commit whose message is
/// `initialized from <name> skeleton`: the project keeps one commit, with that
/// message, and no `origin`.
pub proof fn provisioned_run_squashes_and_detaches(p: ProvisioningView, events: Seq<EventView>)
    requires
        p.stage == Stage::Cloning,
        run(p, events).0 == Stage::Done,
    ensures
        run(p, events).1.contains(StepView::RemoveRemote { remote: "origin"@ }),
        exists|id: Seq<u8>|
            2 * id.len() >= SHORT_ID_LEN && #[trigger] run(p, events).1.contains(
                git_step(p, GitCommand::Reset, id),
            ),
        run(p, events).1.contains(git_step(p, GitCommand::Commit, Seq::empty())),
{
    lemma_done_run(p, events);
}

/// When every outside operation after the embedded clone succeeds, the run
/// asks for checkout, removal of `origin`, the oldest commit, the reset to it,
/// staging, the amend commit and exit status zero, in that order, and ends provisioned.
pub proof fn successful_run_steps(p: ProvisioningView, oldest: Seq<u8>)
    requires
        p.stage == Stage::Cloning,
        2 * oldest.len() >= SHORT_ID_LEN,
    ensures
        run(p, successful_events(oldest)) == (Stage::Done, successful_steps(p, oldest)),
{
    lemma_successful_suffix(p, oldest, 0);
    assert(successful_events(oldest).subrange(0, 7) =~= successful_events(oldest));
    assert(successful_steps(p, oldest).subrange(0, 7) =~= successful_steps(p, oldest));
}

/// The stage of a fully successful run after its first `k` reports.
pub open spec fn successful_stage(k: int) -> Stage {
    if k == 0 {
        Stage::Cloning
    } else if k == 1 {
        Stage::CheckingOut
    } else if k == 2 {
        Stage::DetachingOrigin
    } else if k == 3 {
        Stage::FindingOldest
    } else if k == 4 {
        Stage::Resetting
    } else if k == 5 {
        Stage::Staging
    } else if k == 6 {
        Stage::Committing
    } else {
        Stage::Done
    }
}

proof fn lemma_successful_suffix(p: ProvisioningView, oldest: Seq<u8>, k: int)
    requires
        0 <= k <= 7,
        2 * oldest.len() >= SHORT_ID_LEN,
    ensures
        run(at_stage(p, successful_stage(k)), successful_events(oldest).subrange(k, 7)) == (
            Stage::Done,
            successful_steps(p, oldest).subrange(k, 7),
        ),
    decreases 7 - k,
{
    let ev = successful_events(oldest);
    let q = at_stage(p, successful_stage(k));
    let tail = ev.subrange(k, 7);
    if k < 7 {
        lemma_successful_suffix(p, oldest, k + 1);
        lemma_run_unfold(q, tail);
        assert(tail.drop_first() =~= ev.subrange(k + 1, 7));
        assert(tail[0] == ev[k]);
        assert(transition(q, ev[k]).0 == successful_stage(k + 1));
        assert(at_stage(q, successful_stage(k + 1)) == at_stage(p, successful_stage(k + 1)));
        assert(transition(q, ev[k]).1 == successful_steps(p, oldest)[k]);
        assert(successful_steps(p, oldest).subrange(k, 7) =~= seq![successful_steps(p, oldest)[k]]
            + successful_steps(p, oldest).subrange(k + 1, 7));
    } else {
        assert(tail.len() == 0);
        assert(successful_steps(p, oldest).subrange(k, 7) =~= Seq::<StepView>::empty());
    }
}

/// When the embedded clone fails and `git clone` and the reopening succeed, the
/// run goes on exactly as if the embedded clone had succeeded: same final
/// stage, same later steps, after the two steps of the fallback.
pub proof fn clone_fallback_is_transparent(p: ProvisioningView, later: Seq<EventView>)
    requires
        p.stage == Stage::Cloning,
    ensures
        ({
            let direct = run(p, seq![EventView::LibraryOk] + later);
            let fallback = run(
                p,
                seq![
                    EventView::LibraryFailed,
                    EventView::CommandFinished(ProcessOutcome::Success),
                    EventView::LibraryOk,
                ] + later,
            );
            fallback.0 == direct.0 && fallback.1 == seq![
                git_step(p, GitCommand::Clone, Seq::empty()),
                StepView::OpenRepository { path: p.output_dir },
            ] + direct.1
        }),
{
    let d = seq![EventView::LibraryOk] + later;
    let f3 = seq![
        EventView::LibraryFailed,
        EventView::CommandFinished(ProcessOutcome::Success),
        EventView::LibraryOk,
    ] + later;
    let f2 = f3.drop_first();
    let f1 = f2.drop_first();
    assert(f1 =~= d);
    assert(d.drop_first() =~= later);
    assert(f3[0] == EventView::LibraryFailed);
    assert(f2[0] == EventView::CommandFinished(ProcessOutcome::Success));
    assert(f1[0] == EventView::LibraryOk);
    let p1 = at_stage(p, Stage::FallbackCloning);
    let p2 = at_stage(p, Stage::Reopening);
    lemma_run_unfold(p, f3);
    lemma_run_unfold(p1, f2);
    lemma_run_unfold(p2, f1);
    lemma_run_unfold(p, d);
    assert(at_stage(p1, Stage::Reopening) == p2);
    assert(at_stage(p2, Stage::CheckingOut) == at_stage(p, Stage::CheckingOut));
    assert(git_step(p2, GitCommand::Checkout, Seq::empty()) == git_step(
        p,
        GitCommand::Checkout,
        Seq::empty(),
    ));
    assert(git_step(p, GitCommand::Clone, Seq::empty()) == transition(p, f3[0]).1);
    assert(run(p, f3).1 =~= seq![
        git_step(p, GitCommand::Clone, Seq::empty()),
        StepView::OpenRepository { path: p.output_dir },
    ] + run(p, d).1);
}

} // verus!
