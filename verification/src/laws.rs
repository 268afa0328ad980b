//! Protocol-wide guarantees, proved once and for all over the transition
//! function of the update protocol.

use vstd::prelude::*;

use crate::errors::UpdateErrorV;
use crate::paths::with_ext;
use crate::update::entry_count_msg;
use crate::update::retired_name;
use crate::update::sentinel_ext;
use crate::update::staging_ext;
use crate::update::step_v;
use crate::update::validation_failure_msg;
use crate::update::EventV;
use crate::update::OutputV;
use crate::update::StateV;

verus! {

/// Folds a sequence of reported outcomes into the protocol, first one
/// first.
pub open spec fn run_v(s: StateV, es: Seq<EventV>) -> StateV
    decreases es.len(),
{
    if es.len() == 0 {
        s
    } else {
        run_v(step_v(s, es[0]), es.drop_first())
    }
}

/// Whether the attempt has begun the swap: from here on the installed
/// binary is being retired or has been replaced.
pub open spec fn swap_begun(s: StateV) -> bool {
    ||| s is AwaitRetire
    ||| s is AwaitSentinelRetire
    ||| s is AwaitActivate
    ||| s is Done
}

/// One step can begin the swap only on a successful self-check report.
pub proof fn lemma_swap_needs_validation_step(s: StateV, e: EventV)
    requires
        !swap_begun(s),
        swap_begun(step_v(s, e)),
    ensures
        e matches EventV::Validated(Ok(o)) && o.success,
{
}

/// No run of the protocol, from the start and through any outcomes
/// whatsoever, begins the swap unless one of the outcomes was a staged
/// binary reporting a successful self-check: the installed executable is
/// never touched without a validated replacement at hand.
pub proof fn lemma_no_swap_without_validation(s: StateV, es: Seq<EventV>)
    requires
        !swap_begun(s),
        swap_begun(run_v(s, es)),
    ensures
        exists|i: int|
            0 <= i < es.len() && ((#[trigger] es[i]) matches EventV::Validated(Ok(o))
                && o.success),
    decreases es.len(),
{
    let s1 = step_v(s, es[0]);
    if swap_begun(s1) {
        lemma_swap_needs_validation_step(s, es[0]);
    } else {
        lemma_no_swap_without_validation(s1, es.drop_first());
        let j = choose|j: int|
            0 <= j < es.drop_first().len() && ((#[trigger] es.drop_first()[j]) matches (
            EventV::Validated(Ok(o))) && o.success);
        assert(es.drop_first()[j] == es[j + 1]);
    }
}

/// [`lemma_no_swap_without_validation`], stated from the initial state.
pub proof fn lemma_no_activation_without_validation(es: Seq<EventV>)
    requires
        swap_begun(run_v(StateV::AwaitTempDir, es)),
    ensures
        exists|i: int|
            0 <= i < es.len() && ((#[trigger] es[i]) matches EventV::Validated(Ok(o))
                && o.success),
{
    lemma_no_swap_without_validation(StateV::AwaitTempDir, es);
}

/// A run in which every operation succeeds and the archive holds exactly
/// one entry drives the attempt to completion. Along the way the staged
/// binary receives the installed one's metadata before it is self-checked,
/// and only then is the old binary retired into the temporary directory and
/// the staged one activated.
pub proof fn lemma_success_run(
    temp_dir: Seq<char>,
    name: Seq<char>,
    target: Seq<char>,
    entry: Seq<char>,
    out: OutputV,
)
    requires
        out.success,
    ensures
        ({
            let staging = with_ext(target, staging_ext());
            let s1 = step_v(StateV::AwaitTempDir, EventV::TempDirReady(Ok(temp_dir)));
            let s2 = step_v(s1, EventV::StreamOpened(Ok(name)));
            let s3 = step_v(s2, EventV::Downloaded(Ok(())));
            let s4 = step_v(s3, EventV::TargetResolved(Ok(target)));
            let s5 = step_v(s4, EventV::Extracted(Ok(())));
            let s6 = step_v(s5, EventV::EntriesListed(Ok(seq![Ok(entry)])));
            let s7 = step_v(s6, EventV::Staged(Ok(())));
            let s8 = step_v(s7, EventV::MetadataCopied(Ok(())));
            let s9 = step_v(s8, EventV::Validated(Ok(out)));
            let s10 = step_v(s9, EventV::Retired(Ok(())));
            let s11 = step_v(s10, EventV::Activated(Ok(())));
            &&& s6 == (StateV::AwaitStaging { temp_dir, target, staging, source: entry })
            &&& s7 == (StateV::AwaitMetadata { temp_dir, target, staging })
            &&& s8 == (StateV::AwaitValidation { temp_dir, target, staging })
            &&& s9 == (StateV::AwaitRetire {
                target,
                staging,
                retire_to: crate::paths::joined(temp_dir, retired_name()),
            })
            &&& s10 == (StateV::AwaitActivate { target, staging })
            &&& s11 == StateV::Done
        }),
{
    assert(seq![Ok::<Seq<char>, Seq<char>>(entry)].len() == 1);
}

/// An archive with any entry count other than one fails the attempt with a
/// corrupt-download error whose message reports the observed count.
pub proof fn lemma_bad_entry_count(
    temp_dir: Seq<char>,
    target: Seq<char>,
    staging: Seq<char>,
    contents: Seq<char>,
    es: Seq<Result<Seq<char>, Seq<char>>>,
)
    requires
        es.len() != 1,
    ensures
        step_v(
            StateV::AwaitEntries { temp_dir, target, staging, contents },
            EventV::EntriesListed(Ok(es)),
        ) == StateV::Failed(UpdateErrorV::CorruptDownload(entry_count_msg(es.len()))),
{
}

/// If the primary retirement rename fails — however it fails — the swap is
/// not abandoned: the old binary is retired to the sentinel path beside the
/// executable, and the remaining two renames complete the update.
pub proof fn lemma_sentinel_fallback(
    target: Seq<char>,
    staging: Seq<char>,
    retire_to: Seq<char>,
    cause: Seq<char>,
)
    ensures
        ({
            let s1 = step_v(
                StateV::AwaitRetire { target, staging, retire_to },
                EventV::Retired(Err(cause)),
            );
            &&& s1 == (StateV::AwaitSentinelRetire {
                target,
                staging,
                sentinel: with_ext(target, sentinel_ext()),
            })
            &&& step_v(step_v(s1, EventV::SentinelRetired(Ok(()))), EventV::Activated(Ok(())))
                == StateV::Done
        }),
{
}

/// Terminal states are terminal: once an attempt is committed or failed,
/// no further reported outcome changes it.
pub proof fn lemma_terminal_states_stay(s: StateV, e: EventV)
    requires
        s is Done || s is Failed,
    ensures
        step_v(s, e) == s,
{
}

/// The paths of an attempt cohere: once the executable's path is known,
/// the staging path is exactly the executable's path with the staging
/// extension, and a sentinel, when one appears, is exactly the executable's
/// path with the sentinel extension. In particular the binary that is
/// checked and the binary that is activated are one and the same file, and
/// the fallback leaves the retired binary precisely where cleanup looks.
pub open spec fn paths_consistent(s: StateV) -> bool {
    match s {
        StateV::AwaitExtract { target, staging, .. } => staging == with_ext(
            target,
            staging_ext(),
        ),
        StateV::AwaitEntries { target, staging, .. } => staging == with_ext(
            target,
            staging_ext(),
        ),
        StateV::AwaitStaging { target, staging, .. } => staging == with_ext(
            target,
            staging_ext(),
        ),
        StateV::AwaitMetadata { target, staging, .. } => staging == with_ext(
            target,
            staging_ext(),
        ),
        StateV::AwaitValidation { target, staging, .. } => staging == with_ext(
            target,
            staging_ext(),
        ),
        StateV::AwaitRetire { target, staging, .. } => staging == with_ext(
            target,
            staging_ext(),
        ),
        StateV::AwaitSentinelRetire { target, staging, sentinel } => staging == with_ext(
            target,
            staging_ext(),
        ) && sentinel == with_ext(target, sentinel_ext()),
        StateV::AwaitActivate { target, staging } => staging == with_ext(target, staging_ext()),
        _ => true,
    }
}

/// One step keeps the attempt's paths coherent.
pub proof fn lemma_step_keeps_paths_consistent(s: StateV, e: EventV)
    requires
        paths_consistent(s),
    ensures
        paths_consistent(step_v(s, e)),
{
}

/// Any run from any coherent state — the initial state included — stays
/// coherent.
pub proof fn lemma_run_keeps_paths_consistent(s: StateV, es: Seq<EventV>)
    requires
        paths_consistent(s),
    ensures
        paths_consistent(run_v(s, es)),
    decreases es.len(),
{
    if es.len() > 0 {
        lemma_step_keeps_paths_consistent(s, es[0]);
        lemma_run_keeps_paths_consistent(step_v(s, es[0]), es.drop_first());
    }
}

/// The corrupt-download message of a failed self-check carries both
/// captured streams in full: the standard output and the standard error
/// each occur in it unchanged.
pub proof fn lemma_validation_message_carries_streams(out: Seq<char>, err: Seq<char>)
    ensures
        exists|i: int|
            0 <= i && i + out.len() <= validation_failure_msg(out, err).len() && (
            #[trigger] validation_failure_msg(out, err).subrange(i, i + out.len())) == out,
        exists|i: int|
            0 <= i && i + err.len() <= validation_failure_msg(out, err).len() && (
            #[trigger] validation_failure_msg(out, err).subrange(i, i + err.len())) == err,
{
    let m = validation_failure_msg(out, err);
    let p = "could not run the new binary, aborting. stdout:\n\n"@;
    let q = "\n\nstderr:\n\n"@;
    let i1 = p.len() as int;
    assert(m.subrange(i1, i1 + out.len()) =~= out);
    let i2 = i1 + out.len() + q.len();
    assert(m.subrange(i2, i2 + err.len()) =~= err);
}

} // verus!
