use vstd::prelude::*;
use vstd::string::StringExecFns;
use crate::context::Ctx;
use crate::errors::Error;
use crate::extract::assemble_spec;
use crate::extract::build_context;
use crate::extract::ct_count;
use crate::extract::streams_all_probed;
use crate::extract::tags_datetime_ok;
use crate::meta::ProbeOutcome;
use crate::template::render_of;

verus! {

/// What one file's run decided: the names the rename joins, and whether
/// the rename is to be carried out or only reported.
#[derive(Debug, Clone, PartialEq)]
pub struct RenamePlan {
    pub source: String,
    pub dest: String,
    pub execute: bool,
}

/// The decision on one file once its new name is rendered: an existing
/// destination is refused, anything else is planned, carried out only
/// outside dry-run mode.
pub open spec fn rename_decision(
    source: Seq<char>,
    dest: Seq<char>,
    dest_exists: bool,
    run: bool,
) -> Option<(Seq<char>, Seq<char>, bool)> {
    if dest_exists {
        None
    } else {
        Some((source, dest, run))
    }
}

/// Decides one file's fate after rendering.  A destination that already
/// exists is a `Collision` error and the source stays untouched — never
/// overwritten, never auto-suffixed; otherwise the plan names the
/// source and destination and is marked to execute only when `run` is
/// set, so a dry run can never mutate anything.
pub fn plan_rename(filename: &String, rendered: &String, dest_exists: bool, run: bool) -> (r:
    Result<RenamePlan, Error>)
    ensures
        dest_exists ==> (r matches Err(e) && e is Collision),
        !dest_exists ==> (r matches Ok(p) && p.source@ == filename@ && p.dest@ == rendered@
            && p.execute == run),
        r is Ok <==> rename_decision(filename@, rendered@, dest_exists, run) is Some,
        r matches Ok(p) ==> rename_decision(filename@, rendered@, dest_exists, run) == Some(
            (p.source@, p.dest@, p.execute),
        ),
        !run ==> (r matches Ok(p) ==> p.execute == false),
{
    if dest_exists {
        let mut msg = String::from_str("file already exists at new path: ");
        msg.append(rendered.as_str());
        Err(Error::Collision(msg))
    } else {
        Ok(RenamePlan { source: filename.clone(), dest: rendered.clone(), execute: run })
    }
}

/// Dry-run and execute mode agree on the plan: for the same file, the
/// same rendered name and the same filesystem state, whether a rename
/// is planned and which names it joins are the same in both modes;
/// only the `execute` mark differs.  Running once in dry-run mode and
/// once in execute mode over an unmodified tree therefore yields the
/// same rename plan both times.
pub proof fn lemma_dry_run_plan_agrees(source: Seq<char>, dest: Seq<char>, dest_exists: bool)
    ensures
        rename_decision(source, dest, dest_exists, false) is Some <==> rename_decision(
            source,
            dest,
            dest_exists,
            true,
        ) is Some,
        rename_decision(source, dest, dest_exists, false) matches Some(d) ==> (rename_decision(
            source,
            dest,
            dest_exists,
            true,
        ) matches Some(w) && w.0 == d.0 && w.1 == d.1),
{
}

/// Dry-run and execute mode decide alike across two runs over an
/// unmodified tree: with the same template text, the same value tree
/// for a file, and the same filesystem state, both runs render the
/// same name — the engine's outcome is a function of those two alone —
/// and compute the same plan, or the same collision; only the
/// `execute` mark differs.  That the two runs hand the engine the same
/// value tree rests on the probing and conversion outside the library,
/// which Verus does not see.
pub proof fn lemma_two_runs_same_plan(
    text: Seq<char>,
    ctx: serde_json::Value,
    source: Seq<char>,
    dest_exists: bool,
)
    ensures
        render_of(text, ctx) matches Some(name) ==> ({
            let dry = rename_decision(source, name, dest_exists, false);
            let wet = rename_decision(source, name, dest_exists, true);
            &&& (dry is Some <==> wet is Some)
            &&& (dry matches Some(d) ==> (wet matches Some(w) && w.0 == d.0 && w.1 == d.1))
        }),
{
}

/// Runs the extractor for one probing outcome.  A file that is no
/// recognizable media container is no error and yields no context — so
/// nothing is renamed and nothing is reported; a probed container
/// yields its context, or the extraction error that aborts this one
/// file.
pub fn context_for_file(outcome: &ProbeOutcome, filename: &str, fmt: &str) -> (r: Result<
    Option<Ctx>,
    Error,
>)
    ensures
        outcome is NotMedia ==> (r matches Ok(c) && c is None),
        outcome matches ProbeOutcome::Media(m) ==> ((r is Ok <==> (tags_datetime_ok(m.tags@, fmt@)
            && streams_all_probed(m.streams@))) && (r matches Ok(c) ==> (c matches Some(cx)
            && exists|cts: Seq<Seq<char>>|
            cts.len() == ct_count(m.tags@) && cx@ == assemble_spec(*m, cts, filename@)))),
        (outcome matches ProbeOutcome::Media(m) && !tags_datetime_ok(m.tags@, fmt@)) ==> (r matches Err(e) && (
        e is DatetimeParse || e is BadDatetimeFormat)),
        (outcome matches ProbeOutcome::Media(m) && tags_datetime_ok(m.tags@, fmt@) && !streams_all_probed(
            m.streams@,
        )) ==> (r matches Err(e) && e is CodecProbe),
{
    match outcome {
        ProbeOutcome::NotMedia => Ok(None),
        ProbeOutcome::Media(m) => match build_context(m, filename, fmt) {
            Ok(c) => Ok(Some(c)),
            Err(e) => Err(e),
        },
    }
}

/// The traversal policy of directory mode: a child file's failure is
/// reported and the walk goes on — one corrupt file never stops the
/// batch — while a child directory's failure stops the walk of that
/// branch.
pub fn continue_after_child(child_is_dir: bool, child_failed: bool) -> (cont: bool)
    ensures
        cont == !(child_is_dir && child_failed),
{
    !(child_is_dir && child_failed)
}

} // verus!
