use vstd::prelude::*;

use crate::record::P4CliResult;
use crate::runner::{PullPhase, phase_rank, rec_model, spec_step};

verus! {

/// Law: the record sequence of an invocation is finite, bounded by the
/// child's own end. A pull changes the drain phase only on an end-of-stream
/// event, every such event strictly lowers the phase's rank, and nothing
/// leads out of `Exhausted` — so once both streams have ended, pulls yield
/// nothing, forever.
pub proof fn lemma_pulls_exhaust(phase: PullPhase, line: Option<Seq<char>>)
    ensures
        spec_step(phase, line).0 == phase || line is None,
        phase != PullPhase::Exhausted && line is None ==> phase_rank(spec_step(phase, line).0)
            < phase_rank(phase),
        phase == PullPhase::Exhausted ==> spec_step(phase, line) == (
            PullPhase::Exhausted,
            None::<(bool, Seq<char>)>,
        ),
{
}

/// The texts of the standard-output records of a record sequence, in
/// emission order.
pub open spec fn out_texts(records: Seq<P4CliResult>) -> Seq<Seq<char>>
    decreases records.len(),
{
    if records.len() == 0 {
        Seq::empty()
    } else if records[0].is_out_spec() {
        seq![records[0].text_spec()] + out_texts(records.skip(1))
    } else {
        out_texts(records.skip(1))
    }
}

/// The texts of the standard-error records of a record sequence, in
/// emission order.
pub open spec fn err_texts(records: Seq<P4CliResult>) -> Seq<Seq<char>>
    decreases records.len(),
{
    if records.len() == 0 {
        Seq::empty()
    } else if records[0].is_out_spec() {
        err_texts(records.skip(1))
    } else {
        seq![records[0].text_spec()] + err_texts(records.skip(1))
    }
}

/// The shape of a record sequence produced from the given per-stream lines
/// under the stdout-biased pull policy: first every standard-output line as
/// an output record, then every standard-error line as an error record.
pub open spec fn merged_shape(
    records: Seq<P4CliResult>,
    out_lines: Seq<Seq<char>>,
    err_lines: Seq<Seq<char>>,
) -> bool {
    &&& records.len() == out_lines.len() + err_lines.len()
    &&& forall|k: int|
        0 <= k < out_lines.len() ==> rec_model(#[trigger] records[k]) == (true, out_lines[k])
    &&& forall|k: int|
        out_lines.len() <= k < records.len() ==> rec_model(#[trigger] records[k]) == (
            false,
            err_lines[k - out_lines.len()],
        )
}

/// Law: a record sequence of merged shape loses, duplicates and changes no
/// line — the texts of its output records, in emission order, are exactly
/// the standard-output lines, and likewise for its error records against the
/// standard-error lines. Each line appears in exactly one record.
pub proof fn lemma_streams_preserved(
    records: Seq<P4CliResult>,
    out_lines: Seq<Seq<char>>,
    err_lines: Seq<Seq<char>>,
)
    requires
        merged_shape(records, out_lines, err_lines),
    ensures
        out_texts(records) == out_lines,
        err_texts(records) == err_lines,
    decreases records.len(),
{
    if out_lines.len() > 0 {
        assert(rec_model(records[0]) == (true, out_lines[0]));
        assert forall|k: int| 0 <= k < out_lines.skip(1).len() implies rec_model(
            #[trigger] records.skip(1)[k],
        ) == (true, out_lines.skip(1)[k]) by {
            assert(records.skip(1)[k] == records[k + 1]);
            assert(out_lines.skip(1)[k] == out_lines[k + 1]);
        }
        assert forall|k: int| out_lines.skip(1).len() <= k < records.skip(1).len() implies rec_model(
            #[trigger] records.skip(1)[k],
        ) == (false, err_lines[k - out_lines.skip(1).len()]) by {
            assert(records.skip(1)[k] == records[k + 1]);
            assert(rec_model(records[k + 1]) == (false, err_lines[k + 1 - out_lines.len()]));
        }
        lemma_streams_preserved(records.skip(1), out_lines.skip(1), err_lines);
        assert(out_texts(records) =~= out_lines);
        assert(err_texts(records) =~= err_lines);
    } else if err_lines.len() > 0 {
        assert(rec_model(records[0]) == (false, err_lines[0]));
        assert forall|k: int| 0 <= k < records.skip(1).len() implies rec_model(
            #[trigger] records.skip(1)[k],
        ) == (false, err_lines.skip(1)[k - out_lines.len()]) by {
            assert(records.skip(1)[k] == records[k + 1]);
            assert(rec_model(records[k + 1]) == (false, err_lines[k + 1]));
            assert(err_lines.skip(1)[k] == err_lines[k + 1]);
        }
        lemma_streams_preserved(records.skip(1), out_lines, err_lines.skip(1));
        assert(out_texts(records) =~= out_lines);
        assert(err_texts(records) =~= err_lines);
    } else {
        assert(records.len() == 0);
        assert(out_texts(records) =~= out_lines);
        assert(err_texts(records) =~= err_lines);
    }
}

} // verus!
