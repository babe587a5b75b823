use vstd::prelude::*;

use crate::error::P4CliError;
use crate::laws::merged_shape;
use crate::lines::{decode_lines, spec_lines, utf8_decoded};
use crate::record::P4CliResult;

verus! {

/// The drain state of one invocation: standard output is drained first, then
/// standard error, then the record sequence is over.
#[derive(Clone, Copy, Debug, PartialEq, Eq, Structural)]
pub enum PullPhase {
    DrainingOut,
    DrainingErr,
    Exhausted,
}

/// The captured stream a blocking line read is made on.
#[derive(Clone, Copy, Debug, PartialEq, Eq, Structural)]
pub enum ReadTarget {
    Stdout,
    Stderr,
}

/// A record abstracted to (came from standard output, its text).
pub open spec fn rec_model(r: P4CliResult) -> (bool, Seq<char>) {
    (r.is_out_spec(), r.text_spec())
}

pub open spec fn opt_rec_model(r: Option<P4CliResult>) -> Option<(bool, Seq<char>)> {
    match r {
        Some(rec) => Some(rec_model(rec)),
        None => None,
    }
}

pub open spec fn opt_line_model(l: Option<String>) -> Option<Seq<char>> {
    match l {
        Some(line) => Some(line@),
        None => None,
    }
}

/// The stdout-biased pull policy, one decision at a time. While standard
/// output is being drained, every line it yields becomes an output record,
/// and its end of stream turns the drain to standard error — standard error
/// is never touched while standard output still has lines. A drained
/// invocation stays exhausted.
pub open spec fn spec_step(phase: PullPhase, line: Option<Seq<char>>) -> (PullPhase, Option<
    (bool, Seq<char>),
>) {
    match (phase, line) {
        (PullPhase::DrainingOut, Some(t)) => (PullPhase::DrainingOut, Some((true, t))),
        (PullPhase::DrainingOut, None) => (PullPhase::DrainingErr, None),
        (PullPhase::DrainingErr, Some(t)) => (PullPhase::DrainingErr, Some((false, t))),
        (PullPhase::DrainingErr, None) => (PullPhase::Exhausted, None),
        (PullPhase::Exhausted, _) => (PullPhase::Exhausted, None),
    }
}

impl PullPhase {
    /// The stream the next blocking read must go to, `None` once both
    /// streams have ended.
    pub open spec fn read_target_spec(&self) -> Option<ReadTarget> {
        match self {
            PullPhase::DrainingOut => Some(ReadTarget::Stdout),
            PullPhase::DrainingErr => Some(ReadTarget::Stderr),
            PullPhase::Exhausted => None,
        }
    }

    /// Which stream to read next; `None` signals the end of the sequence.
    pub fn read_target(&self) -> (r: Option<ReadTarget>)
        ensures
            r == self.read_target_spec(),
    {
        match self {
            PullPhase::DrainingOut => Some(ReadTarget::Stdout),
            PullPhase::DrainingErr => Some(ReadTarget::Stderr),
            PullPhase::Exhausted => None,
        }
    }
}

/// How far a phase still is from `Exhausted`.
pub open spec fn phase_rank(phase: PullPhase) -> int {
    match phase {
        PullPhase::DrainingOut => 2,
        PullPhase::DrainingErr => 1,
        PullPhase::Exhausted => 0,
    }
}

/// Feeds the outcome of one blocking line read (`None` at end of stream)
/// into the pull policy: yields the next phase and the record to emit, if
/// any, exactly as `spec_step` decides.
pub fn step(phase: PullPhase, line: Option<String>) -> (r: (PullPhase, Option<P4CliResult>))
    ensures
        (r.0, opt_rec_model(r.1)) == spec_step(phase, opt_line_model(line)),
{
    match (phase, line) {
        (PullPhase::DrainingOut, Some(t)) => (PullPhase::DrainingOut, Some(P4CliResult::Out(t))),
        (PullPhase::DrainingOut, None) => (PullPhase::DrainingErr, None),
        (PullPhase::DrainingErr, Some(t)) => (PullPhase::DrainingErr, Some(P4CliResult::ErrLine(t))),
        (PullPhase::DrainingErr, None) => (PullPhase::Exhausted, None),
        (PullPhase::Exhausted, _) => (PullPhase::Exhausted, None),
    }
}

/// Emits the records of one whole invocation in the order the pull policy
/// yields them when each read blocks until its stream has a line or ends:
/// every standard-output line first, in stream order, then every
/// standard-error line, in stream order — no line dropped, duplicated or
/// changed.
pub fn merge_records(out_lines: &Vec<String>, err_lines: &Vec<String>) -> (r: Vec<P4CliResult>)
    ensures
        r@.len() == out_lines@.len() + err_lines@.len(),
        forall|k: int|
            0 <= k < out_lines@.len() ==> rec_model(#[trigger] r@[k]) == (true, out_lines@[k]@),
        forall|k: int|
            out_lines@.len() <= k < r@.len() ==> rec_model(#[trigger] r@[k]) == (
                false,
                err_lines@[k - out_lines@.len()]@,
            ),
        merged_shape(
            r@,
            out_lines@.map_values(|line: String| line@),
            err_lines@.map_values(|line: String| line@),
        ),
{
    let mut records: Vec<P4CliResult> = Vec::new();
    let mut phase = PullPhase::DrainingOut;
    let mut i: usize = 0;
    let mut j: usize = 0;
    while phase != PullPhase::Exhausted
        invariant
            i <= out_lines@.len(),
            j <= err_lines@.len(),
            phase == PullPhase::DrainingOut ==> j == 0,
            phase == PullPhase::DrainingErr ==> i == out_lines@.len(),
            phase == PullPhase::Exhausted ==> i == out_lines@.len() && j == err_lines@.len(),
            records@.len() == i + j,
            forall|k: int|
                0 <= k < i ==> rec_model(#[trigger] records@[k]) == (true, out_lines@[k]@),
            forall|k: int|
                i <= k < records@.len() ==> rec_model(#[trigger] records@[k]) == (
                    false,
                    err_lines@[k - i]@,
                ),
        decreases (out_lines@.len() - i) + (err_lines@.len() - j) + phase_rank(phase),
    {
        match phase.read_target() {
            Some(ReadTarget::Stdout) => {
                let line = if i < out_lines.len() {
                    let next = out_lines[i].clone();
                    i = i + 1;
                    Some(next)
                } else {
                    None
                };
                let (next_phase, emitted) = step(phase, line);
                phase = next_phase;
                if let Some(rec) = emitted {
                    records.push(rec);
                }
            },
            Some(ReadTarget::Stderr) => {
                let line = if j < err_lines.len() {
                    let next = err_lines[j].clone();
                    j = j + 1;
                    Some(next)
                } else {
                    None
                };
                let (next_phase, emitted) = step(phase, line);
                phase = next_phase;
                if let Some(rec) = emitted {
                    records.push(rec);
                }
            },
            None => {
                proof {
                    assert(false);
                }
            },
        }
    }
    records
}

/// Collects every record of one finished invocation from the captured whole
/// contents of its two streams: splits each stream into lines, decodes them,
/// and merges them under the stdout-biased pull policy. Succeeds exactly
/// when every line of both streams is valid UTF-8.
pub fn collect_records(out_content: &Vec<u8>, err_content: &Vec<u8>) -> (r: Result<
    Vec<P4CliResult>,
    P4CliError,
>)
    ensures
        match r {
            Ok(records) => {
                &&& records@.len() == spec_lines(out_content@).len() + spec_lines(
                    err_content@,
                ).len()
                &&& forall|k: int|
                    0 <= k < spec_lines(out_content@).len() ==> (#[trigger] records@[k]).is_out_spec()
                        && utf8_decoded(spec_lines(out_content@)[k]) == Some(
                        records@[k].text_spec(),
                    )
                &&& forall|k: int|
                    spec_lines(out_content@).len() <= k < records@.len() ==> !(
                    #[trigger] records@[k]).is_out_spec() && utf8_decoded(
                        spec_lines(err_content@)[k - spec_lines(out_content@).len()],
                    ) == Some(records@[k].text_spec())
            },
            Err(e) => {
                &&& e == P4CliError::InvalidEncoding
                &&& ((exists|k: int|
                    0 <= k < spec_lines(out_content@).len() && utf8_decoded(
                        #[trigger] spec_lines(out_content@)[k],
                    ) is None) || (exists|k: int|
                    0 <= k < spec_lines(err_content@).len() && utf8_decoded(
                        #[trigger] spec_lines(err_content@)[k],
                    ) is None))
            },
        },
{
    let out_lines = match decode_lines(out_content) {
        Ok(lines) => lines,
        Err(e) => {
            return Err(e);
        },
    };
    let err_lines = match decode_lines(err_content) {
        Ok(lines) => lines,
        Err(e) => {
            return Err(e);
        },
    };
    Ok(merge_records(&out_lines, &err_lines))
}

} // verus!
