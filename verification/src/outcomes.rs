//! The outcome words of the wire, and what they map to.

use vstd::prelude::*;
use crate::engine::model::Outcome;
use crate::sdk::{Level, MeasurementOutcome};
use crate::text::same;

verus! {

pub const ABORTED: &'static str = "ABORTED";

pub const ERROR: &'static str = "ERROR";

pub const FAIL: &'static str = "FAIL";

pub const PASS: &'static str = "PASS";

pub const RETRY: &'static str = "RETRY";

pub const SKIP: &'static str = "SKIP";

pub const STOP: &'static str = "STOP";

pub const TIMEOUT: &'static str = "TIMEOUT";

pub const XFAIL: &'static str = "XFAIL";

pub const XPASS: &'static str = "XPASS";

/// The verdict of a validator word; anything but a pass or a fail is unset.
pub open spec fn wire_verdict(s: Seq<char>) -> MeasurementOutcome {
    if s == PASS@ {
        MeasurementOutcome::Pass
    } else if s == FAIL@ {
        MeasurementOutcome::Fail
    } else {
        MeasurementOutcome::Unset
    }
}

/// Reads the verdict of a validator word.
pub fn validator_outcome_from_wire(s: &str) -> (outcome: MeasurementOutcome)
    ensures
        outcome == wire_verdict(s@),
{
    if same(s, PASS) {
        MeasurementOutcome::Pass
    } else if same(s, FAIL) {
        MeasurementOutcome::Fail
    } else {
        MeasurementOutcome::Unset
    }
}

/// The wire word of an engine outcome.
pub open spec fn outcome_word(outcome: Outcome) -> Seq<char> {
    match outcome {
        Outcome::Pass => PASS@,
        Outcome::Fail => FAIL@,
        Outcome::Error => ERROR@,
        Outcome::Timeout => TIMEOUT@,
        Outcome::Stop => STOP@,
        Outcome::Skip => SKIP@,
        Outcome::Retry => RETRY@,
    }
}

/// The wire word of an engine outcome.
pub fn from_execution_outcome(outcome: Outcome) -> (word: &'static str)
    ensures
        word@ == outcome_word(outcome),
{
    match outcome {
        Outcome::Pass => PASS,
        Outcome::Fail => FAIL,
        Outcome::Error => ERROR,
        Outcome::Timeout => TIMEOUT,
        Outcome::Stop => STOP,
        Outcome::Skip => SKIP,
        Outcome::Retry => RETRY,
    }
}

/// The run outcome that an exit code stands for: zero is a pass, five an
/// error (no tests were collected), 129 to 192 (128 and a signal) an abort,
/// anything else a fail.
pub open spec fn exit_code_word(code: i32) -> Seq<char> {
    if code == 0 {
        PASS@
    } else if code == 5 {
        ERROR@
    } else if 129 <= code <= 192 {
        ABORTED@
    } else {
        FAIL@
    }
}

/// The run outcome that an exit code stands for.
pub fn from_exit_code(code: i32) -> (word: &'static str)
    ensures
        word@ == exit_code_word(code),
{
    match code {
        0 => PASS,
        5 => ERROR,
        129..=192 => ABORTED,
        _ => FAIL,
    }
}

/// The severity of a level word; an unknown word is information.
pub open spec fn level_of(s: Seq<char>) -> Level {
    if s == "DEBUG"@ {
        Level::Debug
    } else if s == "WARNING"@ {
        Level::Warning
    } else if s == "ERROR"@ {
        Level::Error
    } else if s == "CRITICAL"@ {
        Level::Critical
    } else {
        Level::Info
    }
}

/// Reads the severity of a level word.
pub fn parse_log_level(s: &str) -> (level: Level)
    ensures
        level == level_of(s@),
{
    if same(s, "DEBUG") {
        Level::Debug
    } else if same(s, "WARNING") {
        Level::Warning
    } else if same(s, "ERROR") {
        Level::Error
    } else if same(s, "CRITICAL") {
        Level::Critical
    } else {
        Level::Info
    }
}

/// The words of the engine outcomes are all different.
pub proof fn law_outcome_words_differ(a: Outcome, b: Outcome)
    ensures
        outcome_word(a) == outcome_word(b) ==> a == b,
{
    reveal_strlit("PASS");
    reveal_strlit("FAIL");
    reveal_strlit("ERROR");
    reveal_strlit("TIMEOUT");
    reveal_strlit("STOP");
    reveal_strlit("SKIP");
    reveal_strlit("RETRY");
    assert(PASS@[0] == 'P' && FAIL@[0] == 'F' && ERROR@[0] == 'E' && TIMEOUT@[0] == 'T');
    assert(STOP@[1] == 'T' && SKIP@[1] == 'K' && RETRY@[0] == 'R' && STOP@[0] == 'S' && SKIP@[0]
        == 'S');
}

/// An exit code counts as a pass only where it is zero.
pub proof fn law_only_zero_passes(code: i32)
    ensures
        exit_code_word(code) == PASS@ <==> code == 0,
{
    reveal_strlit("PASS");
    reveal_strlit("ERROR");
    reveal_strlit("ABORTED");
    reveal_strlit("FAIL");
    assert(PASS@[0] == 'P' && FAIL@[0] == 'F' && ERROR@[0] == 'E' && ABORTED@[0] == 'A');
}

/// Whether a word says an outcome of the engine.
pub open spec fn says_outcome(word: Seq<char>, outcome: Outcome) -> bool {
    &&& word == "PASS"@ <==> outcome is Pass
    &&& word == "FAIL"@ <==> outcome is Fail
    &&& word == "ERROR"@ <==> outcome is Error
    &&& word == "TIMEOUT"@ <==> outcome is Timeout
    &&& word == "STOP"@ <==> outcome is Stop
    &&& word == "SKIP"@ <==> outcome is Skip
    &&& word == "RETRY"@ <==> outcome is Retry
}

/// An outcome of the engine is told by its word.
pub proof fn law_outcomes_are_said(outcome: Outcome)
    ensures
        says_outcome(outcome_word(outcome), outcome),
{
    law_outcome_words_differ(outcome, Outcome::Pass);
    law_outcome_words_differ(outcome, Outcome::Fail);
    law_outcome_words_differ(outcome, Outcome::Error);
    law_outcome_words_differ(outcome, Outcome::Timeout);
    law_outcome_words_differ(outcome, Outcome::Stop);
    law_outcome_words_differ(outcome, Outcome::Skip);
    law_outcome_words_differ(outcome, Outcome::Retry);
}

/// An exit code of zero is a pass; five, where no tests were found, an error;
/// one that tells of a signal an abort; any other a failure.
pub proof fn law_exit_codes_are_said(code: i32)
    ensures
        exit_code_word(code) == "PASS"@ <==> code == 0,
        exit_code_word(code) == "ERROR"@ <==> code == 5,
        exit_code_word(code) == "ABORTED"@ <==> 129 <= code <= 192,
        exit_code_word(code) == "FAIL"@ <==> code != 0 && code != 5 && !(129 <= code <= 192),
{
    reveal_strlit("PASS");
    reveal_strlit("ERROR");
    reveal_strlit("ABORTED");
    reveal_strlit("FAIL");
    assert("PASS"@[0] == 'P' && "FAIL"@[0] == 'F' && "ERROR"@[0] == 'E' && "ABORTED"@[0] == 'A');
}

/// A verdict is a pass or a failure only by its word, and unset by any other.
pub proof fn law_verdict_words_are_read(s: Seq<char>)
    ensures
        wire_verdict(s) is Pass <==> s == "PASS"@,
        wire_verdict(s) is Fail <==> s == "FAIL"@,
        wire_verdict(s) is Unset <==> s != "PASS"@ && s != "FAIL"@,
{
    reveal_strlit("PASS");
    reveal_strlit("FAIL");
    assert("PASS"@[0] == 'P' && "FAIL"@[0] == 'F');
}

/// A level is read by its word; a word that is none is information.
pub proof fn law_level_words_are_read(s: Seq<char>)
    ensures
        level_of(s) is Debug <==> s == "DEBUG"@,
        level_of(s) is Warning <==> s == "WARNING"@,
        level_of(s) is Error <==> s == "ERROR"@,
        level_of(s) is Critical <==> s == "CRITICAL"@,
{
    lemma_level_words();
}

/// The words of the levels are all different.
pub proof fn lemma_level_words()
    ensures
        "DEBUG"@ != "WARNING"@,
        "DEBUG"@ != "ERROR"@,
        "DEBUG"@ != "CRITICAL"@,
        "WARNING"@ != "ERROR"@,
        "WARNING"@ != "CRITICAL"@,
        "ERROR"@ != "CRITICAL"@,
{
    reveal_strlit("DEBUG");
    reveal_strlit("WARNING");
    reveal_strlit("ERROR");
    reveal_strlit("CRITICAL");
    assert("DEBUG"@[0] == 'D' && "WARNING"@[0] == 'W' && "ERROR"@[0] == 'E' && "CRITICAL"@[0]
        == 'C');
}

} // verus!
