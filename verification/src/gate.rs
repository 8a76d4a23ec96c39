use vstd::prelude::*;

use crate::errors::TotpError;
use crate::text::str_eq;
use crate::totp::{code_result_view, get_totp_code, totp_code_outcome, TotpConfig};

verus! {

/// The two challenge kinds a caller can choose between.
#[derive(Clone, Copy, Debug, PartialEq, Eq)]
pub enum ChallengeKind {
    TimeCode,
    StaticQuestion,
}

/// Why one gate run ended as it did.
#[derive(Clone, Copy, Debug, PartialEq, Eq)]
pub enum GateReason {
    /// The response matched the challenge's expected answer.
    CorrectResponse,
    /// The response did not match.
    WrongResponse,
    /// The time-code branch was chosen but no shared secret is configured.
    MissingSecret,
    /// The current time-based code could not be computed.
    CodeUnavailable,
    /// The selection named neither challenge kind.
    InvalidSelection,
}

/// The terminal state of one gate run: whether it passed, the branch taken,
/// and the reason.  A failed outcome must keep the caller from ever starting
/// a decryption attempt.
#[derive(Clone, Copy, Debug, PartialEq, Eq)]
pub struct GateOutcome {
    pub passed: bool,
    pub branch: Option<ChallengeKind>,
    pub reason: GateReason,
}

/// The fixed question of the static branch.
pub open spec fn static_question_text() -> Seq<char> {
    "What is the capital city of China?"@
}

/// The fixed, case-sensitive answer of the static branch.
pub open spec fn static_answer_text() -> Seq<char> {
    "Beijing"@
}

/// Which challenge a selection names: "1" the time code, "2" the static
/// question, anything else nothing.
pub open spec fn selection_of(selection: Seq<char>) -> Option<ChallengeKind> {
    if selection == "1"@ {
        Some(ChallengeKind::TimeCode)
    } else if selection == "2"@ {
        Some(ChallengeKind::StaticQuestion)
    } else {
        None
    }
}

/// One gate run's outcome as a function of the selection, the response, and the
/// time-code material.  The material is what the caller could supply: nothing
/// when no shared secret is configured, a failed computation, or the current
/// code.  Exactly the matching response passes; every other path fails with
/// its reason, and the static branch never looks at the material.
pub open spec fn gate_spec(
    selection: Seq<char>,
    response: Seq<char>,
    code: Option<Result<Seq<char>, TotpError>>,
) -> GateOutcome {
    match selection_of(selection) {
        None => GateOutcome { passed: false, branch: None, reason: GateReason::InvalidSelection },
        Some(ChallengeKind::StaticQuestion) => if response == static_answer_text() {
            GateOutcome {
                passed: true,
                branch: Some(ChallengeKind::StaticQuestion),
                reason: GateReason::CorrectResponse,
            }
        } else {
            GateOutcome {
                passed: false,
                branch: Some(ChallengeKind::StaticQuestion),
                reason: GateReason::WrongResponse,
            }
        },
        Some(ChallengeKind::TimeCode) => match code {
            None => GateOutcome {
                passed: false,
                branch: Some(ChallengeKind::TimeCode),
                reason: GateReason::MissingSecret,
            },
            Some(Err(_)) => GateOutcome {
                passed: false,
                branch: Some(ChallengeKind::TimeCode),
                reason: GateReason::CodeUnavailable,
            },
            Some(Ok(c)) => if response == c {
                GateOutcome {
                    passed: true,
                    branch: Some(ChallengeKind::TimeCode),
                    reason: GateReason::CorrectResponse,
                }
            } else {
                GateOutcome {
                    passed: false,
                    branch: Some(ChallengeKind::TimeCode),
                    reason: GateReason::WrongResponse,
                }
            },
        },
    }
}

/// The time-code material a caller hands to `decide_gate`, at the spec level.
pub open spec fn code_input_view(code: Option<Result<String, TotpError>>) -> Option<
    Result<Seq<char>, TotpError>,
> {
    match code {
        None => None,
        Some(Ok(s)) => Some(Ok(s@)),
        Some(Err(e)) => Some(Err(e)),
    }
}

/// Parses the caller's challenge selection.
pub fn parse_selection(selection: &str) -> (r: Option<ChallengeKind>)
    ensures
        r == selection_of(selection@),
{
    if str_eq(selection, "1") {
        Some(ChallengeKind::TimeCode)
    } else if str_eq(selection, "2") {
        Some(ChallengeKind::StaticQuestion)
    } else {
        None
    }
}

/// The static branch's fixed question, for display.
pub fn static_question() -> (r: &'static str)
    ensures
        r@ == static_question_text(),
{
    "What is the capital city of China?"
}

/// Whether a response answers the static question; exact, case-sensitive
/// string equality.
pub fn answer_static(response: &str) -> (r: bool)
    ensures
        r == (response@ == static_answer_text()),
{
    str_eq(response, "Beijing")
}

/// Whether a response equals the current time-based code; exact string
/// equality at the moment of comparison, with no skew window.
pub fn answer_timecode(response: &str, code: &str) -> (r: bool)
    ensures
        r == (response@ == code@),
{
    str_eq(response, code)
}

/// Decides one gate run from already-collected values: the selection, the
/// response, and the time-code material (nothing when no shared secret is
/// configured).  Returns exactly `gate_spec` of the three.
pub fn decide_gate(selection: &str, response: &str, code: &Option<Result<String, TotpError>>) -> (r:
    GateOutcome)
    ensures
        r == gate_spec(selection@, response@, code_input_view(*code)),
{
    match parse_selection(selection) {
        None => GateOutcome { passed: false, branch: None, reason: GateReason::InvalidSelection },
        Some(ChallengeKind::StaticQuestion) => {
            if answer_static(response) {
                GateOutcome {
                    passed: true,
                    branch: Some(ChallengeKind::StaticQuestion),
                    reason: GateReason::CorrectResponse,
                }
            } else {
                GateOutcome {
                    passed: false,
                    branch: Some(ChallengeKind::StaticQuestion),
                    reason: GateReason::WrongResponse,
                }
            }
        },
        Some(ChallengeKind::TimeCode) => match code {
            None => GateOutcome {
                passed: false,
                branch: Some(ChallengeKind::TimeCode),
                reason: GateReason::MissingSecret,
            },
            Some(Err(_)) => GateOutcome {
                passed: false,
                branch: Some(ChallengeKind::TimeCode),
                reason: GateReason::CodeUnavailable,
            },
            Some(Ok(c)) => {
                if answer_timecode(response, c.as_str()) {
                    GateOutcome {
                        passed: true,
                        branch: Some(ChallengeKind::TimeCode),
                        reason: GateReason::CorrectResponse,
                    }
                } else {
                    GateOutcome {
                        passed: false,
                        branch: Some(ChallengeKind::TimeCode),
                        reason: GateReason::WrongResponse,
                    }
                }
            },
        },
    }
}

/// Runs the whole gate: picks the branch from the selection, computes the
/// current time-based code when the time-code branch was chosen and a
/// configuration is at hand, and decides.  `config` carries the shared secret
/// and its parameters; nothing there means no secret is configured.  The
/// outcome is `gate_spec` of the inputs and of some time-code material
/// consistent with the configuration; the invalid and static paths and the
/// missing-secret failure are pinned exactly.
pub fn run_gate(selection: &str, response: &str, config: Option<&TotpConfig>) -> (r: GateOutcome)
    ensures
        exists|code: Option<Result<Seq<char>, TotpError>>|
            r == gate_spec(selection@, response@, code) && (match config {
                None => code is None,
                Some(cfg) => code matches Some(m) && totp_code_outcome(*cfg, m),
            }),
        selection_of(selection@) is None ==> r == gate_spec(selection@, response@, None),
        selection_of(selection@) == Some(ChallengeKind::StaticQuestion) ==> r == gate_spec(
            selection@,
            response@,
            None,
        ),
        selection_of(selection@) == Some(ChallengeKind::TimeCode) && config is None ==> r
            == gate_spec(selection@, response@, None),
        selection_of(selection@) == Some(ChallengeKind::TimeCode) && (config matches Some(cfg)
            && crate::totp::base32_secret(cfg.secret@) is None) ==> !r.passed && r.reason
            == GateReason::CodeUnavailable,
{
    match config {
        None => {
            let material: Option<Result<String, TotpError>> = None;
            let out = decide_gate(selection, response, &material);
            proof {
                assert(code_input_view(None) is None);
            }
            out
        },
        Some(cfg) => {
            let code_r = get_totp_code(cfg);
            let ghost m = code_result_view(code_r);
            let material: Option<Result<String, TotpError>> = Some(code_r);
            let out = decide_gate(selection, response, &material);
            proof {
                let cv = code_input_view(material);
                assert(cv == Some(m));
                assert(out == gate_spec(selection@, response@, cv) && (match config {
                    None => cv is None,
                    Some(cfg2) => cv matches Some(mm) && totp_code_outcome(*cfg2, mm),
                }));
                if selection_of(selection@) is None {
                    assert(out == gate_spec(selection@, response@, None));
                }
                if selection_of(selection@) == Some(ChallengeKind::StaticQuestion) {
                    assert(out == gate_spec(selection@, response@, None));
                }
            }
            out
        },
    }
}


} // verus!
