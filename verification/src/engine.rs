//! The closed set of synthesis engines and how a name selects one.

use crate::error::{ErrorView, TtsError};
use crate::json::{json_text_at, lookup_view, read_text_member};
use crate::text::{decimal, decimal_string, outcome_view};
use vstd::prelude::*;
use vstd::string::StringExecFns;

verus! {

/// A text-to-speech backend.
#[derive(Clone, Copy, Debug, PartialEq, Eq, Structural)]
pub enum Engine {
    /// Locally installed neural synthesizer, run as a subprocess.
    Piper,
    /// Warm HTTP synthesis server, with the subprocess synthesizer behind it.
    Kokoro,
    /// Native voice synthesizer of the operating system.
    Macos,
    /// Cloud neural voice tool.
    Edge,
}

/// Whether two strings hold the same text.
pub fn same_text(a: &str, b: &str) -> (same: bool)
    ensures
        same == (a@ == b@),
{
    let x = a.to_owned();
    let y = b.to_owned();
    x == y
}

/// The engine that a name denotes, if any.
pub open spec fn engine_of_name(name: Seq<char>) -> Option<Engine> {
    if name == "macos"@ {
        Some(Engine::Macos)
    } else if name == "piper"@ {
        Some(Engine::Piper)
    } else if name == "kokoro"@ {
        Some(Engine::Kokoro)
    } else if name == "edge"@ {
        Some(Engine::Edge)
    } else {
        None
    }
}

/// The engine that synthesizes a streamed sentence: the subprocess
/// synthesizer where it is asked for by name, the warm server otherwise.
pub open spec fn streaming_engine_of(name: Seq<char>) -> Engine {
    if name == "piper"@ {
        Engine::Piper
    } else {
        Engine::Kokoro
    }
}

/// The engine that synthesizes a streamed sentence for which `name` was
/// asked.
pub fn streaming_engine(name: &str) -> (engine: Engine)
    ensures
        engine == streaming_engine_of(name@),
{
    if same_text(name, "piper") {
        Engine::Piper
    } else {
        Engine::Kokoro
    }
}

/// Looks an engine up by its name; `None` for a name outside the set.
pub fn engine_from_name(name: &str) -> (engine: Option<Engine>)
    ensures
        engine == engine_of_name(name@),
{
    if same_text(name, "macos") {
        Some(Engine::Macos)
    } else if same_text(name, "piper") {
        Some(Engine::Piper)
    } else if same_text(name, "kokoro") {
        Some(Engine::Kokoro)
    } else if same_text(name, "edge") {
        Some(Engine::Edge)
    } else {
        None
    }
}

/// The engine that is tried when `engine` cannot be reached: the
/// subprocess synthesizer stands behind the warm server, and nothing stands
/// behind the others.
pub open spec fn fallback_of(engine: Engine) -> Option<Engine> {
    match engine {
        Engine::Kokoro => Some(Engine::Piper),
        _ => None,
    }
}

/// The engine that is tried when `engine` cannot be reached, if any.
pub fn fallback_engine(engine: Engine) -> (next: Option<Engine>)
    ensures
        next == fallback_of(engine),
{
    match engine {
        Engine::Kokoro => Some(Engine::Piper),
        _ => None,
    }
}

/// What came back from the warm synthesis server.
#[derive(Debug)]
pub enum ServerReply {
    /// No answer: the reason why.
    Unreachable(String),
    /// An answer: its HTTP status and its body.
    Answered(u16, Vec<u8>),
}

/// What a `ServerReply` holds, as plain values.
pub enum ReplyView {
    Unreachable(Seq<char>),
    Answered(u16, Seq<u8>),
}

impl View for ServerReply {
    type V = ReplyView;

    open spec fn view(&self) -> ReplyView {
        match self {
            ServerReply::Unreachable(reason) => ReplyView::Unreachable(reason@),
            ServerReply::Answered(status, body) => ReplyView::Answered(*status, body@),
        }
    }
}

/// What follows from the answer of the warm server.
#[derive(Debug)]
pub enum Verdict {
    /// The server has written the audio file at this path.
    Artifact(String),
    /// The server is of no use: log this message and ask the fallback.
    Fallback(String),
    /// The server answered, and the answer is no use: the request fails.
    Failure(TtsError),
}

/// What a `Verdict` holds, as plain values.
pub enum VerdictView {
    Artifact(Seq<char>),
    Fallback(Seq<char>),
    Failure(ErrorView),
}

impl View for Verdict {
    type V = VerdictView;

    open spec fn view(&self) -> VerdictView {
        match self {
            Verdict::Artifact(path) => VerdictView::Artifact(path@),
            Verdict::Fallback(notice) => VerdictView::Fallback(notice@),
            Verdict::Failure(error) => VerdictView::Failure(error@),
        }
    }
}

/// Whether an HTTP status reports success.
pub open spec fn status_ok(status: u16) -> bool {
    200 <= status < 300
}

/// The path of the audio file that the body of an answer names under
/// `file`, given what was found there.
pub open spec fn artifact_of(found: Result<Option<Seq<char>>, Seq<char>>) -> Result<
    Seq<char>,
    ErrorView,
> {
    match found {
        Ok(Some(path)) => Ok(path),
        Ok(None) => Err(ErrorView::AdapterFailure("Missing file path in response"@)),
        Err(reason) => Err(
            ErrorView::AdapterFailure("Failed to parse Kokoro response: "@ + reason),
        ),
    }
}

/// The notice that is logged when the server could not be reached.
pub open spec fn unreachable_notice(reason: Seq<char>) -> Seq<char> {
    "Kokoro server unavailable ("@ + reason + "), falling back to Piper"@
}

/// The notice that is logged when the server answered without success.
pub open spec fn refused_notice(status: u16) -> Seq<char> {
    "Kokoro server returned "@ + decimal(status as nat) + ", falling back to Piper"@
}

/// What follows from the answer of the warm server: its file where it
/// answered with success and named one, the fallback where it could not be
/// reached or answered without success, and a failure where it answered
/// with success and named no file.
pub open spec fn verdict_of(reply: ReplyView) -> VerdictView {
    match reply {
        ReplyView::Unreachable(reason) => VerdictView::Fallback(unreachable_notice(reason)),
        ReplyView::Answered(status, body) => if status_ok(status) {
            match artifact_of(json_text_at(body, "file"@)) {
                Ok(path) => VerdictView::Artifact(path),
                Err(error) => VerdictView::Failure(error),
            }
        } else {
            VerdictView::Fallback(refused_notice(status))
        },
    }
}

/// The result of a synthesis, as plain values.
pub open spec fn artifact_view(artifact: Result<String, TtsError>) -> Result<Seq<char>, ErrorView> {
    match artifact {
        Ok(path) => Ok(path@),
        Err(error) => Err(error@),
    }
}

/// The path of the audio file that the body of an answer names, given
/// what was found under `file` in it.
pub fn kokoro_artifact(found: Result<Option<String>, String>) -> (artifact: Result<
    String,
    TtsError,
>)
    ensures
        artifact_view(artifact) == artifact_of(lookup_view(found)),
{
    match found {
        Ok(Some(path)) => Ok(path),
        Ok(None) => Err(
            TtsError::AdapterFailure(String::from_str("Missing file path in response")),
        ),
        Err(reason) => {
            let mut text = String::from_str("Failed to parse Kokoro response: ");
            text.append(reason.as_str());
            Err(TtsError::AdapterFailure(text))
        },
    }
}

/// Decides what follows from the answer of the warm server.
pub fn kokoro_verdict(reply: ServerReply) -> (verdict: Verdict)
    ensures
        verdict@ == verdict_of(reply@),
{
    match reply {
        ServerReply::Unreachable(reason) => {
            let mut notice = String::from_str("Kokoro server unavailable (");
            notice.append(reason.as_str());
            notice.append("), falling back to Piper");
            Verdict::Fallback(notice)
        },
        ServerReply::Answered(status, body) => {
            if 200 <= status && status < 300 {
                match kokoro_artifact(read_text_member(body.as_slice(), "file")) {
                    Ok(path) => Verdict::Artifact(path),
                    Err(error) => Verdict::Failure(error),
                }
            } else {
                let mut notice = String::from_str("Kokoro server returned ");
                let number = decimal_string(status as u128);
                notice.append(number.as_str());
                notice.append(", falling back to Piper");
                Verdict::Fallback(notice)
            }
        },
    }
}

/// Fallback. A warm server that cannot be reached, or that answers without
/// success, never fails the request: the verdict is to log a notice and to
/// ask the engine that stands behind it, which exists.
pub proof fn lemma_unreachable_primary_falls_back(reply: ReplyView)
    requires
        reply is Unreachable || !status_ok(reply->Answered_0),
    ensures
        verdict_of(reply) is Fallback,
        fallback_of(Engine::Kokoro) == Some(Engine::Piper),
{
}

/// The speaking rate of the system's synthesizer in words per minute:
/// 175 at the natural rate, in proportion otherwise, rounded down.
pub open spec fn words_per_minute(speed_permille: u32) -> int {
    175 * speed_permille / 1000
}

/// The speaking rate of the system's synthesizer for a speed.
pub fn macos_rate(speed_permille: u32) -> (rate: u32)
    ensures
        rate == words_per_minute(speed_permille),
{
    let wide: u64 = 175 * (speed_permille as u64) / 1000;
    wide as u32
}

/// The rate argument of the cloud voice tool: the change against the
/// natural rate in per cent, rounded towards zero, with its sign.
pub open spec fn rate_change(speed_permille: u32) -> Seq<char> {
    if speed_permille + 9 >= 1000 {
        "+"@ + decimal(
            if speed_permille >= 1000 {
                ((speed_permille - 1000) / 10) as nat
            } else {
                0
            },
        ) + "%"@
    } else {
        "-"@ + decimal(((1000 - speed_permille) / 10) as nat) + "%"@
    }
}

/// The rate argument of the cloud voice tool for a speed.
pub fn edge_rate(speed_permille: u32) -> (rate: String)
    ensures
        rate@ == rate_change(speed_permille),
{
    if speed_permille >= 991 {
        let change: u32 = if speed_permille >= 1000 {
            (speed_permille - 1000) / 10
        } else {
            0
        };
        let mut rate = String::from_str("+");
        let number = decimal_string(change as u128);
        rate.append(number.as_str());
        rate.append("%");
        rate
    } else {
        let change: u32 = (1000 - speed_permille) / 10;
        let mut rate = String::from_str("-");
        let number = decimal_string(change as u128);
        rate.append(number.as_str());
        rate.append("%");
        rate
    }
}

/// The result of a synthesis by a subprocess: the file that it was told to
/// write where it ended with success, and a failure with `label` and what
/// the process printed otherwise.
pub open spec fn process_outcome(
    succeeded: bool,
    path: Seq<char>,
    label: Seq<char>,
    printed: Seq<char>,
) -> Result<Seq<char>, Seq<char>> {
    if succeeded {
        Ok(path)
    } else {
        Err(label + " failed: "@ + printed)
    }
}

/// Judges a synthesis by a subprocess by the way it ended.
pub fn synthesis_outcome(succeeded: bool, path: &str, label: &str, printed: &str) -> (outcome:
    Result<String, String>)
    ensures
        outcome_view(outcome) == process_outcome(
            succeeded,
            path@,
            label@,
            printed@,
        ),
{
    if succeeded {
        Ok(path.to_owned())
    } else {
        let mut reason = label.to_owned();
        reason.append(" failed: ");
        reason.append(printed);
        Err(reason)
    }
}

} // verus!

