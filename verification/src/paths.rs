//! Where the programs, the models and the temporary files lie.

use crate::text::{
    chars_of, decimal, decimal_string, ends_with, has_suffix, is_digit, lemma_decimal,
    lemma_decimal_injective, optional_str,
};
use vstd::prelude::*;
use vstd::string::StringExecFns;

verus! {

/// A relative path below a directory: the two are joined by a slash,
/// unless the directory is empty or ends with one.
pub open spec fn joined(base: Seq<char>, relative: Seq<char>) -> Seq<char> {
    if base.len() == 0 || base.last() == '/' {
        base + relative
    } else {
        base + "/"@ + relative
    }
}

/// Joins the relative path `relative` to the directory `base`.
pub fn join_path(base: &str, relative: &str) -> (path: String)
    ensures
        path@ == joined(base@, relative@),
{
    let chars = chars_of(base);
    let mut path = base.to_owned();
    if chars.len() > 0 && chars[chars.len() - 1] != '/' {
        path.append("/");
    }
    path.append(relative);
    path
}

/// What lies at `relative` below the home directory, or `bare` where
/// there is no home directory.
pub open spec fn below_home(home: Option<Seq<char>>, relative: Seq<char>, bare: Seq<char>) -> Seq<
    char,
> {
    match home {
        Some(directory) => joined(directory, relative),
        None => bare,
    }
}

/// The path at `relative` below the home directory, or `bare` where there
/// is none.
pub fn path_below_home(home: Option<&str>, relative: &str, bare: &str) -> (path: String)
    ensures
        path@ == below_home(optional_str(home), relative@, bare@),
{
    match home {
        Some(directory) => join_path(directory, relative),
        None => bare.to_owned(),
    }
}

/// The voice model that the subprocess synthesizer loads: the voice
/// itself where it names a model file, and the default model otherwise.
pub open spec fn model_of(voice: Seq<char>, home: Option<Seq<char>>) -> Seq<char> {
    if ends_with(voice, ".onnx"@) {
        voice
    } else {
        below_home(
            home,
            ".local/share/piper-voices/en_US-lessac-high.onnx"@,
            "en_US-lessac-high.onnx"@,
        )
    }
}

/// The voice model that the subprocess synthesizer loads for `voice`.
pub fn piper_model(voice: &str, home: Option<&str>) -> (model: String)
    ensures
        model@ == model_of(voice@, optional_str(home)),
{
    if has_suffix(voice, ".onnx") {
        voice.to_owned()
    } else {
        path_below_home(
            home,
            ".local/share/piper-voices/en_US-lessac-high.onnx",
            "en_US-lessac-high.onnx",
        )
    }
}

/// The path of a temporary file: it holds the kind of the file, the
/// number of the process and the time in nanoseconds, so that no two
/// requests of one process get the same path.
pub open spec fn stamped(kind: Seq<char>, process: u32, nanos: u128, extension: Seq<char>) -> Seq<
    char,
> {
    "/tmp/opencode-talk-"@ + kind + "-"@ + decimal(process as nat) + "-"@ + decimal(nanos as nat)
        + "."@ + extension
}

/// The path of the temporary file of `kind` and `extension` for the
/// process `process` at the time `nanos`.
pub fn stamped_path(kind: &str, process: u32, nanos: u128, extension: &str) -> (path: String)
    ensures
        path@ == stamped(kind@, process, nanos, extension@),
{
    let mut path = String::from_str("/tmp/opencode-talk-");
    path.append(kind);
    path.append("-");
    let number = decimal_string(process as u128);
    path.append(number.as_str());
    path.append("-");
    let stamp = decimal_string(nanos);
    path.append(stamp.as_str());
    path.append(".");
    path.append(extension);
    path
}

/// Temporary files do not collide: two paths of one kind are the same
/// only for the same process at the same time.
pub proof fn lemma_stamped_paths_differ(
    kind: Seq<char>,
    process: u32,
    nanos: u128,
    other_process: u32,
    other_nanos: u128,
    extension: Seq<char>,
)
    requires
        stamped(kind, process, nanos, extension) == stamped(
            kind,
            other_process,
            other_nanos,
            extension,
        ),
    ensures
        process == other_process,
        nanos == other_nanos,
{
    reveal_strlit("-");
    let dash = "-"@;
    let head = "/tmp/opencode-talk-"@ + kind + dash;
    let tail = "."@ + extension;
    let p1 = decimal(process as nat);
    let n1 = decimal(nanos as nat);
    let p2 = decimal(other_process as nat);
    let n2 = decimal(other_nanos as nat);
    let mid1 = p1 + dash + n1;
    let mid2 = p2 + dash + n2;
    let whole1 = stamped(kind, process, nanos, extension);
    let whole2 = stamped(kind, other_process, other_nanos, extension);
    assert(whole1 =~= head + mid1 + tail);
    assert(whole2 =~= head + mid2 + tail);
    assert(mid1 =~= whole1.subrange(head.len() as int, whole1.len() - tail.len()));
    assert(mid2 =~= whole2.subrange(head.len() as int, whole2.len() - tail.len()));
    assert(mid1 == mid2);
    lemma_decimal(process as nat);
    lemma_decimal(nanos as nat);
    lemma_decimal(other_process as nat);
    lemma_decimal(other_nanos as nat);
    assert(!is_digit('-'));
    assert(mid1[p1.len() as int] == '-');
    assert(mid2[p2.len() as int] == '-');
    if p1.len() < p2.len() {
        assert(mid2[p1.len() as int] == p2[p1.len() as int]);
        assert(false);
    }
    if p2.len() < p1.len() {
        assert(mid1[p2.len() as int] == p1[p2.len() as int]);
        assert(false);
    }
    assert(p1 =~= mid1.subrange(0, p1.len() as int));
    assert(p2 =~= mid2.subrange(0, p2.len() as int));
    assert(n1 =~= mid1.subrange(p1.len() as int + 1, mid1.len() as int));
    assert(n2 =~= mid2.subrange(p2.len() as int + 1, mid2.len() as int));
    lemma_decimal_injective(process as nat, other_process as nat);
    lemma_decimal_injective(nanos as nat, other_nanos as nat);
}

/// The path of the one temporary file that a process uses for a single
/// utterance.
pub open spec fn single(process: u32, extension: Seq<char>) -> Seq<char> {
    "/tmp/opencode-talk-"@ + decimal(process as nat) + "."@ + extension
}

/// The path of the temporary file of a single utterance.
pub fn single_path(process: u32, extension: &str) -> (path: String)
    ensures
        path@ == single(process, extension@),
{
    let mut path = String::from_str("/tmp/opencode-talk-");
    let number = decimal_string(process as u128);
    path.append(number.as_str());
    path.append(".");
    path.append(extension);
    path
}

/// Where the application `name` is installed.
pub open spec fn application_of(name: Seq<char>) -> Seq<char> {
    "/Applications/"@ + name + ".app"@
}

/// The path at which the application `name` is installed.
pub fn application_path(name: &str) -> (path: String)
    ensures
        path@ == application_of(name@),
{
    let mut path = String::from_str("/Applications/");
    path.append(name);
    path.append(".app");
    path
}

/// Which script starts the warm server.
#[derive(Clone, Copy, Debug, PartialEq, Eq, Structural)]
pub enum ServerScript {
    /// The one bundled with the application.
    Bundled,
    /// The one of the working directory.
    Local,
    /// The one of the source tree.
    SourceTree,
}

/// The script that starts the warm server: the bundled one where it
/// exists, else the local one where that exists, else that of the source
/// tree.
pub fn choose_server_script(bundled_exists: bool, local_exists: bool) -> (script: ServerScript)
    ensures
        script == if bundled_exists {
            ServerScript::Bundled
        } else if local_exists {
            ServerScript::Local
        } else {
            ServerScript::SourceTree
        },
{
    if bundled_exists {
        ServerScript::Bundled
    } else if local_exists {
        ServerScript::Local
    } else {
        ServerScript::SourceTree
    }
}

} // verus!
