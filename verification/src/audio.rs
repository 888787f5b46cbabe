//! Playing single audio files and listing the voices of the system.

use crate::text::{first_word_of_each_line, first_words, texts};
use vstd::prelude::*;
use vstd::string::StringExecFns;

verus! {

/// A handle on one playback. It holds nothing yet.
#[derive(Debug)]
pub struct AudioHandle {}

/// Where the sound `name` lies in the given form.
pub open spec fn system_sound_file(name: Seq<char>, extension: Seq<char>) -> Seq<char> {
    "/System/Library/Sounds/"@ + name + "."@ + extension
}

/// The path of the system sound to play: the `aiff` file where it exists,
/// else the `wav` file where that exists, else the `aiff` file all the
/// same.
pub open spec fn system_sound_choice(name: Seq<char>, aiff_exists: bool, wav_exists: bool) -> Seq<
    char,
> {
    if !aiff_exists && wav_exists {
        system_sound_file(name, "wav"@)
    } else {
        system_sound_file(name, "aiff"@)
    }
}

/// The path at which the system sound `name` would lie with `extension`.
pub fn system_sound_path(name: &str, extension: &str) -> (path: String)
    ensures
        path@ == system_sound_file(name@, extension@),
{
    let mut path = String::from_str("/System/Library/Sounds/");
    path.append(name);
    path.append(".");
    path.append(extension);
    path
}

/// Chooses the file to play for the system sound `name`, given which of
/// its two forms exist.
pub fn choose_system_sound(name: &str, aiff_exists: bool, wav_exists: bool) -> (path: String)
    ensures
        path@ == system_sound_choice(name@, aiff_exists, wav_exists),
{
    if !aiff_exists && wav_exists {
        system_sound_path(name, "wav")
    } else {
        system_sound_path(name, "aiff")
    }
}

/// The result of playing a file with the system's player: a failure where
/// the player did not end with success.
pub open spec fn playback_result(succeeded: bool) -> Result<(), Seq<char>> {
    if succeeded {
        Ok(())
    } else {
        Err("Audio playback failed"@)
    }
}

/// Judges a playback by the way the player ended.
pub fn playback_outcome(succeeded: bool) -> (outcome: Result<(), String>)
    ensures
        outcome is Ok <==> succeeded,
        outcome matches Err(reason) ==> playback_result(succeeded) == Err::<(), Seq<char>>(
            reason@,
        ),
{
    if succeeded {
        Ok(())
    } else {
        Err(String::from_str("Audio playback failed"))
    }
}

/// The names of the voices in the listing that the system's synthesizer
/// prints: the first word of each line that has one.
pub fn parse_voice_list(listing: &str) -> (voices: Vec<String>)
    ensures
        texts(voices@) == first_words(listing@),
{
    first_word_of_each_line(listing)
}

} // verus!
