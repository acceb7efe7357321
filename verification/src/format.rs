//! Telling the format of an audio file from its name.

use vstd::prelude::*;
use vstd::string::StrSliceExecFns;
use crate::error::EngineError;

verus! {

/// The formats that the engine plays.
#[derive(Clone, Copy, Debug, PartialEq, Eq, Structural)]
pub enum AudioFormat {
    /// MPEG audio layer III, by the extension `.mp3`.
    Mp3,
    /// RIFF wave, by the extension `.wav`.
    Wav,
}

/// Whether `path` ends in the characters of `suffix`.
pub open spec fn ends_with(path: Seq<char>, suffix: Seq<char>) -> bool {
    &&& suffix.len() <= path.len()
    &&& path.subrange(path.len() - suffix.len(), path.len() as int) == suffix
}

/// The format that a path names: by its last four characters, in lower
/// case, and none for any other ending.
pub open spec fn format_of(path: Seq<char>) -> Result<AudioFormat, EngineError> {
    if ends_with(path, seq!['.', 'm', 'p', '3']) {
        Ok(AudioFormat::Mp3)
    } else if ends_with(path, seq!['.', 'w', 'a', 'v']) {
        Ok(AudioFormat::Wav)
    } else {
        Err(EngineError::UnsupportedFormat)
    }
}

/// Whether `path` ends in a dot and the three characters given.
fn has_extension(path: &str, a: char, b: char, c: char) -> (r: bool)
    ensures
        r == ends_with(path@, seq!['.', a, b, c]),
{
    let n = path.unicode_len();
    if n < 4 {
        return false;
    }
    let found = path.get_char(n - 4) == '.' && path.get_char(n - 3) == a && path.get_char(n - 2)
        == b && path.get_char(n - 1) == c;
    proof {
        let suffix = seq!['.', a, b, c];
        let tail = path@.subrange(n - 4, n as int);
        if found {
            assert(tail =~= suffix);
        } else {
            assert(tail[0] == path@[n - 4]);
            assert(tail[1] == path@[n - 3]);
            assert(tail[2] == path@[n - 2]);
            assert(tail[3] == path@[n - 1]);
            assert(suffix[0] == '.' && suffix[1] == a && suffix[2] == b && suffix[3] == c);
        }
    }
    found
}

/// The format of the file at `path`, by its extension; a path with any
/// other ending is refused before anything is read.
pub fn sniff_format(path: &str) -> (r: Result<AudioFormat, EngineError>)
    ensures
        r == format_of(path@),
{
    if has_extension(path, 'm', 'p', '3') {
        Ok(AudioFormat::Mp3)
    } else if has_extension(path, 'w', 'a', 'v') {
        Ok(AudioFormat::Wav)
    } else {
        Err(EngineError::UnsupportedFormat)
    }
}

} // verus!
