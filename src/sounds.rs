//! Which sound file plays in which role.

use vstd::prelude::*;

verus! {

/// The sound files of a session.
pub struct SoundFiles {
    /// Played in a loop while the countdown runs.
    pub loop_path: String,
    /// Played once when the countdown reaches zero.
    pub end_path: String,
    /// Whether one file was missing and the other plays in both roles.
    pub substituted: bool,
}

/// Neither sound file was found.
#[derive(Clone, Copy, Debug, PartialEq, Eq, Structural)]
pub struct NoSoundFiles;

/// Assigns the found files to their roles. With both missing there is no
/// session; with one missing the other serves in both roles.
pub fn select_sounds(loop_file: Option<String>, end_file: Option<String>) -> (r: Result<
    SoundFiles,
    NoSoundFiles,
>)
    ensures
        r is Err == (loop_file is None && end_file is None),
        r matches Ok(f) ==> {
            &&& f.loop_path@ == (if loop_file is Some {
                loop_file->0@
            } else {
                end_file->0@
            })
            &&& f.end_path@ == (if end_file is Some {
                end_file->0@
            } else {
                loop_file->0@
            })
            &&& f.substituted == (loop_file is None || end_file is None)
        },
{
    match (loop_file, end_file) {
        (Some(l), Some(e)) => Ok(SoundFiles { loop_path: l, end_path: e, substituted: false }),
        (Some(l), None) => {
            let e = l.clone();
            Ok(SoundFiles { loop_path: l, end_path: e, substituted: true })
        },
        (None, Some(e)) => {
            let l = e.clone();
            Ok(SoundFiles { loop_path: l, end_path: e, substituted: true })
        },
        (None, None) => Err(NoSoundFiles),
    }
}

} // verus!
