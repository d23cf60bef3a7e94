//! The ways in which opening and playing a file can fail.

use vstd::prelude::*;

verus! {

/// What went wrong between picking a file and hearing it.
#[derive(Clone, Copy, Debug, PartialEq, Eq, Structural)]
pub enum Failure {
    /// The picked file does not carry the `mp3` extension.
    WrongExtension,
    /// The file did not decode into a usable sample buffer.
    Decode,
    /// The audio engine, or the device behind it, could not be brought up.
    Engine,
    /// The mixer refused to add a sub-track for an effect.
    Track,
    /// The engine refused to start the sound.
    Play,
}

impl Failure {
    /// The text shown for this failure.
    pub open spec fn text(self) -> Seq<char> {
        match self {
            Failure::WrongExtension => "Wrong file extension, try again"@,
            Failure::Decode => "Couldn't load sound from file"@,
            Failure::Engine => "Couldn't create Audio Manager"@,
            Failure::Track => "Couldn't create a mixer sub-track with a filter"@,
            Failure::Play => "Couldn't play sound from file"@,
        }
    }

    /// Whether the toolbox gives up on this failure. Only a wrong extension
    /// is survived: it is shown to the user, who may pick another file.
    pub open spec fn fatal(self) -> bool {
        !(self is WrongExtension)
    }

    /// The message for this failure.
    pub fn message(&self) -> (message: String)
        ensures
            message@ == self.text(),
    {
        match self {
            Failure::WrongExtension => "Wrong file extension, try again".to_owned(),
            Failure::Decode => "Couldn't load sound from file".to_owned(),
            Failure::Engine => "Couldn't create Audio Manager".to_owned(),
            Failure::Track => "Couldn't create a mixer sub-track with a filter".to_owned(),
            Failure::Play => "Couldn't play sound from file".to_owned(),
        }
    }

    /// Tells whether the toolbox gives up on this failure.
    pub fn is_fatal(&self) -> (fatal: bool)
        ensures
            fatal == self.fatal(),
    {
        match self {
            Failure::WrongExtension => false,
            _ => true,
        }
    }
}

} // verus!
