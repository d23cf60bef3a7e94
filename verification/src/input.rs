//! The one rule on the file a user picks: its extension is `mp3`.

use vstd::prelude::*;
use crate::failure::Failure;

verus! {

/// The bytes of the extension that is accepted: `mp3` in ASCII.
pub open spec fn mp3_extension() -> Seq<u8> {
    seq![0x6du8, 0x70u8, 0x33u8]
}

/// Whether a file with this extension is let through. A file without an
/// extension is not, and neither is one whose extension differs from `mp3`
/// in any byte, upper case included.
pub open spec fn accepted(extension: Option<&[u8]>) -> bool {
    extension matches Some(bytes) && bytes@ == mp3_extension()
}

/// Screens a picked file by its extension, before anything is read from it.
///
/// `extension` is what follows the last dot of the file's name, as the
/// platform's path type reports it, or `None` where the name has none.
/// Every extension but `mp3` is turned away with
/// [`Failure::WrongExtension`].
pub fn check_extension(extension: Option<&[u8]>) -> (verdict: Result<(), Failure>)
    ensures
        accepted(extension) ==> verdict == Ok::<(), Failure>(()),
        !accepted(extension) ==> verdict == Err::<(), Failure>(Failure::WrongExtension),
{
    match extension {
        Some(bytes) => {
            if bytes.len() == 3 && bytes[0] == 0x6d && bytes[1] == 0x70 && bytes[2] == 0x33 {
                assert(bytes@ =~= mp3_extension());
                Ok(())
            } else {
                Err(Failure::WrongExtension)
            }
        },
        None => Err(Failure::WrongExtension),
    }
}

} // verus!
