//! Names of the files that captures are written to.

use vstd::prelude::*;
use vstd::string::StringExecFns;

verus! {

/// What every capture's file name begins with.
pub open spec fn name_prefix() -> Seq<char> {
    seq!['C', 'A', 'P', '_']
}

/// The file name of a capture taken at `timestamp`, with extension
/// `extension`: `CAP_`, the timestamp, a dot, the extension.
pub open spec fn file_name(timestamp: Seq<char>, extension: Seq<char>) -> Seq<char> {
    name_prefix() + timestamp + seq!['.'] + extension
}

/// Builds the file name of a capture from its timestamp and extension.
pub fn timestamped_filename(timestamp: &str, extension: &str) -> (name: String)
    ensures
        name@ == file_name(timestamp@, extension@),
{
    proof {
        reveal_strlit("CAP_");
        reveal_strlit(".");
    }
    let mut name = String::from_str("CAP_");
    assert(name@ =~= name_prefix());
    name.append(timestamp);
    name.append(".");
    name.append(extension);
    assert(name@ =~= file_name(timestamp@, extension@));
    name
}

} // verus!
