//! Taking in what the staleness tool wrote, or why it did not run.

use vstd::prelude::*;
use vstd::string::StrSliceExecFns;
use vstd::utf8::encode_utf8;

verus! {

/// What the staleness tool is taken to have written to its output and error streams.
///
/// Where the tool ran, that is what it wrote. Where it could not be
/// started, the reason stands in place of its output, and the error stream is
/// empty.
pub fn tool_output(launched: Result<(Vec<u8>, Vec<u8>), String>) -> (streams: (
    Vec<u8>,
    Vec<u8>,
))
    ensures
        match launched {
            Ok(written) => streams.0@ == written.0@ && streams.1@ == written.1@,
            Err(reason) => streams.0@ == encode_utf8(reason@) && streams.1@.len() == 0,
        },
{
    match launched {
        Ok(written) => written,
        Err(reason) => (reason.as_str().as_bytes_vec(), Vec::new()),
    }
}

} // verus!
