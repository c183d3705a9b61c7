//! `StringScanner`: the module, and the source file that implements it.

use vstd::prelude::*;
use vstd::string::StrSliceExecFns;
use vstd::utf8::encode_utf8;
use crate::def::Kind;
use crate::error::ArtichokeError;
use crate::fs::{define_source_spec, load_path, resolve_spec};
use crate::state::State;

verus! {

/// The module `StringScanner`.
pub struct StringScanner;

/// Registers the module `StringScanner`, and the source text of the library
/// as the file `strscan.rb` in the load path.
///
/// The module is registered in any case. The call fails where another
/// source text is registered under the path.
pub fn init(interp: &mut State, source: &str) -> (result: Result<(), ArtichokeError>)
    ensures
        final(interp)@.specs == old(interp)@.define("StringScanner"@, Kind::Module).specs,
        final(interp)@.contexts == old(interp)@.contexts,
        final(interp)@.progress == old(interp)@.progress,
        match define_source_spec(
            old(interp)@.files,
            resolve_spec(load_path(), "strscan.rb"@),
            encode_utf8(source@),
        ) {
            Ok(files) => result is Ok && final(interp)@.files == files,
            Err(failure) => result matches Err(error) && error@ == failure && final(interp)@.files
                == old(interp)@.files,
        },
{
    interp.def_module("StringScanner");
    interp.def_rb_source_file("strscan.rb", source.as_bytes_vec())
}

} // verus!
