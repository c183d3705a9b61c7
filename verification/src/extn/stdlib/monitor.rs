//! `Monitor`: the class, and the source file that implements it.

use vstd::prelude::*;
use vstd::string::StrSliceExecFns;
use vstd::utf8::encode_utf8;
use crate::def::Kind;
use crate::error::ArtichokeError;
use crate::fs::{define_source_spec, load_path, resolve_spec};
use crate::state::State;

verus! {

/// The class `Monitor`.
pub struct Monitor;

/// Registers the class `Monitor`, and the source text of the library as the
/// file `monitor.rb` in the load path.
///
/// The class is registered in any case. The call fails where another source
/// text is registered under the path.
pub fn init(interp: &mut State, source: &str) -> (result: Result<(), ArtichokeError>)
    ensures
        final(interp)@.specs == old(interp)@.define("Monitor"@, Kind::Class).specs,
        final(interp)@.contexts == old(interp)@.contexts,
        final(interp)@.progress == old(interp)@.progress,
        match define_source_spec(
            old(interp)@.files,
            resolve_spec(load_path(), "monitor.rb"@),
            encode_utf8(source@),
        ) {
            Ok(files) => result is Ok && final(interp)@.files == files,
            Err(failure) => result matches Err(error) && error@ == failure && final(interp)@.files
                == old(interp)@.files,
        },
{
    interp.def_class("Monitor");
    interp.def_rb_source_file("monitor.rb", source.as_bytes_vec())
}

} // verus!
