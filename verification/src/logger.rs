//! The log-rotation paths: where yesterday's daily file sits and what it is
//! renamed to when the switch-on-start handoff is configured.  The renaming
//! and the appender setup are I/O outside the library.

use vstd::prelude::*;

use crate::pathinfo::resolved;

verus! {

/// The daily file the appender wrote: `{dir}/{name}.{date}`.
pub open spec fn dated_log_of(dir: Seq<char>, name: Seq<char>, date: Seq<char>) -> Seq<char> {
    resolved(dir, name + seq!['.'] + date)
}

/// What it is renamed to on switch: `{dir}/{stem}_{now}.{ext}`.
pub open spec fn switched_log_of(dir: Seq<char>, stem: Seq<char>, now: Seq<char>, ext: Seq<char>) -> Seq<char> {
    resolved(dir, stem + seq!['_'] + now + seq!['.'] + ext)
}

/// The rename pair for the switch-on-start handoff: the dated file from the
/// previous run and its archived name carrying the start timestamp.
pub fn switch_paths(dir: &str, name: &str, stem: &str, ext: &str, date: &str, now: &str) -> (r: (
    String,
    String,
))
    ensures
        r.0@ == dated_log_of(dir@, name@, date@),
        r.1@ == switched_log_of(dir@, stem@, now@, ext@),
{
    let mut old_name = name.to_owned();
    old_name.append(".");
    old_name.append(date);
    let old_path = crate::pathinfo::path_resolve(dir, old_name.as_str());

    let mut new_name = stem.to_owned();
    new_name.append("_");
    new_name.append(now);
    new_name.append(".");
    new_name.append(ext);
    let new_path = crate::pathinfo::path_resolve(dir, new_name.as_str());

    proof {
        reveal_strlit(".");
        reveal_strlit("_");
        assert(old_name@ =~= name@ + seq!['.'] + date@);
        assert(new_name@ =~= stem@ + seq!['_'] + now@ + seq!['.'] + ext@);
    }
    (old_path, new_path)
}

} // verus!
