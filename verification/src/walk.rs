//! The startup sweep's selection logic: which of the files found under the
//! input directory get a synthetic event, and with what kind.  The
//! directory traversal itself, with its depth bounds and symlink policy, is
//! the walker's work outside the library; the regex filter and the event
//! synthesis are decided here.

use vstd::prelude::*;

use crate::event::{kind_of_token, EventKind, FsEvent};
use crate::matcher::{re_match, re_valid, regex_is_match, PatternError};

verus! {

/// The paths that survive the filter, in traversal order.
pub open spec fn matching_paths(paths: Seq<Seq<char>>, pattern: Seq<char>) -> Seq<Seq<char>>
    decreases paths.len(),
{
    if paths.len() == 0 {
        Seq::empty()
    } else {
        let rest = matching_paths(paths.drop_last(), pattern);
        if re_match(pattern, paths.last()) {
            rest.push(paths.last())
        } else {
            rest
        }
    }
}

/// The kind given to synthetic events: the first of the spy's listed
/// events, Modify when none are listed.
pub open spec fn synthetic_kind_of(events: Option<Seq<Seq<char>>>) -> EventKind {
    match events {
        Some(ts) => if ts.len() > 0 {
            kind_of_token(ts[0])
        } else {
            EventKind::Modify
        },
        None => EventKind::Modify,
    }
}

/// The kind for this spy's synthetic events.
pub fn synthetic_kind(events: &Option<Vec<String>>) -> (r: EventKind)
    ensures
        r == synthetic_kind_of(crate::settings::view_opt_strs(*events)),
{
    match events {
        Some(ts) => {
            if ts.len() > 0 {
                crate::event::string_to_event_kind(ts[0].as_str())
            } else {
                EventKind::Modify
            }
        }
        None => EventKind::Modify,
    }
}

/// One synthetic event per path that passes the filter (every path, when no
/// pattern is configured), each carrying that single path and the given
/// kind; an uncompilable pattern is a configuration error.
pub fn walk_select(paths: &Vec<String>, pattern: Option<&String>, kind: EventKind) -> (r: Result<
    Vec<FsEvent>,
    PatternError,
>)
    ensures
        pattern is None ==> (r matches Ok(evs) && evs@.len() == paths@.len()
            && forall|i: int| 0 <= i < evs@.len()
                ==> (#[trigger] evs@[i]).kind == kind && evs@[i].paths.deep_view() =~= seq![paths.deep_view()[i]]),
        (pattern matches Some(p) && !re_valid(p@)) ==> r is Err,
        (pattern is Some && re_valid(pattern->Some_0@)) ==> (r matches Ok(evs) && {
            let sel = matching_paths(paths.deep_view(), pattern->Some_0@);
            &&& evs@.len() == sel.len()
            &&& forall|i: int| 0 <= i < evs@.len()
                ==> (#[trigger] evs@[i]).kind == kind && evs@[i].paths.deep_view() =~= seq![sel[i]]
        }),
{
    let n = paths.len();
    let mut out: Vec<FsEvent> = Vec::new();
    match pattern {
        None => {
            for i in 0..n
                invariant
                    n == paths@.len(),
                    out@.len() == i,
                    forall|j: int| 0 <= j < i
                        ==> (#[trigger] out@[j]).kind == kind
                            && out@[j].paths.deep_view() =~= seq![paths.deep_view()[j]],
            {
                let mut evp: Vec<String> = Vec::new();
                evp.push(paths[i].clone());
                out.push(FsEvent { kind, paths: evp });
            }
            Ok(out)
        }
        Some(pat) => {
            if regex_is_match(pat.as_str(), "").is_none() {
                return Err(PatternError { index: 0 });
            }
            let ghost all = paths.deep_view();
            for i in 0..n
                invariant
                    n == paths@.len(),
                    all == paths.deep_view(),
                    re_valid(pat@),
                    out@.len() == matching_paths(all.take(i as int), pat@).len(),
                    forall|j: int| 0 <= j < out@.len()
                        ==> (#[trigger] out@[j]).kind == kind
                            && out@[j].paths.deep_view() =~= seq![matching_paths(all.take(i as int), pat@)[j]],
            {
                let hit = regex_is_match(pat.as_str(), paths[i].as_str()).unwrap();
                proof {
                    let t = all.take(i + 1);
                    assert(t.drop_last() =~= all.take(i as int));
                    assert(t.last() == all[i as int]);
                }
                if hit {
                    let mut evp: Vec<String> = Vec::new();
                    evp.push(paths[i].clone());
                    out.push(FsEvent { kind, paths: evp });
                }
            }
            proof {
                assert(all.take(n as int) =~= all);
            }
            Ok(out)
        }
    }
}

} // verus!
