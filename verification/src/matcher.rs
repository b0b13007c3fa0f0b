//! The rule matcher: for an event, select the first pattern of a spy whose
//! regex matches the event's effective path, provided the event's kind is
//! listed by the spy.

use vstd::prelude::*;

use crate::event::{token_of, EventKind, FsEvent};
use crate::settings::{clone_spy_pattern, Pattern, PatternV, Spy};
use crate::strutil::str_eq;

verus! {

/// Whether a pattern compiles as a regex; a function of the pattern alone.
pub uninterp spec fn re_valid(pattern: Seq<char>) -> bool;

/// Whether a valid pattern matches a haystack; a function of the two
/// strings alone.
pub uninterp spec fn re_match(pattern: Seq<char>, text: Seq<char>) -> bool;

/// Relies on `regex::Regex::new` and `regex::Regex::is_match`: compiling
/// depends on the pattern alone, matching on the pattern and the haystack
/// alone; an uncompilable pattern yields `None`.
#[verifier::external_body]
pub(crate) fn regex_is_match(pattern: &str, text: &str) -> (r: Option<bool>)
    ensures
        r is Some <==> re_valid(pattern@),
        r matches Some(b) ==> b == re_match(pattern@, text@),
{
    match regex::Regex::new(pattern) {
        Ok(re) => Some(re.is_match(text)),
        Err(_) => None,
    }
}

/// Whether the kind's token is listed.
pub open spec fn kind_in_events(kind: EventKind, events: Seq<Seq<char>>) -> bool {
    exists|i: int| 0 <= i < events.len() && events[i] == token_of(kind)
}

/// The result of scanning a pattern list against a path.
pub ghost enum ScanOutcome {
    /// The first matching pattern's index.
    Hit(int),
    /// Every pattern is valid and none matches.
    Miss,
    /// The first invalid pattern's index, reached before any match.
    Invalid(int),
}

pub open spec fn scan_patterns(ps: Seq<PatternV>, path: Seq<char>) -> ScanOutcome
    decreases ps.len(),
{
    if ps.len() == 0 {
        ScanOutcome::Miss
    } else if !re_valid(ps[0].pattern) {
        ScanOutcome::Invalid(0)
    } else if re_match(ps[0].pattern, path) {
        ScanOutcome::Hit(0)
    } else {
        match scan_patterns(ps.drop_first(), path) {
            ScanOutcome::Hit(i) => ScanOutcome::Hit(i + 1),
            ScanOutcome::Miss => ScanOutcome::Miss,
            ScanOutcome::Invalid(i) => ScanOutcome::Invalid(i + 1),
        }
    }
}

/// What rule matching decides for one event against one spy.
pub ghost enum MatchDecision {
    /// The index of the selected pattern.
    Selected(int),
    /// No pattern fires: empty paths, unlisted kind, or no regex match.
    Unmatched,
    /// An invalid regex was reached: a configuration error.
    BadPattern(int),
}

/// The matching decision as a function of the event's kind, its effective
/// (last) path, and the spy's `events` and `patterns`.
pub open spec fn match_decision(kind: EventKind, paths: Seq<Seq<char>>, events: Seq<Seq<char>>, ps: Seq<PatternV>) -> MatchDecision {
    if paths.len() == 0 {
        MatchDecision::Unmatched
    } else if !kind_in_events(kind, events) {
        MatchDecision::Unmatched
    } else {
        match scan_patterns(ps, paths.last()) {
            ScanOutcome::Hit(i) => MatchDecision::Selected(i),
            ScanOutcome::Miss => MatchDecision::Unmatched,
            ScanOutcome::Invalid(i) => MatchDecision::BadPattern(i),
        }
    }
}

/// Rule matching reads nothing of an event but its kind and its last path:
/// two events equal there decide alike under any spy.
pub proof fn lemma_match_decision_pure(kind: EventKind, paths1: Seq<Seq<char>>, paths2: Seq<Seq<char>>, events: Seq<Seq<char>>, ps: Seq<PatternV>)
    requires
        paths1.len() > 0,
        paths2.len() > 0,
        paths1.last() == paths2.last(),
    ensures
        match_decision(kind, paths1, events, ps) == match_decision(kind, paths2, events, ps),
{
}

/// A pattern that does not compile: a configuration error, fatal for the
/// dispatch of this event.
#[derive(Debug)]
pub struct PatternError {
    pub index: usize,
}

proof fn lemma_scan_prefix(ps: Seq<PatternV>, path: Seq<char>, i: int)
    requires
        0 <= i <= ps.len(),
        forall|j: int| 0 <= j < i ==> re_valid(#[trigger] ps[j].pattern) && !re_match(ps[j].pattern, path),
    ensures
        i == ps.len() ==> scan_patterns(ps, path) == ScanOutcome::Miss,
        i < ps.len() && !re_valid(ps[i].pattern) ==> scan_patterns(ps, path) == ScanOutcome::Invalid(i),
        i < ps.len() && re_valid(ps[i].pattern) && re_match(ps[i].pattern, path)
            ==> scan_patterns(ps, path) == ScanOutcome::Hit(i),
    decreases ps.len(),
{
    if ps.len() > 0 && i > 0 {
        assert(re_valid(ps[0].pattern) && !re_match(ps[0].pattern, path));
        assert(forall|j: int| 0 <= j < i - 1 ==> ps.drop_first()[j] == ps[j + 1]);
        if i < ps.len() {
            assert(ps.drop_first()[i - 1] == ps[i]);
        }
        lemma_scan_prefix(ps.drop_first(), path, i - 1);
    }
}

/// Select the first pattern whose regex matches the event's effective path,
/// provided the event's kind is listed; an event with no paths matches
/// nothing, and an uncompilable pattern reached before a match is an error.
pub fn find_pattern(event: &FsEvent, spy: &Spy) -> (r: Result<Option<Pattern>, PatternError>)
    requires
        spy@.events is Some,
        spy@.patterns is Some,
    ensures
        ({
            let decision = match_decision(event.kind, event.paths.deep_view(), spy@.events->Some_0, spy@.patterns->Some_0);
            match r {
                Ok(Some(p)) => decision matches MatchDecision::Selected(i) && p@ == spy@.patterns->Some_0[i],
                Ok(None) => decision is Unmatched,
                Err(e) => decision matches MatchDecision::BadPattern(i) && e.index == i,
            }
        }),
{
    let n_paths = event.paths.len();
    if n_paths == 0 {
        return Ok(None);
    }
    let path = event.paths[n_paths - 1].as_str();
    proof {
        assert(event.paths.deep_view().last() == path@);
    }

    let kind_token = crate::event::event_kind_to_string(event.kind);
    let events = spy.events.as_ref().unwrap();
    let mut listed = false;
    let ne = events.len();
    for i in 0..ne
        invariant
            ne == events@.len(),
            kind_token@ == token_of(event.kind),
            listed ==> kind_in_events(event.kind, events.deep_view()),
            !listed ==> forall|j: int| 0 <= j < i ==> events.deep_view()[j] != token_of(event.kind),
    {
        if !listed && str_eq(events[i].as_str(), kind_token.as_str()) {
            proof {
                assert(events.deep_view()[i as int] == token_of(event.kind));
            }
            listed = true;
        }
    }
    if !listed {
        proof {
            assert(!kind_in_events(event.kind, events.deep_view()));
        }
        return Ok(None);
    }

    let patterns = spy.patterns.as_ref().unwrap();
    let ghost ps = patterns.deep_view();
    let np = patterns.len();
    for i in 0..np
        invariant
            np == patterns@.len(),
            ps == patterns.deep_view(),
            event.paths.deep_view().len() > 0,
            path@ == event.paths.deep_view().last(),
            kind_in_events(event.kind, spy@.events->Some_0),
            ps == spy@.patterns->Some_0,
            forall|j: int| 0 <= j < i ==> re_valid(#[trigger] ps[j].pattern) && !re_match(ps[j].pattern, path@),
    {
        match regex_is_match(patterns[i].pattern.as_str(), path) {
            None => {
                proof {
                    lemma_scan_prefix(ps, path@, i as int);
                }
                return Err(PatternError { index: i });
            }
            Some(true) => {
                proof {
                    lemma_scan_prefix(ps, path@, i as int);
                }
                return Ok(Some(clone_spy_pattern(&patterns[i])));
            }
            Some(false) => {}
        }
    }
    proof {
        lemma_scan_prefix(ps, path@, np as int);
    }
    Ok(None)
}

} // verus!
