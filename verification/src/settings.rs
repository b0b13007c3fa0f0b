//! The configuration data model: watch specifications ("spies") with their
//! rules, rate limits and optional walk/poll/delay settings, and the merge
//! of a reserved spy named "default" into every other spy.

use vstd::prelude::*;

use crate::strutil::str_eq;

verus! {

/// Polling-watcher configuration.
pub struct Poll {
    pub interval: u64,
}

impl View for Poll {
    type V = u64;

    open spec fn view(&self) -> u64 {
        self.interval
    }
}

/// Startup-sweep configuration.
pub struct Walk {
    pub min_depth: Option<usize>,
    pub max_depth: Option<usize>,
    pub follow_symlinks: Option<bool>,
    pub pattern: Option<String>,
    pub delay: Option<(u64, Option<u64>)>,
}

pub ghost struct WalkV {
    pub min_depth: Option<usize>,
    pub max_depth: Option<usize>,
    pub follow_symlinks: Option<bool>,
    pub pattern: Option<Seq<char>>,
    pub delay: Option<(u64, Option<u64>)>,
}

pub open spec fn view_opt_str(o: Option<String>) -> Option<Seq<char>> {
    match o {
        Some(s) => Some(s@),
        None => None,
    }
}

impl View for Walk {
    type V = WalkV;

    open spec fn view(&self) -> WalkV {
        WalkV {
            min_depth: self.min_depth,
            max_depth: self.max_depth,
            follow_symlinks: self.follow_symlinks,
            pattern: view_opt_str(self.pattern),
            delay: self.delay,
        }
    }
}

/// The optional global startup command.
pub struct Init {
    pub cmd: String,
    pub arg: Vec<String>,
    pub error_stop: bool,
}

pub ghost struct InitV {
    pub cmd: Seq<char>,
    pub arg: Seq<Seq<char>>,
    pub error_stop: bool,
}

impl View for Init {
    type V = InitV;

    open spec fn view(&self) -> InitV {
        InitV { cmd: self.cmd@, arg: self.arg.deep_view(), error_stop: self.error_stop }
    }
}

/// One rule: a regex over the event path and the command template it fires.
#[derive(Debug)]
pub struct Pattern {
    pub pattern: String,
    pub cmd: String,
    pub arg: Vec<String>,
}

pub ghost struct PatternV {
    pub pattern: Seq<char>,
    pub cmd: Seq<char>,
    pub arg: Seq<Seq<char>>,
}

impl View for Pattern {
    type V = PatternV;

    open spec fn view(&self) -> PatternV {
        PatternV { pattern: self.pattern@, cmd: self.cmd@, arg: self.arg.deep_view() }
    }
}

impl DeepView for Pattern {
    type V = PatternV;

    open spec fn deep_view(&self) -> PatternV {
        self.view()
    }
}

/// Structured-log destination.
pub struct Log {
    pub path: String,
    pub level: String,
    pub switch: bool,
}

pub ghost struct LogV {
    pub path: Seq<char>,
    pub level: Seq<char>,
    pub switch: bool,
}

impl View for Log {
    type V = LogV;

    open spec fn view(&self) -> LogV {
        LogV { path: self.path@, level: self.level@, switch: self.switch }
    }
}

/// Shutdown sentinels and the worker-pool ceiling.
pub struct Cfg {
    pub stop_flg: String,
    pub stop_force_flg: Option<String>,
    pub max_threads: Option<usize>,
}

pub ghost struct CfgV {
    pub stop_flg: Seq<char>,
    pub stop_force_flg: Option<Seq<char>>,
    pub max_threads: Option<usize>,
}

impl View for Cfg {
    type V = CfgV;

    open spec fn view(&self) -> CfgV {
        CfgV {
            stop_flg: self.stop_flg@,
            stop_force_flg: view_opt_str(self.stop_force_flg),
            max_threads: self.max_threads,
        }
    }
}

/// One watch specification.
pub struct Spy {
    pub name: String,
    pub events: Option<Vec<String>>,
    pub input: Option<String>,
    pub output: Option<String>,
    pub recursive: bool,
    pub throttle: Option<u64>,
    pub debounce: Option<u64>,
    pub limitkey: Option<String>,
    pub mutexkey: Option<String>,
    pub patterns: Option<Vec<Pattern>>,
    pub delay: Option<(u64, Option<u64>)>,
    pub poll: Option<Poll>,
    pub walk: Option<Walk>,
}

pub ghost struct SpyV {
    pub name: Seq<char>,
    pub events: Option<Seq<Seq<char>>>,
    pub input: Option<Seq<char>>,
    pub output: Option<Seq<char>>,
    pub recursive: bool,
    pub throttle: Option<u64>,
    pub debounce: Option<u64>,
    pub limitkey: Option<Seq<char>>,
    pub mutexkey: Option<Seq<char>>,
    pub patterns: Option<Seq<PatternV>>,
    pub delay: Option<(u64, Option<u64>)>,
    pub poll: Option<u64>,
    pub walk: Option<WalkV>,
}

pub open spec fn view_opt_strs(o: Option<Vec<String>>) -> Option<Seq<Seq<char>>> {
    match o {
        Some(v) => Some(v.deep_view()),
        None => None,
    }
}

pub open spec fn view_opt_patterns(o: Option<Vec<Pattern>>) -> Option<Seq<PatternV>> {
    match o {
        Some(v) => Some(v.deep_view()),
        None => None,
    }
}

pub open spec fn view_opt_poll(o: Option<Poll>) -> Option<u64> {
    match o {
        Some(p) => Some(p@),
        None => None,
    }
}

pub open spec fn view_opt_walk(o: Option<Walk>) -> Option<WalkV> {
    match o {
        Some(w) => Some(w@),
        None => None,
    }
}

impl View for Spy {
    type V = SpyV;

    open spec fn view(&self) -> SpyV {
        SpyV {
            name: self.name@,
            events: view_opt_strs(self.events),
            input: view_opt_str(self.input),
            output: view_opt_str(self.output),
            recursive: self.recursive,
            throttle: self.throttle,
            debounce: self.debounce,
            limitkey: view_opt_str(self.limitkey),
            mutexkey: view_opt_str(self.mutexkey),
            patterns: view_opt_patterns(self.patterns),
            delay: self.delay,
            poll: view_opt_poll(self.poll),
            walk: view_opt_walk(self.walk),
        }
    }
}

impl DeepView for Spy {
    type V = SpyV;

    open spec fn deep_view(&self) -> SpyV {
        self.view()
    }
}

/// The whole configuration.
pub struct Settings {
    pub log: Log,
    pub cfg: Cfg,
    pub init: Option<Init>,
    pub spys: Vec<Spy>,
}

pub ghost struct SettingsV {
    pub log: LogV,
    pub cfg: CfgV,
    pub init: Option<InitV>,
    pub spys: Seq<SpyV>,
}

pub open spec fn view_opt_init(o: Option<Init>) -> Option<InitV> {
    match o {
        Some(i) => Some(i@),
        None => None,
    }
}

impl View for Settings {
    type V = SettingsV;

    open spec fn view(&self) -> SettingsV {
        SettingsV {
            log: self.log@,
            cfg: self.cfg@,
            init: view_opt_init(self.init),
            spys: self.spys.deep_view(),
        }
    }
}

/// The view of the built-in default spy.
pub open spec fn default_spy_view() -> SpyV {
    SpyV {
        name: "default"@,
        events: Some(seq!["Create"@, "Modify"@]),
        input: Some("input"@),
        output: Some("output"@),
        recursive: true,
        throttle: Some(0u64),
        debounce: Some(0u64),
        limitkey: Some(""@),
        mutexkey: Some(""@),
        patterns: Some(
            seq![
                PatternV {
                    pattern: "\\.ps1$"@,
                    cmd: "powershell"@,
                    arg: seq!["-NoProfile"@, "-ExecutionPolicy"@, "ByPass"@, "-File"@, "{{event_path}}"@],
                },
                PatternV { pattern: "\\.cmd$"@, cmd: "{{event_path}}"@, arg: Seq::empty() },
                PatternV { pattern: "\\.bat$"@, cmd: "{{event_path}}"@, arg: Seq::empty() },
                PatternV {
                    pattern: "\\.sh$"@,
                    cmd: "bash"@,
                    arg: seq!["-c"@, "{{event_path}}"@],
                },
            ],
        ),
        delay: None,
        poll: None,
        walk: None,
    }
}

impl Default for Spy {
    /// The built-in fallback spy: watch `input` recursively for Create and
    /// Modify, with script-running rules for the common script extensions
    /// and no rate limiting.
    fn default() -> (r: Spy)
        ensures
            r@ == default_spy_view(),
    {
        let mut events: Vec<String> = Vec::new();
        events.push("Create".to_owned());
        events.push("Modify".to_owned());

        let mut ps_arg: Vec<String> = Vec::new();
        ps_arg.push("-NoProfile".to_owned());
        ps_arg.push("-ExecutionPolicy".to_owned());
        ps_arg.push("ByPass".to_owned());
        ps_arg.push("-File".to_owned());
        ps_arg.push("{{event_path}}".to_owned());

        let mut sh_arg: Vec<String> = Vec::new();
        sh_arg.push("-c".to_owned());
        sh_arg.push("{{event_path}}".to_owned());

        let mut patterns: Vec<Pattern> = Vec::new();
        patterns.push(Pattern {
            pattern: "\\.ps1$".to_owned(),
            cmd: "powershell".to_owned(),
            arg: ps_arg,
        });
        patterns.push(Pattern {
            pattern: "\\.cmd$".to_owned(),
            cmd: "{{event_path}}".to_owned(),
            arg: Vec::new(),
        });
        patterns.push(Pattern {
            pattern: "\\.bat$".to_owned(),
            cmd: "{{event_path}}".to_owned(),
            arg: Vec::new(),
        });
        patterns.push(Pattern {
            pattern: "\\.sh$".to_owned(),
            cmd: "bash".to_owned(),
            arg: sh_arg,
        });

        let r = Spy {
            name: "default".to_owned(),
            events: Some(events),
            input: Some("input".to_owned()),
            output: Some("output".to_owned()),
            recursive: true,
            throttle: Some(0),
            debounce: Some(0),
            limitkey: Some("".to_owned()),
            mutexkey: Some("".to_owned()),
            patterns: Some(patterns),
            delay: None,
            poll: None,
            walk: None,
        };
        proof {
            assert(r@.events->Some_0 =~= default_spy_view().events->Some_0);
            assert(r@.patterns->Some_0[0].arg =~= default_spy_view().patterns->Some_0[0].arg);
            assert(r@.patterns->Some_0[1].arg =~= default_spy_view().patterns->Some_0[1].arg);
            assert(r@.patterns->Some_0[2].arg =~= default_spy_view().patterns->Some_0[2].arg);
            assert(r@.patterns->Some_0[3].arg =~= default_spy_view().patterns->Some_0[3].arg);
            assert(r@.patterns->Some_0 =~= default_spy_view().patterns->Some_0);
        }
        r
    }
}

impl Spy {
    /// A fresh spy under `name`, all other fields the built-in defaults.
    pub fn new(name: String) -> (r: Spy)
        ensures
            r@ == (SpyV { name: name@, ..default_spy_view() }),
    {
        let mut r = Spy::default();
        r.name = name;
        r
    }
}

/// Whether every listed token is a recognized event kind.
pub open spec fn valid_event_token(t: Seq<char>) -> bool {
    t == "Access"@ || t == "Create"@ || t == "Modify"@ || t == "Remove"@ || t == "Any"@
}

/// Validation applied to a spy's `events` list at configuration load.
pub fn is_valid_event_kind(events: &Vec<String>) -> (r: bool)
    ensures
        r == forall|i: int| 0 <= i < events@.len() ==> valid_event_token(#[trigger] events@[i]@),
{
    let n = events.len();
    for i in 0..n
        invariant
            n == events@.len(),
            forall|j: int| 0 <= j < i ==> valid_event_token(#[trigger] events@[j]@),
    {
        let t = events[i].as_str();
        let ok = str_eq(t, "Access") || str_eq(t, "Create") || str_eq(t, "Modify")
            || str_eq(t, "Remove") || str_eq(t, "Any");
        if !ok {
            return false;
        }
    }
    true
}

/// The fallback log level when the configuration names none.
pub fn default_loglevel() -> (r: String)
    ensures
        r@ == "info"@,
{
    "info".to_owned()
}

pub open spec fn fallback<T>(a: Option<T>, b: Option<T>) -> Option<T> {
    if a is Some {
        a
    } else {
        b
    }
}

/// A spy after the reserved defaults are merged in: each absent optional
/// field is taken from the default spy; the name and the recursive flag are
/// the spy's own.
pub open spec fn merge_spy_view(s: SpyV, d: SpyV) -> SpyV {
    SpyV {
        name: s.name,
        events: fallback(s.events, d.events),
        input: fallback(s.input, d.input),
        output: fallback(s.output, d.output),
        recursive: s.recursive,
        throttle: fallback(s.throttle, d.throttle),
        debounce: fallback(s.debounce, d.debounce),
        limitkey: fallback(s.limitkey, d.limitkey),
        mutexkey: fallback(s.mutexkey, d.mutexkey),
        patterns: fallback(s.patterns, d.patterns),
        delay: fallback(s.delay, d.delay),
        poll: fallback(s.poll, d.poll),
        walk: fallback(s.walk, d.walk),
    }
}

/// Index of the first spy named "default", or -1.
pub open spec fn default_index(spys: Seq<SpyV>) -> int
    decreases spys.len(),
{
    if spys.len() == 0 {
        -1
    } else if spys[0].name == "default"@ {
        0
    } else {
        let r = default_index(spys.drop_first());
        if r < 0 {
            -1
        } else {
            r + 1
        }
    }
}

/// The spy whose fields fill the gaps: the first one named "default" in the
/// configuration, else the built-in default.
pub open spec fn rebuild_default(spys: Seq<SpyV>) -> SpyV {
    let i = default_index(spys);
    if i >= 0 {
        spys[i]
    } else {
        default_spy_view()
    }
}

/// What each spy becomes under [`Settings::rebuild`].
pub open spec fn rebuilt_spy(s: SpyV, d: SpyV) -> SpyV {
    if s.name == "default"@ {
        s
    } else {
        merge_spy_view(s, d)
    }
}

proof fn lemma_default_index_found(spys: Seq<SpyV>, k: int)
    requires
        0 <= k < spys.len(),
        spys[k].name == "default"@,
        forall|j: int| 0 <= j < k ==> spys[j].name != "default"@,
    ensures
        default_index(spys) == k,
    decreases spys.len(),
{
    if k > 0 {
        assert(spys[0].name != "default"@);
        assert(spys.drop_first()[k - 1] == spys[k]);
        assert(forall|j: int| 0 <= j < k - 1 ==> spys.drop_first()[j] == spys[j + 1]);
        lemma_default_index_found(spys.drop_first(), k - 1);
    }
}

proof fn lemma_default_index_absent(spys: Seq<SpyV>)
    requires
        forall|j: int| 0 <= j < spys.len() ==> spys[j].name != "default"@,
    ensures
        default_index(spys) == -1,
    decreases spys.len(),
{
    if spys.len() > 0 {
        assert(forall|j: int| 0 <= j < spys.len() - 1 ==> spys.drop_first()[j] == spys[j + 1]);
        lemma_default_index_absent(spys.drop_first());
    }
}

pub(crate) fn clone_string_vec(v: &Vec<String>) -> (r: Vec<String>)
    ensures
        r@ == v@,
        r.deep_view() == v.deep_view(),
{
    let mut r: Vec<String> = Vec::new();
    let n = v.len();
    for i in 0..n
        invariant
            n == v@.len(),
            r@.len() == i,
            forall|j: int| 0 <= j < i ==> r@[j] == v@[j],
    {
        r.push(v[i].clone());
    }
    proof {
        assert(r@ =~= v@);
    }
    r
}

fn clone_opt_string(o: &Option<String>) -> (r: Option<String>)
    ensures
        r == *o,
{
    match o {
        Some(s) => Some(s.clone()),
        None => None,
    }
}

fn clone_opt_string_vec(o: &Option<Vec<String>>) -> (r: Option<Vec<String>>)
    ensures
        view_opt_strs(r) == view_opt_strs(*o),
{
    match o {
        Some(v) => Some(clone_string_vec(v)),
        None => None,
    }
}

/// An independent copy of a rule with the same view.
pub fn clone_spy_pattern(p: &Pattern) -> (r: Pattern)
    ensures
        r@ == p@,
{
    Pattern { pattern: p.pattern.clone(), cmd: p.cmd.clone(), arg: clone_string_vec(&p.arg) }
}

fn clone_patterns(v: &Vec<Pattern>) -> (r: Vec<Pattern>)
    ensures
        r.deep_view() == v.deep_view(),
{
    let mut r: Vec<Pattern> = Vec::new();
    let n = v.len();
    for i in 0..n
        invariant
            n == v@.len(),
            r@.len() == i,
            forall|j: int| 0 <= j < i ==> r@[j]@ == v@[j]@,
    {
        r.push(clone_spy_pattern(&v[i]));
    }
    proof {
        assert(r.deep_view() =~= v.deep_view());
    }
    r
}

fn clone_opt_patterns(o: &Option<Vec<Pattern>>) -> (r: Option<Vec<Pattern>>)
    ensures
        view_opt_patterns(r) == view_opt_patterns(*o),
{
    match o {
        Some(v) => Some(clone_patterns(v)),
        None => None,
    }
}

fn clone_opt_poll(o: &Option<Poll>) -> (r: Option<Poll>)
    ensures
        view_opt_poll(r) == view_opt_poll(*o),
{
    match o {
        Some(p) => Some(Poll { interval: p.interval }),
        None => None,
    }
}

fn clone_walk(w: &Walk) -> (r: Walk)
    ensures
        r@ == w@,
{
    Walk {
        min_depth: w.min_depth,
        max_depth: w.max_depth,
        follow_symlinks: w.follow_symlinks,
        pattern: clone_opt_string(&w.pattern),
        delay: w.delay,
    }
}

fn clone_opt_walk(o: &Option<Walk>) -> (r: Option<Walk>)
    ensures
        view_opt_walk(r) == view_opt_walk(*o),
{
    match o {
        Some(w) => Some(clone_walk(w)),
        None => None,
    }
}

/// An independent copy of a spy with the same view.
pub fn clone_spy(s: &Spy) -> (r: Spy)
    ensures
        r@ == s@,
{
    Spy {
        name: s.name.clone(),
        events: clone_opt_string_vec(&s.events),
        input: clone_opt_string(&s.input),
        output: clone_opt_string(&s.output),
        recursive: s.recursive,
        throttle: s.throttle,
        debounce: s.debounce,
        limitkey: clone_opt_string(&s.limitkey),
        mutexkey: clone_opt_string(&s.mutexkey),
        patterns: clone_opt_patterns(&s.patterns),
        delay: s.delay,
        poll: clone_opt_poll(&s.poll),
        walk: clone_opt_walk(&s.walk),
    }
}

fn merge_spy(s: &Spy, d: &Spy) -> (r: Spy)
    ensures
        r@ == merge_spy_view(s@, d@),
{
    Spy {
        name: s.name.clone(),
        events: match &s.events {
            Some(_) => clone_opt_string_vec(&s.events),
            None => clone_opt_string_vec(&d.events),
        },
        input: match &s.input {
            Some(_) => clone_opt_string(&s.input),
            None => clone_opt_string(&d.input),
        },
        output: match &s.output {
            Some(_) => clone_opt_string(&s.output),
            None => clone_opt_string(&d.output),
        },
        recursive: s.recursive,
        throttle: match s.throttle {
            Some(v) => Some(v),
            None => d.throttle,
        },
        debounce: match s.debounce {
            Some(v) => Some(v),
            None => d.debounce,
        },
        limitkey: match &s.limitkey {
            Some(_) => clone_opt_string(&s.limitkey),
            None => clone_opt_string(&d.limitkey),
        },
        mutexkey: match &s.mutexkey {
            Some(_) => clone_opt_string(&s.mutexkey),
            None => clone_opt_string(&d.mutexkey),
        },
        patterns: match &s.patterns {
            Some(_) => clone_opt_patterns(&s.patterns),
            None => clone_opt_patterns(&d.patterns),
        },
        delay: match s.delay {
            Some(v) => Some(v),
            None => d.delay,
        },
        poll: match &s.poll {
            Some(_) => clone_opt_poll(&s.poll),
            None => clone_opt_poll(&d.poll),
        },
        walk: match &s.walk {
            Some(_) => clone_opt_walk(&s.walk),
            None => clone_opt_walk(&d.walk),
        },
    }
}

/// The backup configuration file: `{stem}_backup.{ext}` beside the
/// original.
pub open spec fn backup_of(s: Seq<char>) -> Seq<char> {
    crate::pathinfo::sibling_of(s, "_backup"@)
}

impl Settings {
    /// Where the configuration is copied to after a successful load, and
    /// read back from when the primary fails to load.
    pub fn backup_path(cfg: &str) -> (r: String)
        ensures
            r@ == backup_of(cfg@),
    {
        crate::pathinfo::sibling_path(cfg, "_backup")
    }

    /// Fill every gap in each spy from the reserved spy named "default" (or
    /// the built-in default if none is configured); spies named "default"
    /// and everything else are kept as they are.
    pub fn rebuild(&self) -> (r: Settings)
        ensures
            r@.log == self@.log,
            r@.cfg == self@.cfg,
            r@.init == self@.init,
            r@.spys.len() == self@.spys.len(),
            forall|i: int| 0 <= i < self@.spys.len()
                ==> r@.spys[i] == rebuilt_spy(#[trigger] self@.spys[i], rebuild_default(self@.spys)),
    {
        let n = self.spys.len();
        let mut default_at: Option<usize> = None;
        for i in 0..n
            invariant
                n == self.spys@.len(),
                default_at matches Some(k) ==> k < n && self.spys@[k as int]@.name == "default"@
                    && forall|j: int| 0 <= j < k ==> self.spys@[j]@.name != "default"@,
                default_at is None ==> forall|j: int| 0 <= j < i ==> self.spys@[j]@.name != "default"@,
            decreases n - i,
        {
            if default_at.is_none() && str_eq(self.spys[i].name.as_str(), "default") {
                default_at = Some(i);
            }
        }
        let dspy: Spy = match default_at {
            Some(k) => {
                proof {
                    lemma_default_index_found(self.spys.deep_view(), k as int);
                }
                clone_spy(&self.spys[k])
            }
            None => {
                proof {
                    lemma_default_index_absent(self.spys.deep_view());
                }
                Spy::default()
            }
        };

        let mut spys: Vec<Spy> = Vec::new();
        for i in 0..n
            invariant
                n == self.spys@.len(),
                dspy@ == rebuild_default(self@.spys),
                spys@.len() == i,
                forall|j: int| 0 <= j < i
                    ==> spys@[j]@ == rebuilt_spy(#[trigger] self.spys@[j]@, rebuild_default(self@.spys)),
            decreases n - i,
        {
            if str_eq(self.spys[i].name.as_str(), "default") {
                spys.push(clone_spy(&self.spys[i]));
            } else {
                spys.push(merge_spy(&self.spys[i], &dspy));
            }
        }

        let r = Settings {
            log: Log { path: self.log.path.clone(), level: self.log.level.clone(), switch: self.log.switch },
            cfg: Cfg {
                stop_flg: self.cfg.stop_flg.clone(),
                stop_force_flg: clone_opt_string(&self.cfg.stop_force_flg),
                max_threads: self.cfg.max_threads,
            },
            init: match &self.init {
                Some(i) => Some(Init {
                    cmd: i.cmd.clone(),
                    arg: clone_string_vec(&i.arg),
                    error_stop: i.error_stop,
                }),
                None => None,
            },
            spys,
        };
        proof {
            assert(r@.spys =~= Seq::new(self@.spys.len(), |i: int| rebuilt_spy(self@.spys[i], rebuild_default(self@.spys))));
        }
        r
    }
}

} // verus!
