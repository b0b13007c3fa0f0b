//! The string-to-string mapping that templates are rendered against,
//! populated from process metadata, the triggering event's path
//! decomposition, and configured values.

use vstd::prelude::*;

use crate::pathinfo::{
    dir_of, dirname_of, ext_of, name_of, path_dir, path_dirname, path_ext, path_name, path_resolve,
    path_stem, resolved, stem_of,
};

verus! {

/// The map described by an association list, later pairs winning.
pub open spec fn str_map_of(s: Seq<(String, String)>) -> Map<Seq<char>, Seq<char>>
    decreases s.len(),
{
    if s.len() == 0 {
        Map::empty()
    } else {
        str_map_of(s.drop_last()).insert(s.last().0@, s.last().1@)
    }
}

pub open spec fn str_keys_unique(s: Seq<(String, String)>) -> bool {
    forall|i: int, j: int| 0 <= i < j < s.len() ==> s[i].0@ != s[j].0@
}

proof fn lemma_str_map_of_contains(s: Seq<(String, String)>, k: Seq<char>)
    ensures
        str_map_of(s).contains_key(k) <==> exists|i: int| 0 <= i < s.len() && s[i].0@ == k,
    decreases s.len(),
{
    if s.len() > 0 {
        lemma_str_map_of_contains(s.drop_last(), k);
        if str_map_of(s).contains_key(k) {
            if s.last().0@ != k {
                let i = choose|i: int| 0 <= i < s.drop_last().len() && s.drop_last()[i].0@ == k;
                assert(s[i].0@ == k);
            }
        } else {
            assert(forall|i: int| 0 <= i < s.len() - 1 ==> s.drop_last()[i] == s[i]);
        }
    }
}

proof fn lemma_str_map_of_index(s: Seq<(String, String)>, i: int)
    requires
        str_keys_unique(s),
        0 <= i < s.len(),
    ensures
        str_map_of(s).contains_key(s[i].0@),
        str_map_of(s)[s[i].0@] == s[i].1@,
    decreases s.len(),
{
    lemma_str_map_of_contains(s, s[i].0@);
    if i < s.len() - 1 {
        assert(s.last().0@ != s[i].0@);
        assert(s.drop_last()[i] == s[i]);
        lemma_str_map_of_index(s.drop_last(), i);
    }
}

proof fn lemma_str_map_of_update(s: Seq<(String, String)>, i: int, p: (String, String))
    requires
        str_keys_unique(s),
        0 <= i < s.len(),
        p.0@ == s[i].0@,
    ensures
        str_map_of(s.update(i, p)) == str_map_of(s).insert(p.0@, p.1@),
    decreases s.len(),
{
    let t = s.update(i, p);
    if i == s.len() - 1 {
        assert(t.drop_last() =~= s.drop_last());
        assert(t.last() == p);
    } else {
        assert(t.drop_last() =~= s.drop_last().update(i, p));
        assert(s.drop_last()[i] == s[i]);
        lemma_str_map_of_update(s.drop_last(), i, p);
        assert(s.last().0@ != p.0@);
        assert(str_map_of(s.drop_last()).insert(p.0@, p.1@).insert(s.last().0@, s.last().1@)
            =~= str_map_of(s.drop_last()).insert(s.last().0@, s.last().1@).insert(p.0@, p.1@));
        assert(t.last() == s.last());
    }
}

/// Template-rendering context: a mapping from variable name to value.
pub struct Context {
    entries: Vec<(String, String)>,
}

impl View for Context {
    type V = Map<Seq<char>, Seq<char>>;

    closed spec fn view(&self) -> Map<Seq<char>, Seq<char>> {
        str_map_of(self.entries@)
    }
}

impl Context {
    pub closed spec fn wf(&self) -> bool {
        str_keys_unique(self.entries@)
    }

    pub fn new() -> (r: Context)
        ensures
            r.wf(),
            r@ == Map::<Seq<char>, Seq<char>>::empty(),
    {
        Context { entries: Vec::new() }
    }

    fn position(&self, key: &str) -> (r: Option<usize>)
        ensures
            r matches Some(i) ==> i < self.entries@.len() && self.entries@[i as int].0@ == key@,
            r is None ==> forall|i: int| 0 <= i < self.entries@.len() ==> self.entries@[i].0@ != key@,
    {
        let k = key.to_owned();
        let n = self.entries.len();
        for i in 0..n
            invariant
                k@ == key@,
                n == self.entries@.len(),
                forall|j: int| 0 <= j < i ==> self.entries@[j].0@ != key@,
        {
            if k.eq(&self.entries[i].0) {
                return Some(i);
            }
        }
        None
    }

    /// Bind `key` to `val`, overwriting any earlier binding.
    pub fn insert(&mut self, key: &str, val: &str)
        requires
            old(self).wf(),
        ensures
            final(self).wf(),
            final(self)@ == old(self)@.insert(key@, val@),
    {
        let pair = (key.to_owned(), val.to_owned());
        match self.position(key) {
            Some(i) => {
                proof {
                    lemma_str_map_of_update(self.entries@, i as int, pair);
                }
                self.entries.set(i, pair);
            }
            None => {
                let ghost s = self.entries@;
                self.entries.push(pair);
                proof {
                    assert(self.entries@.drop_last() =~= s);
                }
            }
        }
    }

    /// The value bound to `key`, if any.
    pub fn get(&self, key: &str) -> (r: Option<&String>)
        requires
            self.wf(),
        ensures
            r matches Some(v) ==> self@.contains_key(key@) && self@[key@] == v@,
            r is None ==> !self@.contains_key(key@),
    {
        proof {
            lemma_str_map_of_contains(self.entries@, key@);
        }
        match self.position(key) {
            Some(i) => {
                proof {
                    lemma_str_map_of_index(self.entries@, i as int);
                }
                Some(&self.entries[i].1)
            }
            None => None,
        }
    }

    /// An independent copy with the same bindings.
    pub fn duplicate(&self) -> (r: Context)
        requires
            self.wf(),
        ensures
            r.wf(),
            r@ == self@,
    {
        let mut entries: Vec<(String, String)> = Vec::new();
        let n = self.entries.len();
        for i in 0..n
            invariant
                n == self.entries@.len(),
                entries@.len() == i,
                forall|j: int| 0 <= j < i ==> entries@[j] == self.entries@[j],
        {
            let p = (self.entries[i].0.clone(), self.entries[i].1.clone());
            entries.push(p);
        }
        proof {
            assert(entries@ =~= self.entries@);
        }
        Context { entries }
    }

    /// The bindings as pairs, for handing to the template engine.
    pub(crate) fn pairs(&self) -> &Vec<(String, String)> {
        &self.entries
    }

    /// The bindings as owned pairs, describing exactly this mapping, for
    /// handing every binding to an outside template engine.
    pub fn to_pairs(&self) -> (r: Vec<(String, String)>)
        requires
            self.wf(),
        ensures
            str_map_of(r@) == self@,
    {
        let mut r: Vec<(String, String)> = Vec::new();
        let n = self.entries.len();
        for i in 0..n
            invariant
                n == self.entries@.len(),
                r@.len() == i,
                forall|j: int| 0 <= j < i ==> r@[j] == self.entries@[j],
        {
            r.push((self.entries[i].0.clone(), self.entries[i].1.clone()));
        }
        proof {
            assert(r@ =~= self.entries@);
        }
        r
    }
}

/// Insert the decomposition of `path` (resolved against `cwd`) under
/// `prefix`: the full slash path, its directory, that directory's name, the
/// file name, the stem and the extension.
pub fn insert_file_context(path: &str, prefix: &str, context: &mut Context, cwd: &str)
    requires
        old(context).wf(),
    ensures
        final(context).wf(),
        final(context)@ == old(context)@
            .insert(prefix@ + "_path"@, resolved(cwd@, path@))
            .insert(prefix@ + "_dir"@, dir_of(resolved(cwd@, path@)))
            .insert(prefix@ + "_dirname"@, dirname_of(resolved(cwd@, path@)))
            .insert(prefix@ + "_name"@, name_of(resolved(cwd@, path@)))
            .insert(prefix@ + "_stem"@, stem_of(resolved(cwd@, path@)))
            .insert(prefix@ + "_ext"@, ext_of(resolved(cwd@, path@))),
{
    let abs = path_resolve(cwd, path);

    let mut key = prefix.to_owned();
    key.append("_path");
    context.insert(key.as_str(), abs.as_str());

    let mut key = prefix.to_owned();
    key.append("_dir");
    let v = path_dir(abs.as_str());
    context.insert(key.as_str(), v.as_str());

    let mut key = prefix.to_owned();
    key.append("_dirname");
    let v = path_dirname(abs.as_str());
    context.insert(key.as_str(), v.as_str());

    let mut key = prefix.to_owned();
    key.append("_name");
    let v = path_name(abs.as_str());
    context.insert(key.as_str(), v.as_str());

    let mut key = prefix.to_owned();
    key.append("_stem");
    let v = path_stem(abs.as_str());
    context.insert(key.as_str(), v.as_str());

    let mut key = prefix.to_owned();
    key.append("_ext");
    let v = path_ext(abs.as_str());
    context.insert(key.as_str(), v.as_str());
}

/// The base context for a process: the full command line, the start
/// timestamp, the working directory, and the decomposition of the
/// executable's path under the prefix `cmd`.  The caller supplies those
/// process facts; what each one means in the context is pinned here.
pub fn build_cmd_map(exe_path: &str, cmd_line: &str, now: &str, cwd: &str) -> (r: Context)
    ensures
        r.wf(),
        r@ == Map::<Seq<char>, Seq<char>>::empty()
            .insert("cmd_line"@, cmd_line@)
            .insert("now"@, now@)
            .insert("cwd"@, cwd@)
            .insert("cmd"@ + "_path"@, resolved(cwd@, exe_path@))
            .insert("cmd"@ + "_dir"@, dir_of(resolved(cwd@, exe_path@)))
            .insert("cmd"@ + "_dirname"@, dirname_of(resolved(cwd@, exe_path@)))
            .insert("cmd"@ + "_name"@, name_of(resolved(cwd@, exe_path@)))
            .insert("cmd"@ + "_stem"@, stem_of(resolved(cwd@, exe_path@)))
            .insert("cmd"@ + "_ext"@, ext_of(resolved(cwd@, exe_path@))),
{
    let mut context = Context::new();
    context.insert("cmd_line", cmd_line);
    context.insert("now", now);
    context.insert("cwd", cwd);
    insert_file_context(exe_path, "cmd", &mut context, cwd);
    context
}

/// Seed the context so that, until the real values are known, each standard
/// variable renders back to itself.
pub fn insert_default_context(context: &mut Context)
    requires
        old(context).wf(),
    ensures
        final(context).wf(),
        final(context)@ == old(context)@
            .insert("spy_name"@, "{{ spy_name }}"@)
            .insert("input"@, "{{ input }}"@)
            .insert("output"@, "{{ output }}"@)
            .insert("event_kind"@, "{{ event_kind }}"@)
            .insert("event_path"@, "{{ event_path }}"@)
            .insert("event_dir"@, "{{ event_dir }}"@)
            .insert("event_dirname"@, "{{ event_dirname }}"@)
            .insert("event_name"@, "{{ event_name }}"@)
            .insert("event_stem"@, "{{ event_stem }}"@)
            .insert("event_ext"@, "{{ event_ext }}"@)
            .insert("stop_path"@, "{{ stop_path }}"@)
            .insert("stop_dir"@, "{{ stop_dir }}"@)
            .insert("stop_dirname"@, "{{ stop_dirname }}"@)
            .insert("stop_name"@, "{{ stop_name }}"@)
            .insert("stop_stem"@, "{{ stop_stem }}"@)
            .insert("stop_ext"@, "{{ stop_ext }}"@)
            .insert("stop_force_path"@, "{{ stop_force_path }}"@)
            .insert("stop_force_dir"@, "{{ stop_force_dir }}"@)
            .insert("stop_force_dirname"@, "{{ stop_force_dirname }}"@)
            .insert("stop_force_name"@, "{{ stop_force_name }}"@)
            .insert("stop_force_stem"@, "{{ stop_force_stem }}"@)
            .insert("stop_force_ext"@, "{{ stop_force_ext }}"@)
            .insert("log_path"@, "{{ log_path }}"@)
            .insert("log_dir"@, "{{ log_dir }}"@)
            .insert("log_dirname"@, "{{ log_dirname }}"@)
            .insert("log_name"@, "{{ log_name }}"@)
            .insert("log_stem"@, "{{ log_stem }}"@)
            .insert("log_ext"@, "{{ log_ext }}"@),
{
    context.insert("spy_name", "{{ spy_name }}");
    context.insert("input", "{{ input }}");
    context.insert("output", "{{ output }}");
    context.insert("event_kind", "{{ event_kind }}");
    context.insert("event_path", "{{ event_path }}");
    context.insert("event_dir", "{{ event_dir }}");
    context.insert("event_dirname", "{{ event_dirname }}");
    context.insert("event_name", "{{ event_name }}");
    context.insert("event_stem", "{{ event_stem }}");
    context.insert("event_ext", "{{ event_ext }}");
    context.insert("stop_path", "{{ stop_path }}");
    context.insert("stop_dir", "{{ stop_dir }}");
    context.insert("stop_dirname", "{{ stop_dirname }}");
    context.insert("stop_name", "{{ stop_name }}");
    context.insert("stop_stem", "{{ stop_stem }}");
    context.insert("stop_ext", "{{ stop_ext }}");
    context.insert("stop_force_path", "{{ stop_force_path }}");
    context.insert("stop_force_dir", "{{ stop_force_dir }}");
    context.insert("stop_force_dirname", "{{ stop_force_dirname }}");
    context.insert("stop_force_name", "{{ stop_force_name }}");
    context.insert("stop_force_stem", "{{ stop_force_stem }}");
    context.insert("stop_force_ext", "{{ stop_force_ext }}");
    context.insert("log_path", "{{ log_path }}");
    context.insert("log_dir", "{{ log_dir }}");
    context.insert("log_dirname", "{{ log_dirname }}");
    context.insert("log_name", "{{ log_name }}");
    context.insert("log_stem", "{{ log_stem }}");
    context.insert("log_ext", "{{ log_ext }}");
}

} // verus!
