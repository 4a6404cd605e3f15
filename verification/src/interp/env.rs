use vstd::prelude::*;
use vstd::string::*;
use crate::interp::model::{lookup_from, EnvView, OutputView, ValueView};
use crate::interp::{Output, Value};

verus! {

/// One name with the value bound to it.
#[derive(Debug)]
struct Binding<'ip> {
    name: String,
    value: Value<'ip>,
}

/// One lexical scope: a map from names to values, stored as a list in which
/// the last entry for a name is the one that counts. It is a list and no
/// hash map because of what can be proved: of a list the verifier knows
/// every entry, of a hash map with strings for keys it knows next to
/// nothing.
#[derive(Debug)]
struct Scope<'ip> {
    entries: Vec<Binding<'ip>>,
}

/// The map that the first `n` entries make.
spec fn entries_map<'ip>(entries: Seq<Binding<'ip>>, n: int) -> Map<Seq<char>, ValueView>
    decreases n,
{
    if n <= 0 {
        Map::empty()
    } else {
        entries_map(entries, n - 1).insert(entries[n - 1].name@, entries[n - 1].value@)
    }
}

/// The last index below `n` whose entry has the given name, or -1.
spec fn last_index<'ip>(entries: Seq<Binding<'ip>>, n: int, name: Seq<char>) -> int
    decreases n,
{
    if n <= 0 {
        -1
    } else if entries[n - 1].name@ == name {
        n - 1
    } else {
        last_index(entries, n - 1, name)
    }
}

proof fn lemma_last_index<'ip>(entries: Seq<Binding<'ip>>, n: int, name: Seq<char>)
    requires
        0 <= n <= entries.len(),
    ensures
        ({
            let k = last_index(entries, n, name);
            let m = entries_map(entries, n);
            &&& -1 <= k < n
            &&& k < 0 ==> !m.contains_key(name)
            &&& k >= 0 ==> entries[k].name@ == name && m.contains_key(name) && m[name]
                == entries[k].value@
        }),
    decreases n,
{
    if n > 0 {
        lemma_last_index(entries, n - 1, name);
    }
}

proof fn lemma_entries_prefix<'ip>(a: Seq<Binding<'ip>>, b: Seq<Binding<'ip>>, n: int)
    requires
        0 <= n <= a.len(),
        n <= b.len(),
        forall|j: int| 0 <= j < n ==> a[j] == b[j],
    ensures
        entries_map(a, n) == entries_map(b, n),
    decreases n,
{
    if n > 0 {
        lemma_entries_prefix(a, b, n - 1);
    }
}

proof fn lemma_replace<'ip>(entries: Seq<Binding<'ip>>, n: int, k: int, b: Binding<'ip>)
    requires
        0 <= k < n <= entries.len(),
        k == last_index(entries, n, b.name@),
    ensures
        entries_map(entries.update(k, b), n) == entries_map(entries, n).insert(b.name@, b.value@),
    decreases n,
{
    let upd = entries.update(k, b);
    lemma_last_index(entries, n - 1, b.name@);
    if k == n - 1 {
        lemma_entries_prefix(upd, entries, n - 1);
        assert(entries_map(upd, n) =~= entries_map(entries, n).insert(b.name@, b.value@));
    } else {
        assert(entries[n - 1].name@ != b.name@);
        lemma_replace(entries, n - 1, k, b);
        assert(upd[n - 1] == entries[n - 1]);
        assert(entries_map(upd, n) == entries_map(upd, n - 1).insert(
            entries[n - 1].name@,
            entries[n - 1].value@,
        ));
        assert(entries_map(upd, n) =~= entries_map(entries, n).insert(b.name@, b.value@));
    }
}

impl<'ip> Scope<'ip> {
    closed spec fn view(&self) -> Map<Seq<char>, ValueView> {
        entries_map(self.entries@, self.entries.len() as int)
    }

    fn new() -> (s: Scope<'ip>)
        ensures
            s@ == Map::<Seq<char>, ValueView>::empty(),
    {
        Scope { entries: Vec::new() }
    }

    /// The index of the entry that counts for `name`.
    fn find(&self, name: &str) -> (r: Option<usize>)
        ensures
            match r {
                Some(k) => k < self.entries.len() && k == last_index(
                    self.entries@,
                    self.entries.len() as int,
                    name@,
                ),
                None => last_index(self.entries@, self.entries.len() as int, name@) < 0,
            },
    {
        let wanted = String::from_str(name);
        let mut i: usize = self.entries.len();
        while i > 0
            invariant
                0 <= i <= self.entries.len(),
                wanted@ == name@,
                last_index(self.entries@, self.entries.len() as int, name@) == last_index(
                    self.entries@,
                    i as int,
                    name@,
                ),
            decreases i,
        {
            if self.entries[i - 1].name == wanted {
                return Some(i - 1);
            }
            i -= 1;
        }
        None
    }

    fn get(&self, name: &str) -> (r: Option<&Value<'ip>>)
        ensures
            match r {
                Some(v) => self@.contains_key(name@) && self@[name@] == v@,
                None => !self@.contains_key(name@),
            },
    {
        proof {
            lemma_last_index(self.entries@, self.entries.len() as int, name@);
        }
        match self.find(name) {
            Some(k) => Some(&self.entries[k].value),
            None => None,
        }
    }

    fn insert(&mut self, name: &str, value: Value<'ip>)
        ensures
            final(self)@ == old(self)@.insert(name@, value@),
    {
        let binding = Binding { name: String::from_str(name), value };
        match self.find(name) {
            Some(k) => {
                proof {
                    lemma_replace(self.entries@, self.entries.len() as int, k as int, binding);
                }
                self.entries.set(k, binding);
            },
            None => {
                proof {
                    lemma_entries_prefix(
                        self.entries@.push(binding),
                        self.entries@,
                        self.entries.len() as int,
                    );
                }
                self.entries.push(binding);
            },
        }
    }
}

/// The models of a list of outputs, in order.
pub open spec fn output_views(outputs: Seq<Output>) -> Seq<OutputView> {
    Seq::new(outputs.len(), |i: int| outputs[i]@)
}

/// The environment of a run: a stack of lexical scopes, innermost last; the
/// two flags of the current function activation; and the writes that the
/// program has asked for and that nobody has performed yet.
#[derive(Debug)]
pub struct Env<'ip> {
    sync: bool,
    first_iter: bool,
    value_stack: Vec<Scope<'ip>>,
    outputs: Vec<Output>,
}

impl<'ip> View for Env<'ip> {
    type V = EnvView;

    closed spec fn view(&self) -> EnvView {
        EnvView {
            sync: self.sync,
            first_iter: self.first_iter,
            scopes: Seq::new(self.value_stack.len() as nat, |i: int| self.value_stack[i]@),
            outputs: output_views(self.outputs@),
        }
    }
}

impl<'ip> Default for Env<'ip> {
    fn default() -> (env: Self)
        ensures
            env@ == EnvView::initial(),
    {
        let env = Env {
            sync: false,
            first_iter: false,
            value_stack: Vec::new(),
            outputs: Vec::new(),
        };
        assert(env@.scopes =~= Seq::empty());
        assert(env@.outputs =~= Seq::empty());
        env
    }
}

impl<'ip> Env<'ip> {
    pub fn new() -> (env: Self)
        ensures
            env@ == EnvView::initial(),
    {
        Env::default()
    }

    pub fn set_sync(&mut self, sync: bool)
        ensures
            final(self)@ == old(self)@.set_sync(sync),
    {
        self.sync = sync;
    }

    pub fn is_sync(&self) -> (r: bool)
        ensures
            r == self@.sync,
    {
        self.sync
    }

    pub fn set_first_iter(&mut self, first: bool)
        ensures
            final(self)@ == old(self)@.set_first_iter(first),
    {
        self.first_iter = first;
    }

    pub fn is_first_iter(&self) -> (r: bool)
        ensures
            r == self@.first_iter,
    {
        self.first_iter
    }

    /// How many scopes are on the stack.
    pub fn depth(&self) -> (n: usize)
        ensures
            n == self@.scopes.len(),
    {
        self.value_stack.len()
    }

    pub fn push_scope(&mut self)
        ensures
            final(self)@ == old(self)@.push_scope(),
    {
        self.value_stack.push(Scope::new());
        assert(self@.scopes =~= old(self)@.scopes.push(Map::empty()));
    }

    /// Removes the innermost scope. Only a caller that pushed one may pop.
    pub fn pop_scope(&mut self)
        requires
            old(self)@.scopes.len() > 0,
        ensures
            final(self)@ == old(self)@.pop_scope(),
    {
        self.value_stack.pop();
        assert(self@.scopes =~= old(self)@.scopes.drop_last());
    }

    /// The value that `var` resolves to: scopes are searched from the
    /// innermost outwards, and the first binding found wins.
    pub fn lookup_var(&self, var: &str) -> (r: Option<&Value<'ip>>)
        ensures
            value_ref_view(r) == self@.lookup(var@),
    {
        let mut i: usize = self.value_stack.len();
        while i > 0
            invariant
                0 <= i <= self.value_stack.len(),
                self@.lookup(var@) == lookup_from(self@.scopes, i as int, var@),
            decreases i,
        {
            match self.value_stack[i - 1].get(var) {
                Some(v) => {
                    return Some(v);
                },
                None => {},
            }
            i -= 1;
        }
        None
    }

    /// Binds `name` to `value` in the innermost scope, over any binding that
    /// the scope has for the name. Outer scopes are not searched.
    pub fn insert_var(&mut self, name: &str, value: Value<'ip>) -> (r: &Value<'ip>)
        requires
            old(self)@.scopes.len() > 0,
        ensures
            final(self)@ == old(self)@.bind(name@, value@),
            r@ == value@,
    {
        let last = self.value_stack.len() - 1;
        self.value_stack[last].insert(name, value);
        assert(self@.scopes =~= old(self)@.bind(name@, value@).scopes);
        match self.value_stack[last].get(name) {
            Some(v) => v,
            None => vstd::pervasive::unreached(),
        }
    }

    /// Records a write that the program asked for.
    pub fn emit(&mut self, output: Output)
        ensures
            final(self)@ == old(self)@.emit(output@),
    {
        self.outputs.push(output);
        assert(self@.outputs =~= old(self)@.outputs.push(output@));
    }

    /// Hands out the writes recorded so far, oldest first, and forgets them.
    pub fn take_outputs(&mut self) -> (r: Vec<Output>)
        ensures
            output_views(r@) == old(self)@.outputs,
            final(self)@ == (EnvView { outputs: Seq::empty(), ..old(self)@ }),
    {
        let mut taken: Vec<Output> = Vec::new();
        core::mem::swap(&mut taken, &mut self.outputs);
        assert(self@.outputs =~= Seq::empty());
        taken
    }
}

/// The model of a borrowed value that may be absent.
pub open spec fn value_ref_view<'a, 'ip>(v: Option<&'a Value<'ip>>) -> Option<ValueView> {
    match v {
        Some(v) => Some(v@),
        None => None,
    }
}

} // verus!
