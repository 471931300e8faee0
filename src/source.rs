//! Where raw configuration strings come from.
use crate::err::{ConfError, ErrModel};
use vstd::prelude::*;

verus! {

pub open spec fn is_lower(c: char) -> bool {
    97 <= (c as u32) && (c as u32) <= 122
}

pub open spec fn upper_char(c: char) -> char {
    if is_lower(c) { ((c as u32) - 32) as char } else { c }
}

pub open spec fn ascii_upper(s: Seq<char>) -> Seq<char> {
    s.map_values(|c: char| upper_char(c))
}

/// Relies on `str::to_ascii_uppercase`: each ASCII letter `a`..=`z` becomes its
/// upper-case form, every other character is kept.
#[verifier::external_body]
fn to_upper(s: &str) -> (r: String)
    ensures
        r@ == ascii_upper(s@),
{
    s.to_ascii_uppercase()
}

/// A source of raw configuration strings. `new` scopes a source to a namespace;
/// `get` looks a key up and gives `Ok(None)` when the key is simply absent,
/// keeping `Err` for a lookup that failed.
pub trait ConfSource: Sized {
    /// The source was made for the namespace `name`. A source that does not
    /// say more keeps this default, which promises nothing.
    open spec fn scoped_to(&self, name: Seq<char>) -> bool {
        true
    }

    /// `r` is an answer that the source may give when asked for `key`. A source
    /// that does not say more keeps this default: any answer may come.
    open spec fn answers(&self, key: Seq<char>, r: Result<Option<Seq<char>>, ErrModel>) -> bool {
        true
    }

    fn new(name: &str) -> (r: Self)
        ensures
            r.scoped_to(name@),
    ;

    fn get(&self, key: &str) -> (r: Result<Option<String>, ConfError>)
        ensures
            self.answers(key@, lookup_view(r)),
    ;
}

/// What reading one environment variable gave.
pub enum VarOutcome {
    /// The variable is set to this text.
    Present(String),
    /// The variable is not set.
    NotPresent,
    /// The variable is set but cannot be read as text; the cause, described.
    NotUnicode(String),
}

/// The naming scheme of environment variables: `{PREFIX}_{KEY}`, upper case.
pub struct EnvSource {
    /// The namespace in upper case.
    pub prefix: String,
}

/// What a source gives back, with its strings as character sequences.
pub open spec fn lookup_view(l: Result<Option<String>, ConfError>) -> Result<Option<Seq<char>>, ErrModel> {
    match l {
        Ok(Some(s)) => Ok(Some(s@)),
        Ok(None) => Ok(None),
        Err(e) => Err(e@),
    }
}

impl EnvSource {
    pub fn new(name: &str) -> (r: Self)
        ensures
            r.prefix@ == ascii_upper(name@),
    {
        EnvSource { prefix: to_upper(name) }
    }

    /// The name of the environment variable that holds `key`.
    pub fn env_key(&self, key: &str) -> (r: String)
        ensures
            r@ == self.prefix@ + seq!['_'] + ascii_upper(key@),
    {
        let mut r = self.prefix.clone();
        proof {
            reveal_strlit("_");
        }
        r.append("_");
        let up = to_upper(key);
        r.append(up.as_str());
        r
    }

    /// The answer of the source for the variable `env_key`, given what reading it gave.
    pub fn from_var(env_key: &str, found: VarOutcome) -> (r: Result<Option<String>, ConfError>)
        ensures
            lookup_view(r) == match found {
                VarOutcome::Present(v) => Ok(Some(v@)),
                VarOutcome::NotPresent => Ok(None),
                VarOutcome::NotUnicode(c) => Err(ErrModel::EnvLookupFailed(env_key@, c@)),
            },
    {
        match found {
            VarOutcome::Present(v) => Ok(Some(v)),
            VarOutcome::NotPresent => Ok(None),
            VarOutcome::NotUnicode(c) => Err(ConfError::env_lookup_failed(env_key, c.as_str())),
        }
    }
}

/// The first value set for `k` in `vars`, looking from position `i` on.
pub open spec fn find_from(vars: Seq<(String, String)>, k: Seq<char>, i: int) -> Option<Seq<char>>
    decreases vars.len() - i,
{
    if i < 0 || i >= vars.len() {
        None
    } else if vars[i].0@ == k {
        Some(vars[i].1@)
    } else {
        find_from(vars, k, i + 1)
    }
}

proof fn lemma_find_shift(vars: Seq<(String, String)>, x: (String, String), k: Seq<char>, i: int)
    requires
        0 <= i,
    ensures
        find_from(vars.insert(0, x), k, i + 1) == find_from(vars, k, i),
    decreases vars.len() - i,
{
    if i < vars.len() {
        lemma_find_shift(vars, x, k, i + 1);
    }
}

/// An in-memory source that names its variables as the environment does.
pub struct MapSource {
    pub env: EnvSource,
    pub vars: Vec<(String, String)>,
}

impl MapSource {
    /// The value that the variable `k` is set to, if any.
    pub open spec fn var(&self, k: Seq<char>) -> Option<Seq<char>> {
        find_from(self.vars@, k, 0)
    }

    /// Sets the variable `k` (a full variable name) to `v`.
    pub fn set_var(&mut self, k: &str, v: &str)
        ensures
            final(self).env == old(self).env,
            forall|k2: Seq<char>| #[trigger] final(self).var(k2) == if k2 == k@ {
                Some(v@)
            } else {
                old(self).var(k2)
            },
    {
        let ghost old_vars = self.vars@;
        self.vars.insert(0, (k.to_owned(), v.to_owned()));
        proof {
            assert forall|k2: Seq<char>| #[trigger] self.var(k2) == if k2 == k@ {
                Some(v@)
            } else {
                find_from(old_vars, k2, 0)
            } by {
                lemma_find_shift(old_vars, self.vars@[0], k2, 0);
                assert(self.vars@ == old_vars.insert(0, self.vars@[0]));
            }
        }
    }

    /// The value of the variable that holds `key` under the environment's naming.
    pub fn lookup(&self, key: &str) -> (r: Option<String>)
        ensures
            self.var(self.env.prefix@ + seq!['_'] + ascii_upper(key@)) == match r {
                Some(s) => Some(s@),
                None => None,
            },
    {
        let name = self.env.env_key(key);
        let ghost full = self.env.prefix@ + seq!['_'] + ascii_upper(key@);
        let mut i: usize = 0;
        while i < self.vars.len()
            invariant
                i <= self.vars@.len(),
                name@ == full,
                full == self.env.prefix@ + seq!['_'] + ascii_upper(key@),
                find_from(self.vars@, name@, 0) == find_from(self.vars@, name@, i as int),
            decreases self.vars@.len() - i,
        {
            if self.vars[i].0 == name {
                let v = self.vars[i].1.clone();
                assert(find_from(self.vars@, name@, i as int) == Some(v@));
                return Some(v);
            }
            i = i + 1;
        }
        None
    }
}

impl ConfSource for MapSource {
    /// The prefix is the namespace in upper case.
    open spec fn scoped_to(&self, name: Seq<char>) -> bool {
        self.env.prefix@ == ascii_upper(name)
    }

    /// The one answer is the value of the variable that holds `key`; a lookup never fails.
    open spec fn answers(&self, key: Seq<char>, r: Result<Option<Seq<char>>, ErrModel>) -> bool {
        r == Ok::<Option<Seq<char>>, ErrModel>(self.var(self.env.prefix@ + seq!['_'] + ascii_upper(key)))
    }

    fn new(name: &str) -> (r: Self) {
        MapSource { env: EnvSource::new(name), vars: Vec::new() }
    }

    fn get(&self, key: &str) -> (r: Result<Option<String>, ConfError>) {
        Ok(self.lookup(key))
    }
}

} // verus!
