//! Entries, the registry that holds them, and how a key resolves to a value.
use crate::err::{ConfError, ErrModel};
use crate::source::{lookup_view, ConfSource};
use crate::value::{decimal, signed_decimal, ConfValue, ValKind};
use vstd::prelude::*;

verus! {

/// The namespace of a registry made by `Conf::default`.
pub const DEFAULT_NAME: &'static str = "vcfg";

pub open spec fn opt_str(o: Option<String>) -> Option<Seq<char>> {
    match o {
        Some(s) => Some(s@),
        None => None,
    }
}

/// The declaration of one option whose values have type `V`.
pub struct ConfEntry<V: ConfValue> {
    pub name: String,
    pub val_type: core::marker::PhantomData<V>,
    /// The default, in string form; it is read as `V` only when it is used.
    pub default: Option<String>,
}

/// An entry with its value type recorded as a `ValKind`, so that entries of
/// different types can share one registry.
pub struct AnyConfEntry {
    pub name: String,
    pub kind: ValKind,
    pub default: Option<String>,
}

/// What the registry knows of a key: the type it was declared with and its default.
pub struct EntryModel {
    pub kind: ValKind,
    pub default: Option<Seq<char>>,
}

impl AnyConfEntry {
    pub open spec fn model(&self) -> EntryModel {
        EntryModel { kind: self.kind, default: opt_str(self.default) }
    }
}

impl<V: ConfValue> ConfEntry<V> {
    /// An entry with no default.
    pub fn new(name: &str) -> (r: Self)
        ensures
            r.name@ == name@,
            r.default is None,
    {
        ConfEntry { name: name.to_owned(), val_type: core::marker::PhantomData, default: None }
    }

    /// The same entry with `default` as its default.
    pub fn with_default(self, default: &str) -> (r: Self)
        ensures
            r.name == self.name,
            opt_str(r.default) == Some(default@),
    {
        ConfEntry { name: self.name, val_type: self.val_type, default: Some(default.to_owned()) }
    }

    /// The entry with its value type recorded as a kind.
    pub fn into_any(self) -> (r: AnyConfEntry)
        ensures
            r.name == self.name,
            r.kind == V::kind_spec(),
            r.default == self.default,
    {
        AnyConfEntry { name: self.name, kind: V::kind(), default: self.default }
    }
}

pub open spec fn names_unique(s: Seq<AnyConfEntry>) -> bool {
    forall|i: int, j: int|
        #![trigger s[i], s[j]]
        0 <= i < s.len() && 0 <= j < s.len() && i != j ==> s[i].name@ != s[j].name@
}

pub open spec fn has_name(s: Seq<AnyConfEntry>, k: Seq<char>) -> bool {
    exists|i: int| 0 <= i < s.len() && #[trigger] s[i].name@ == k
}

pub open spec fn index_of(s: Seq<AnyConfEntry>, k: Seq<char>) -> int {
    choose|i: int| 0 <= i < s.len() && #[trigger] s[i].name@ == k
}

/// The entries of a sequence, keyed by name.
pub open spec fn entries_of(s: Seq<AnyConfEntry>) -> Map<Seq<char>, EntryModel> {
    Map::new(|k: Seq<char>| has_name(s, k), |k: Seq<char>| s[index_of(s, k)].model())
}

proof fn lemma_index(s: Seq<AnyConfEntry>, i: int)
    requires
        names_unique(s),
        0 <= i < s.len(),
    ensures
        has_name(s, s[i].name@),
        index_of(s, s[i].name@) == i,
        entries_of(s).contains_key(s[i].name@),
        entries_of(s)[s[i].name@] == s[i].model(),
{
    assert(has_name(s, s[i].name@));
    let j = index_of(s, s[i].name@);
    assert(s[j].name@ == s[i].name@);
}

proof fn lemma_update(s: Seq<AnyConfEntry>, i: int, e: AnyConfEntry)
    requires
        names_unique(s),
        0 <= i < s.len(),
        s[i].name@ == e.name@,
    ensures
        names_unique(s.update(i, e)),
        entries_of(s.update(i, e)) == entries_of(s).insert(e.name@, e.model()),
{
    let t = s.update(i, e);
    assert(names_unique(t)) by {
        assert forall|a: int, b: int|
            0 <= a < t.len() && 0 <= b < t.len() && a != b implies t[a].name@ != t[b].name@ by {
            assert(s[a].name@ != s[b].name@);
        }
    }
    assert forall|k: Seq<char>| has_name(t, k) == (has_name(s, k) || k == e.name@) by {
        if has_name(s, k) {
            let j = index_of(s, k);
            assert(t[j].name@ == k);
        }
        if has_name(t, k) {
            let j = index_of(t, k);
            assert(s[j].name@ == k || j == i);
        }
    }
    assert forall|k: Seq<char>| #[trigger] has_name(t, k) implies entries_of(t)[k] == entries_of(
        s,
    ).insert(e.name@, e.model())[k] by {
        let j = index_of(t, k);
        lemma_index(t, j);
        if k != e.name@ {
            lemma_index(s, j);
        }
    }
    assert(entries_of(t) =~= entries_of(s).insert(e.name@, e.model()));
}

proof fn lemma_push(s: Seq<AnyConfEntry>, e: AnyConfEntry)
    requires
        names_unique(s),
        !has_name(s, e.name@),
    ensures
        names_unique(s.push(e)),
        entries_of(s.push(e)) == entries_of(s).insert(e.name@, e.model()),
{
    let t = s.push(e);
    assert(names_unique(t)) by {
        assert forall|a: int, b: int|
            0 <= a < t.len() && 0 <= b < t.len() && a != b implies t[a].name@ != t[b].name@ by {
            if a < s.len() && b < s.len() {
                assert(s[a].name@ != s[b].name@);
            } else if a < s.len() {
                assert(t[a] == s[a]);
            } else {
                assert(t[b] == s[b]);
            }
        }
    }
    assert forall|k: Seq<char>| has_name(t, k) == (has_name(s, k) || k == e.name@) by {
        if has_name(s, k) {
            let j = index_of(s, k);
            assert(t[j].name@ == k);
        }
        if k == e.name@ {
            assert(t[s.len() as int].name@ == k);
        }
        if has_name(t, k) {
            let j = index_of(t, k);
            if j < s.len() {
                assert(s[j].name@ == k);
            }
        }
    }
    assert forall|k: Seq<char>| #[trigger] has_name(t, k) implies entries_of(t)[k] == entries_of(
        s,
    ).insert(e.name@, e.model())[k] by {
        let j = index_of(t, k);
        lemma_index(t, j);
        if k != e.name@ {
            assert(t[j] == s[j]);
            lemma_index(s, j);
        }
    }
    assert(entries_of(t) =~= entries_of(s).insert(e.name@, e.model()));
}

/// How a key resolves, given the registry's entries and the source's answer for it:
/// an unregistered key, or one registered with another type, fails before the
/// answer matters; otherwise a source error is passed on, a value from the source
/// wins over the default, and the string found is read as `V`.
pub open spec fn resolve_spec<V: ConfValue>(
    entries: Map<Seq<char>, EntryModel>,
    key: Seq<char>,
    looked: Result<Option<Seq<char>>, ErrModel>,
) -> Result<Option<V::V>, ErrModel> {
    if !entries.contains_key(key) {
        Err(ErrModel::KeyNotFound(key))
    } else if entries[key].kind != V::kind_spec() {
        Err(ErrModel::ValParseFailed(key, Seq::empty()))
    } else {
        match looked {
            Err(e) => Err(e),
            Ok(found) => {
                let raw = match found {
                    Some(s) => Some(s),
                    None => entries[key].default,
                };
                match raw {
                    None => Ok(None),
                    Some(s) => parsed::<V>(key, s),
                }
            },
        }
    }
}

/// Reading the string `s` found for `key` as a `V`.
pub open spec fn parsed<V: ConfValue>(key: Seq<char>, s: Seq<char>) -> Result<Option<V::V>, ErrModel> {
    match V::parse_spec(s) {
        Some(v) => Ok(Some(v)),
        None => Err(ErrModel::ValParseFailed(key, s)),
    }
}

/// What `require` makes of a resolution: no value is an error.
pub open spec fn required<T>(r: Result<Option<T>, ErrModel>, key: Seq<char>) -> Result<T, ErrModel> {
    match r {
        Ok(Some(v)) => Ok(v),
        Ok(None) => Err(ErrModel::ValNotFound(key)),
        Err(e) => Err(e),
    }
}

pub open spec fn resolved_view<V: ConfValue>(r: Result<Option<V>, ConfError>) -> Result<
    Option<V::V>,
    ErrModel,
> {
    match r {
        Ok(Some(v)) => Ok(Some(v.deep_view())),
        Ok(None) => Ok(None),
        Err(e) => Err(e@),
    }
}

pub open spec fn required_view<V: ConfValue>(r: Result<V, ConfError>) -> Result<V::V, ErrModel> {
    match r {
        Ok(v) => Ok(v.deep_view()),
        Err(e) => Err(e@),
    }
}

/// What a call of `get` can give: an unregistered key is `KeyNotFound` and an
/// entry of another type is `ValParseFailed` with an empty value, both without
/// asking the source; otherwise the source is asked for `key`, and the result is
/// the resolution of one of its answers.
pub open spec fn get_outcome<V: ConfValue, S: ConfSource>(
    source: S,
    entries: Map<Seq<char>, EntryModel>,
    key: Seq<char>,
    out: Result<Option<V::V>, ErrModel>,
) -> bool {
    if !entries.contains_key(key) {
        out == Err::<Option<V::V>, ErrModel>(ErrModel::KeyNotFound(key))
    } else if entries[key].kind != V::kind_spec() {
        out == Err::<Option<V::V>, ErrModel>(ErrModel::ValParseFailed(key, Seq::empty()))
    } else {
        exists|looked: Result<Option<Seq<char>>, ErrModel>|
            source.answers(key, looked) && out == resolve_spec::<V>(entries, key, looked)
    }
}

/// What a call of `require` can give: an outcome of `get`, with no value made
/// `ValNotFound`.
pub open spec fn require_outcome<V: ConfValue, S: ConfSource>(
    source: S,
    entries: Map<Seq<char>, EntryModel>,
    key: Seq<char>,
    out: Result<V::V, ErrModel>,
) -> bool {
    exists|g: Result<Option<V::V>, ErrModel>|
        get_outcome::<V, S>(source, entries, key, g) && out == required(g, key)
}

/// A named set of configuration options bound to one source.
pub struct Conf<S: ConfSource> {
    /// The namespace; the source was made from it.
    pub name: String,
    pub source: S,
    pub options: Vec<AnyConfEntry>,
}

impl<S: ConfSource> Conf<S> {
    /// The registered entries, keyed by name.
    pub open spec fn entries(&self) -> Map<Seq<char>, EntryModel> {
        entries_of(self.options@)
    }

    /// No two entries share a name.
    pub open spec fn wf(&self) -> bool {
        names_unique(self.options@)
    }

    /// An empty registry for the namespace `name`, with its source.
    pub fn new(name: &str) -> (r: Self)
        ensures
            r.wf(),
            r.name@ == name@,
            r.source.scoped_to(name@),
            r.entries() == Map::<Seq<char>, EntryModel>::empty(),
    {
        let r = Conf { name: name.to_owned(), source: S::new(name), options: Vec::new() };
        assert(entries_of(r.options@) =~= Map::<Seq<char>, EntryModel>::empty());
        r
    }

    fn find(&self, key: &str) -> (r: Option<usize>)
        ensures
            match r {
                Some(i) => i < self.options@.len() && self.options@[i as int].name@ == key@,
                None => !has_name(self.options@, key@),
            },
    {
        let k = key.to_owned();
        let mut i: usize = 0;
        while i < self.options.len()
            invariant
                i <= self.options@.len(),
                k@ == key@,
                forall|j: int| 0 <= j < i ==> #[trigger] self.options@[j].name@ != key@,
            decreases self.options@.len() - i,
        {
            if self.options[i].name == k {
                return Some(i);
            }
            i = i + 1;
        }
        None
    }

    /// Registers `entry`, replacing any entry of the same name.
    pub fn entry<V: ConfValue>(self, entry: ConfEntry<V>) -> (r: Self)
        requires
            self.wf(),
        ensures
            r.wf(),
            r.name == self.name,
            r.source == self.source,
            r.entries() == self.entries().insert(
                entry.name@,
                EntryModel { kind: V::kind_spec(), default: opt_str(entry.default) },
            ),
    {
        let mut this = self;
        let any = entry.into_any();
        match this.find(any.name.as_str()) {
            Some(i) => {
                proof {
                    lemma_update(this.options@, i as int, any);
                }
                this.options.set(i, any);
            },
            None => {
                proof {
                    lemma_push(this.options@, any);
                }
                this.options.push(any);
            },
        }
        this
    }

    /// Registers a text entry.
    pub fn string(self, name: &str, default: Option<&str>) -> (r: Self)
        requires
            self.wf(),
        ensures
            r.wf(),
            r.name == self.name,
            r.source == self.source,
            r.entries() == self.entries().insert(
                name@,
                EntryModel {
                    kind: ValKind::Text,
                    default: match default {
                        Some(d) => Some(d@),
                        None => None,
                    },
                },
            ),
    {
        let e: ConfEntry<String> = ConfEntry::new(name);
        match default {
            Some(d) => self.entry(e.with_default(d)),
            None => self.entry(e),
        }
    }

    /// Registers a byte (`u8`) entry.
    pub fn byte(self, name: &str, default: Option<u8>) -> (r: Self)
        requires
            self.wf(),
        ensures
            r.wf(),
            r.name == self.name,
            r.source == self.source,
            r.entries() == self.entries().insert(
                name@,
                EntryModel {
                    kind: ValKind::U8,
                    default: match default {
                        Some(d) => Some(decimal(d as nat)),
                        None => None,
                    },
                },
            ),
    {
        let e: ConfEntry<u8> = ConfEntry::new(name);
        match default {
            Some(d) => {
                let s = d.render();
                self.entry(e.with_default(s.as_str()))
            },
            None => self.entry(e),
        }
    }

    /// Registers an int (`i64`) entry.
    pub fn integer(self, name: &str, default: Option<i64>) -> (r: Self)
        requires
            self.wf(),
        ensures
            r.wf(),
            r.name == self.name,
            r.source == self.source,
            r.entries() == self.entries().insert(
                name@,
                EntryModel {
                    kind: ValKind::I64,
                    default: match default {
                        Some(d) => Some(signed_decimal(d as int)),
                        None => None,
                    },
                },
            ),
    {
        let e: ConfEntry<i64> = ConfEntry::new(name);
        match default {
            Some(d) => {
                let s = d.render();
                self.entry(e.with_default(s.as_str()))
            },
            None => self.entry(e),
        }
    }

    /// Registers a uint (`u64`) entry.
    pub fn uint(self, name: &str, default: Option<u64>) -> (r: Self)
        requires
            self.wf(),
        ensures
            r.wf(),
            r.name == self.name,
            r.source == self.source,
            r.entries() == self.entries().insert(
                name@,
                EntryModel {
                    kind: ValKind::U64,
                    default: match default {
                        Some(d) => Some(decimal(d as nat)),
                        None => None,
                    },
                },
            ),
    {
        let e: ConfEntry<u64> = ConfEntry::new(name);
        match default {
            Some(d) => {
                let s = d.render();
                self.entry(e.with_default(s.as_str()))
            },
            None => self.entry(e),
        }
    }

    /// Resolves `key` as a `V`, given what the source answered for it.
    pub fn resolve<V: ConfValue>(&self, key: &str, looked: Result<Option<String>, ConfError>) -> (r:
        Result<Option<V>, ConfError>)
        requires
            self.wf(),
        ensures
            resolved_view(r) == resolve_spec::<V>(self.entries(), key@, lookup_view(looked)),
    {
        match self.find(key) {
            None => Err(ConfError::key_not_found(key)),
            Some(i) => {
                proof {
                    lemma_index(self.options@, i as int);
                }
                let entry = &self.options[i];
                if entry.kind != V::kind() {
                    proof {
                        reveal_strlit("");
                        assert(""@ =~= Seq::<char>::empty());
                    }
                    return Err(ConfError::val_parse_failed(key, ""));
                }
                let raw: Option<String> = match looked {
                    Err(e) => {
                        return Err(e);
                    },
                    Ok(Some(s)) => Some(s),
                    Ok(None) => match &entry.default {
                        Some(d) => Some(d.clone()),
                        None => None,
                    },
                };
                match raw {
                    None => Ok(None),
                    Some(s) => match V::parse_str(s.as_str()) {
                        Some(v) => Ok(Some(v)),
                        None => Err(ConfError::val_parse_failed(key, s.as_str())),
                    },
                }
            },
        }
    }

    /// Gets the value of `key` as a `V`: for a registered entry of this type the
    /// source is asked for `key` once, and its answer is resolved as `resolve`
    /// does; `Ok(None)` where there is no value.
    pub fn get<V: ConfValue>(&self, key: &str) -> (r: Result<Option<V>, ConfError>)
        requires
            self.wf(),
        ensures
            get_outcome::<V, S>(self.source, self.entries(), key@, resolved_view(r)),
    {
        match self.find(key) {
            Some(i) => {
                proof {
                    lemma_index(self.options@, i as int);
                }
                if self.options[i].kind == V::kind() {
                    let looked = self.source.get(self.options[i].name.as_str());
                    let r = self.resolve::<V>(key, looked);
                    assert(self.source.answers(key@, lookup_view(looked)));
                    r
                } else {
                    self.resolve::<V>(key, Ok(None))
                }
            },
            None => self.resolve::<V>(key, Ok(None)),
        }
    }

    /// Requires the value of `key` as a `V`: as `get`, with no value an error.
    pub fn require<V: ConfValue>(&self, key: &str) -> (r: Result<V, ConfError>)
        requires
            self.wf(),
        ensures
            require_outcome::<V, S>(self.source, self.entries(), key@, required_view(r)),
    {
        let g = self.get::<V>(key);
        let r = match g {
            Ok(Some(v)) => Ok(v),
            Ok(None) => Err(ConfError::val_not_found(key)),
            Err(e) => Err(e),
        };
        assert(required_view(r) == required(resolved_view(g), key@));
        r
    }

    /// Gets a `String` value.
    pub fn get_string(&self, key: &str) -> (r: Result<Option<String>, ConfError>)
        requires
            self.wf(),
        ensures
            get_outcome::<String, S>(self.source, self.entries(), key@, resolved_view(r)),
    {
        self.get::<String>(key)
    }

    /// Gets a `u8` value.
    pub fn get_byte(&self, key: &str) -> (r: Result<Option<u8>, ConfError>)
        requires
            self.wf(),
        ensures
            get_outcome::<u8, S>(self.source, self.entries(), key@, resolved_view(r)),
    {
        self.get::<u8>(key)
    }

    /// Gets a `i64` value.
    pub fn get_int(&self, key: &str) -> (r: Result<Option<i64>, ConfError>)
        requires
            self.wf(),
        ensures
            get_outcome::<i64, S>(self.source, self.entries(), key@, resolved_view(r)),
    {
        self.get::<i64>(key)
    }

    /// Gets a `u64` value.
    pub fn get_uint(&self, key: &str) -> (r: Result<Option<u64>, ConfError>)
        requires
            self.wf(),
        ensures
            get_outcome::<u64, S>(self.source, self.entries(), key@, resolved_view(r)),
    {
        self.get::<u64>(key)
    }

    /// Requires a `String` value.
    pub fn require_string(&self, key: &str) -> (r: Result<String, ConfError>)
        requires
            self.wf(),
        ensures
            require_outcome::<String, S>(self.source, self.entries(), key@, required_view(r)),
    {
        self.require::<String>(key)
    }

    /// Requires a `u8` value.
    pub fn require_byte(&self, key: &str) -> (r: Result<u8, ConfError>)
        requires
            self.wf(),
        ensures
            require_outcome::<u8, S>(self.source, self.entries(), key@, required_view(r)),
    {
        self.require::<u8>(key)
    }

    /// Requires a `i64` value.
    pub fn require_int(&self, key: &str) -> (r: Result<i64, ConfError>)
        requires
            self.wf(),
        ensures
            require_outcome::<i64, S>(self.source, self.entries(), key@, required_view(r)),
    {
        self.require::<i64>(key)
    }

    /// Requires a `u64` value.
    pub fn require_uint(&self, key: &str) -> (r: Result<u64, ConfError>)
        requires
            self.wf(),
        ensures
            require_outcome::<u64, S>(self.source, self.entries(), key@, required_view(r)),
    {
        self.require::<u64>(key)
    }
}

impl<S: ConfSource> Default for Conf<S> {
    /// An empty registry for the namespace `DEFAULT_NAME`.
    fn default() -> (r: Self)
        ensures
            r.wf(),
            r.name@ == DEFAULT_NAME@,
            r.source.scoped_to(DEFAULT_NAME@),
            r.entries() == Map::<Seq<char>, EntryModel>::empty(),
    {
        Self::new(DEFAULT_NAME)
    }
}


} // verus!
