//! Properties of `get` and `require` that hold for every registry, stated over
//! what their contracts say (`get_outcome`, `require_outcome`) and over the
//! answers of the source.
use crate::conf::{get_outcome, parsed, require_outcome, required, EntryModel, DEFAULT_NAME};
use crate::err::ErrModel;
use crate::source::{ascii_upper, ConfSource};
use crate::value::ConfValue;
use vstd::prelude::*;

verus! {

/// `l` is the one answer that `source` gives for `key`.
pub open spec fn only_answer<S: ConfSource>(
    source: S,
    key: Seq<char>,
    l: Result<Option<Seq<char>>, ErrModel>,
) -> bool {
    forall|x: Result<Option<Seq<char>>, ErrModel>| #[trigger] source.answers(key, x) ==> x == l
}

/// With no value from the source, a registered entry with a default resolves to
/// that default, read as the entry's type.
pub proof fn lemma_default_used<V: ConfValue, S: ConfSource>(
    source: S,
    entries: Map<Seq<char>, EntryModel>,
    key: Seq<char>,
    out: Result<Option<V::V>, ErrModel>,
)
    requires
        entries.contains_key(key),
        entries[key].kind == V::kind_spec(),
        entries[key].default is Some,
        only_answer(source, key, Ok(None)),
        get_outcome::<V, S>(source, entries, key, out),
    ensures
        out == parsed::<V>(key, entries[key].default->Some_0),
{
}

/// A default that is the string form of `v` gives `v` back, from `get` and from
/// `require`, when the source has no value.
pub proof fn lemma_rendered_default<V: ConfValue, S: ConfSource>(
    source: S,
    entries: Map<Seq<char>, EntryModel>,
    key: Seq<char>,
    v: V::V,
    got: Result<Option<V::V>, ErrModel>,
    req: Result<V::V, ErrModel>,
)
    requires
        entries.contains_key(key),
        entries[key] == (EntryModel { kind: V::kind_spec(), default: Some(V::render_spec(v)) }),
        only_answer(source, key, Ok(None)),
        get_outcome::<V, S>(source, entries, key, got),
        require_outcome::<V, S>(source, entries, key, req),
    ensures
        got == Ok::<Option<V::V>, ErrModel>(Some(v)),
        req == Ok::<V::V, ErrModel>(v),
{
    V::lemma_round_trip(v);
}

/// A value from the source wins: the result is that value read as the entry's
/// type, whatever default the entry was registered with.
pub proof fn lemma_source_wins<V: ConfValue, S: ConfSource>(
    source: S,
    entries: Map<Seq<char>, EntryModel>,
    key: Seq<char>,
    s: Seq<char>,
    out: Result<Option<V::V>, ErrModel>,
)
    requires
        entries.contains_key(key),
        entries[key].kind == V::kind_spec(),
        only_answer(source, key, Ok(Some(s))),
        get_outcome::<V, S>(source, entries, key, out),
    ensures
        out == parsed::<V>(key, s),
{
}

/// An unregistered key is `KeyNotFound`, whatever the source, for `get` and for
/// `require`.
pub proof fn lemma_unregistered<V: ConfValue, S: ConfSource>(
    source: S,
    entries: Map<Seq<char>, EntryModel>,
    key: Seq<char>,
    got: Result<Option<V::V>, ErrModel>,
    req: Result<V::V, ErrModel>,
)
    requires
        !entries.contains_key(key),
        get_outcome::<V, S>(source, entries, key, got),
        require_outcome::<V, S>(source, entries, key, req),
    ensures
        got == Err::<Option<V::V>, ErrModel>(ErrModel::KeyNotFound(key)),
        req == Err::<V::V, ErrModel>(ErrModel::KeyNotFound(key)),
{
}

/// `require` on a registered key with no value from the source and no default
/// is `ValNotFound`.
pub proof fn lemma_require_no_value<V: ConfValue, S: ConfSource>(
    source: S,
    entries: Map<Seq<char>, EntryModel>,
    key: Seq<char>,
    req: Result<V::V, ErrModel>,
)
    requires
        entries.contains_key(key),
        entries[key].kind == V::kind_spec(),
        entries[key].default is None,
        only_answer(source, key, Ok(None)),
        require_outcome::<V, S>(source, entries, key, req),
    ensures
        req == Err::<V::V, ErrModel>(ErrModel::ValNotFound(key)),
{
}

/// Where `get` resolves to a value, `require` gives that value unwrapped, as
/// long as the source's answer for the key is the same for both calls.
pub proof fn lemma_require_unwraps<V: ConfValue, S: ConfSource>(
    source: S,
    entries: Map<Seq<char>, EntryModel>,
    key: Seq<char>,
    l: Result<Option<Seq<char>>, ErrModel>,
    v: V::V,
    req: Result<V::V, ErrModel>,
)
    requires
        only_answer(source, key, l),
        get_outcome::<V, S>(source, entries, key, Ok(Some(v))),
        require_outcome::<V, S>(source, entries, key, req),
    ensures
        req == Ok::<V::V, ErrModel>(v),
{
    let g = choose|g: Result<Option<V::V>, ErrModel>|
        get_outcome::<V, S>(source, entries, key, g) && req == required(g, key);
    assert(g == Ok::<Option<V::V>, ErrModel>(Some(v)));
}

/// Repeated `get` calls with the source's answer for the key unchanged give the
/// same result.
pub proof fn lemma_get_repeatable<V: ConfValue, S: ConfSource>(
    source: S,
    entries: Map<Seq<char>, EntryModel>,
    key: Seq<char>,
    l: Result<Option<Seq<char>>, ErrModel>,
    first: Result<Option<V::V>, ErrModel>,
    second: Result<Option<V::V>, ErrModel>,
)
    requires
        only_answer(source, key, l),
        get_outcome::<V, S>(source, entries, key, first),
        get_outcome::<V, S>(source, entries, key, second),
    ensures
        first == second,
{
}

/// The default namespace names its variables with the prefix `VCFG`.
pub proof fn lemma_default_prefix()
    ensures
        ascii_upper(DEFAULT_NAME@) == seq!['V', 'C', 'F', 'G'],
{
    reveal_strlit("vcfg");
    assert(ascii_upper(DEFAULT_NAME@) =~= seq!['V', 'C', 'F', 'G']);
}

} // verus!
