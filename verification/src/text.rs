//! String helpers shared by the adapters: symbol normalisation, joining,
//! concatenation, and the two standard-library string operations the
//! connectors rely on (`String::push` and `str::to_lowercase`).

use vstd::prelude::*;

verus! {

broadcast use vstd::seq_lib::group_seq_properties;

/// What `symbol` becomes once every `'-'` is dropped: the characters of
/// `symbol` other than `'-'`, in their order.
pub open spec fn dashless(symbol: Seq<char>) -> Seq<char> {
    symbol.filter(|c: char| c != '-')
}

/// Whether no character of `s` is a `'-'`.
pub open spec fn has_no_dash(s: Seq<char>) -> bool {
    forall|i: int| 0 <= i < s.len() ==> s[i] != '-'
}

/// `parts` joined with `sep` between consecutive parts (and nothing when
/// `parts` is empty).
pub open spec fn joined(parts: Seq<Seq<char>>, sep: Seq<char>) -> Seq<char>
    decreases parts.len(),
{
    if parts.len() == 0 {
        Seq::empty()
    } else if parts.len() == 1 {
        parts[0]
    } else {
        joined(parts.drop_last(), sep) + sep + parts.last()
    }
}

/// The text of each string of `v`, in order.
pub open spec fn texts(v: Seq<String>) -> Seq<Seq<char>> {
    v.map_values(|s: String| s@)
}

/// What `str::to_lowercase` returns for a string with the characters `s`.
pub uninterp spec fn lowercase_of(s: Seq<char>) -> Seq<char>;

/// Appends `c` to `s`: `String::push`, whose documentation says it appends
/// the given `char` to the end of the string.
#[verifier::external_body]
pub(crate) fn push_char(s: &mut String, c: char)
    ensures
        final(s)@ == old(s)@.push(c),
{
    s.push(c);
}

/// `str::to_lowercase`. Its documentation defines the result by the Unicode
/// `Lowercase` property; that mapping is not written out here, the result is
/// only named (`lowercase_of`), as a function of the input's characters.
#[verifier::external_body]
pub(crate) fn to_lowercase(s: &str) -> (r: String)
    ensures
        r@ == lowercase_of(s@),
{
    s.to_lowercase()
}

/// `a` followed by `b`, as a new string.
pub fn concat_str(a: &str, b: &str) -> (r: String)
    ensures
        r@ == a@ + b@,
{
    let mut r = a.to_owned();
    r.append(b);
    r
}

/// `symbol` without its dashes: `"BTC-USDT"` becomes `"BTCUSDT"`.
pub fn normalize_symbol(symbol: &str) -> (r: String)
    ensures
        r@ == dashless(symbol@),
{
    let mut r = String::new();
    proof {
        reveal_with_fuel(Seq::filter, 1);
    }
    for c in it: symbol.chars()
        invariant
            it.seq() == symbol@,
            r@ == dashless(symbol@.take(it.index())),
    {
        proof {
            assert(symbol@.take(it.index() + 1).drop_last() =~= symbol@.take(it.index()));
            reveal_with_fuel(Seq::filter, 1);
        }
        if c != '-' {
            push_char(&mut r, c);
        }
    }
    assert(symbol@.take(symbol@.len() as int) =~= symbol@);
    r
}

/// `s` without its leading `prefix`, when `s` starts with `prefix`
/// (as `str::strip_prefix` gives it).
pub fn strip_prefix(s: &str, prefix: &str) -> (r: Option<String>)
    ensures
        match r {
            Some(rest) => prefix@.is_prefix_of(s@) && rest@ == s@.skip(prefix@.len() as int),
            None => !prefix@.is_prefix_of(s@),
        },
{
    let mut wanted: Vec<char> = Vec::new();
    for c in it: prefix.chars()
        invariant
            it.seq() == prefix@,
            wanted@ == prefix@.take(it.index()),
    {
        proof {
            assert(prefix@.take(it.index() + 1) =~= prefix@.take(it.index()).push(c));
        }
        wanted.push(c);
    }
    assert(prefix@.take(prefix@.len() as int) =~= prefix@);
    let mut rest = String::new();
    let mut matched: usize = 0;
    let mut same = true;
    for c in it: s.chars()
        invariant
            it.seq() == s@,
            wanted@ == prefix@,
            matched <= wanted@.len(),
            matched <= it.index(),
            matched < wanted@.len() ==> matched == it.index(),
            same <==> forall|j: int| 0 <= j < matched ==> s@[j] == prefix@[j],
            rest@ == s@.subrange(matched as int, it.index() as int),
    {
        if matched < wanted.len() {
            if c != wanted[matched] {
                same = false;
            }
            matched = matched + 1;
        } else {
            proof {
                assert(s@.subrange(matched as int, it.index() + 1) =~= s@.subrange(
                    matched as int,
                    it.index() as int,
                ).push(c));
            }
            push_char(&mut rest, c);
        }
    }
    if same && matched == wanted.len() {
        assert(prefix@ =~= s@.subrange(0, prefix@.len() as int));
        Some(rest)
    } else {
        proof {
            if prefix@.is_prefix_of(s@) {
                assert(matched == wanted@.len());
                assert forall|j: int| 0 <= j < matched implies s@[j] == prefix@[j] by {
                    assert(s@.subrange(0, prefix@.len() as int)[j] == s@[j]);
                }
            }
        }
        None
    }
}

/// Joining one part gives that part; joining two gives them with `sep`
/// between.
pub proof fn law_joined_one_and_two(a: Seq<char>, b: Seq<char>, sep: Seq<char>)
    ensures
        joined(seq![a], sep) == a,
        joined(seq![a, b], sep) == a + sep + b,
{
    assert(seq![a, b].drop_last() =~= seq![a]);
    assert(joined(seq![a], sep) == a);
    assert(seq![a, b].last() == b);
}

/// Joining the parts of `p1` followed by those of `p2` (both non-empty) is
/// joining each run and putting one `sep` between the two: a separator
/// stands between every two consecutive parts, and nowhere else.
pub proof fn law_joined_concat(p1: Seq<Seq<char>>, p2: Seq<Seq<char>>, sep: Seq<char>)
    requires
        p1.len() > 0,
        p2.len() > 0,
    ensures
        joined(p1 + p2, sep) == joined(p1, sep) + sep + joined(p2, sep),
    decreases p2.len(),
{
    let all = p1 + p2;
    if p2.len() == 1 {
        assert(all.drop_last() =~= p1);
        assert(all.last() == p2[0]);
    } else {
        let rest = p2.drop_last();
        assert(all.drop_last() =~= p1 + rest);
        assert(all.last() == p2.last());
        law_joined_concat(p1, rest, sep);
        assert(joined(all, sep) =~= joined(p1, sep) + sep + (joined(rest, sep) + sep + p2.last()));
    }
}

/// The strings of `parts` joined with `sep`, as `[T]::join` does.
pub fn join_with(parts: &Vec<String>, sep: &str) -> (r: String)
    ensures
        r@ == joined(texts(parts@), sep@),
{
    let mut r = String::new();
    let ghost all = texts(parts@);
    let mut i: usize = 0;
    assert(all.take(0) =~= Seq::<Seq<char>>::empty());
    while i < parts.len()
        invariant
            i <= parts.len(),
            all == texts(parts@),
            r@ == joined(all.take(i as int), sep@),
        decreases parts.len() - i,
    {
        assert(all.take(i + 1).drop_last() =~= all.take(i as int));
        if i > 0 {
            r.append(sep);
        } else {
            assert(r@ =~= Seq::<char>::empty());
        }
        r.append(parts[i].as_str());
        i = i + 1;
    }
    assert(all.take(i as int) =~= all);
    r
}

/// Dropping dashes leaves no dash behind.
pub proof fn lemma_dashless_has_no_dash(symbol: Seq<char>)
    ensures
        has_no_dash(dashless(symbol)),
{
    broadcast use vstd::seq_lib::group_filter_ensures;

    assert forall|i: int| 0 <= i < dashless(symbol).len() implies dashless(symbol)[i] != '-' by {
        symbol.lemma_filter_pred(|c: char| c != '-', i);
    }
}

/// A symbol without dashes is left as it is.
pub proof fn lemma_dashless_keeps_plain(symbol: Seq<char>)
    requires
        has_no_dash(symbol),
    ensures
        dashless(symbol) == symbol,
    decreases symbol.len(),
{
    reveal_with_fuel(Seq::filter, 1);
    if symbol.len() > 0 {
        lemma_dashless_keeps_plain(symbol.drop_last());
        assert(symbol.drop_last().push(symbol.last()) =~= symbol);
    }
}

/// Normalising a symbol twice gives what normalising it once gives.
pub proof fn lemma_dashless_idempotent(symbol: Seq<char>)
    ensures
        dashless(dashless(symbol)) == dashless(symbol),
{
    lemma_dashless_has_no_dash(symbol);
    lemma_dashless_keeps_plain(dashless(symbol));
}

} // verus!
