use vstd::prelude::*;
use crate::models::{Entry, Vault};
use crate::text::{same_text, string_from_chars};

verus! {

/// Strict lexicographic order on character sequences (the order of
/// `String`'s comparison, since UTF-8 preserves code-point order).
pub open spec fn lex_lt(a: Seq<char>, b: Seq<char>) -> bool
    decreases a.len(),
{
    if a.len() == 0 {
        b.len() > 0
    } else if b.len() == 0 {
        false
    } else if a[0] != b[0] {
        a[0] < b[0]
    } else {
        lex_lt(a.drop_first(), b.drop_first())
    }
}

proof fn lemma_lex_irreflexive(a: Seq<char>)
    ensures
        !lex_lt(a, a),
    decreases a.len(),
{
    if a.len() > 0 {
        lemma_lex_irreflexive(a.drop_first());
    }
}

proof fn lemma_lex_total(a: Seq<char>, b: Seq<char>)
    ensures
        a == b || lex_lt(a, b) || lex_lt(b, a),
    decreases a.len(),
{
    if a.len() == 0 && b.len() == 0 {
        assert(a =~= b);
    }
    if a.len() > 0 && b.len() > 0 && a[0] == b[0] {
        lemma_lex_total(a.drop_first(), b.drop_first());
        if a.drop_first() == b.drop_first() {
            assert(a =~= seq![a[0]] + a.drop_first());
            assert(b =~= seq![b[0]] + b.drop_first());
        }
    }
}

proof fn lemma_lex_transitive(a: Seq<char>, b: Seq<char>, c: Seq<char>)
    requires
        lex_lt(a, b),
        lex_lt(b, c),
    ensures
        lex_lt(a, c),
    decreases a.len(),
{
    if a.len() > 0 && b.len() > 0 && c.len() > 0 && a[0] == b[0] && b[0] == c[0] {
        lemma_lex_transitive(a.drop_first(), b.drop_first(), c.drop_first());
    }
}

proof fn lemma_lex_asymmetric(a: Seq<char>, b: Seq<char>)
    requires
        lex_lt(a, b),
    ensures
        !lex_lt(b, a),
{
    if lex_lt(b, a) {
        lemma_lex_transitive(a, b, a);
        lemma_lex_irreflexive(a);
    }
}

/// Whether `a` sorts strictly before `b`.
fn text_lt(a: &Vec<char>, b: &Vec<char>) -> (r: bool)
    ensures
        r == lex_lt(a@, b@),
{
    let mut i: usize = 0;
    assert(a@.subrange(0, a@.len() as int) =~= a@);
    assert(b@.subrange(0, b@.len() as int) =~= b@);
    while i < a.len() && i < b.len()
        invariant
            i <= a@.len(),
            i <= b@.len(),
            a@.subrange(0, i as int) == b@.subrange(0, i as int),
            lex_lt(a@, b@) == lex_lt(a@.subrange(i as int, a@.len() as int), b@.subrange(i as int, b@.len() as int)),
        decreases a@.len() - i,
    {
        let ghost sa = a@.subrange(i as int, a@.len() as int);
        let ghost sb = b@.subrange(i as int, b@.len() as int);
        assert(sa[0] == a@[i as int] && sb[0] == b@[i as int]);
        if a[i] != b[i] {
            return a[i] < b[i];
        }
        assert(sa.drop_first() =~= a@.subrange(i + 1, a@.len() as int));
        assert(sb.drop_first() =~= b@.subrange(i + 1, b@.len() as int));
        assert(a@.subrange(0, i + 1) =~= a@.subrange(0, i as int).push(a@[i as int]));
        assert(b@.subrange(0, i + 1) =~= b@.subrange(0, i as int).push(b@[i as int]));
        i += 1;
    }
    i < b.len()
}

pub open spec fn names_of(entries: Seq<Entry>) -> Seq<Seq<char>> {
    entries.map_values(|e: Entry| e.name@)
}

pub open spec fn strictly_sorted(s: Seq<Seq<char>>) -> bool {
    forall|i: int, j: int| 0 <= i < j < s.len() ==> lex_lt(#[trigger] s[i], #[trigger] s[j])
}

/// The distinct service names of a vault, in ascending order.
pub open spec fn is_service_list(r: Seq<Seq<char>>, entries: Seq<Entry>) -> bool {
    &&& strictly_sorted(r)
    &&& forall|i: int| 0 <= i < r.len() ==> names_of(entries).contains(#[trigger] r[i])
    &&& forall|k: int| 0 <= k < entries.len() ==> r.contains(#[trigger] entries[k].name@)
}

pub open spec fn char_views(v: Seq<Vec<char>>) -> Seq<Seq<char>> {
    v.map_values(|s: Vec<char>| s@)
}

/// The distinct service names of the vault's entries, sorted.
pub fn unique_services(vault: &Vault) -> (r: Vec<String>)
    ensures
        is_service_list(r@.map_values(|s: String| s@), vault.entries@),
{
    let entries = &vault.entries;
    let mut sorted: Vec<Vec<char>> = Vec::new();
    let mut k: usize = 0;
    while k < entries.len()
        invariant
            k <= entries@.len(),
            strictly_sorted(char_views(sorted@)),
            forall|i: int| 0 <= i < sorted@.len() ==> names_of(entries@).contains(#[trigger] char_views(sorted@)[i]),
            forall|m: int| 0 <= m < k ==> char_views(sorted@).contains(#[trigger] entries@[m].name@),
        decreases entries@.len() - k,
    {
        let name = crate::text::chars_of(entries[k].name.as_str());
        assert(names_of(entries@)[k as int] == name@);
        let mut p: usize = 0;
        while p < sorted.len() && text_lt(&sorted[p], &name)
            invariant
                p <= sorted@.len(),
                forall|i: int| 0 <= i < p ==> lex_lt(#[trigger] char_views(sorted@)[i], name@),
            decreases sorted@.len() - p,
        {
            assert(char_views(sorted@)[p as int] == sorted@[p as int]@);
            p += 1;
        }
        let ghost old_views = char_views(sorted@);
        let found = p < sorted.len() && text_lt(&name, &sorted[p]) == false;
        if found {
            proof {
                assert(old_views[p as int] == sorted@[p as int]@);
                assert(!lex_lt(old_views[p as int], name@));
                lemma_lex_total(old_views[p as int], name@);
                assert(old_views[p as int] == name@);
                assert(old_views.contains(name@));
                assert forall|m: int| 0 <= m < k + 1 implies old_views.contains(#[trigger] entries@[m].name@) by {
                    if m == k {
                        assert(entries@[m].name@ == name@);
                    }
                }
            }
        } else {
            sorted.insert(p, name);
            proof {
                let nv = char_views(sorted@);
                assert(nv =~= old_views.insert(p as int, name@));
                if p < old_views.len() {
                    assert(old_views[p as int] == sorted@[p as int + 1]@);
                    assert(lex_lt(name@, old_views[p as int]));
                }
                assert forall|i: int, j: int| 0 <= i < j < nv.len() implies lex_lt(#[trigger] nv[i], #[trigger] nv[j]) by {
                    if j < p {
                        assert(nv[i] == old_views[i] && nv[j] == old_views[j]);
                    } else if j == p {
                        assert(nv[i] == old_views[i]);
                    } else if i > p {
                        assert(nv[i] == old_views[i - 1] && nv[j] == old_views[j - 1]);
                    } else if i == p {
                        assert(nv[j] == old_views[j - 1]);
                        if j - 1 > p {
                            lemma_lex_transitive(name@, old_views[p as int], old_views[j - 1]);
                        }
                    } else {
                        assert(nv[i] == old_views[i] && nv[j] == old_views[j - 1]);
                        assert(lex_lt(old_views[i], name@));
                        if j - 1 >= p {
                            assert(lex_lt(name@, old_views[j - 1])) by {
                                if j - 1 > p {
                                    lemma_lex_transitive(name@, old_views[p as int], old_views[j - 1]);
                                }
                            }
                            lemma_lex_transitive(old_views[i], name@, old_views[j - 1]);
                        }
                    }
                }
                assert forall|i: int| 0 <= i < nv.len() implies names_of(entries@).contains(#[trigger] nv[i]) by {
                    if i < p {
                        assert(nv[i] == old_views[i]);
                    } else if i == p {
                        assert(names_of(entries@)[k as int] == nv[i]);
                    } else {
                        assert(nv[i] == old_views[i - 1]);
                    }
                }
                assert forall|m: int| 0 <= m < k + 1 implies nv.contains(#[trigger] entries@[m].name@) by {
                    if m == k {
                        assert(nv[p as int] == entries@[m].name@);
                    } else {
                        let t = choose|t: int| 0 <= t < old_views.len() && old_views[t] == entries@[m].name@;
                        if t < p {
                            assert(nv[t] == old_views[t]);
                        } else {
                            assert(nv[t + 1] == old_views[t]);
                        }
                    }
                }
            }
        }
        k += 1;
    }
    let mut out: Vec<String> = Vec::new();
    let mut i: usize = 0;
    while i < sorted.len()
        invariant
            i <= sorted@.len(),
            out@.map_values(|s: String| s@) == char_views(sorted@).subrange(0, i as int),
        decreases sorted@.len() - i,
    {
        let s = string_from_chars(&sorted[i]);
        let ghost before = out@;
        out.push(s);
        assert(out@.map_values(|s: String| s@) =~= before.map_values(|s: String| s@).push(s@));
        assert(char_views(sorted@).subrange(0, i + 1) =~= char_views(sorted@).subrange(0, i as int).push(sorted@[i as int]@));
        i += 1;
    }
    assert(char_views(sorted@).subrange(0, i as int) =~= char_views(sorted@));
    out
}

/// The number of entries before position `upto` whose name is `service`.
pub open spec fn count_named(entries: Seq<Entry>, service: Seq<char>, upto: int) -> nat
    decreases upto,
{
    if upto <= 0 {
        0
    } else {
        count_named(entries, service, upto - 1) + if entries[upto - 1].name@ == service { 1nat } else { 0nat }
    }
}

/// The position in the vault of the `nth` entry (from zero) of a service.
pub fn nth_entry_index(vault: &Vault, service: &str, nth: usize) -> (r: Option<usize>)
    ensures
        match r {
            Some(idx) => idx < vault.entries@.len() && vault.entries@[idx as int].name@ == service@
                && count_named(vault.entries@, service@, idx as int) == nth,
            None => count_named(vault.entries@, service@, vault.entries@.len() as int) <= nth,
        },
{
    let mut count: usize = 0;
    let mut idx: usize = 0;
    while idx < vault.entries.len()
        invariant
            idx <= vault.entries@.len(),
            count == count_named(vault.entries@, service@, idx as int),
            count <= nth,
        decreases vault.entries@.len() - idx,
    {
        if same_text(vault.entries[idx].name.as_str(), service) {
            if count == nth {
                return Some(idx);
            }
            count += 1;
        }
        idx += 1;
    }
    None
}

/// The entries of a service, in vault order.
pub open spec fn entries_named(entries: Seq<Entry>, service: Seq<char>) -> Seq<Entry> {
    entries.filter(has_name(service))
}

pub open spec fn has_name(service: Seq<char>) -> spec_fn(Entry) -> bool {
    |e: Entry| e.name@ == service
}

/// The sorted service names, and the entries of the service at
/// `service_idx` (the last one when the index is past the end).
pub fn entries_for_service<'a>(vault: &'a Vault, service_idx: usize) -> (r: (Vec<String>, Vec<&'a Entry>))
    ensures
        is_service_list(r.0@.map_values(|s: String| s@), vault.entries@),
        r.0@.len() == 0 ==> r.1@.len() == 0,
        r.0@.len() > 0 ==> r.1@.map_values(|e: &Entry| *e) == entries_named(
            vault.entries@,
            r.0@[if service_idx < r.0@.len() { service_idx as int } else { r.0@.len() - 1 }]@,
        ),
{
    let services = unique_services(vault);
    if services.len() == 0 {
        return (services, Vec::new());
    }
    let last = services.len() - 1;
    let pick = if service_idx < last { service_idx } else { last };
    let selected = services[pick].as_str();
    let ghost sel = services@[pick as int]@;
    let ghost pred = has_name(sel);
    let mut filtered: Vec<&'a Entry> = Vec::new();
    let mut k: usize = 0;
    assert(vault.entries@.subrange(0, 0).filter(pred) =~= Seq::<Entry>::empty()) by {
        reveal(Seq::filter);
    }
    while k < vault.entries.len()
        invariant
            k <= vault.entries@.len(),
            selected@ == sel,
            pred == has_name(sel),
            filtered@.map_values(|e: &Entry| *e) == vault.entries@.subrange(0, k as int).filter(pred),
        decreases vault.entries@.len() - k,
    {
        let e = &vault.entries[k];
        let ghost before = filtered@;
        let ghost prefix = vault.entries@.subrange(0, k as int);
        assert(vault.entries@.subrange(0, k + 1) =~= prefix.push(vault.entries@[k as int]));
        proof {
            prefix.lemma_filter_push(vault.entries@[k as int], pred);
        }
        if same_text(e.name.as_str(), selected) {
            filtered.push(e);
            assert(filtered@.map_values(|e: &Entry| *e) =~= before.map_values(|e: &Entry| *e).push(*e));
        }
        k += 1;
    }
    assert(vault.entries@.subrange(0, k as int) =~= vault.entries@);
    (services, filtered)
}

} // verus!
