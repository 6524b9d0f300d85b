use vstd::prelude::*;
use crate::deps::{Dep, DepView, dep_views, string_set, urls_of, vec_contains_string, views_of};

verus! {

/// The allow-list a policy text holds: the string entries of its
/// `sources.allow-git` array, in order (a missing table or array is an
/// empty list), or `None` when the text is not well-formed. The outside
/// parser decides this from the text alone.
pub uninterp spec fn policy_allow_git(s: Seq<char>) -> Option<Seq<Seq<char>>>;

/// The policy text rewritten so that `sources.allow-git` holds exactly
/// `urls`, or `None` when the text does not parse, holds `sources` as a
/// non-table, or cannot be serialized back. The outside parser and
/// serializer decide this from the text and the list alone.
pub uninterp spec fn policy_rewritten(s: Seq<char>, urls: Seq<Seq<char>>) -> Option<Seq<char>>;

/// Relies on `toml::from_str::<toml::Table>`: the `sources.allow-git`
/// entries of a TOML text are a function of the text alone. Non-string
/// entries are ignored, as the original allow-list reader ignores them.
#[verifier::external_body]
fn parse_allow_git(text: &str) -> (r: Option<Vec<String>>)
    ensures
        r is Some <==> policy_allow_git(text@) is Some,
        r is Some ==> views_of(r.unwrap()@) == policy_allow_git(text@).unwrap(),
{
    let doc: toml::Table = match toml::from_str(text) {
        Ok(d) => d,
        Err(_) => return None,
    };
    match doc.get("sources").and_then(|s| s.get("allow-git")).and_then(|a| a.as_array()) {
        Some(items) => Some(
            items.iter().filter_map(|v| v.as_str().map(|u| u.to_owned())).collect(),
        ),
        None => Some(Vec::new()),
    }
}

/// Relies on `toml::from_str::<toml::Table>` and `toml::to_string_pretty`:
/// parses the text, replaces `sources.allow-git` by the given list, and
/// serializes the whole document back. The serializer writes the array
/// entries in the given order, so parsing the result reads the same list
/// back; both directions are functions of the arguments alone.
#[verifier::external_body]
fn rewrite_allow_git(text: &str, urls: &Vec<String>) -> (r: Option<String>)
    ensures
        r is Some <==> policy_rewritten(text@, views_of(urls@)) is Some,
        r is Some ==> r.unwrap()@ == policy_rewritten(text@, views_of(urls@)).unwrap(),
        r is Some ==> policy_allow_git(r.unwrap()@) == Some(views_of(urls@)),
{
    let mut doc: toml::Table = match toml::from_str(text) {
        Ok(d) => d,
        Err(_) => return None,
    };
    let list = toml::Value::Array(urls.iter().map(|u| toml::Value::String(u.clone())).collect());
    if !doc.contains_key("sources") {
        doc.insert("sources".to_owned(), toml::Value::Table(toml::Table::new()));
    }
    doc.get_mut("sources")?.as_table_mut()?.insert("allow-git".to_owned(), list);
    toml::to_string_pretty(&doc).ok()
}

/// `xs` extended by the entries of `ys` in order, skipping any entry
/// already present.
pub open spec fn dedup_append(xs: Seq<Seq<char>>, ys: Seq<Seq<char>>) -> Seq<Seq<char>>
    decreases ys.len(),
{
    if ys.len() == 0 {
        xs
    } else {
        dedup_append(if xs.contains(ys[0]) { xs } else { xs.push(ys[0]) }, ys.drop_first())
    }
}

/// The merged allow-list: the existing entries first, deduplicated in
/// order, then the incoming entries not yet present, in order.
pub open spec fn merged_urls(existing: Seq<Seq<char>>, incoming: Seq<Seq<char>>) -> Seq<
    Seq<char>,
> {
    dedup_append(dedup_append(Seq::empty(), existing), incoming)
}

proof fn lemma_dedup_append_push(xs: Seq<Seq<char>>, ys: Seq<Seq<char>>, y: Seq<char>)
    ensures
        dedup_append(xs, ys.push(y)) == (if dedup_append(xs, ys).contains(y) {
            dedup_append(xs, ys)
        } else {
            dedup_append(xs, ys).push(y)
        }),
    decreases ys.len(),
{
    let s1 = ys.push(y);
    if ys.len() == 0 {
        assert(s1[0] == y);
        let xs1 = if xs.contains(y) {
            xs
        } else {
            xs.push(y)
        };
        assert(dedup_append(xs, s1) == dedup_append(xs1, s1.drop_first()));
        assert(s1.drop_first().len() == 0);
        assert(dedup_append(xs1, s1.drop_first()) == xs1);
        assert(dedup_append(xs, ys) == xs);
    } else {
        assert(s1[0] == ys[0]);
        let xs1 = if xs.contains(ys[0]) {
            xs
        } else {
            xs.push(ys[0])
        };
        assert(dedup_append(xs, s1) == dedup_append(xs1, s1.drop_first()));
        assert(s1.drop_first() =~= ys.drop_first().push(y));
        lemma_dedup_append_push(xs1, ys.drop_first(), y);
        assert(dedup_append(xs, ys) == dedup_append(xs1, ys.drop_first()));
    }
}

proof fn lemma_dedup_append_props(xs: Seq<Seq<char>>, ys: Seq<Seq<char>>)
    ensures
        forall|u: Seq<char>|
            dedup_append(xs, ys).contains(u) <==> xs.contains(u) || ys.contains(u),
        (forall|i: int, j: int| 0 <= i < j < xs.len() ==> xs[i] != xs[j]) ==> forall|i: int, j: int|
            0 <= i < j < dedup_append(xs, ys).len() ==> dedup_append(xs, ys)[i] != dedup_append(
                xs,
                ys,
            )[j],
    decreases ys.len(),
{
    if ys.len() == 0 {
        assert(forall|u: Seq<char>| !ys.contains(u));
    } else {
        let xs1 = if xs.contains(ys[0]) {
            xs
        } else {
            xs.push(ys[0])
        };
        lemma_dedup_append_props(xs1, ys.drop_first());
        assert(dedup_append(xs, ys) == dedup_append(xs1, ys.drop_first()));
        assert(xs1.contains(ys[0])) by {
            if !xs.contains(ys[0]) {
                assert(xs1[xs.len() as int] == ys[0]);
            }
        }
        assert forall|u: Seq<char>|
            dedup_append(xs, ys).contains(u) <==> xs.contains(u) || ys.contains(u) by {
            assert(ys.contains(u) <==> (ys[0] == u || ys.drop_first().contains(u))) by {
                if ys.contains(u) {
                    let k = choose|k: int| 0 <= k < ys.len() && ys[k] == u;
                    if k > 0 {
                        assert(ys.drop_first()[k - 1] == u);
                    }
                } else {
                    if ys.drop_first().contains(u) {
                        let k = choose|k: int|
                            0 <= k < ys.drop_first().len() && ys.drop_first()[k] == u;
                        assert(ys[k + 1] == u);
                    }
                }
            }
            assert(xs1.contains(u) <==> (xs.contains(u) || ys[0] == u)) by {
                if xs.contains(u) {
                    let k = choose|k: int| 0 <= k < xs.len() && xs[k] == u;
                    assert(xs1[k] == u);
                }
                if xs1.contains(u) && !xs.contains(u) {
                    let k = choose|k: int| 0 <= k < xs1.len() && xs1[k] == u;
                    assert(k == xs.len());
                }
            }
        }
        if forall|i: int, j: int| 0 <= i < j < xs.len() ==> xs[i] != xs[j] {
            assert forall|i: int, j: int| 0 <= i < j < xs1.len() implies xs1[i] != xs1[j] by {
                if j == xs.len() {
                    assert(!xs.contains(xs1[j]));
                    assert(xs1[i] == xs[i]);
                }
            }
        }
    }
}

/// Law: the merged allow-list is a true set union. An entry appears in
/// the result exactly when one of the inputs holds it, and no entry
/// appears twice.
pub proof fn lemma_merge_is_set_union(existing: Seq<Seq<char>>, incoming: Seq<Seq<char>>)
    ensures
        forall|u: Seq<char>|
            merged_urls(existing, incoming).contains(u) <==> existing.contains(u)
                || incoming.contains(u),
        forall|i: int, j: int|
            0 <= i < j < merged_urls(existing, incoming).len() ==> merged_urls(
                existing,
                incoming,
            )[i] != merged_urls(existing, incoming)[j],
{
    let first = dedup_append(Seq::empty(), existing);
    lemma_dedup_append_props(Seq::empty(), existing);
    lemma_dedup_append_props(first, incoming);
    assert(forall|u: Seq<char>| !Seq::<Seq<char>>::empty().contains(u));
}

/// Extends `acc` by the entries of `incoming` that are not yet present,
/// in order, deduplicating as `merged_urls` describes.
fn dedup_append_exec(acc: Vec<String>, incoming: &Vec<String>) -> (r: Vec<String>)
    ensures
        views_of(r@) == dedup_append(views_of(acc@), views_of(incoming@)),
{
    let mut out = acc;
    let ghost start = views_of(out@);
    let mut i: usize = 0;
    while i < incoming.len()
        invariant
            i <= incoming@.len(),
            views_of(out@) == dedup_append(start, views_of(incoming@).take(i as int)),
        decreases incoming@.len() - i,
    {
        let ghost before = views_of(out@);
        let ghost x = incoming@[i as int]@;
        proof {
            assert(string_set(out@).contains(x) <==> before.contains(x)) by {
                if string_set(out@).contains(x) {
                    let k = choose|k: int| 0 <= k < out@.len() && out@[k]@ == x;
                    assert(before[k] == x);
                } else if before.contains(x) {
                    let k = choose|k: int| 0 <= k < before.len() && before[k] == x;
                    assert(out@[k]@ == x);
                }
            }
        }
        if !vec_contains_string(&out, &incoming[i]) {
            let item = incoming[i].clone();
            out.push(item);
            proof {
                assert(views_of(out@) =~= before.push(x));
            }
        }
        proof {
            lemma_dedup_append_push(start, views_of(incoming@).take(i as int), x);
            assert(views_of(incoming@).take(i + 1) =~= views_of(incoming@).take(i as int).push(x));
        }
        i += 1;
    }
    proof {
        assert(views_of(incoming@).take(incoming@.len() as int) =~= views_of(incoming@));
    }
    out
}

/// Why a policy update was refused.
#[derive(Clone, Copy, Debug, PartialEq, Eq, Structural)]
pub enum PolicyError {
    /// The policy text is not well-formed; nothing was produced.
    Unparseable,
    /// The updated document could not be written back as text.
    Unserializable,
}

/// The policy text after one update: its `sources.allow-git` list is
/// replaced by the union of the existing entries and the applied
/// candidates' URLs, or `None` where parsing or serializing fails.
pub open spec fn updated_policy(text: Seq<char>, applied: Seq<DepView>) -> Option<Seq<char>> {
    if policy_allow_git(text) is None {
        None
    } else {
        policy_rewritten(text, merged_urls(policy_allow_git(text).unwrap(), urls_of(applied)))
    }
}

/// Rewrites a policy text so its allow-list also covers the URLs of the
/// applied candidates.
///
/// The resulting document's `sources.allow-git` list is the set union of
/// the old list and the applied URLs: existing entries first in their old
/// order, new URLs after them in input order, each entry exactly once.
/// Fails exactly when the text cannot be parsed (`Unparseable`) or the
/// updated document cannot be serialized (`Unserializable`).
pub fn update_deny_toml(text: &String, applied: &Vec<Dep>) -> (r: Result<String, PolicyError>)
    ensures
        r is Ok <==> updated_policy(text@, dep_views(applied@)) is Some,
        r is Ok ==> r.unwrap()@ == updated_policy(text@, dep_views(applied@)).unwrap(),
        r is Ok ==> policy_allow_git(r.unwrap()@) == Some(
            merged_urls(policy_allow_git(text@).unwrap(), urls_of(dep_views(applied@))),
        ),
        r == Err::<String, PolicyError>(PolicyError::Unparseable) <==> policy_allow_git(text@)
            is None,
{
    let existing = match parse_allow_git(text.as_str()) {
        Some(v) => v,
        None => return Err(PolicyError::Unparseable),
    };
    let mut applied_urls: Vec<String> = Vec::new();
    let mut i: usize = 0;
    while i < applied.len()
        invariant
            i <= applied@.len(),
            views_of(applied_urls@) == urls_of(dep_views(applied@.take(i as int))),
        decreases applied@.len() - i,
    {
        let ghost before = views_of(applied_urls@);
        applied_urls.push(applied[i].repo_url.clone());
        proof {
            assert(views_of(applied_urls@) =~= before.push(applied@[i as int]@.repo_url));
            assert(urls_of(dep_views(applied@.take(i + 1))) =~= before.push(
                applied@[i as int]@.repo_url,
            ));
        }
        i += 1;
    }
    proof {
        assert(applied@.take(applied@.len() as int) =~= applied@);
    }
    let empty_acc: Vec<String> = Vec::new();
    proof {
        assert(views_of(empty_acc@) =~= Seq::<Seq<char>>::empty());
    }
    let deduped_existing = dedup_append_exec(empty_acc, &existing);
    let merged = dedup_append_exec(deduped_existing, &applied_urls);
    assert(views_of(merged@) == merged_urls(
        policy_allow_git(text@).unwrap(),
        urls_of(dep_views(applied@)),
    ));
    match rewrite_allow_git(text.as_str(), &merged) {
        Some(s) => Ok(s),
        None => Err(PolicyError::Unserializable),
    }
}

} // verus!
