use vstd::prelude::*;
use vstd::string::StringExecFns;
use crate::deps::{Dep, DepView, dep_views, string_set, vec_contains_string};
use crate::text::{has_substr, matches_at, contains_substr, chars_of, lemma_has_substr_append,
    lemma_matches_at_embed};

verus! {

/// The dependency names a manifest text declares: the keys of its
/// `dependencies` and `dev-dependencies` tables (first component) and the
/// keys of its `patch.crates-io` override table (second component), or
/// `None` when the text is not a well-formed manifest. The outside parser
/// decides this from the text alone.
pub uninterp spec fn manifest_names(s: Seq<char>) -> Option<(Set<Seq<char>>, Set<Seq<char>>)>;

/// The names a manifest references: direct plus development dependencies.
pub open spec fn referenced_of(s: Seq<char>) -> Set<Seq<char>> {
    manifest_names(s).unwrap().0
}

/// The names a manifest already overrides under `patch.crates-io`.
pub open spec fn patched_of(s: Seq<char>) -> Set<Seq<char>> {
    manifest_names(s).unwrap().1
}

/// Relies on `toml::from_str::<toml::Table>`: which tables a TOML text
/// holds, and their keys, are a function of the text alone. Returns the
/// keys of the `dependencies` and `dev-dependencies` tables (a missing
/// table contributes nothing), or `None` when the text does not parse.
#[verifier::external_body]
fn parse_referenced_crates(text: &str) -> (r: Option<Vec<String>>)
    ensures
        r is Some <==> manifest_names(text@) is Some,
        r is Some ==> string_set(r.unwrap()@) == referenced_of(text@),
{
    let doc: toml::Table = match toml::from_str(text) {
        Ok(d) => d,
        Err(_) => return None,
    };
    let mut names: Vec<String> = Vec::new();
    if let Some(t) = doc.get("dependencies").and_then(|v| v.as_table()) {
        names.extend(t.keys().cloned());
    }
    if let Some(t) = doc.get("dev-dependencies").and_then(|v| v.as_table()) {
        names.extend(t.keys().cloned());
    }
    Some(names)
}

/// Relies on `toml::from_str::<toml::Table>`, as `parse_referenced_crates`
/// does. Returns the keys of the `patch.crates-io` table (missing table:
/// no keys), or `None` when the text does not parse.
#[verifier::external_body]
fn parse_existing_patches(text: &str) -> (r: Option<Vec<String>>)
    ensures
        r is Some <==> manifest_names(text@) is Some,
        r is Some ==> string_set(r.unwrap()@) == patched_of(text@),
{
    let doc: toml::Table = match toml::from_str(text) {
        Ok(d) => d,
        Err(_) => return None,
    };
    match doc.get("patch").and_then(|p| p.get("crates-io")).and_then(|c| c.as_table()) {
        Some(t) => Some(t.keys().cloned().collect()),
        None => Some(Vec::new()),
    }
}

/// The section header that marks the override table.
pub open spec fn patch_header_text() -> Seq<char> {
    "[patch.crates-io]"@
}

/// The text appended when the override section is missing: the header on
/// a line of its own.
pub open spec fn header_block() -> Seq<char> {
    "\n[patch.crates-io]\n"@
}

/// One override line for a dependency.
pub open spec fn patch_line(d: DepView) -> Seq<char> {
    d.name + " = { git = \""@ + d.repo_url + "\", branch = \"main\" }\n"@
}

/// The override lines for a list of dependencies, in order.
pub open spec fn patch_lines(ds: Seq<DepView>) -> Seq<char>
    decreases ds.len(),
{
    if ds.len() == 0 {
        Seq::empty()
    } else {
        patch_lines(ds.drop_last()) + patch_line(ds.last())
    }
}

/// A candidate is applied exactly when its name is referenced and not
/// already overridden.
pub open spec fn selects(d: DepView, referenced: Set<Seq<char>>, existing: Set<Seq<char>>) -> bool {
    referenced.contains(d.name) && !existing.contains(d.name)
}

/// The candidates that a patch run applies, in input order.
pub open spec fn applied_deps(
    cands: Seq<DepView>,
    referenced: Set<Seq<char>>,
    existing: Set<Seq<char>>,
) -> Seq<DepView> {
    cands.filter(|d: DepView| selects(d, referenced, existing))
}

/// The manifest text with the override header guaranteed present: the
/// original text, with the header appended when no occurrence exists.
pub open spec fn base_text(text: Seq<char>) -> Seq<char> {
    if has_substr(text, patch_header_text()) {
        text
    } else {
        text + header_block()
    }
}

/// The manifest text after one patch run: existing text untouched, the
/// header ensured, and one override line appended per applied candidate.
pub open spec fn patched_text(
    text: Seq<char>,
    cands: Seq<DepView>,
    referenced: Set<Seq<char>>,
    existing: Set<Seq<char>>,
) -> Seq<char> {
    base_text(text) + patch_lines(applied_deps(cands, referenced, existing))
}

/// Why a manifest edit was refused.
#[derive(Clone, Copy, Debug, PartialEq, Eq, Structural)]
pub enum ManifestError {
    /// The manifest text is not well-formed, so nothing was changed.
    Unparseable,
}

/// Appends missing override entries to a manifest text.
///
/// Returns the new text together with the candidates that were applied:
/// exactly those whose name is referenced by the manifest and not yet
/// overridden, in input order. Existing text is never rewritten; the new
/// text is the old text plus, at most, a header and new override lines.
/// Fails exactly when the text cannot be parsed, in which case no output
/// text is produced at all.
pub fn ensure_patches_in_cargo_toml(text: &String, candidates: &Vec<Dep>) -> (r: Result<
    (String, Vec<Dep>),
    ManifestError,
>)
    ensures
        r is Ok <==> manifest_names(text@) is Some,
        r is Ok ==> dep_views(r.unwrap().1@) == applied_deps(
            dep_views(candidates@),
            referenced_of(text@),
            patched_of(text@),
        ),
        r is Ok ==> r.unwrap().0@ == patched_text(
            text@,
            dep_views(candidates@),
            referenced_of(text@),
            patched_of(text@),
        ),
{
    let referenced = match parse_referenced_crates(text.as_str()) {
        Some(v) => v,
        None => return Err(ManifestError::Unparseable),
    };
    let existing = match parse_existing_patches(text.as_str()) {
        Some(v) => v,
        None => return Err(ManifestError::Unparseable),
    };
    let ghost refd: Set<Seq<char>> = referenced_of(text@);
    let ghost exist: Set<Seq<char>> = patched_of(text@);

    let mut out: String = text.clone();
    let hay = chars_of(text.as_str());
    let pat = chars_of("[patch.crates-io]");
    if !contains_substr(&hay, &pat) {
        out.append("\n[patch.crates-io]\n");
    }
    assert(out@ == base_text(text@));

    let mut applied: Vec<Dep> = Vec::new();
    assert(base_text(text@) + patch_lines(dep_views(applied@)) =~= base_text(text@));
    let mut i: usize = 0;
    while i < candidates.len()
        invariant
            i <= candidates@.len(),
            string_set(referenced@) == refd,
            string_set(existing@) == exist,
            dep_views(applied@) == applied_deps(dep_views(candidates@.take(i as int)), refd, exist),
            out@ == base_text(text@) + patch_lines(dep_views(applied@)),
        decreases candidates@.len() - i,
    {
        let c = &candidates[i];
        let ghost prev_applied = dep_views(applied@);
        if vec_contains_string(&referenced, &c.name) && !vec_contains_string(&existing, &c.name) {
            out.append(c.name.as_str());
            out.append(" = { git = \"");
            out.append(c.repo_url.as_str());
            out.append("\", branch = \"main\" }\n");
            applied.push(c.duplicate());
            proof {
                assert(dep_views(applied@).drop_last() =~= prev_applied);
                assert(dep_views(applied@).last() == candidates@[i as int]@);
                assert(patch_lines(dep_views(applied@)) == patch_lines(prev_applied) + patch_line(
                    candidates@[i as int]@,
                ));
                assert(out@ =~= base_text(text@) + patch_lines(dep_views(applied@)));
            }
        }
        proof {
            reveal(Seq::filter);
            let cv = dep_views(candidates@);
            assert(dep_views(candidates@.take(i + 1)).drop_last() =~= dep_views(
                candidates@.take(i as int),
            ));
            assert(dep_views(candidates@.take(i + 1)).last() == candidates@[i as int]@);
            assert(dep_views(applied@) =~= applied_deps(
                dep_views(candidates@.take(i + 1)),
                refd,
                exist,
            ));
        }
        i += 1;
    }
    proof {
        assert(candidates@.take(candidates@.len() as int) =~= candidates@);
    }
    Ok((out, applied))
}

/// The subset of candidates whose name a manifest references, in order.
pub open spec fn referenced_subset(cands: Seq<DepView>, referenced: Set<Seq<char>>) -> Seq<
    DepView,
> {
    cands.filter(|d: DepView| referenced.contains(d.name))
}

/// The subset of candidates whose name a manifest already overrides.
pub open spec fn patched_subset(cands: Seq<DepView>, existing: Set<Seq<char>>) -> Seq<DepView> {
    cands.filter(|d: DepView| existing.contains(d.name))
}

/// The candidates that a manifest text references among its direct and
/// development dependencies, in input order; fails exactly when the text
/// cannot be parsed.
pub fn list_relevant_crates(text: &String, candidates: &Vec<Dep>) -> (r: Result<
    Vec<Dep>,
    ManifestError,
>)
    ensures
        r is Ok <==> manifest_names(text@) is Some,
        r is Ok ==> dep_views(r.unwrap()@) == referenced_subset(
            dep_views(candidates@),
            referenced_of(text@),
        ),
{
    let referenced = match parse_referenced_crates(text.as_str()) {
        Some(v) => v,
        None => return Err(ManifestError::Unparseable),
    };
    let ghost refd: Set<Seq<char>> = referenced_of(text@);
    let mut picked: Vec<Dep> = Vec::new();
    let mut i: usize = 0;
    while i < candidates.len()
        invariant
            i <= candidates@.len(),
            string_set(referenced@) == refd,
            dep_views(picked@) == referenced_subset(dep_views(candidates@.take(i as int)), refd),
        decreases candidates@.len() - i,
    {
        let c = &candidates[i];
        let ghost prev = dep_views(picked@);
        if vec_contains_string(&referenced, &c.name) {
            picked.push(c.duplicate());
            proof {
                assert(dep_views(picked@).drop_last() =~= prev);
            }
        }
        proof {
            reveal(Seq::filter);
            assert(dep_views(candidates@.take(i + 1)).drop_last() =~= dep_views(
                candidates@.take(i as int),
            ));
            assert(dep_views(candidates@.take(i + 1)).last() == candidates@[i as int]@);
            assert(dep_views(picked@) =~= referenced_subset(dep_views(candidates@.take(i + 1)), refd));
        }
        i += 1;
    }
    proof {
        assert(candidates@.take(candidates@.len() as int) =~= candidates@);
    }
    Ok(picked)
}

/// The candidates that a manifest text currently overrides under
/// `patch.crates-io`, in input order; fails exactly when the text cannot
/// be parsed.
pub fn list_patched_crates(text: &String, candidates: &Vec<Dep>) -> (r: Result<
    Vec<Dep>,
    ManifestError,
>)
    ensures
        r is Ok <==> manifest_names(text@) is Some,
        r is Ok ==> dep_views(r.unwrap()@) == patched_subset(
            dep_views(candidates@),
            patched_of(text@),
        ),
{
    let existing = match parse_existing_patches(text.as_str()) {
        Some(v) => v,
        None => return Err(ManifestError::Unparseable),
    };
    let ghost exist: Set<Seq<char>> = patched_of(text@);
    let mut picked: Vec<Dep> = Vec::new();
    let mut i: usize = 0;
    while i < candidates.len()
        invariant
            i <= candidates@.len(),
            string_set(existing@) == exist,
            dep_views(picked@) == patched_subset(dep_views(candidates@.take(i as int)), exist),
        decreases candidates@.len() - i,
    {
        let c = &candidates[i];
        let ghost prev = dep_views(picked@);
        if vec_contains_string(&existing, &c.name) {
            picked.push(c.duplicate());
            proof {
                assert(dep_views(picked@).drop_last() =~= prev);
            }
        }
        proof {
            reveal(Seq::filter);
            assert(dep_views(candidates@.take(i + 1)).drop_last() =~= dep_views(
                candidates@.take(i as int),
            ));
            assert(dep_views(candidates@.take(i + 1)).last() == candidates@[i as int]@);
            assert(dep_views(picked@) =~= patched_subset(dep_views(candidates@.take(i + 1)), exist));
        }
        i += 1;
    }
    proof {
        assert(candidates@.take(candidates@.len() as int) =~= candidates@);
    }
    Ok(picked)
}

/// Law: an override candidate is applied exactly when its name is in the
/// referenced-name set and not in the existing-patch set. Input order is
/// preserved by construction: the applied list is the subsequence of the
/// candidates that pass this test.
pub proof fn lemma_applied_iff_selected(
    cands: Seq<DepView>,
    refd: Set<Seq<char>>,
    exist: Set<Seq<char>>,
)
    ensures
        forall|d: DepView|
            #[trigger] applied_deps(cands, refd, exist).contains(d) <==> (cands.contains(d)
                && selects(d, refd, exist)),
{
    broadcast use vstd::seq_lib::group_seq_lib_default;

    let pred = |d: DepView| selects(d, refd, exist);
    let applied = applied_deps(cands, refd, exist);
    assert forall|d: DepView| #[trigger] applied.contains(d) implies (cands.contains(d) && selects(
        d,
        refd,
        exist,
    )) by {
        cands.lemma_filter_contains_rev(pred, d);
        let k = choose|k: int| 0 <= k < applied.len() && applied[k] == d;
        cands.lemma_filter_pred(pred, k);
    }
    assert forall|d: DepView| cands.contains(d) && selects(d, refd, exist) implies #[trigger] applied
        .contains(d) by {
        let k = choose|k: int| 0 <= k < cands.len() && cands[k] == d;
        cands.lemma_filter_contains(pred, k);
    }
}

/// Law: the patch run is idempotent. If a second read of the patched
/// manifest reports every name the first run already found or appended as
/// overridden, and reports no referenced names beyond the first read, then
/// the second run applies nothing and leaves the text exactly as it was.
pub proof fn lemma_patch_idempotent(
    text: Seq<char>,
    cands: Seq<DepView>,
    refd: Set<Seq<char>>,
    exist: Set<Seq<char>>,
    refd2: Set<Seq<char>>,
    exist2: Set<Seq<char>>,
)
    requires
        forall|n: Seq<char>| exist.contains(n) ==> exist2.contains(n),
        forall|j: int|
            0 <= j < applied_deps(cands, refd, exist).len() ==> exist2.contains(
                applied_deps(cands, refd, exist)[j].name,
            ),
        forall|n: Seq<char>| refd2.contains(n) ==> refd.contains(n),
    ensures
        applied_deps(cands, refd2, exist2) =~= Seq::<DepView>::empty(),
        patched_text(patched_text(text, cands, refd, exist), cands, refd2, exist2) == patched_text(
            text,
            cands,
            refd,
            exist,
        ),
{
    broadcast use vstd::seq_lib::group_seq_lib_default;

    let applied1 = applied_deps(cands, refd, exist);
    let applied2 = applied_deps(cands, refd2, exist2);
    let pred2 = |d: DepView| selects(d, refd2, exist2);
    assert forall|k: int| 0 <= k < cands.len() implies !pred2(cands[k]) by {
        let d = cands[k];
        if refd2.contains(d.name) {
            if exist.contains(d.name) {
            } else if refd.contains(d.name) {
                let pred1 = |x: DepView| selects(x, refd, exist);
                assert(pred1(d));
                cands.lemma_filter_contains(pred1, k);
                let j = choose|j: int| 0 <= j < applied1.len() && applied1[j] == d;
                assert(exist2.contains(applied1[j].name));
            }
        }
    }
    assert(applied2 =~= Seq::<DepView>::empty()) by {
        if applied2.len() > 0 {
            cands.lemma_filter_pred(pred2, 0);
            cands.lemma_filter_contains_rev(pred2, applied2[0]);
            let k = choose|k: int| 0 <= k < cands.len() && cands[k] == applied2[0];
            assert(!pred2(cands[k]));
        }
    }

    let text1 = patched_text(text, cands, refd, exist);
    assert(has_substr(text1, patch_header_text())) by {
        if has_substr(text, patch_header_text()) {
            lemma_has_substr_append(text, patch_lines(applied1), patch_header_text());
        } else {
            assert(matches_at(header_block(), patch_header_text(), 1)) by {
                reveal_strlit("\n[patch.crates-io]\n");
                reveal_strlit("[patch.crates-io]");
                assert(header_block().subrange(1, 18) =~= patch_header_text());
            }
            lemma_matches_at_embed(
                text,
                header_block(),
                patch_lines(applied1),
                patch_header_text(),
                1,
            );
        }
    }
    assert(patched_text(text1, cands, refd2, exist2) =~= text1);
}

} // verus!
