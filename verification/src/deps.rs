use vstd::prelude::*;

verus! {

/// One dependency override candidate: the crate's name and the git
/// repository URL that the override should point at.
#[derive(Clone, Debug)]
pub struct Dep {
    pub name: String,
    pub repo_url: String,
}

/// Mathematical model of a `Dep`: both fields as character sequences.
pub struct DepView {
    pub name: Seq<char>,
    pub repo_url: Seq<char>,
}

impl View for Dep {
    type V = DepView;

    open spec fn view(&self) -> DepView {
        DepView { name: self.name@, repo_url: self.repo_url@ }
    }
}

impl Dep {
    /// Copies a dependency entry; the copy models the same pair.
    pub fn duplicate(&self) -> (r: Dep)
        ensures
            r@ == self@,
    {
        Dep { name: self.name.clone(), repo_url: self.repo_url.clone() }
    }
}

/// The models of a sequence of dependency entries.
pub open spec fn dep_views(ds: Seq<Dep>) -> Seq<DepView> {
    ds.map_values(|d: Dep| d@)
}

/// The crate names of a sequence of dependency models.
pub open spec fn names_of(ds: Seq<DepView>) -> Seq<Seq<char>> {
    ds.map_values(|d: DepView| d.name)
}

/// The repository URLs of a sequence of dependency models.
pub open spec fn urls_of(ds: Seq<DepView>) -> Seq<Seq<char>> {
    ds.map_values(|d: DepView| d.repo_url)
}

/// The models of a sequence of strings.
pub open spec fn views_of(ss: Seq<String>) -> Seq<Seq<char>> {
    ss.map_values(|s: String| s@)
}

/// The set of character sequences held by a sequence of strings.
pub open spec fn string_set(ss: Seq<String>) -> Set<Seq<char>> {
    Set::new(|n: Seq<char>| exists|i: int| 0 <= i < ss.len() && ss[i]@ == n)
}

/// Membership of `x` in `v`, decided by character-for-character equality.
pub fn vec_contains_string(v: &Vec<String>, x: &String) -> (r: bool)
    ensures
        r == string_set(v@).contains(x@),
{
    let mut i: usize = 0;
    while i < v.len()
        invariant
            i <= v@.len(),
            forall|k: int| 0 <= k < i ==> v@[k]@ != x@,
        decreases v@.len() - i,
    {
        if v[i].eq(x) {
            assert(string_set(v@).contains(x@)) by {
                assert(v@[i as int]@ == x@);
            }
            return true;
        }
        i += 1;
    }
    assert(!string_set(v@).contains(x@));
    false
}

} // verus!
