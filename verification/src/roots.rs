//! The set of top-level names of an archive, and the label an extraction
//! reports for it.

use vstd::prelude::*;
use crate::paths::{first_component, spec_first_component};
use crate::platform::Platform;
use crate::text::{same_text, texts};

verus! {

/// The first components of the paths in `names`, as a set. A path without a
/// first component adds nothing.
pub open spec fn spec_roots(p: Platform, names: Seq<Seq<char>>) -> Set<Seq<char>> {
    Set::new(
        |root: Seq<char>|
            exists|i: int|
                0 <= i < names.len() && #[trigger] spec_first_component(p, names[i]) == Some(root),
    )
}

/// The label of an extraction: the one root where there is exactly one,
/// otherwise the destination directory as it was given.
pub open spec fn spec_root_label(roots: Set<Seq<char>>, dest_dir: Seq<char>) -> Seq<char> {
    if roots.finite() && roots.len() == 1 {
        roots.choose()
    } else {
        dest_dir
    }
}

/// A set of distinct top-level names.
pub struct RootEntrySet {
    names: Vec<String>,
}

impl View for RootEntrySet {
    type V = Set<Seq<char>>;

    closed spec fn view(&self) -> Set<Seq<char>> {
        texts(self.names@).to_set()
    }
}

impl RootEntrySet {
    #[verifier::type_invariant]
    spec fn distinct(self) -> bool {
        texts(self.names@).no_duplicates()
    }

    /// The empty set.
    pub fn new() -> (r: Self)
        ensures
            r@ == Set::<Seq<char>>::empty(),
    {
        let r = RootEntrySet { names: Vec::new() };
        assert(texts(r.names@) =~= Seq::<Seq<char>>::empty());
        assert(r@ =~= Set::<Seq<char>>::empty());
        r
    }

    /// Whether `name` is a member.
    pub fn contains(&self, name: &str) -> (r: bool)
        ensures
            r == self@.contains(name@),
    {
        let mut i: usize = 0;
        while i < self.names.len()
            invariant
                i <= self.names.len(),
                forall|j: int| 0 <= j < i ==> texts(self.names@)[j] != name@,
            decreases self.names.len() - i,
        {
            if same_text(self.names[i].as_str(), name) {
                assert(texts(self.names@)[i as int] == name@);
                return true;
            }
            i += 1;
        }
        false
    }

    /// Adds `name`; a name that is already a member changes nothing.
    pub fn insert(&mut self, name: String)
        ensures
            final(self)@ == old(self)@.insert(name@),
    {
        proof {
            use_type_invariant(&*self);
        }
        let ghost before = texts(self.names@);
        if self.contains(name.as_str()) {
            assert(self@.insert(name@) =~= self@);
        } else {
            let mut names = Vec::new();
            std::mem::swap(&mut names, &mut self.names);
            names.push(name);
            assert(texts(names@) =~= before.push(name@));
            proof {
                before.lemma_push_to_set_commute(name@);
            }
            self.names = names;
        }
    }

    /// The number of members.
    pub fn len(&self) -> (r: usize)
        ensures
            self@.finite(),
            r == self@.len(),
    {
        proof {
            use_type_invariant(self);
            texts(self.names@).unique_seq_to_set();
        }
        self.names.len()
    }

    /// The label for an extraction into `dest_dir`: the single member where
    /// the set holds exactly one, otherwise `dest_dir` unchanged.
    pub fn label(&self, dest_dir: &str) -> (r: String)
        ensures
            r@ == spec_root_label(self@, dest_dir@),
    {
        proof {
            use_type_invariant(self);
            texts(self.names@).unique_seq_to_set();
        }
        if self.names.len() == 1 {
            proof {
                let only = texts(self.names@)[0];
                assert(self@.contains(only));
                assert(self@.contains(self@.choose()));
                let k = choose|k: int|
                    0 <= k < texts(self.names@).len() && texts(self.names@)[k] == self@.choose();
                assert(k == 0);
            }
            self.names[0].clone()
        } else {
            dest_dir.to_owned()
        }
    }
}

/// Collects the first components of `names`.
pub fn collect_roots(p: Platform, names: &Vec<String>) -> (r: RootEntrySet)
    ensures
        r@ == spec_roots(p, texts(names@)),
{
    let mut roots = RootEntrySet::new();
    let mut i: usize = 0;
    assert(spec_roots(p, texts(names@).take(0)) =~= Set::<Seq<char>>::empty());
    while i < names.len()
        invariant
            i <= names.len(),
            roots@ == spec_roots(p, texts(names@).take(i as int)),
        decreases names.len() - i,
    {
        let ghost before = texts(names@).take(i as int);
        let ghost after = texts(names@).take(i + 1);
        let ghost name = texts(names@)[i as int];
        assert(after =~= before.push(name));
        match first_component(p, names[i].as_str()) {
            Some(root) => {
                roots.insert(root);
                proof {
                    lemma_roots_push(p, before, name);
                }
            },
            None => {
                proof {
                    lemma_roots_push(p, before, name);
                }
            },
        }
        i += 1;
    }
    assert(texts(names@).take(i as int) =~= texts(names@));
    roots
}

/// One more path adds its first component, if it has one, and nothing else.
pub proof fn lemma_roots_push(p: Platform, names: Seq<Seq<char>>, name: Seq<char>)
    ensures
        spec_roots(p, names.push(name)) == match spec_first_component(p, name) {
            Some(root) => spec_roots(p, names).insert(root),
            None => spec_roots(p, names),
        },
{
    let more = names.push(name);
    let expected = match spec_first_component(p, name) {
        Some(root) => spec_roots(p, names).insert(root),
        None => spec_roots(p, names),
    };
    assert forall|root: Seq<char>| spec_roots(p, more).contains(root) implies expected.contains(
        root,
    ) by {
        let i = choose|i: int|
            0 <= i < more.len() && #[trigger] spec_first_component(p, more[i]) == Some(root);
        if i < names.len() {
            assert(more[i] == names[i]);
            assert(spec_first_component(p, names[i]) == Some(root));
        }
    }
    assert forall|root: Seq<char>| expected.contains(root) implies spec_roots(p, more).contains(
        root,
    ) by {
        if spec_roots(p, names).contains(root) {
            let i = choose|i: int|
                0 <= i < names.len() && #[trigger] spec_first_component(p, names[i]) == Some(root);
            assert(more[i] == names[i]);
            assert(spec_first_component(p, more[i]) == Some(root));
        } else {
            assert(more[names.len() as int] == name);
            assert(spec_first_component(p, more[names.len() as int]) == Some(root));
        }
    }
    assert(spec_roots(p, more) =~= expected);
}

/// The roots of finitely many paths are finitely many.
pub proof fn lemma_roots_finite(p: Platform, names: Seq<Seq<char>>)
    ensures
        spec_roots(p, names).finite(),
    decreases names.len(),
{
    if names.len() == 0 {
        assert(spec_roots(p, names) =~= Set::<Seq<char>>::empty());
    } else {
        let rest = names.drop_last();
        lemma_roots_finite(p, rest);
        lemma_roots_push(p, rest, names.last());
        assert(rest.push(names.last()) =~= names);
    }
}

/// Where the paths of an archive have exactly one first component, that
/// component is the label.
pub proof fn lemma_single_root_is_label(
    p: Platform,
    names: Seq<Seq<char>>,
    dest_dir: Seq<char>,
    root: Seq<char>,
)
    requires
        spec_roots(p, names) == set![root],
    ensures
        spec_root_label(spec_roots(p, names), dest_dir) == root,
{
    let roots = spec_roots(p, names);
    assert(roots.contains(root));
    assert(roots.len() == 1);
    assert(roots.contains(roots.choose()));
}

/// Where the paths of an archive have no first component at all, or more
/// than one, the destination directory is the label, unchanged.
pub proof fn lemma_other_roots_give_destination(
    p: Platform,
    names: Seq<Seq<char>>,
    dest_dir: Seq<char>,
)
    requires
        spec_roots(p, names).len() != 1,
    ensures
        spec_roots(p, names).finite(),
        spec_root_label(spec_roots(p, names), dest_dir) == dest_dir,
{
    lemma_roots_finite(p, names);
}

} // verus!
