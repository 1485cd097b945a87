//! Feature gates and their merge algorithm.
//!
//! A [`Features`] value is the ordered collection of feature-flag names under
//! which a declared node is present: semantically a set (membership matters,
//! duplicates do not), but insertion order is preserved so that downstream
//! output stays deterministic. The empty collection means "always present".

use vstd::prelude::*;

verus! {

/// The feature flags guarding one declared node.
///
/// Viewed in specifications as a `Seq<Seq<char>>`: the flag names, in
/// insertion order.
#[derive(Debug, Clone)]
pub struct Features {
    any: Vec<String>,
}

impl View for Features {
    type V = Seq<Seq<char>>;

    closed spec fn view(&self) -> Seq<Seq<char>> {
        self.any.deep_view()
    }
}

/// Every flag of `a` occurs somewhere in `b` (set containment on the names,
/// positions and duplicates disregarded).
pub open spec fn subset_of(a: Seq<Seq<char>>, b: Seq<Seq<char>>) -> bool {
    forall|i: int| 0 <= i < a.len() ==> #[trigger] b.contains(a[i])
}

/// Two feature sets may be merged: either one is empty, or the one with
/// fewer flags is contained in the one with more, or they have equally many
/// flags and contain each other.
pub open spec fn joinable(a: Seq<Seq<char>>, b: Seq<Seq<char>>) -> bool {
    if a.len() == 0 {
        true
    } else if a.len() < b.len() {
        subset_of(a, b)
    } else if b.len() < a.len() {
        subset_of(b, a)
    } else {
        subset_of(a, b) && subset_of(b, a)
    }
}

/// The result of merging feature sets `a` and `b`: the side with more flags;
/// `b`'s value when the counts tie (and in particular when `a` is empty).
pub open spec fn join_spec(a: Seq<Seq<char>>, b: Seq<Seq<char>>) -> Seq<Seq<char>> {
    if a.len() > b.len() {
        a
    } else {
        b
    }
}

impl Features {
    /// Wraps the given flag names verbatim: no deduplication, no sorting;
    /// the caller controls the order.
    pub fn new(any: Vec<String>) -> (features: Features)
        ensures
            features@ == any.deep_view(),
    {
        Features { any }
    }

    /// The number of flags (duplicates counted as given to `new`).
    pub fn len(&self) -> (n: usize)
        ensures
            n == self@.len(),
    {
        self.any.len()
    }

    /// Set membership: true iff `tag` appears anywhere in the flag sequence.
    pub fn contains(&self, tag: &str) -> (present: bool)
        ensures
            present == self@.contains(tag@),
    {
        let owned: String = tag.to_owned();
        contains_flag(&self.any, &owned)
    }

    /// The flag name at position `index`. Out-of-range access is a caller
    /// error, ruled out by the precondition: the sequence has no sentinel for
    /// "missing", so no default is ever returned.
    pub fn index(&self, index: usize) -> (flag: &str)
        requires
            index < self@.len(),
        ensures
            flag@ == self@[index as int],
    {
        self.any[index].as_str()
    }

    /// Read-only, restartable iteration: the flag names in original order.
    pub fn iter(&self) -> (flags: &Vec<String>)
        ensures
            flags.deep_view() == self@,
    {
        &self.any
    }

    /// Whether `join` accepts `other`: the two flag sets are nested as
    /// [`joinable`] demands. A merge of two sets that fail this check is a
    /// schema-construction error.
    pub fn can_join(&self, other: &Features) -> (ok: bool)
        ensures
            ok == joinable(self@, other@),
    {
        if self.any.len() == 0 {
            true
        } else if self.any.len() < other.any.len() {
            subset_flags(&self.any, &other.any)
        } else if other.any.len() < self.any.len() {
            subset_flags(&other.any, &self.any)
        } else {
            subset_flags(&self.any, &other.any) && subset_flags(&other.any, &self.any)
        }
    }

    /// Merges the feature requirements of a repeated declaration into this
    /// one. The two sets must be nested (`joinable`): re-declarations of the
    /// same logical node form a refinement chain, and anything else is a
    /// schema-construction error that a caller must rule out beforehand (see
    /// [`Features::can_join`]). The result is the larger of the two sets;
    /// `other`'s value is kept on a tie, so an unconditional (empty) set
    /// always adopts `other`'s flags wholesale, in `other`'s order.
    pub fn join(&mut self, other: &Features)
        requires
            joinable(old(self)@, other@),
        ensures
            final(self)@ == join_spec(old(self)@, other@),
            old(self)@.len() == 0 ==> final(self)@ == other@,
    {
        if self.any.len() <= other.any.len() {
            self.any = clone_flags(&other.any);
        }
    }
}

impl Default for Features {
    /// The default feature set is empty: present unconditionally.
    fn default() -> (features: Features)
        ensures
            features@ == Seq::<Seq<char>>::empty(),
    {
        let features = Features { any: Vec::new() };
        proof {
            assert(features@ =~= Seq::<Seq<char>>::empty());
        }
        features
    }
}

/// Law: when the flags of `a` are contained in the flags of `b` (as sets,
/// both free of duplicates), merging in either direction is accepted, and
/// either way the merged flag set equals `b`'s flag set.
pub proof fn lemma_join_of_nested_sets(a: Seq<Seq<char>>, b: Seq<Seq<char>>)
    requires
        a.no_duplicates(),
        b.no_duplicates(),
        subset_of(a, b),
    ensures
        joinable(a, b),
        joinable(b, a),
        join_spec(a, b).to_set() == b.to_set(),
        join_spec(b, a).to_set() == b.to_set(),
{
    broadcast use vstd::seq_lib::seq_to_set_is_finite;

    assert(a.to_set().subset_of(b.to_set())) by {
        assert forall|x: Seq<char>| a.to_set().contains(x) implies b.to_set().contains(x) by {
            let i = choose|i: int| 0 <= i < a.len() && a[i] == x;
            assert(b.contains(a[i]));
        }
    }
    a.unique_seq_to_set();
    b.unique_seq_to_set();
    vstd::set_lib::lemma_len_subset(a.to_set(), b.to_set());
    if a.len() == b.len() {
        assert(a.to_set() =~= b.to_set()) by {
            assert forall|x: Seq<char>| b.to_set().contains(x) implies a.to_set().contains(x) by {
                if !a.to_set().contains(x) {
                    assert(a.to_set().subset_of(b.to_set().remove(x)));
                    vstd::set_lib::lemma_len_subset(a.to_set(), b.to_set().remove(x));
                }
            }
        }
        assert(subset_of(b, a)) by {
            assert forall|i: int| 0 <= i < b.len() implies #[trigger] a.contains(b[i]) by {
                assert(b.to_set().contains(b[i]));
            }
        }
    }
    assert(join_spec(b, a).to_set() == b.to_set()) by {
        if b.len() == a.len() {
            assert(a.to_set() == b.to_set());
        }
    }
}

/// Law: a `Features` built by `new` over `flags` reports membership of `f`
/// right after construction exactly when `f` is among `flags`: true for
/// every inserted flag, false for every flag never inserted.
pub proof fn lemma_new_then_contains(flags: Seq<Seq<char>>, f: Seq<char>)
    ensures
        (exists|j: int| 0 <= j < flags.len() && flags[j] == f) ==> flags.contains(f),
        (forall|j: int| 0 <= j < flags.len() ==> flags[j] != f) ==> !flags.contains(f),
{
}

/// Linear scan for one flag name.
fn contains_flag(flags: &Vec<String>, f: &String) -> (present: bool)
    ensures
        present == flags.deep_view().contains(f@),
{
    let mut i: usize = 0;
    while i < flags.len()
        invariant
            i <= flags.len(),
            forall|j: int| 0 <= j < i ==> flags.deep_view()[j] != f@,
        decreases flags.len() - i,
    {
        if flags[i].eq(f) {
            proof {
                assert(flags.deep_view()[i as int] == f@);
            }
            return true;
        }
        i += 1;
    }
    false
}

/// Checks that every flag of `a` occurs in `b`.
fn subset_flags(a: &Vec<String>, b: &Vec<String>) -> (ok: bool)
    ensures
        ok == subset_of(a.deep_view(), b.deep_view()),
{
    let mut i: usize = 0;
    while i < a.len()
        invariant
            i <= a.len(),
            forall|j: int| 0 <= j < i ==> #[trigger] b.deep_view().contains(a.deep_view()[j]),
        decreases a.len() - i,
    {
        if !contains_flag(b, &a[i]) {
            proof {
                assert(!b.deep_view().contains(a.deep_view()[i as int]));
            }
            return false;
        }
        i += 1;
    }
    true
}

/// Copies a flag sequence, name for name.
fn clone_flags(flags: &Vec<String>) -> (cloned: Vec<String>)
    ensures
        cloned.deep_view() == flags.deep_view(),
{
    let mut cloned: Vec<String> = Vec::new();
    let mut i: usize = 0;
    while i < flags.len()
        invariant
            i <= flags.len(),
            cloned@.len() == i,
            forall|j: int| 0 <= j < i ==> cloned@[j] == flags@[j],
        decreases flags.len() - i,
    {
        cloned.push(flags[i].clone());
        i += 1;
    }
    proof {
        assert(cloned@ =~= flags@);
        assert(cloned.deep_view() =~= flags.deep_view());
    }
    cloned
}

} // verus!
