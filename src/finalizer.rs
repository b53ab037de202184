//! The finalizer list of a `Test` object: the ordered cleanup obligations that keep the
//! control plane from purging it.
use vstd::prelude::*;

verus! {

/// Marks the object as owned and managed by the controller; removed last.
pub const MAIN_FINALIZER: &'static str = "owned";

/// Marks that an execution unit of the test still exists and must be cleaned up.
pub const POD_FINALIZER: &'static str = "test-pod";

pub open spec fn main_token() -> Seq<char> {
    MAIN_FINALIZER@
}

pub open spec fn pod_token() -> Seq<char> {
    POD_FINALIZER@
}

/// No token appears twice in the list.
pub open spec fn no_duplicates(f: Seq<Seq<char>>) -> bool {
    forall|i: int, j: int| 0 <= i < j < f.len() ==> f[i] != f[j]
}

/// The list after adding `token`: unchanged when it is already present, else appended.
pub open spec fn with_added(f: Seq<Seq<char>>, token: Seq<char>) -> Seq<Seq<char>> {
    if f.contains(token) {
        f
    } else {
        f.push(token)
    }
}

/// The list after removing every occurrence of `token`, the others kept in order.
pub open spec fn with_removed(f: Seq<Seq<char>>, token: Seq<char>) -> Seq<Seq<char>> {
    f.filter(|s: Seq<char>| s != token)
}

/// Only the main finalizer, if anything, still holds the object.
pub open spec fn safe_to_delete(f: Seq<Seq<char>>) -> bool {
    f.len() == 0 || (f.len() == 1 && f[0] == main_token())
}

/// Whether `token` is in the list.
pub fn has_finalizer(finalizers: &Vec<String>, token: &str) -> (r: bool)
    ensures
        r == finalizers.deep_view().contains(token@),
{
    let t = token.to_owned();
    let mut i: usize = 0;
    while i < finalizers.len()
        invariant
            0 <= i <= finalizers.len(),
            t@ == token@,
            forall|k: int| 0 <= k < i ==> finalizers.deep_view()[k] != token@,
        decreases finalizers.len() - i,
    {
        if finalizers[i] == t {
            assert(finalizers.deep_view()[i as int] == token@);
            return true;
        }
        i = i + 1;
    }
    proof {
        if finalizers.deep_view().contains(token@) {
            let k = choose|k: int| 0 <= k < finalizers.deep_view().len()
                && finalizers.deep_view()[k] == token@;
            assert(finalizers.deep_view()[k] != token@);
        }
    }
    false
}

/// Whether the list holds at least one token.
pub fn has_finalizers(finalizers: &Vec<String>) -> (r: bool)
    ensures
        r == (finalizers.deep_view().len() > 0),
{
    finalizers.len() > 0
}

/// Adds `token`; an already present token is a successful no-op.
pub fn add_finalizer(finalizers: &mut Vec<String>, token: &str)
    ensures
        final(finalizers).deep_view() == with_added(old(finalizers).deep_view(), token@),
{
    if !has_finalizer(finalizers, token) {
        finalizers.push(token.to_owned());
        assert(finalizers.deep_view() =~= old(finalizers).deep_view().push(token@));
    }
}

/// Removes every occurrence of `token`; an absent token is a successful no-op.
pub fn remove_finalizer(finalizers: &mut Vec<String>, token: &str)
    ensures
        final(finalizers).deep_view() == with_removed(old(finalizers).deep_view(), token@),
{
    let t = token.to_owned();
    let mut kept: Vec<String> = Vec::new();
    let mut i: usize = 0;
    while i < finalizers.len()
        invariant
            0 <= i <= finalizers.len(),
            t@ == token@,
            kept.deep_view() == with_removed(finalizers.deep_view().subrange(0, i as int), token@),
        decreases finalizers.len() - i,
    {
        proof {
            let f = finalizers.deep_view();
            assert(f.subrange(0, i + 1).drop_last() =~= f.subrange(0, i as int));
            reveal(Seq::filter);
        }
        if finalizers[i] != t {
            let s = finalizers[i].clone();
            kept.push(s);
        }
        i = i + 1;
    }
    assert(finalizers.deep_view().subrange(0, finalizers.len() as int) == finalizers.deep_view());
    *finalizers = kept;
}

/// Whether at most the main finalizer still holds the object.
pub fn is_safe_to_delete(finalizers: &Vec<String>) -> (r: bool)
    ensures
        r == safe_to_delete(finalizers.deep_view()),
{
    let n = finalizers.len();
    if n == 0 {
        true
    } else if n == 1 {
        let m = MAIN_FINALIZER.to_owned();
        finalizers[0] == m
    } else {
        false
    }
}

/// Adding a token twice leaves the same list as adding it once.
pub proof fn lemma_add_idempotent(f: Seq<Seq<char>>, token: Seq<char>)
    ensures
        with_added(with_added(f, token), token) == with_added(f, token),
{
    if !f.contains(token) {
        assert(f.push(token)[f.len() as int] == token);
    }
}

/// For a list without repeated tokens, it is safe to delete exactly when every token in it
/// is the main finalizer.
pub proof fn lemma_safe_iff_only_main(f: Seq<Seq<char>>)
    requires
        no_duplicates(f),
    ensures
        safe_to_delete(f) <==> (forall|i: int| 0 <= i < f.len() ==> f[i] == main_token()),
{
    if f.len() >= 2 && forall|i: int| 0 <= i < f.len() ==> f[i] == main_token() {
        assert(f[0] == f[1]);
    }
}

/// Adding a token keeps the list free of repeats.
pub proof fn lemma_add_keeps_distinct(f: Seq<Seq<char>>, token: Seq<char>)
    requires
        no_duplicates(f),
    ensures
        no_duplicates(with_added(f, token)),
{
    if !f.contains(token) {
        let g = f.push(token);
        assert forall|i: int, j: int| 0 <= i < j < g.len() implies g[i] != g[j] by {
            if j == f.len() {
                assert(f[i] == g[i]);
            }
        }
    }
}

} // verus!
