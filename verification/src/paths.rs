//! Paths as sequences of components.
//!
//! The engine never touches the filesystem, so a path is modelled by what
//! the reconciliation logic actually reads of it: the list of its
//! components, each a byte string (the bytes of one file name). An absolute
//! path is the component list after the root; the empty list is the root
//! itself. A path relative to some root is the same shape. Prefix tests,
//! prefix stripping and joining are component-wise, which is exactly how
//! canonicalized absolute paths compare.

use vstd::prelude::*;

use crate::DkError;

verus! {

/// A filesystem path, absolute or relative, as its list of components.
#[derive(Debug, PartialEq, Eq)]
pub struct FsPath {
    pub parts: Vec<Vec<u8>>,
}

impl View for FsPath {
    type V = Seq<Seq<u8>>;

    open spec fn view(&self) -> Seq<Seq<u8>> {
        Seq::new(self.parts@.len(), |i: int| self.parts@[i]@)
    }
}

/// `p` is a component-wise prefix of `q` (every path is a prefix of itself).
pub open spec fn is_prefix_of(p: Seq<Seq<u8>>, q: Seq<Seq<u8>>) -> bool {
    p.len() <= q.len() && forall|i: int| 0 <= i < p.len() ==> p[i] == q[i]
}

/// The tail of `q` after a prefix of length `n`.
pub open spec fn strip_len(q: Seq<Seq<u8>>, n: int) -> Seq<Seq<u8>> {
    q.subrange(n, q.len() as int)
}

/// Joining a root with a relative tail restores the whole path.
pub proof fn lemma_join_strip(root: Seq<Seq<u8>>, rel: Seq<Seq<u8>>)
    ensures
        is_prefix_of(root, root + rel),
        strip_len(root + rel, root.len() as int) =~= rel,
{
}

/// A prefix followed by its own tail is the whole path.
pub proof fn lemma_strip_join(root: Seq<Seq<u8>>, p: Seq<Seq<u8>>)
    requires
        is_prefix_of(root, p),
    ensures
        root + strip_len(p, root.len() as int) =~= p,
{
}

/// Equal paths under one root have equal tails.
pub proof fn lemma_append_left_cancel(a: Seq<Seq<u8>>, b: Seq<Seq<u8>>, c: Seq<Seq<u8>>)
    requires
        a + b == a + c,
    ensures
        b == c,
{
    assert((a + b).len() == a.len() + b.len());
    assert((a + c).len() == a.len() + c.len());
    assert(b.len() == c.len());
    assert forall|i: int| 0 <= i < b.len() implies b[i] == c[i] by {
        assert((a + b)[a.len() + i] == (a + c)[a.len() + i]);
    }
    assert(b =~= c);
}

/// Equal paths with one relative tail have equal roots.
pub proof fn lemma_append_right_cancel(a: Seq<Seq<u8>>, b: Seq<Seq<u8>>, c: Seq<Seq<u8>>)
    requires
        a + c == b + c,
    ensures
        a == b,
{
    assert((a + c).len() == a.len() + c.len());
    assert((b + c).len() == b.len() + c.len());
    assert(a.len() == b.len());
    assert forall|i: int| 0 <= i < a.len() implies a[i] == b[i] by {
        assert((a + c)[i] == (b + c)[i]);
    }
    assert(a =~= b);
}

/// Byte-vector equality, the component comparison.
pub fn bytes_eq(a: &Vec<u8>, b: &Vec<u8>) -> (r: bool)
    ensures
        r == (a@ == b@),
{
    if a.len() != b.len() {
        return false;
    }
    let mut i: usize = 0;
    while i < a.len()
        invariant
            0 <= i <= a@.len(),
            a@.len() == b@.len(),
            forall|j: int| 0 <= j < i ==> a@[j] == b@[j],
        decreases a@.len() - i,
    {
        if a[i] != b[i] {
            return false;
        }
        i += 1;
    }
    proof {
        assert(a@ =~= b@);
    }
    true
}

fn clone_bytes(a: &Vec<u8>) -> (r: Vec<u8>)
    ensures
        r@ == a@,
{
    let mut r: Vec<u8> = Vec::new();
    let mut i: usize = 0;
    while i < a.len()
        invariant
            0 <= i <= a@.len(),
            r@ == a@.subrange(0, i as int),
        decreases a@.len() - i,
    {
        r.push(a[i]);
        proof {
            assert(r@ =~= a@.subrange(0, i + 1));
        }
        i += 1;
    }
    proof {
        assert(r@ =~= a@);
    }
    r
}

impl Clone for FsPath {
    /// A clone denotes the same path.
    fn clone(&self) -> (r: Self)
        ensures
            r@ == self@,
    {
        let mut parts: Vec<Vec<u8>> = Vec::new();
        let mut i: usize = 0;
        while i < self.parts.len()
            invariant
                0 <= i <= self.parts@.len(),
                parts@.len() == i,
                forall|j: int| 0 <= j < i ==> parts@[j]@ == self.parts@[j]@,
            decreases self.parts@.len() - i,
        {
            parts.push(clone_bytes(&self.parts[i]));
            i += 1;
        }
        let r = FsPath { parts };
        proof {
            assert(r@ =~= self@);
        }
        r
    }
}

impl FsPath {
    /// The number of components.
    pub fn depth(&self) -> (n: usize)
        ensures
            n == self@.len(),
    {
        self.parts.len()
    }

    /// Component-wise path equality.
    pub fn eq_path(&self, other: &FsPath) -> (r: bool)
        ensures
            r == (self@ == other@),
    {
        if self.parts.len() != other.parts.len() {
            proof {
                assert(self@.len() != other@.len());
            }
            return false;
        }
        let mut i: usize = 0;
        while i < self.parts.len()
            invariant
                0 <= i <= self@.len(),
                self@.len() == other@.len(),
                self.parts@.len() == other.parts@.len(),
                forall|j: int| 0 <= j < i ==> self@[j] == other@[j],
            decreases self@.len() - i,
        {
            if !bytes_eq(&self.parts[i], &other.parts[i]) {
                proof {
                    assert(self@[i as int] != other@[i as int]);
                }
                return false;
            }
            i += 1;
        }
        proof {
            assert(self@ =~= other@);
        }
        true
    }

    /// Whether `self` lies under (or is) `root`, component-wise, as
    /// canonicalized absolute paths compare.
    pub fn starts_with(&self, root: &FsPath) -> (r: bool)
        ensures
            r == is_prefix_of(root@, self@),
    {
        if root.parts.len() > self.parts.len() {
            return false;
        }
        let mut i: usize = 0;
        while i < root.parts.len()
            invariant
                0 <= i <= root@.len(),
                root@.len() <= self@.len(),
                root.parts@.len() == root@.len(),
                self.parts@.len() == self@.len(),
                forall|j: int| 0 <= j < i ==> root@[j] == self@[j],
            decreases root@.len() - i,
        {
            if !bytes_eq(&root.parts[i], &self.parts[i]) {
                proof {
                    assert(root@[i as int] != self@[i as int]);
                }
                return false;
            }
            i += 1;
        }
        true
    }

    /// The identity of `self` relative to `root`: the components after the
    /// prefix. Errs exactly when `self` does not lie under `root`.
    pub fn strip_prefix(&self, root: &FsPath) -> (r: Result<FsPath, DkError>)
        ensures
            r is Ok <==> is_prefix_of(root@, self@),
            r is Ok ==> r->Ok_0@ == strip_len(self@, root@.len() as int),
    {
        if !self.starts_with(root) {
            return Err(DkError::PrefixMismatch);
        }
        let mut parts: Vec<Vec<u8>> = Vec::new();
        let mut i: usize = root.parts.len();
        while i < self.parts.len()
            invariant
                root@.len() <= i <= self@.len(),
                self.parts@.len() == self@.len(),
                parts@.len() == i - root@.len(),
                forall|j: int| 0 <= j < parts@.len() ==> parts@[j]@ == self@[root@.len() + j],
            decreases self@.len() - i,
        {
            parts.push(clone_bytes(&self.parts[i]));
            i += 1;
        }
        let r = FsPath { parts };
        proof {
            assert(r@ =~= strip_len(self@, root@.len() as int));
        }
        Ok(r)
    }

    /// The path `self/rel`.
    pub fn join(&self, rel: &FsPath) -> (r: FsPath)
        ensures
            r@ == self@ + rel@,
    {
        let mut r = self.clone();
        let mut i: usize = 0;
        while i < rel.parts.len()
            invariant
                0 <= i <= rel@.len(),
                rel.parts@.len() == rel@.len(),
                r@ == self@ + rel@.subrange(0, i as int),
        decreases rel@.len() - i,
        {
            let ghost prev = r@;
            r.parts.push(clone_bytes(&rel.parts[i]));
            proof {
                assert(r@ =~= prev.push(rel@[i as int]));
                assert(prev.push(rel@[i as int]) =~= self@ + rel@.subrange(0, i + 1));
            }
            i += 1;
        }
        proof {
            assert(rel@.subrange(0, rel@.len() as int) =~= rel@);
        }
        r
    }

    /// The parent of a non-root path: all components but the last.
    pub fn parent(&self) -> (r: FsPath)
        requires
            self@.len() > 0,
        ensures
            r@ == self@.drop_last(),
    {
        let mut r = self.clone();
        let ghost prev = r@;
        let _ = r.parts.pop();
        proof {
            assert(r@ =~= prev.drop_last());
        }
        r
    }
}

} // verus!
