//! Absolute filesystem paths, modeled as their component names in order.

use vstd::prelude::*;

verus! {

/// An absolute filesystem path, stored as its component names in order.
/// An empty component sequence stands for the filesystem root.
pub struct FsPath {
    pub parts: Vec<String>,
}

impl View for FsPath {
    type V = Seq<Seq<char>>;

    open spec fn view(&self) -> Seq<Seq<char>> {
        self.parts.deep_view()
    }
}

impl DeepView for FsPath {
    type V = Seq<Seq<char>>;

    open spec fn deep_view(&self) -> Seq<Seq<char>> {
        self.view()
    }
}

impl Clone for FsPath {
    fn clone(&self) -> (r: Self)
        ensures
            r@ == self@,
    {
        let parts = self.parts.clone();
        proof {
            assert forall|i: int| 0 <= i < self.parts.len() implies parts.deep_view()[i]
                == self.parts.deep_view()[i] by {
                assert(cloned::<String>(self.parts[i], parts[i]));
            }
            assert(parts.deep_view() =~= self.parts.deep_view());
        }
        FsPath { parts }
    }
}

impl FsPath {
    /// The filesystem root, the path with no components.
    pub fn root() -> (r: FsPath)
        ensures
            r@ == Seq::<Seq<char>>::empty(),
    {
        let r = FsPath { parts: Vec::new() };
        proof {
            assert(r@ =~= Seq::<Seq<char>>::empty());
        }
        r
    }

    /// The parent path: the same path without its last component.
    /// The root has no parent.
    pub fn parent(&self) -> (r: Option<FsPath>)
        ensures
            self@.len() == 0 ==> r is None,
            self@.len() > 0 ==> (r matches Some(p) && p@ == self@.drop_last()),
    {
        if self.parts.len() == 0 {
            None
        } else {
            let mut p = self.clone();
            p.parts.pop();
            proof {
                assert(p@ =~= self@.drop_last());
            }
            Some(p)
        }
    }

    /// The path of the named child of this path.
    pub fn child(&self, name: String) -> (r: FsPath)
        ensures
            r@ == self@.push(name@),
    {
        let mut p = self.clone();
        p.parts.push(name);
        proof {
            assert(p@ =~= self@.push(name@));
        }
        p
    }

    /// The final component, or `None` for the root.
    pub fn file_name(&self) -> (r: Option<&String>)
        ensures
            self@.len() == 0 ==> r is None,
            self@.len() > 0 ==> (r matches Some(n) && n@ == self@.last()),
    {
        if self.parts.len() == 0 {
            None
        } else {
            Some(&self.parts[self.parts.len() - 1])
        }
    }

    /// Whether the two paths have the same components.
    pub fn same_path(&self, other: &FsPath) -> (r: bool)
        ensures
            r == (self@ == other@),
    {
        if self.parts.len() != other.parts.len() {
            proof {
                assert(self@.len() == self.parts.len());
                assert(other@.len() == other.parts.len());
            }
            return false;
        }
        let n = self.parts.len();
        let mut i: usize = 0;
        while i < n
            invariant
                n == self.parts.len(),
                n == other.parts.len(),
                i <= n,
                forall|j: int| 0 <= j < i ==> self@[j] == other@[j],
            decreases n - i,
        {
            if !(self.parts[i] == other.parts[i]) {
                proof {
                    assert(self@[i as int] == self.parts@[i as int]@);
                    assert(other@[i as int] == other.parts@[i as int]@);
                }
                return false;
            }
            i += 1;
        }
        proof {
            assert(self@ =~= other@);
        }
        true
    }
}

} // verus!
