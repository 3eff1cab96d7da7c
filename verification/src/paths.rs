use vstd::prelude::*;

verus! {

/// A filesystem path, modelled as the sequence of its components.
///
/// The shell that performs the actual filesystem calls converts between this
/// model and the platform's native path type; the core's reasoning only ever
/// depends on the components themselves.
#[derive(Clone, Debug)]
pub struct FsPath {
    pub parts: Vec<String>,
}

impl View for FsPath {
    type V = Seq<Seq<char>>;

    open spec fn view(&self) -> Seq<Seq<char>> {
        self.parts@.map_values(|p: String| p@)
    }
}

impl FsPath {
    /// A deep copy; `r` denotes the same path.
    pub fn duplicate(&self) -> (r: FsPath)
        ensures
            r@ == self@,
    {
        let mut parts: Vec<String> = Vec::new();
        let n = self.parts.len();
        let mut i: usize = 0;
        while i < n
            invariant
                i <= n,
                n == self.parts.len(),
                parts@.len() == i as int,
                forall|k: int| 0 <= k < i ==> parts@[k]@ == self.parts@[k]@,
            decreases n - i,
        {
            parts.push(self.parts[i].clone());
            i = i + 1;
        }
        let r = FsPath { parts };
        proof {
            assert(r@ =~= self@);
        }
        r
    }

    /// Appends one component.
    pub fn push(&mut self, part: String)
        ensures
            final(self)@ == old(self)@.push(part@),
    {
        self.parts.push(part);
        proof {
            assert(self@ =~= old(self)@.push(part@));
        }
    }
}

/// True exactly when the path has no components, as the relative path of a
/// walk's root entry does.
pub fn empty_path(path: &FsPath) -> (r: bool)
    ensures
        r == (path@.len() == 0),
{
    path.parts.len() == 0
}

/// The concatenation of `base` and `rel`.
pub fn joined(base: &FsPath, rel: &FsPath) -> (r: FsPath)
    ensures
        r@ == base@ + rel@,
{
    let mut r = base.duplicate();
    let n = rel.parts.len();
    let mut i: usize = 0;
    while i < n
        invariant
            i <= n,
            n == rel.parts.len(),
            r@ =~= base@ + rel@.subrange(0, i as int),
        decreases n - i,
    {
        proof {
            assert(rel@.subrange(0, i + 1) =~= rel@.subrange(0, i as int).push(rel@[i as int]));
        }
        r.push(rel.parts[i].clone());
        i = i + 1;
    }
    proof {
        assert(rel@.subrange(0, n as int) =~= rel@);
        assert(r@ =~= base@ + rel@);
    }
    r
}

} // verus!
