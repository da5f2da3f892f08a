use vstd::prelude::*;
use crate::bytes::{same_bytes, DOT};
use crate::error::Error;

verus! {

/// Index `i` holds the last dot of `name`.
pub open spec fn is_last_dot(name: Seq<u8>, i: int) -> bool {
    &&& 0 <= i < name.len()
    &&& name[i] == DOT
    &&& forall|j: int| i < j < name.len() ==> name[j] != DOT
}

/// The extension of a file name: what follows its last dot. A name without a
/// dot has none.
pub open spec fn extension(name: Seq<u8>) -> Option<Seq<u8>> {
    if exists|i: int| is_last_dot(name, i) {
        Some(name.skip((choose|i: int| is_last_dot(name, i)) + 1))
    } else {
        None
    }
}

/// A name has one last dot at most, so the extension is what follows it.
pub proof fn lemma_extension_after(name: Seq<u8>, i: int)
    requires
        is_last_dot(name, i),
    ensures
        extension(name) == Some(name.skip(i + 1)),
{
    let k = choose|k: int| is_last_dot(name, k);
    if k < i {
        assert(name[i] != DOT);
    } else if i < k {
        assert(name[k] != DOT);
    }
}

/// A name has an extension exactly where it holds a dot.
pub proof fn lemma_extension_needs_dot(name: Seq<u8>)
    ensures
        extension(name) is Some <==> name.contains(DOT),
    decreases name.len(),
{
    if exists|i: int| is_last_dot(name, i) {
        let i = choose|i: int| is_last_dot(name, i);
        assert(name[i] == DOT);
    } else if name.contains(DOT) {
        let last = name.last();
        let front = name.drop_last();
        if last == DOT {
            assert(is_last_dot(name, name.len() - 1));
        } else {
            let at = choose|at: int| 0 <= at < name.len() && name[at] == DOT;
            assert(front[at] == DOT);
            lemma_extension_needs_dot(front);
            let i = choose|i: int| is_last_dot(front, i);
            assert forall|j: int| i < j < name.len() implies name[j] != DOT by {
                if j < front.len() {
                    assert(front[j] != DOT);
                }
            }
            assert(name[i] == front[i]);
            assert(is_last_dot(name, i));
        }
    }
}

/// The extension of a file name, cut out of it.
pub fn extension_of(name: &[u8]) -> (ext: Option<&[u8]>)
    ensures
        match ext {
            Some(e) => extension(name@) == Some(e@),
            None => extension(name@) is None,
        },
{
    let mut i: usize = name.len();
    while i > 0
        invariant
            i <= name@.len(),
            forall|j: int| i <= j < name@.len() ==> name@[j] != DOT,
        decreases i,
    {
        if name[i - 1] == DOT {
            proof {
                lemma_extension_after(name@, i - 1);
            }
            return Some(vstd::slice::slice_subrange(name, i, name.len()));
        }
        i -= 1;
    }
    None
}

/// The set that a list of extensions stands for.
pub open spec fn set_of(items: Seq<Vec<u8>>) -> Set<Seq<u8>> {
    Set::new(|e: Seq<u8>| exists|i: int| 0 <= i < items.len() && (#[trigger] items[i])@ == e)
}

/// A file is eligible where its name has an extension that the set holds.
pub open spec fn eligible(set: Set<Seq<u8>>, name: Seq<u8>) -> bool {
    match extension(name) {
        Some(e) => set.contains(e),
        None => false,
    }
}

/// The extensions of the files that a run works on: without the dot, upper
/// and lower case told apart. It always holds one at least.
#[derive(Debug)]
pub struct ExtensionSet {
    items: Vec<Vec<u8>>,
}

impl View for ExtensionSet {
    type V = Set<Seq<u8>>;

    closed spec fn view(&self) -> Set<Seq<u8>> {
        set_of(self.items@)
    }
}

impl ExtensionSet {
    #[verifier::type_invariant]
    spec fn holds_one(self) -> bool {
        self.items@.len() > 0
    }

    /// The set of the given extensions. An empty list is refused, and nothing
    /// else is.
    pub fn new(items: Vec<Vec<u8>>) -> (made: Result<ExtensionSet, Error>)
        ensures
            made is Err <==> items@.len() == 0,
            made matches Err(e) ==> e == Error::InvalidConfig,
            made matches Ok(set) ==> set@ == set_of(items@),
    {
        if items.len() == 0 {
            return Err(Error::InvalidConfig);
        }
        Ok(ExtensionSet { items })
    }

    /// Whether the set holds `ext`.
    pub fn contains(&self, ext: &[u8]) -> (found: bool)
        ensures
            found == self@.contains(ext@),
    {
        let mut i: usize = 0;
        while i < self.items.len()
            invariant
                i <= self.items@.len(),
                forall|k: int| 0 <= k < i ==> (#[trigger] self.items@[k])@ != ext@,
            decreases self.items@.len() - i,
        {
            if same_bytes(self.items[i].as_slice(), ext) {
                return true;
            }
            i += 1;
        }
        false
    }

    /// Whether a file of this name is one that the run works on.
    pub fn selects(&self, name: &[u8]) -> (chosen: bool)
        ensures
            chosen == eligible(self@, name@),
    {
        match extension_of(name) {
            Some(ext) => self.contains(ext),
            None => false,
        }
    }
}

} // verus!
