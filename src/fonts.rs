use vstd::prelude::*;

verus! {

/// The keys of a font cache, in the order the fonts were loaded: font file
/// path and point size. The font loaded for the key at position `i` is kept,
/// at the same position, by whoever holds the loaded fonts. Entries are only
/// ever added, and no key appears twice. The keys are held in a list, which
/// lets the contracts speak of string keys exactly; a game uses only a few.
pub struct FontCache {
    paths: Vec<String>,
    sizes: Vec<u16>,
}

/// No key appears twice.
pub open spec fn unique_keys(keys: Seq<(Seq<char>, u16)>) -> bool {
    forall|i: int, j: int| 0 <= i < keys.len() && 0 <= j < keys.len() && i != j ==> keys[i] != keys[j]
}

impl View for FontCache {
    type V = Seq<(Seq<char>, u16)>;

    closed spec fn view(&self) -> Seq<(Seq<char>, u16)> {
        Seq::new(self.paths@.len(), |i: int| (self.paths@[i]@, self.sizes@[i]))
    }
}

impl FontCache {
    pub closed spec fn wf(&self) -> bool {
        &&& self.paths@.len() == self.sizes@.len()
        &&& unique_keys(self@)
    }

    /// A cache with no fonts.
    pub fn new() -> (r: FontCache)
        ensures
            r.wf(),
            unique_keys(r@),
            r@ == Seq::<(Seq<char>, u16)>::empty(),
    {
        let r = FontCache { paths: Vec::new(), sizes: Vec::new() };
        assert(r@ =~= Seq::<(Seq<char>, u16)>::empty());
        r
    }

    /// The number of fonts loaded.
    pub fn len(&self) -> (r: usize)
        requires
            self.wf(),
        ensures
            r == self@.len(),
    {
        self.paths.len()
    }

    /// Where the font for `path` at `size` is kept, if it was loaded.
    pub fn lookup(&self, path: &String, size: u16) -> (r: Option<usize>)
        requires
            self.wf(),
        ensures
            r matches Some(i) ==> i < self@.len() && self@[i as int] == (path@, size),
            r matches Some(i) ==> forall|j: int| 0 <= j < self@.len() && j != i ==> self@[j] != (path@, size),
            r is None ==> forall|i: int| 0 <= i < self@.len() ==> self@[i] != (path@, size),
    {
        let mut i: usize = 0;
        while i < self.paths.len()
            invariant
                self.wf(),
                i <= self@.len(),
                forall|j: int| 0 <= j < i ==> self@[j] != (path@, size),
            decreases self@.len() - i,
        {
            if self.sizes[i] == size && self.paths[i] == *path {
                assert(self@[i as int] == (path@, size));
                assert forall|j: int| 0 <= j < self@.len() && j != i implies self@[j] != (path@, size) by {
                    assert(self@[j] != self@[i as int]);
                }
                return Some(i);
            }
            i = i + 1;
        }
        None
    }

    /// Records that the font for `path` at `size` has been loaded and is
    /// kept at the returned position, the next free one.
    pub fn insert(&mut self, path: String, size: u16) -> (r: usize)
        requires
            old(self).wf(),
            forall|i: int| 0 <= i < old(self)@.len() ==> old(self)@[i] != (path@, size),
        ensures
            final(self).wf(),
            unique_keys(final(self)@),
            r == old(self)@.len(),
            final(self)@ == old(self)@.push((path@, size)),
    {
        let r: usize = self.paths.len();
        let ghost key = (path@, size);
        self.paths.push(path);
        self.sizes.push(size);
        assert(self@ =~= old(self)@.push(key));
        r
    }
}

} // verus!
