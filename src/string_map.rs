use vstd::prelude::*;
use vstd::string::*;

verus! {

/// The mapping that a list of entries stands for: a later entry for a key
/// replaces an earlier one.
pub open spec fn map_of(entries: Seq<(String, String)>) -> Map<Seq<char>, Seq<char>>
    decreases entries.len(),
{
    if entries.len() == 0 {
        Map::empty()
    } else {
        let last = entries.last();
        map_of(entries.drop_last()).insert(last.0@, last.1@)
    }
}

/// A mapping from strings to strings, kept as the list of its entries in the
/// order they were set. Used for message headers and for document metadata.
pub struct StringMap {
    entries: Vec<(String, String)>,
}

impl View for StringMap {
    type V = Map<Seq<char>, Seq<char>>;

    closed spec fn view(&self) -> Map<Seq<char>, Seq<char>> {
        map_of(self.entries@)
    }
}

impl StringMap {
    pub fn new() -> (r: StringMap)
        ensures
            r@ == Map::<Seq<char>, Seq<char>>::empty(),
    {
        StringMap { entries: Vec::new() }
    }

    /// The mapping that sets each entry in turn.
    pub fn from_entries(entries: Vec<(String, String)>) -> (r: StringMap)
        ensures
            r@ == map_of(entries@),
    {
        StringMap { entries }
    }

    /// The entries in the order they were set; a later one for a key wins.
    pub fn entries(&self) -> (r: &Vec<(String, String)>)
        ensures
            map_of(r@) == self@,
    {
        &self.entries
    }

    pub fn insert(&mut self, key: String, value: String)
        ensures
            final(self)@ == old(self)@.insert(key@, value@),
    {
        let ghost before = self.entries@;
        self.entries.push((key, value));
        assert(self.entries@.drop_last() =~= before);
    }

    pub fn get(&self, key: &str) -> (r: Option<String>)
        ensures
            match r {
                Some(v) => self@.contains_key(key@) && self@[key@] == v@,
                None => !self@.contains_key(key@),
            },
    {
        let wanted = String::from_str(key);
        let s = Ghost(self.entries@);
        let mut i: usize = self.entries.len();
        assert(s@.take(i as int) =~= s@);
        while i > 0
            invariant
                s@ == self.entries@,
                wanted@ == key@,
                i <= s@.len(),
                map_of(s@).contains_key(wanted@) == map_of(s@.take(i as int)).contains_key(wanted@),
                map_of(s@).contains_key(wanted@) ==> map_of(s@)[wanted@] == map_of(s@.take(i as int))[wanted@],
            decreases i,
        {
            assert(s@.take(i as int).drop_last() =~= s@.take(i - 1));
            assert(s@.take(i as int).last() == s@[i - 1]);
            if self.entries[i - 1].0 == wanted {
                assert(map_of(s@.take(i as int)) == map_of(s@.take(i - 1)).insert(
                    s@[i - 1].0@,
                    s@[i - 1].1@,
                ));
                return Some(self.entries[i - 1].1.clone());
            }
            i = i - 1;
        }
        assert(s@.take(0) =~= Seq::<(String, String)>::empty());
        None
    }

    /// A copy with the same entries.
    pub fn duplicate(&self) -> (r: StringMap)
        ensures
            r@ == self@,
    {
        let mut out: Vec<(String, String)> = Vec::new();
        let mut i: usize = 0;
        while i < self.entries.len()
            invariant
                i <= self.entries@.len(),
                out@.len() == i,
                forall|j: int| 0 <= j < i ==> #[trigger] out@[j].0@ == self.entries@[j].0@
                    && out@[j].1@ == self.entries@[j].1@,
            decreases self.entries@.len() - i,
        {
            let k = self.entries[i].0.clone();
            let v = self.entries[i].1.clone();
            out.push((k, v));
            i = i + 1;
        }
        proof {
            lemma_map_of_views(out@, self.entries@);
        }
        StringMap { entries: out }
    }
}

/// Two entry lists whose keys and values read the same stand for the same
/// mapping.
proof fn lemma_map_of_views(a: Seq<(String, String)>, b: Seq<(String, String)>)
    requires
        a.len() == b.len(),
        forall|j: int| 0 <= j < a.len() ==> #[trigger] a[j].0@ == b[j].0@ && a[j].1@ == b[j].1@,
    ensures
        map_of(a) == map_of(b),
    decreases a.len(),
{
    if a.len() > 0 {
        let (a2, b2) = (a.drop_last(), b.drop_last());
        assert forall|j: int| 0 <= j < a2.len() implies #[trigger] a2[j].0@ == b2[j].0@ && a2[j].1@
            == b2[j].1@ by {
            assert(a2[j] == a[j] && b2[j] == b[j]);
        }
        lemma_map_of_views(a2, b2);
        assert(a.last() == a[a.len() - 1]);
    }
}

} // verus!
