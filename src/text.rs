use vstd::prelude::*;
use vstd::string::*;

verus! {

/// Position of the first `c` in `s`, or `s.len()` when `c` does not occur.
pub open spec fn first_index_of(s: Seq<char>, c: char) -> int
    decreases s.len(),
{
    if s.len() == 0 {
        0
    } else if s[0] == c {
        0
    } else {
        1 + first_index_of(s.drop_first(), c)
    }
}

/// The part of `s` before its first `_` (all of `s` when it has none).
pub open spec fn first_segment(s: Seq<char>) -> Seq<char> {
    s.take(first_index_of(s, '_'))
}

/// `first_index_of` is the one position before which `c` does not occur and
/// at which `c` stands (or the string ends).
pub proof fn lemma_first_index_of_unique(s: Seq<char>, c: char, k: int)
    requires
        0 <= k <= s.len(),
        forall|j: int| 0 <= j < k ==> s[j] != c,
        k == s.len() || s[k] == c,
    ensures
        first_index_of(s, c) == k,
    decreases s.len(),
{
    if k > 0 {
        let t = s.drop_first();
        assert forall|j: int| 0 <= j < k - 1 implies t[j] != c by {
            assert(t[j] == s[j + 1]);
        }
        if k < s.len() {
            assert(t[k - 1] == s[k]);
        }
        lemma_first_index_of_unique(t, c, k - 1);
    }
}

/// The data-source id of a `stream` header: the text before its first `_`.
/// `None` when that text is empty.
pub fn data_source_id(stream: &str) -> (r: Option<String>)
    ensures
        match r {
            Some(id) => id@ == first_segment(stream@) && id@.len() > 0,
            None => first_segment(stream@).len() == 0,
        },
{
    let n = stream.unicode_len();
    let mut i: usize = 0;
    while i < n && stream.get_char(i) != '_'
        invariant
            n == stream@.len(),
            i <= n,
            forall|j: int| 0 <= j < i ==> stream@[j] != '_',
        decreases n - i,
    {
        i = i + 1;
    }
    proof {
        lemma_first_index_of_unique(stream@, '_', i as int);
    }
    if i == 0 {
        None
    } else {
        Some(String::from_str(stream.substring_char(0, i)))
    }
}

/// A `stream` header made of an id without `_`, a `_` and any suffix resolves
/// to that id, whatever the suffix holds.
pub proof fn lemma_stream_resolves_to_prefix(id: Seq<char>, suffix: Seq<char>)
    requires
        forall|j: int| 0 <= j < id.len() ==> id[j] != '_',
    ensures
        first_segment(id + seq!['_'] + suffix) == id,
{
    let s = id + seq!['_'] + suffix;
    assert forall|j: int| 0 <= j < id.len() implies s[j] != '_' by {
        assert(s[j] == id[j]);
    }
    assert(s[id.len() as int] == '_');
    lemma_first_index_of_unique(s, '_', id.len() as int);
    assert(s.take(id.len() as int) =~= id);
}

/// Position of the last `c` in `s`, or -1 when `c` does not occur.
pub open spec fn last_index_of(s: Seq<char>, c: char) -> int
    decreases s.len(),
{
    if s.len() == 0 {
        -1
    } else if s.last() == c {
        s.len() - 1
    } else {
        last_index_of(s.drop_last(), c)
    }
}

/// The extension of a file name: the text after its last `.`, if it has one.
pub open spec fn extension_of(name: Seq<char>) -> Option<Seq<char>> {
    let k = last_index_of(name, '.');
    if k < 0 {
        None
    } else {
        Some(name.subrange(k + 1, name.len() as int))
    }
}

pub fn file_extension(name: &str) -> (r: Option<String>)
    ensures
        match r {
            Some(e) => extension_of(name@) == Some(e@),
            None => extension_of(name@).is_none(),
        },
{
    let n = name.unicode_len();
    let mut i: usize = n;
    assert(name@.take(n as int) =~= name@);
    while i > 0 && name.get_char(i - 1) != '.'
        invariant
            n == name@.len(),
            i <= n,
            last_index_of(name@, '.') == last_index_of(name@.take(i as int), '.'),
        decreases i,
    {
        assert(name@.take(i as int).drop_last() =~= name@.take(i - 1));
        i = i - 1;
    }
    if i == 0 {
        assert(name@.take(0) =~= Seq::<char>::empty());
        None
    } else {
        assert(name@.take(i as int).last() == '.');
        Some(String::from_str(name.substring_char(i, n)))
    }
}

/// `s` without every `c` at its start and at its end.
pub open spec fn trim_char(s: Seq<char>, c: char) -> Seq<char>
    decreases s.len(),
{
    if s.len() == 0 {
        s
    } else if s[0] == c {
        trim_char(s.drop_first(), c)
    } else if s.last() == c {
        trim_char(s.drop_last(), c)
    } else {
        s
    }
}

/// A file name with the quote characters around it removed.
pub fn trim_quotes(name: &str) -> (r: String)
    ensures
        r@ == trim_char(name@, '"'),
{
    let n = name.unicode_len();
    let mut i: usize = 0;
    assert(name@.subrange(0, n as int) =~= name@);
    while i < n && name.get_char(i) == '"'
        invariant
            n == name@.len(),
            i <= n,
            trim_char(name@, '"') == trim_char(name@.subrange(i as int, n as int), '"'),
        decreases n - i,
    {
        assert(name@.subrange(i as int, n as int).drop_first() =~= name@.subrange(i + 1, n as int));
        i = i + 1;
    }
    let mut j: usize = n;
    while j > i && name.get_char(j - 1) == '"'
        invariant
            n == name@.len(),
            i <= j <= n,
            i < j ==> name@[i as int] != '"',
            trim_char(name@, '"') == trim_char(name@.subrange(i as int, j as int), '"'),
        decreases j,
    {
        assert(j - 1 != i);
        assert(name@.subrange(i as int, j as int).drop_last() =~= name@.subrange(i as int, j - 1));
        j = j - 1;
    }
    String::from_str(name.substring_char(i, j))
}

} // verus!
