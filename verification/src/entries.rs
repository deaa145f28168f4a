//! Checks made on a table of entrypoint names before it is registered.

use vstd::prelude::*;

verus! {

/// The text of each name in `names`, in order.
pub open spec fn texts(names: Seq<&str>) -> Seq<Seq<char>> {
    names.map_values(|s: &str| s@)
}

/// The name at position `j` already occurred at an earlier position.
pub open spec fn seen_before(s: Seq<Seq<char>>, j: int) -> bool {
    exists|i: int| 0 <= i < j && s[i] == s[j]
}

/// Position `j` is the first position whose name already occurred earlier.
pub open spec fn is_first_repeat(s: Seq<Seq<char>>, j: int) -> bool {
    &&& 0 <= j < s.len()
    &&& seen_before(s, j)
    &&& forall|k: int| 0 <= k < j ==> !seen_before(s, k)
}

/// No name occurs twice.
pub open spec fn all_distinct(s: Seq<Seq<char>>) -> bool {
    forall|i: int, j: int| 0 <= i < j < s.len() ==> s[i] != s[j]
}

/// A list has at most one first repeated position, so the name that
/// [`find_duplicate`] reports is determined by the list.
pub proof fn first_repeat_is_unique(s: Seq<Seq<char>>, j: int, k: int)
    requires
        is_first_repeat(s, j),
        is_first_repeat(s, k),
    ensures
        j == k,
{
}

/// Whether some name in `seen` has the text of `name`.
fn contains_text(seen: &Vec<&str>, name: &str) -> (r: bool)
    ensures
        r == (exists|k: int| 0 <= k < seen@.len() && seen@[k]@ == name@),
{
    let mut k: usize = 0;
    while k < seen.len()
        invariant
            0 <= k <= seen@.len(),
            forall|m: int| 0 <= m < k ==> seen@[m]@ != name@,
        decreases seen@.len() - k,
    {
        if seen[k].to_owned() == name.to_owned() {
            return true;
        }
        k += 1;
    }
    false
}

/// The names seen so far while a table of names is scanned, one name at a
/// time, for a repeated name; the scan can stop at the first repeat.
pub struct DuplicateScan<'a> {
    seen: Vec<&'a str>,
}

impl<'a> View for DuplicateScan<'a> {
    type V = Seq<&'a str>;

    /// The names taken in so far, in order.
    closed spec fn view(&self) -> Seq<&'a str> {
        self.seen@
    }
}

impl<'a> DuplicateScan<'a> {
    /// A scan that has seen no name yet.
    pub fn new() -> (r: Self)
        ensures
            r@ == Seq::<&'a str>::empty(),
    {
        DuplicateScan { seen: Vec::new() }
    }

    /// Looks at the next name: it is returned when its text was already
    /// seen, and the scan is left as it was; otherwise nothing is returned
    /// and the name is added to the names seen.
    pub fn observe(&mut self, name: &'a str) -> (r: Option<&'a str>)
        ensures
            (exists|k: int| 0 <= k < old(self)@.len() && old(self)@[k]@ == name@) ==> r == Some(name)
                && final(self)@ == old(self)@,
            !(exists|k: int| 0 <= k < old(self)@.len() && old(self)@[k]@ == name@) ==> r is None
                && final(self)@ == old(self)@.push(name),
    {
        if contains_text(&self.seen, name) {
            return Some(name);
        }
        self.seen.push(name);
        None
    }
}

/// Returns the first name that appears more than once, if any: scanning the
/// names in order, the first one whose text was already seen.
pub fn find_duplicate<'a>(names: &[&'a str]) -> (r: Option<&'a str>)
    ensures
        match r {
            None => all_distinct(texts(names@)),
            Some(d) => exists|j: int| is_first_repeat(texts(names@), j) && d@ == texts(names@)[j],
        },
{
    let ghost s = texts(names@);
    let mut scan = DuplicateScan::new();
    let mut i: usize = 0;
    while i < names.len()
        invariant
            0 <= i <= names@.len(),
            s == texts(names@),
            scan@ == names@.subrange(0, i as int),
            forall|k: int| 0 <= k < i ==> !seen_before(s, k),
        decreases names@.len() - i,
    {
        let name = names[i];
        let ghost before = scan@;
        match scan.observe(name) {
            Some(d) => {
                proof {
                    let k = choose|k: int| 0 <= k < before.len() && before[k]@ == name@;
                    assert(s[k] == s[i as int]);
                    assert(seen_before(s, i as int));
                }
                return Some(d);
            },
            None => {},
        }
        proof {
            assert forall|m: int| 0 <= m < i implies s[m] != s[i as int] by {
                assert(before[m] == names@[m]);
            }
        }
        i += 1;
        proof {
            assert(scan@ =~= names@.subrange(0, i as int));
        }
    }
    proof {
        assert forall|a: int, b: int| 0 <= a < b < s.len() implies s[a] != s[b] by {
            assert(!seen_before(s, b));
        }
    }
    None
}

/// `find_duplicate` answers `None` exactly when no two names share a text;
/// otherwise it answers the text of the name at the first position `j` that
/// repeats an earlier name, all names before `j` being pairwise distinct.
pub proof fn find_duplicate_finds_the_first_repeat<'a>(names: &[&'a str], r: Option<&'a str>)
    requires
        call_ensures(find_duplicate, (names,), r),
    ensures
        r is None <==> forall|i: int, j: int|
            0 <= i < j < names@.len() ==> #[trigger] names@[i]@ != #[trigger] names@[j]@,
        r matches Some(d) ==> exists|i: int, j: int|
            #![trigger names@[i], names@[j]]
            0 <= i < j < names@.len() && names@[i]@ == names@[j]@ && d@ == names@[j]@ && forall|
                a: int,
                b: int,
            | 0 <= a < b < j ==> #[trigger] names@[a]@ != #[trigger] names@[b]@,
{
    let s = texts(names@);
    match r {
        None => {
            assert forall|i: int, j: int| 0 <= i < j < names@.len() implies #[trigger] names@[i]@
                != #[trigger] names@[j]@ by {
                assert(s[i] == names@[i]@ && s[j] == names@[j]@);
            }
        },
        Some(d) => {
            let j = choose|j: int| is_first_repeat(s, j) && d@ == s[j];
            let i = choose|i: int| 0 <= i < j && s[i] == s[j];
            assert(s[i] == names@[i]@ && s[j] == names@[j]@);
            assert forall|a: int, b: int| 0 <= a < b < j implies #[trigger] names@[a]@
                != #[trigger] names@[b]@ by {
                assert(!seen_before(s, b));
                assert(s[a] == names@[a]@ && s[b] == names@[b]@);
            }
            assert(!(forall|i: int, j: int|
                0 <= i < j < names@.len() ==> #[trigger] names@[i]@ != #[trigger] names@[j]@));
        },
    }
}

} // verus!
