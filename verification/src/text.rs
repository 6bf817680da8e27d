//! Text helpers, stated over sequences of characters.

use vstd::prelude::*;
use vstd::string::*;

verus! {

/// `text` begins with all of `prefix`.
pub open spec fn has_prefix(text: Seq<char>, prefix: Seq<char>) -> bool {
    &&& prefix.len() <= text.len()
    &&& text.take(prefix.len() as int) == prefix
}

/// Whether `text` begins with `prefix`.
pub fn starts_with(text: &str, prefix: &str) -> (res: bool)
    ensures
        res == has_prefix(text@, prefix@),
{
    let total: usize = text.unicode_len();
    let wanted: usize = prefix.unicode_len();
    if wanted > total {
        return false;
    }
    let mut i: usize = 0;
    while i < wanted
        invariant
            i <= wanted,
            wanted == prefix@.len(),
            wanted <= text@.len(),
            text@.take(i as int) == prefix@.take(i as int),
        decreases wanted - i,
    {
        if text.get_char(i) != prefix.get_char(i) {
            assert(text@.take(wanted as int)[i as int] != prefix@[i as int]);
            return false;
        }
        assert(text@.take(i + 1) == text@.take(i as int).push(text@[i as int]));
        assert(prefix@.take(i + 1) == prefix@.take(i as int).push(prefix@[i as int]));
        i += 1;
    }
    assert(prefix@.take(wanted as int) == prefix@);
    true
}

/// Whether two texts hold the same characters.
pub fn same_text(left: &str, right: &str) -> (res: bool)
    ensures
        res == (left@ == right@),
{
    let res = starts_with(left, right);
    if left.unicode_len() != right.unicode_len() {
        return false;
    }
    assert(left@.take(left@.len() as int) == left@);
    res
}

/// The text that consists of `first` followed by `second`.
pub fn joined(first: &str, second: &str) -> (res: String)
    ensures
        res@ == first@ + second@,
{
    let mut res = String::new();
    res.append(first);
    res.append(second);
    assert(res@ == first@ + second@);
    res
}

/// A copy of a list of texts.
pub fn copy_list(list: &Vec<String>) -> (res: Vec<String>)
    ensures
        res.deep_view() == list.deep_view(),
{
    let mut res: Vec<String> = Vec::new();
    let mut i: usize = 0;
    while i < list.len()
        invariant
            i <= list.len(),
            res.deep_view() == list.deep_view().take(i as int),
        decreases list.len() - i,
    {
        let ghost before = res.deep_view();
        res.push(list[i].clone());
        assert(res.deep_view() =~= before.push(list@[i as int]@));
        assert(list.deep_view().take(i + 1) =~= before.push(list@[i as int]@));
        i += 1;
    }
    assert(list.deep_view().take(list@.len() as int) =~= list.deep_view());
    res
}

/// A copy of an optional text.
pub fn copy_text(text: &Option<String>) -> (res: Option<String>)
    ensures
        res.deep_view() == text.deep_view(),
        res == *text,
{
    match text {
        Some(inner) => Some(inner.clone()),
        None => None,
    }
}

/// A text begins with a prefix exactly where it is the prefix followed by something.
pub proof fn prefix_is_the_beginning(text: Seq<char>, prefix: Seq<char>)
    ensures
        has_prefix(text, prefix) <==> exists|rest: Seq<char>| text == #[trigger] (prefix + rest),
{
    if has_prefix(text, prefix) {
        assert(text =~= prefix + text.skip(prefix.len() as int));
    }
    if exists|rest: Seq<char>| text == #[trigger] (prefix + rest) {
        let rest = choose|rest: Seq<char>| text == #[trigger] (prefix + rest);
        assert(text.take(prefix.len() as int) =~= prefix);
    }
}

} // verus!
