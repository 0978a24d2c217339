//! String helpers shared by the planners.

use vstd::prelude::*;

verus! {

/// The parts written one after another with `sep` between neighbours.
pub open spec fn join_with(parts: Seq<Seq<char>>, sep: Seq<char>) -> Seq<char>
    decreases parts.len(),
{
    if parts.len() == 0 {
        Seq::empty()
    } else if parts.len() == 1 {
        parts[0]
    } else {
        join_with(parts.drop_last(), sep) + sep + parts.last()
    }
}

/// Whether two strings hold the same characters.
pub fn same_text(a: &str, b: &str) -> (same: bool)
    ensures
        same == (a@ == b@),
{
    String::from_str(a) == String::from_str(b)
}

/// Joins `parts` with `sep` between neighbours.
pub fn join(parts: &Vec<String>, sep: &str) -> (joined: String)
    ensures
        joined@ == join_with(parts.deep_view(), sep@),
{
    let mut joined = String::new();
    let mut i: usize = 0;
    while i < parts.len()
        invariant
            i <= parts.len(),
            joined@ == join_with(parts.deep_view().take(i as int), sep@),
        decreases parts.len() - i,
    {
        proof {
            let before = parts.deep_view().take(i as int);
            let after = parts.deep_view().take(i + 1);
            assert(after.drop_last() == before);
            assert(after.last() == parts[i as int]@);
        }
        if i > 0 {
            joined.append(sep);
        }
        joined.append(parts[i].as_str());
        i += 1;
    }
    proof {
        assert(parts.deep_view().take(parts.len() as int) == parts.deep_view());
    }
    joined
}

/// Pushing onto a vector pushes the element's model onto the vector's model.
pub proof fn lemma_deep_view_push<T: DeepView>(before: Vec<T>, after: Vec<T>, item: T)
    requires
        after@ == before@.push(item),
    ensures
        after.deep_view() == before.deep_view().push(item.deep_view()),
{
    assert(after.deep_view() =~= before.deep_view().push(item.deep_view()));
}

/// Appending a vector appends its model.
pub proof fn lemma_deep_view_add<T: DeepView>(before: Vec<T>, after: Vec<T>, more: Vec<T>)
    requires
        after@ == before@ + more@,
    ensures
        after.deep_view() == before.deep_view() + more.deep_view(),
{
    assert(after.deep_view() =~= before.deep_view() + more.deep_view());
}

/// An owned copy of a list of strings.
pub fn clone_strings(items: &Vec<String>) -> (copy: Vec<String>)
    ensures
        copy.deep_view() == items.deep_view(),
{
    let mut copy: Vec<String> = Vec::new();
    let mut i: usize = 0;
    while i < items.len()
        invariant
            i <= items.len(),
            copy.deep_view() == items.deep_view().take(i as int),
        decreases items.len() - i,
    {
        let ghost before = copy;
        copy.push(items[i].clone());
        proof {
            lemma_deep_view_push(before, copy, items[i as int]);
            assert(copy.deep_view() == items.deep_view().take(i + 1));
        }
        i += 1;
    }
    proof {
        assert(items.deep_view().take(items.len() as int) == items.deep_view());
    }
    copy
}

/// An owned copy of a list of argument vectors.
pub fn clone_commands(items: &Vec<Vec<String>>) -> (copy: Vec<Vec<String>>)
    ensures
        copy.deep_view() == items.deep_view(),
{
    let mut copy: Vec<Vec<String>> = Vec::new();
    let mut i: usize = 0;
    while i < items.len()
        invariant
            i <= items.len(),
            copy.deep_view() == items.deep_view().take(i as int),
        decreases items.len() - i,
    {
        let ghost before = copy;
        let argv = clone_strings(&items[i]);
        copy.push(argv);
        proof {
            lemma_deep_view_push(before, copy, argv);
            assert(copy.deep_view() == items.deep_view().take(i + 1));
        }
        i += 1;
    }
    proof {
        assert(items.deep_view().take(items.len() as int) == items.deep_view());
    }
    copy
}

/// An owned copy of a list of string pairs.
pub fn clone_pairs(items: &Vec<(String, String)>) -> (copy: Vec<(String, String)>)
    ensures
        copy.deep_view() == items.deep_view(),
{
    let mut copy: Vec<(String, String)> = Vec::new();
    let mut i: usize = 0;
    while i < items.len()
        invariant
            i <= items.len(),
            copy.deep_view() == items.deep_view().take(i as int),
        decreases items.len() - i,
    {
        let ghost before = copy;
        let pair = (items[i].0.clone(), items[i].1.clone());
        copy.push(pair);
        proof {
            lemma_deep_view_push(before, copy, pair);
            assert(copy.deep_view() == items.deep_view().take(i + 1));
        }
        i += 1;
    }
    proof {
        assert(items.deep_view().take(items.len() as int) == items.deep_view());
    }
    copy
}

/// The numeral of one decimal digit.
pub open spec fn digit_text(digit: int) -> Seq<char> {
    if digit == 0 {
        "0"@
    } else if digit == 1 {
        "1"@
    } else if digit == 2 {
        "2"@
    } else if digit == 3 {
        "3"@
    } else if digit == 4 {
        "4"@
    } else if digit == 5 {
        "5"@
    } else if digit == 6 {
        "6"@
    } else if digit == 7 {
        "7"@
    } else if digit == 8 {
        "8"@
    } else {
        "9"@
    }
}

/// A natural number in decimal, without leading zeros.
pub open spec fn natural_text(number: nat) -> Seq<char>
    decreases number,
{
    if number < 10 {
        digit_text(number as int)
    } else {
        natural_text(number / 10) + digit_text((number % 10) as int)
    }
}

/// An integer in decimal: a minus sign before the digits of a negative one.
pub open spec fn integer_text(number: int) -> Seq<char> {
    if number < 0 {
        "-"@ + natural_text((-number) as nat)
    } else {
        natural_text(number as nat)
    }
}

/// A truth value in words.
pub open spec fn boolean_text(flag: bool) -> Seq<char> {
    if flag {
        "true"@
    } else {
        "false"@
    }
}

/// The numeral of one decimal digit.
fn numeral(digit: u64) -> (text: &'static str)
    requires
        digit < 10,
    ensures
        text@ == digit_text(digit as int),
{
    if digit == 0 {
        "0"
    } else if digit == 1 {
        "1"
    } else if digit == 2 {
        "2"
    } else if digit == 3 {
        "3"
    } else if digit == 4 {
        "4"
    } else if digit == 5 {
        "5"
    } else if digit == 6 {
        "6"
    } else if digit == 7 {
        "7"
    } else if digit == 8 {
        "8"
    } else {
        "9"
    }
}

/// Writes a natural number in decimal.
pub fn natural_string(number: u64) -> (text: String)
    ensures
        text@ == natural_text(number as nat),
    decreases number,
{
    if number < 10 {
        String::from_str(numeral(number))
    } else {
        natural_string(number / 10).concat(numeral(number % 10))
    }
}

/// Writes an integer in decimal.
pub fn integer_string(number: i64) -> (text: String)
    ensures
        text@ == integer_text(number as int),
{
    if number >= 0 {
        natural_string(number as u64)
    } else {
        let magnitude: u64 = if number == i64::MIN {
            9223372036854775808
        } else {
            (-number) as u64
        };
        String::from_str("-").concat(natural_string(magnitude).as_str())
    }
}

/// Writes a truth value in words.
pub fn boolean_string(flag: bool) -> (text: String)
    ensures
        text@ == boolean_text(flag),
{
    if flag {
        String::from_str("true")
    } else {
        String::from_str("false")
    }
}

} // verus!
