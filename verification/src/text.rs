//! Small pieces of text: decimal numbers, joined lists, and lists without
//! repeats.

use vstd::prelude::*;
use vstd::string::*;

verus! {

/// The character that stands for a single decimal digit.
pub open spec fn digit_char(digit: nat) -> char {
    if digit == 0 {
        '0'
    } else if digit == 1 {
        '1'
    } else if digit == 2 {
        '2'
    } else if digit == 3 {
        '3'
    } else if digit == 4 {
        '4'
    } else if digit == 5 {
        '5'
    } else if digit == 6 {
        '6'
    } else if digit == 7 {
        '7'
    } else if digit == 8 {
        '8'
    } else {
        '9'
    }
}

/// A natural number written in decimal, without leading zeros.
pub open spec fn decimal(n: nat) -> Seq<char>
    decreases n,
{
    if n < 10 {
        seq![digit_char(n)]
    } else {
        decimal(n / 10).push(digit_char(n % 10))
    }
}

/// The texts of a list of strings.
pub open spec fn texts(items: Seq<String>) -> Seq<Seq<char>> {
    items.map_values(|item: String| item@)
}

/// The items of a list written one after another, with a separator between
/// each two neighbours.
pub open spec fn joined(items: Seq<Seq<char>>, separator: Seq<char>) -> Seq<char>
    decreases items.len(),
{
    if items.len() == 0 {
        Seq::empty()
    } else if items.len() == 1 {
        items[0]
    } else {
        joined(items.drop_last(), separator) + separator + items.last()
    }
}

/// A list without its repeats: of equal items only the first stays, and the
/// items that stay keep their order.
pub open spec fn first_occurrences<T>(items: Seq<T>) -> Seq<T>
    decreases items.len(),
{
    if items.len() == 0 {
        Seq::empty()
    } else {
        let before = first_occurrences(items.drop_last());
        if before.contains(items.last()) {
            before
        } else {
            before.push(items.last())
        }
    }
}

/// Every item of a list is in the list without repeats, and nothing else is.
pub proof fn first_occurrences_keeps_items<T>(items: Seq<T>, item: T)
    ensures
        first_occurrences(items).contains(item) <==> items.contains(item),
    decreases items.len(),
{
    if items.len() > 0 {
        let init = items.drop_last();
        first_occurrences_keeps_items(init, item);
        let before = first_occurrences(init);
        if items.contains(item) {
            let i = choose|i: int| 0 <= i < items.len() && items[i] == item;
            if i < init.len() {
                assert(init[i] == item);
                assert(init.contains(item));
            }
        }
        if before.contains(items.last()) {
            if init.contains(item) {
                let i = choose|i: int| 0 <= i < init.len() && init[i] == item;
                assert(items[i] == item);
            }
        } else {
            let after = before.push(items.last());
            if after.contains(item) {
                let i = choose|i: int| 0 <= i < after.len() && after[i] == item;
                if i < before.len() {
                    assert(before[i] == item);
                    assert(before.contains(item));
                    let j = choose|j: int| 0 <= j < init.len() && init[j] == item;
                    assert(items[j] == item);
                } else {
                    assert(items[items.len() - 1] == item);
                }
            }
            if items.contains(item) {
                let i = choose|i: int| 0 <= i < items.len() && items[i] == item;
                if i < init.len() {
                    let j = choose|j: int| 0 <= j < before.len() && before[j] == item;
                    assert(after[j] == item);
                } else {
                    assert(after[after.len() - 1] == item);
                }
            }
        }
    }
}

/// A list without its repeats holds nothing twice.
pub proof fn first_occurrences_no_repeats<T>(items: Seq<T>)
    ensures
        first_occurrences(items).no_duplicates(),
    decreases items.len(),
{
    if items.len() > 0 {
        first_occurrences_no_repeats(items.drop_last());
    }
}

fn digit_text(digit: u64) -> (result: &'static str)
    requires
        digit < 10,
    ensures
        result@ == seq![digit_char(digit as nat)],
{
    proof {
        reveal_strlit("0");
        reveal_strlit("1");
        reveal_strlit("2");
        reveal_strlit("3");
        reveal_strlit("4");
        reveal_strlit("5");
        reveal_strlit("6");
        reveal_strlit("7");
        reveal_strlit("8");
        reveal_strlit("9");
    }
    let text = if digit == 0 {
        "0"
    } else if digit == 1 {
        "1"
    } else if digit == 2 {
        "2"
    } else if digit == 3 {
        "3"
    } else if digit == 4 {
        "4"
    } else if digit == 5 {
        "5"
    } else if digit == 6 {
        "6"
    } else if digit == 7 {
        "7"
    } else if digit == 8 {
        "8"
    } else {
        "9"
    };
    assert(text@ =~= seq![digit_char(digit as nat)]);
    text
}

/// Writes a number in decimal.
pub fn decimal_text(n: u64) -> (result: String)
    ensures
        result@ == decimal(n as nat),
    decreases n,
{
    if n < 10 {
        String::from_str(digit_text(n))
    } else {
        let mut text = decimal_text(n / 10);
        text.append(digit_text(n % 10));
        assert(text@ =~= decimal(n as nat));
        text
    }
}

/// Writes the items of a list one after another, with a separator between
/// each two neighbours.
pub fn join_texts(items: &Vec<String>, separator: &str) -> (result: String)
    ensures
        result@ == joined(texts(items@), separator@),
{
    let mut result = String::new();
    let mut i: usize = 0;
    while i < items.len()
        invariant
            i <= items.len(),
            result@ == joined(texts(items@).take(i as int), separator@),
        decreases items.len() - i,
    {
        let ghost done = texts(items@).take(i as int);
        let ghost next = texts(items@).take(i + 1);
        proof {
            assert(next.drop_last() =~= done);
            assert(next.last() == items@[i as int]@);
        }
        if i > 0 {
            result.append(separator);
        }
        result.append(items[i].as_str());
        proof {
            if i == 0 {
                assert(done.len() == 0);
                assert(result@ =~= next[0]);
            } else if i == 1 {
                assert(done.len() == 1);
                assert(next.len() == 2);
                assert(joined(next, separator@) == joined(done, separator@) + separator@
                    + next.last());
            }
            assert(result@ =~= joined(next, separator@));
        }
        i += 1;
    }
    assert(texts(items@).take(i as int) =~= texts(items@));
    result
}

/// Whether a list of strings holds a given text.
pub fn holds_text(items: &Vec<String>, wanted: &str) -> (result: bool)
    ensures
        result == texts(items@).contains(wanted@),
{
    let mut i: usize = 0;
    while i < items.len()
        invariant
            i <= items.len(),
            forall|j: int| 0 <= j < i ==> texts(items@)[j] != wanted@,
        decreases items.len() - i,
    {
        if same_text(items[i].as_str(), wanted) {
            assert(texts(items@)[i as int] == wanted@);
            return true;
        }
        i += 1;
    }
    false
}

/// Whether two texts are the same.
pub fn same_text(left: &str, right: &str) -> (result: bool)
    ensures
        result == (left@ == right@),
{
    let a = String::from_str(left);
    let b = String::from_str(right);
    a == b
}

/// A text without the run of a given character that it starts with.
pub open spec fn without_leading(text: Seq<char>, c: char) -> Seq<char>
    decreases text.len(),
{
    if text.len() > 0 && text[0] == c {
        without_leading(text.skip(1), c)
    } else {
        text
    }
}

/// A text without the run of a given character that it ends with.
pub open spec fn without_trailing(text: Seq<char>, c: char) -> Seq<char>
    decreases text.len(),
{
    if text.len() > 0 && text.last() == c {
        without_trailing(text.drop_last(), c)
    } else {
        text
    }
}

/// Takes a given character off both ends of a text, as often as it stands
/// there.
pub fn trim_both(text: &str, c: char) -> (result: String)
    ensures
        result@ == without_trailing(without_leading(text@, c), c),
{
    let n = text.unicode_len();
    let mut from: usize = 0;
    assert(text@.skip(0) =~= text@);
    while from < n && text.get_char(from) == c
        invariant
            n == text@.len(),
            from <= n,
            without_leading(text@, c) == without_leading(text@.skip(from as int), c),
        decreases n - from,
    {
        assert(text@.skip(from as int).skip(1) =~= text@.skip(from + 1));
        from += 1;
    }
    assert(without_leading(text@, c) =~= text@.subrange(from as int, n as int));
    let mut to: usize = n;
    while to > from && text.get_char(to - 1) == c
        invariant
            n == text@.len(),
            from <= to <= n,
            without_trailing(text@.subrange(from as int, n as int), c) == without_trailing(
                text@.subrange(from as int, to as int),
                c,
            ),
        decreases to,
    {
        assert(text@.subrange(from as int, to as int).drop_last() =~= text@.subrange(
            from as int,
            to - 1,
        ));
        to -= 1;
    }
    String::from_str(text.substring_char(from, to))
}

/// Takes a given character off the end of a text, as often as it stands
/// there.
pub fn trim_end(text: &str, c: char) -> (result: String)
    ensures
        result@ == without_trailing(text@, c),
{
    let n = text.unicode_len();
    let mut to: usize = n;
    assert(text@.subrange(0, n as int) =~= text@);
    while to > 0 && text.get_char(to - 1) == c
        invariant
            n == text@.len(),
            to <= n,
            without_trailing(text@, c) == without_trailing(text@.subrange(0, to as int), c),
        decreases to,
    {
        assert(text@.subrange(0, to as int).drop_last() =~= text@.subrange(0, to - 1));
        to -= 1;
    }
    String::from_str(text.substring_char(0, to))
}

/// Copies a list of strings.
pub fn copy_texts(items: &Vec<String>) -> (result: Vec<String>)
    ensures
        result@ == items@,
{
    let mut result: Vec<String> = Vec::new();
    let mut i: usize = 0;
    while i < items.len()
        invariant
            i <= items.len(),
            result@ == items@.take(i as int),
        decreases items.len() - i,
    {
        result.push(items[i].clone());
        assert(result@ =~= items@.take(i + 1));
        i += 1;
    }
    assert(items@.take(i as int) =~= items@);
    result
}

} // verus!
