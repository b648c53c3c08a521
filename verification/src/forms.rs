//! Form helpers: field validation, breed selection, the update form's
//! case-insensitive record search, the delete form's name-list parsing,
//! and decimal parsing for the offspring field.

use vstd::prelude::*;
use crate::domain::{Breed, GoatParams};
use crate::text::{lower_of, lowercase, str_eq, trim_of, trimmed};

verus! {

/// Checks a required text field: a value that is empty after trimming is
/// rejected with a fixed message.
pub fn required_field(field: &str) -> (r: Option<String>)
    ensures
        (r is Some) <==> trim_of(field@).len() == 0,
        r matches Some(m) ==> m@ == "This field is required."@,
{
    let t = trimmed(field);
    if t.is_empty() {
        Some(String::from_str("This field is required."))
    } else {
        None
    }
}

/// Builds the breed from the form's selection: the literal choice `Other`
/// takes the free-text value verbatim; any other choice is parsed as a
/// breed tag.
pub fn breed_from_selection(selected: &str, other: &str) -> (r: Breed)
    ensures
        selected@ == "Other"@ ==> (r matches Breed::Other(n) && n@ == other@),
        selected@ != "Other"@ ==> Breed::spec_parses_to(selected@, r),
{
    if str_eq(selected, "Other") {
        Breed::Other(other.to_owned())
    } else {
        Breed::from_str(selected)
    }
}

/// The first position of a record whose lowercased name equals the
/// lowercased search text, if any: the update form's search is
/// case-insensitive, unlike the store's delete and update matching.
pub fn find_goat_by_name_ci(goats: &Vec<GoatParams>, search_name: &str) -> (r: Option<usize>)
    ensures
        r matches Some(i) ==> i < goats@.len() && lower_of(goats@[i as int].name@) == lower_of(
            search_name@,
        ) && (forall|j: int| 0 <= j < i ==> lower_of(goats@[j].name@) != lower_of(search_name@)),
        r is None ==> forall|j: int|
            0 <= j < goats@.len() ==> lower_of(goats@[j].name@) != lower_of(search_name@),
{
    let query = lowercase(search_name);
    let mut i: usize = 0;
    while i < goats.len()
        invariant
            i <= goats@.len(),
            query@ == lower_of(search_name@),
            forall|j: int| 0 <= j < i ==> lower_of(goats@[j].name@) != lower_of(search_name@),
        decreases goats@.len() - i,
    {
        let gname = lowercase(goats[i].name.as_str());
        if gname == query {
            return Some(i);
        }
        i = i + 1;
    }
    None
}

/// The raw comma-separated segments of the text, in order; a text of `n`
/// commas has `n + 1` segments, empty ones included.
pub open spec fn spec_segments(s: Seq<char>) -> Seq<Seq<char>>
    decreases s.len(),
{
    if s.len() == 0 {
        seq![Seq::<char>::empty()]
    } else {
        let prev = spec_segments(s.drop_last());
        if s.last() == ',' {
            prev.push(Seq::<char>::empty())
        } else {
            prev.update(prev.len() - 1, prev.last().push(s.last()))
        }
    }
}

/// Trims every segment, drops the empty ones, and keeps the first
/// occurrence of each name, in order.
pub open spec fn spec_cleaned(parts: Seq<Seq<char>>) -> Seq<Seq<char>>
    decreases parts.len(),
{
    if parts.len() == 0 {
        Seq::empty()
    } else {
        let prev = spec_cleaned(parts.drop_last());
        let t = trim_of(parts.last());
        if t.len() == 0 || prev.contains(t) {
            prev
        } else {
            prev.push(t)
        }
    }
}

/// Every text splits into at least one segment.
proof fn lemma_segments_nonempty(s: Seq<char>)
    ensures
        spec_segments(s).len() >= 1,
    decreases s.len(),
{
    if s.len() > 0 {
        lemma_segments_nonempty(s.drop_last());
    }
}

/// Splits the text at every comma, yielding all segments in order.
fn split_commas(s: &str) -> (parts: Vec<String>)
    ensures
        parts.deep_view() == spec_segments(s@),
{
    let n = s.unicode_len();
    let mut parts: Vec<String> = Vec::new();
    let mut start: usize = 0;
    let mut i: usize = 0;
    proof {
        assert(s@.take(0) =~= Seq::<char>::empty());
        assert(s@.subrange(0, 0) =~= Seq::<char>::empty());
        assert(parts.deep_view().push(s@.subrange(0, 0)) =~~= spec_segments(s@.take(0)));
    }
    while i < n
        invariant
            n == s@.len(),
            start <= i <= n,
            parts.deep_view().push(s@.subrange(start as int, i as int)) == spec_segments(
                s@.take(i as int),
            ),
        decreases n - i,
    {
        let c = s.get_char(i);
        proof {
            assert(s@.take(i + 1).drop_last() =~= s@.take(i as int));
            lemma_segments_nonempty(s@.take(i as int));
        }
        if c == ',' {
            let seg = s.substring_char(start, i);
            let ghost old_dv = parts.deep_view();
            parts.push(seg.to_owned());
            proof {
                assert(parts.deep_view() =~= old_dv.push(s@.subrange(start as int, i as int)));
            }
            start = i + 1;
            proof {
                assert(s@.subrange(start as int, i + 1) =~= Seq::<char>::empty());
                assert(parts.deep_view().push(s@.subrange(start as int, i + 1))
                    =~~= spec_segments(s@.take(i + 1)));
            }
        } else {
            proof {
                assert(s@.subrange(start as int, i + 1) =~= s@.subrange(
                    start as int,
                    i as int,
                ).push(s@[i as int]));
                let prev = spec_segments(s@.take(i as int));
                assert(prev.last() == s@.subrange(start as int, i as int));
                assert(prev.update(prev.len() - 1, prev.last().push(s@[i as int]))
                    =~~= parts.deep_view().push(s@.subrange(start as int, i + 1)));
            }
        }
        i = i + 1;
    }
    proof {
        assert(s@.take(n as int) =~= s@);
    }
    let seg = s.substring_char(start, n);
    let ghost old_dv = parts.deep_view();
    parts.push(seg.to_owned());
    proof {
        assert(parts.deep_view() =~~= old_dv.push(s@.subrange(start as int, n as int)));
    }
    parts
}

/// Parses the delete form's input: the comma-separated names, each
/// trimmed, empties dropped, duplicates collapsed to their first
/// occurrence. The whole input is trimmed first.
pub fn parse_delete_names(input: &str) -> (names: Vec<String>)
    ensures
        names.deep_view() == spec_cleaned(spec_segments(trim_of(input@))),
{
    let whole = trimmed(input);
    let parts = split_commas(whole);
    let mut names: Vec<String> = Vec::new();
    let mut j: usize = 0;
    while j < parts.len()
        invariant
            j <= parts@.len(),
            parts.deep_view() == spec_segments(trim_of(input@)),
            names.deep_view() =~= spec_cleaned(parts.deep_view().take(j as int)),
        decreases parts@.len() - j,
    {
        proof {
            assert(parts.deep_view().take(j + 1).drop_last() =~= parts.deep_view().take(j as int));
            assert(parts.deep_view().take(j + 1).last() == parts.deep_view()[j as int]);
        }
        proof {
            assert(parts.deep_view()[j as int] == parts@[j as int]@);
        }
        let t = trimmed(parts[j].as_str());
        if !t.is_empty() {
            let candidate = t.to_owned();
            let mut dup = false;
            let mut k: usize = 0;
            while k < names.len()
                invariant
                    k <= names@.len(),
                    candidate@ == trim_of(parts.deep_view()[j as int]),
                    dup <==> exists|q: int| 0 <= q < k && names.deep_view()[q] == candidate@,
                decreases names@.len() - k,
            {
                proof {
                    assert(names.deep_view()[k as int] == names@[k as int]@);
                }
                if names[k] == candidate {
                    dup = true;
                    proof {
                        assert(names.deep_view()[k as int] == candidate@);
                    }
                }
                k = k + 1;
            }
            if !dup {
                proof {
                    assert(!names.deep_view().contains(candidate@));
                }
                let ghost old_dv = names.deep_view();
                names.push(candidate);
                proof {
                    assert(names.deep_view() =~= old_dv.push(trim_of(
                        parts.deep_view()[j as int],
                    )));
                }
            } else {
                proof {
                    assert(names.deep_view().contains(candidate@));
                }
            }
        }
        j = j + 1;
    }
    proof {
        assert(parts.deep_view().take(parts@.len() as int) =~= parts.deep_view());
    }
    names
}

/// Whether the character is a decimal digit.
pub open spec fn spec_is_digit(c: char) -> bool {
    48 <= c as int <= 57
}

/// The numeric value of a digit character; zero for any other character.
pub open spec fn spec_digit_val(c: char) -> nat {
    if spec_is_digit(c) {
        (c as int - 48) as nat
    } else {
        0
    }
}

/// Whether every character of the text is a decimal digit.
pub open spec fn spec_all_digits(s: Seq<char>) -> bool {
    forall|i: int| 0 <= i < s.len() ==> spec_is_digit(#[trigger] s[i])
}

/// The number the digit text denotes, most significant digit first.
pub open spec fn spec_digits_value(s: Seq<char>) -> nat
    decreases s.len(),
{
    if s.len() == 0 {
        0
    } else {
        spec_digits_value(s.drop_last()) * 10 + spec_digit_val(s.last())
    }
}

/// A longer digit prefix never denotes a smaller number.
proof fn lemma_digits_value_grows(u: Seq<char>, j: int, k: int)
    requires
        0 <= j <= k <= u.len(),
    ensures
        spec_digits_value(u.take(j)) <= spec_digits_value(u.take(k)),
    decreases k - j,
{
    if j < k {
        lemma_digits_value_grows(u, j, k - 1);
        assert(u.take(k).drop_last() =~= u.take(k - 1));
    }
}

/// Parses the digits of `s` from position `start` on as a decimal number
/// of at most `cap`; rejects empty digit runs, non-digits, and numbers
/// over the cap.
fn parse_digits(s: &str, start: usize, cap: u32) -> (r: Option<u32>)
    requires
        start as int <= s@.len(),
    ensures
        ({
            let t = s@.skip(start as int);
            &&& ((r is Some) <==> (t.len() > 0 && spec_all_digits(t) && spec_digits_value(t)
                <= cap))
            &&& (r matches Some(v) ==> v == spec_digits_value(t))
        }),
{
    let ghost t = s@.skip(start as int);
    let n = s.unicode_len();
    if start == n {
        return None;
    }
    let mut acc: u32 = 0;
    let mut i: usize = start;
    while i < n
        invariant
            n == s@.len(),
            start <= i <= n,
            t == s@.skip(start as int),
            forall|j: int| start <= j < i ==> spec_is_digit(#[trigger] s@[j]),
            acc == spec_digits_value(t.take(i - start)),
            acc <= cap,
        decreases n - i,
    {
        let c = s.get_char(i);
        let v = c as u32;
        proof {
            assert(t.take(i + 1 - start).drop_last() =~= t.take(i - start));
            assert(t.take(i + 1 - start).last() == s@[i as int]);
        }
        if v < 48 || v > 57 {
            proof {
                assert(t[i - start] == s@[i as int]);
                assert(!spec_is_digit(t[i - start]));
            }
            return None;
        }
        let d = v - 48;
        if acc > cap / 10 || (acc == cap / 10 && d > cap % 10) {
            proof {
                assert(cap / 10 * 10 + cap % 10 == cap);
                assert(acc * 10 + d > cap);
                assert(spec_digits_value(t.take(i + 1 - start)) == acc * 10 + d);
                lemma_digits_value_grows(t, i + 1 - start, t.len() as int);
                assert(t.take(t.len() as int) =~= t);
            }
            return None;
        }
        proof {
            assert(cap / 10 * 10 + cap % 10 == cap);
            assert(acc * 10 + d <= cap);
        }
        acc = acc * 10 + d;
        i = i + 1;
    }
    proof {
        assert(t.take(n - start) =~= t);
        assert forall|j: int| 0 <= j < t.len() implies spec_is_digit(#[trigger] t[j]) by {
            assert(t[j] == s@[j + start]);
        }
    }
    Some(acc)
}

/// Parses the offspring field as the add form does: an optional leading
/// `+`, then decimal digits, the value fitting an unsigned 32-bit count.
pub fn parse_offspring(s: &str) -> (r: Option<u32>)
    ensures
        ({
            let t = if s@.len() > 0 && s@[0] == '+' {
                s@.drop_first()
            } else {
                s@
            };
            &&& ((r is Some) <==> (t.len() > 0 && spec_all_digits(t) && spec_digits_value(t)
                <= u32::MAX))
            &&& (r matches Some(v) ==> v == spec_digits_value(t))
        }),
{
    let n = s.unicode_len();
    let start: usize = if n > 0 && s.get_char(0) == '+' {
        1
    } else {
        0
    };
    proof {
        assert(s@.skip(start as int) =~= (if s@.len() > 0 && s@[0] == '+' {
            s@.drop_first()
        } else {
            s@
        }));
    }
    parse_digits(s, start, u32::MAX)
}

/// Parses the offspring field as the update form does: an optional
/// leading sign, then decimal digits, the value fitting a signed 32-bit
/// count.
pub fn parse_offspring_signed(s: &str) -> (r: Option<i32>)
    ensures
        ({
            let signed = s@.len() > 0 && (s@[0] == '+' || s@[0] == '-');
            let neg = s@.len() > 0 && s@[0] == '-';
            let t = if signed {
                s@.drop_first()
            } else {
                s@
            };
            &&& ((r is Some) <==> (t.len() > 0 && spec_all_digits(t) && (if neg {
                spec_digits_value(t) <= 0x8000_0000
            } else {
                spec_digits_value(t) <= 0x7fff_ffff
            })))
            &&& (r matches Some(v) ==> (if neg {
                v == -(spec_digits_value(t) as int)
            } else {
                v == spec_digits_value(t)
            }))
        }),
{
    let n = s.unicode_len();
    let mut neg = false;
    let mut start: usize = 0;
    if n > 0 {
        let c = s.get_char(0);
        if c == '+' {
            start = 1;
        } else if c == '-' {
            neg = true;
            start = 1;
        }
    }
    proof {
        assert(s@.skip(start as int) =~= (if s@.len() > 0 && (s@[0] == '+' || s@[0] == '-') {
            s@.drop_first()
        } else {
            s@
        }));
    }
    let cap: u32 = if neg {
        0x8000_0000
    } else {
        0x7fff_ffff
    };
    match parse_digits(s, start, cap) {
        None => None,
        Some(mag) => {
            if neg {
                if mag == 0x8000_0000 {
                    Some(i32::MIN)
                } else {
                    Some(-(mag as i32))
                }
            } else {
                Some(mag as i32)
            }
        },
    }
}

} // verus!
