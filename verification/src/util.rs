//! Small shared helpers: decimal rendering and the index-bounded prompt's
//! decision.

use vstd::prelude::*;

verus! {

broadcast use vstd::seq::group_seq_axioms, vstd::string::group_string_axioms;

/// The character for one decimal digit.
pub open spec fn digit_char(d: nat) -> char {
    if d == 0 {
        '0'
    } else if d == 1 {
        '1'
    } else if d == 2 {
        '2'
    } else if d == 3 {
        '3'
    } else if d == 4 {
        '4'
    } else if d == 5 {
        '5'
    } else if d == 6 {
        '6'
    } else if d == 7 {
        '7'
    } else if d == 8 {
        '8'
    } else {
        '9'
    }
}

/// The decimal rendering of a number, most significant digit first, with
/// no leading zeroes (a lone zero for zero).
pub open spec fn dec_str(n: nat) -> Seq<char>
    decreases n,
{
    if n < 10 {
        seq![digit_char(n)]
    } else {
        dec_str(n / 10).push(digit_char(n % 10))
    }
}

/// Renders a number in decimal.
pub fn u64_to_string(n: u64) -> (s: String)
    ensures
        s@ == dec_str(n as nat),
    decreases n,
{
    let d = n % 10;
    let digit: &str = if d == 0 {
        "0"
    } else if d == 1 {
        "1"
    } else if d == 2 {
        "2"
    } else if d == 3 {
        "3"
    } else if d == 4 {
        "4"
    } else if d == 5 {
        "5"
    } else if d == 6 {
        "6"
    } else if d == 7 {
        "7"
    } else if d == 8 {
        "8"
    } else {
        "9"
    };
    proof {
        reveal_strlit("0");
        reveal_strlit("1");
        reveal_strlit("2");
        reveal_strlit("3");
        reveal_strlit("4");
        reveal_strlit("5");
        reveal_strlit("6");
        reveal_strlit("7");
        reveal_strlit("8");
        reveal_strlit("9");
        assert(digit@ =~= seq![digit_char((n % 10) as nat)]);
    }
    if n < 10 {
        let s = String::from_str(digit);
        proof {
            assert(s@ =~= dec_str(n as nat));
        }
        s
    } else {
        let mut s = u64_to_string(n / 10);
        s.append(digit);
        proof {
            assert(dec_str((n / 10) as nat).push(digit_char((n % 10) as nat)) =~= dec_str(
                (n / 10) as nat,
            ) + seq![digit_char((n % 10) as nat)]);
        }
        s
    }
}

/// Whether a character is a decimal digit.
pub open spec fn is_digit(c: char) -> bool {
    48 <= c as int <= 57
}

/// A digit character's value.
pub open spec fn digit_val(c: char) -> nat {
    (c as int - 48) as nat
}

/// Whether every character of a text is a decimal digit.
pub open spec fn all_digits(s: Seq<char>) -> bool {
    forall|i: int| 0 <= i < s.len() ==> is_digit(#[trigger] s[i])
}

/// The value of a digit string, folded left to right onto an accumulator.
pub open spec fn digits_val_from(s: Seq<char>, acc: nat) -> nat
    decreases s.len(),
{
    if s.len() == 0 {
        acc
    } else {
        digits_val_from(s.drop_first(), acc * 10 + digit_val(s[0]))
    }
}

/// The text once an optional leading plus sign is stripped.
pub open spec fn strip_plus(s: Seq<char>) -> Seq<char> {
    if s.len() > 0 && s[0] == '+' {
        s.drop_first()
    } else {
        s
    }
}

/// What an entered index means against a list of the given length: the
/// zero-based index when the entry is a decimal number between one and the
/// length, and nothing on any other entry.
pub open spec fn index_choice_spec(s: Seq<char>, length: nat) -> Option<nat> {
    let body = strip_plus(s);
    if body.len() == 0 || !all_digits(body) {
        None
    } else {
        let v = digits_val_from(body, 0);
        if 1 <= v <= length {
            Some((v - 1) as nat)
        } else {
            None
        }
    }
}

proof fn lemma_digits_val_from_ge(s: Seq<char>, acc: nat)
    ensures
        digits_val_from(s, acc) >= acc,
    decreases s.len(),
{
    if s.len() > 0 {
        lemma_digits_val_from_ge(s.drop_first(), acc * 10 + digit_val(s[0]));
    }
}

/// Reads an operator's index entry against a list of the given length:
/// `Some` of the zero-based index exactly when the entry is a decimal
/// number between one and the length.
pub fn parse_index_choice(input: &str, length: usize) -> (r: Option<usize>)
    ensures
        r == (match index_choice_spec(input@, length as nat) {
            Some(i) => Some(i as usize),
            None => None::<usize>,
        }),
        r matches Some(i) ==> i < length,
{
    let chars = input.unicode_len();
    let start: usize = if chars > 0 && input.get_char(0) == '+' {
        1
    } else {
        0
    };
    let ghost body = strip_plus(input@);
    proof {
        if start == 1 {
            assert(body =~= input@.skip(1));
        } else {
            assert(body =~= input@.skip(0));
        }
    }
    if chars == start {
        return None;
    }
    proof {
        assert(body.skip(0) =~= body);
    }
    let mut acc: u128 = 0;
    let mut i: usize = start;
    while i < chars
        invariant
            start <= i <= chars,
            chars == input@.len(),
            body == strip_plus(input@),
            body == input@.skip(start as int),
            body.len() == chars - start,
            acc <= length,
            forall|j: int| 0 <= j < i - start ==> is_digit(#[trigger] body[j]),
            all_digits(body) ==> digits_val_from(body, 0) == digits_val_from(
                body.skip(i - start),
                acc as nat,
            ),
        decreases chars - i,
    {
        let c = input.get_char(i);
        let ghost tail = body.skip(i - start);
        proof {
            assert(tail[0] == body[i - start]);
            assert(body[i - start] == input@[i as int]);
            assert(tail.drop_first() =~= body.skip(i - start + 1));
        }
        let code = c as u32;
        if !(48 <= code && code <= 57) {
            proof {
                assert(!is_digit(body[i - start]));
                assert(!all_digits(body));
            }
            return None;
        }
        let d = (code - 48) as u128;
        let next = acc * 10 + d;
        if next > length as u128 {
            proof {
                if all_digits(body) {
                    assert(is_digit(tail[0]));
                    assert(digit_val(tail[0]) == d as nat);
                    assert(digits_val_from(tail, acc as nat) == digits_val_from(
                        tail.drop_first(),
                        next as nat,
                    ));
                    lemma_digits_val_from_ge(tail.drop_first(), next as nat);
                    assert(digits_val_from(body, 0) >= next as nat);
                    assert(digits_val_from(body, 0) > length as nat);
                }
            }
            return None;
        }
        acc = next;
        i += 1;
    }
    proof {
        assert(body.skip(chars - start) =~= Seq::<char>::empty());
        assert(all_digits(body));
    }
    if acc == 0 {
        return None;
    }
    Some((acc - 1) as usize)
}

} // verus!
