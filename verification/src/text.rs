//! Text that the router writes: decimal numbers and joined strings.
use vstd::prelude::*;
use vstd::string::StringExecFns;

verus! {

/// The character of a decimal digit.
pub open spec fn digit_char(digit: int) -> char {
    if digit == 0 {
        '0'
    } else if digit == 1 {
        '1'
    } else if digit == 2 {
        '2'
    } else if digit == 3 {
        '3'
    } else if digit == 4 {
        '4'
    } else if digit == 5 {
        '5'
    } else if digit == 6 {
        '6'
    } else if digit == 7 {
        '7'
    } else if digit == 8 {
        '8'
    } else {
        '9'
    }
}

/// The decimal digits of a natural number, without leading zeros.
pub open spec fn unsigned_decimal(n: nat) -> Seq<char>
    decreases n,
{
    if n < 10 {
        seq![digit_char(n as int)]
    } else {
        unsigned_decimal(n / 10).push(digit_char((n % 10) as int))
    }
}

/// A number in decimal, with a minus sign where it is negative.
pub open spec fn decimal_text(n: int) -> Seq<char> {
    if n < 0 {
        seq!['-'] + unsigned_decimal((-n) as nat)
    } else {
        unsigned_decimal(n as nat)
    }
}

/// The given texts one after another.
pub open spec fn joined(parts: Seq<Seq<char>>) -> Seq<char>
    decreases parts.len(),
{
    if parts.len() == 0 {
        Seq::empty()
    } else {
        joined(parts.drop_last()) + parts.last()
    }
}

/// The texts that the given strings hold.
pub open spec fn texts(parts: Seq<String>) -> Seq<Seq<char>> {
    parts.map_values(|part: String| part@)
}

/// The digit as a string of one character.
fn digit_str(digit: u8) -> (text: &'static str)
    requires
        digit < 10,
    ensures
        text@ == seq![digit_char(digit as int)],
{
    proof {
        reveal_strlit("0");
        reveal_strlit("1");
        reveal_strlit("2");
        reveal_strlit("3");
        reveal_strlit("4");
        reveal_strlit("5");
        reveal_strlit("6");
        reveal_strlit("7");
        reveal_strlit("8");
        reveal_strlit("9");
    }
    let text = match digit {
        0 => "0",
        1 => "1",
        2 => "2",
        3 => "3",
        4 => "4",
        5 => "5",
        6 => "6",
        7 => "7",
        8 => "8",
        _ => "9",
    };
    assert(text@ =~= seq![digit_char(digit as int)]);
    text
}

/// A natural number in decimal.
pub fn unsigned_to_decimal(n: u128) -> (text: String)
    ensures
        text@ == unsigned_decimal(n as nat),
{
    let mut rest: u128 = n / 10;
    let mut text = String::from_str(digit_str((n % 10) as u8));
    let ghost mut tail: Seq<char> = seq![digit_char((n % 10) as int)];
    proof {
        assert(text@ =~= tail);
        if n >= 10 {
            assert(unsigned_decimal(n as nat) =~= unsigned_decimal(rest as nat) + tail);
        }
    }
    while rest > 0
        invariant
            text@ == tail,
            rest > 0 ==> unsigned_decimal(n as nat) == unsigned_decimal(rest as nat) + tail,
            rest == 0 ==> unsigned_decimal(n as nat) == tail,
        decreases rest,
    {
        let digit = digit_str((rest % 10) as u8);
        let ghost old_tail = tail;
        let ghost old_rest = rest;
        let front = String::from_str(digit);
        text = front.concat(text.as_str());
        rest = rest / 10;
        proof {
            tail = seq![digit_char((old_rest % 10) as int)] + old_tail;
            assert(text@ =~= tail);
            if rest == 0 {
                assert(unsigned_decimal(old_rest as nat) + old_tail =~= tail);
            } else {
                assert(unsigned_decimal(old_rest as nat) + old_tail =~= unsigned_decimal(
                    rest as nat,
                ) + tail);
            }
        }
    }
    text
}

/// A number in decimal, as `{}` writes it.
pub fn to_decimal(n: i128) -> (text: String)
    ensures
        text@ == decimal_text(n as int),
{
    if n >= 0 {
        unsigned_to_decimal(n as u128)
    } else {
        let magnitude: u128 = if n == i128::MIN {
            0x8000_0000_0000_0000_0000_0000_0000_0000u128
        } else {
            (-n) as u128
        };
        let digits = unsigned_to_decimal(magnitude);
        let sign = String::from_str("-");
        proof {
            reveal_strlit("-");
        }
        let text = sign.concat(digits.as_str());
        assert(text@ =~= decimal_text(n as int));
        text
    }
}

/// The given strings one after another.
pub fn concat_all(parts: &Vec<String>) -> (text: String)
    ensures
        text@ == joined(texts(parts@)),
{
    let mut text = String::new();
    let mut i: usize = 0;
    proof {
        assert(texts(parts@).take(0) =~= Seq::<Seq<char>>::empty());
    }
    while i < parts.len()
        invariant
            i <= parts@.len(),
            text@ == joined(texts(parts@).take(i as int)),
        decreases parts@.len() - i,
    {
        proof {
            let upto = texts(parts@).take(i + 1);
            assert(upto.drop_last() =~= texts(parts@).take(i as int));
            assert(upto.last() == parts@[i as int]@);
        }
        text.append(parts[i].as_str());
        i = i + 1;
    }
    proof {
        assert(texts(parts@).take(parts@.len() as int) =~= texts(parts@));
    }
    text
}

} // verus!
