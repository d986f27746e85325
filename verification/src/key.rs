//! The key under which a chat's session is stored: the chat's identifier in
//! decimal, as the platform writes it.
use vstd::prelude::*;
use vstd::string::StringExecFns;

verus! {

/// The character of a decimal digit.
pub open spec fn digit_char(digit: int) -> char {
    if digit == 0 {
        '0'
    } else if digit == 1 {
        '1'
    } else if digit == 2 {
        '2'
    } else if digit == 3 {
        '3'
    } else if digit == 4 {
        '4'
    } else if digit == 5 {
        '5'
    } else if digit == 6 {
        '6'
    } else if digit == 7 {
        '7'
    } else if digit == 8 {
        '8'
    } else {
        '9'
    }
}

/// A natural number in decimal, without leading zeros.
pub open spec fn decimal(n: nat) -> Seq<char>
    decreases n,
{
    if n < 10 {
        seq![digit_char(n as int)]
    } else {
        decimal(n / 10).push(digit_char((n % 10) as int))
    }
}

/// The key of a chat: its identifier in decimal, with a minus sign before a
/// negative one.
pub open spec fn session_key_text(chat_id: i64) -> Seq<char> {
    if chat_id < 0 {
        seq!['-'] + decimal((-chat_id) as nat)
    } else {
        decimal(chat_id as nat)
    }
}

/// The text of one decimal digit.
fn digit_str(digit: u64) -> (text: &'static str)
    requires
        digit < 10,
    ensures
        text@ == seq![digit_char(digit as int)],
{
    let text = match digit {
        0 => "0",
        1 => "1",
        2 => "2",
        3 => "3",
        4 => "4",
        5 => "5",
        6 => "6",
        7 => "7",
        8 => "8",
        _ => "9",
    };
    proof {
        reveal_strlit("0");
        reveal_strlit("1");
        reveal_strlit("2");
        reveal_strlit("3");
        reveal_strlit("4");
        reveal_strlit("5");
        reveal_strlit("6");
        reveal_strlit("7");
        reveal_strlit("8");
        reveal_strlit("9");
        assert(text@ =~= seq![digit_char(digit as int)]);
    }
    text
}

/// Writes a number in decimal at the end of a text.
fn append_decimal(out: &mut String, n: u64)
    ensures
        final(out)@ == old(out)@ + decimal(n as nat),
    decreases n,
{
    if n >= 10 {
        append_decimal(out, n / 10);
    }
    out.append(digit_str(n % 10));
    proof {
        let last = seq![digit_char((n % 10) as int)];
        if n >= 10 {
            assert(decimal(n as nat) =~= decimal((n / 10) as nat) + last);
            assert(old(out)@ + decimal((n / 10) as nat) + last =~= old(out)@ + (decimal(
                (n / 10) as nat,
            ) + last));
        }
    }
}

/// The key under which the session of a chat is stored.
pub fn session_key(chat_id: i64) -> (key: String)
    ensures
        key@ == session_key_text(chat_id),
{
    let mut key = String::new();
    if chat_id < 0 {
        key.append("-");
        let magnitude: u64 = (-(chat_id + 1)) as u64 + 1;
        append_decimal(&mut key, magnitude);
        proof {
            reveal_strlit("-");
            assert("-"@ =~= seq!['-']);
            assert(Seq::<char>::empty() + "-"@ =~= seq!['-']);
        }
    } else {
        append_decimal(&mut key, chat_id as u64);
        assert(Seq::<char>::empty() + decimal(chat_id as nat) =~= decimal(chat_id as nat));
    }
    key
}

/// A number in decimal has at least one character, and all of them are
/// digits: none is a minus sign.
pub proof fn lemma_decimal_is_digits(n: nat)
    ensures
        decimal(n).len() >= 1,
        forall|i: int| 0 <= i < decimal(n).len() ==> #[trigger] decimal(n)[i] != '-',
    decreases n,
{
    if n >= 10 {
        lemma_decimal_is_digits(n / 10);
    }
}

/// Two digits with the same character are the same digit.
pub proof fn lemma_digit_char_injective(x: int, y: int)
    requires
        0 <= x < 10,
        0 <= y < 10,
        digit_char(x) == digit_char(y),
    ensures
        x == y,
{
}

/// Two numbers with the same decimal text are the same number.
pub proof fn lemma_decimal_injective(a: nat, b: nat)
    requires
        decimal(a) == decimal(b),
    ensures
        a == b,
    decreases a,
{
    lemma_decimal_is_digits(a / 10);
    lemma_decimal_is_digits(b / 10);
    if a < 10 && b < 10 {
        assert(decimal(a)[0] == digit_char(a as int));
        assert(decimal(b)[0] == digit_char(b as int));
        lemma_digit_char_injective(a as int, b as int);
    } else if a >= 10 && b >= 10 {
        let front_a = decimal(a / 10);
        let front_b = decimal(b / 10);
        let last_a = digit_char((a % 10) as int);
        let last_b = digit_char((b % 10) as int);
        assert(decimal(a) == front_a.push(last_a));
        assert(decimal(b) == front_b.push(last_b));
        assert(front_a.push(last_a).last() == last_a);
        assert(front_b.push(last_b).last() == last_b);
        assert(front_a.push(last_a).drop_last() == front_a);
        assert(front_b.push(last_b).drop_last() == front_b);
        assert(front_a == front_b);
        lemma_digit_char_injective((a % 10) as int, (b % 10) as int);
        lemma_decimal_injective(a / 10, b / 10);
        assert(a == 10 * (a / 10) + a % 10);
        assert(b == 10 * (b / 10) + b % 10);
    } else {
        assert(decimal(a).len() != decimal(b).len());
    }
}

/// Two chats have two keys: no session is stored under the key of another
/// chat.
pub proof fn lemma_session_keys_differ(a: i64, b: i64)
    requires
        a != b,
    ensures
        session_key_text(a) != session_key_text(b),
{
    if session_key_text(a) == session_key_text(b) {
        if a < 0 && b < 0 {
            let da = decimal((-a) as nat);
            let db = decimal((-b) as nat);
            assert((seq!['-'] + da).drop_first() == da);
            assert((seq!['-'] + db).drop_first() == db);
            lemma_decimal_injective((-a) as nat, (-b) as nat);
        } else if a >= 0 && b >= 0 {
            lemma_decimal_injective(a as nat, b as nat);
        } else if a < 0 {
            lemma_decimal_is_digits(b as nat);
            assert(session_key_text(a)[0] == '-');
            assert(decimal(b as nat)[0] != '-');
        } else {
            lemma_decimal_is_digits(a as nat);
            assert(session_key_text(b)[0] == '-');
            assert(decimal(a as nat)[0] != '-');
        }
    }
}

} // verus!
