use vstd::prelude::*;

verus! {

/// The characters of the decimal digit `d` (for `d < 10`).
pub open spec fn digit(d: nat) -> Seq<char> {
    "0123456789"@.subrange(d as int, d as int + 1)
}

/// The decimal notation of `n`, most significant digit first, without
/// leading zeros.
pub open spec fn decimal_of(n: nat) -> Seq<char>
    decreases n,
{
    if n < 10 {
        digit(n)
    } else {
        decimal_of(n / 10) + digit(n % 10)
    }
}

/// The text of the `n`-th synthetic chat message.
pub open spec fn label_of(n: nat) -> Seq<char> {
    "User: Message "@ + decimal_of(n)
}

fn digit_str(d: usize) -> (r: &'static str)
    requires
        d < 10,
    ensures
        r@ == digit(d as nat),
{
    proof {
        reveal_strlit("0123456789");
    }
    "0123456789".substring_ascii(d, d + 1)
}

fn append_decimal(s: &mut String, n: usize)
    ensures
        final(s)@ == old(s)@ + decimal_of(n as nat),
    decreases n,
{
    if n >= 10 {
        append_decimal(s, n / 10);
    }
    s.append(digit_str(n % 10));
}

/// Decimal notation of `n`.
pub fn decimal(n: usize) -> (r: String)
    ensures
        r@ == decimal_of(n as nat),
{
    let mut s = String::new();
    append_decimal(&mut s, n);
    assert(s@ =~= decimal_of(n as nat));
    s
}

/// The text of the `n`-th synthetic chat message, `"User: Message {n}"`.
pub fn message_label(n: usize) -> (r: String)
    ensures
        r@ == label_of(n as nat),
{
    let mut s = String::from_str("User: Message ");
    append_decimal(&mut s, n);
    s
}

} // verus!
