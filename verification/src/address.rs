use vstd::prelude::*;
use vstd::string::StringExecFns;
use crate::swap::{AddressType, SwapAddress};

verus! {

/// The character of a single decimal digit.
pub open spec fn digit_char(d: int) -> char {
    if d == 0 {
        '0'
    } else if d == 1 {
        '1'
    } else if d == 2 {
        '2'
    } else if d == 3 {
        '3'
    } else if d == 4 {
        '4'
    } else if d == 5 {
        '5'
    } else if d == 6 {
        '6'
    } else if d == 7 {
        '7'
    } else if d == 8 {
        '8'
    } else {
        '9'
    }
}

/// The decimal notation of a number, most significant digit first, with no
/// leading zeros (a single `0` for zero).
pub open spec fn spec_decimal(n: nat) -> Seq<char>
    decreases n,
{
    if n < 10 {
        seq![digit_char(n as int)]
    } else {
        spec_decimal(n / 10).push(digit_char((n % 10) as int))
    }
}

/// Append one decimal digit to a string.
fn append_digit(s: &mut String, d: u32)
    requires
        d < 10,
    ensures
        final(s)@ == old(s)@ + seq![digit_char(d as int)],
{
    if d == 0 {
        proof {
            reveal_strlit("0");
            assert("0"@ =~= seq![digit_char(0)]);
        }
        s.append("0");
    } else if d == 1 {
        proof {
            reveal_strlit("1");
            assert("1"@ =~= seq![digit_char(1)]);
        }
        s.append("1");
    } else if d == 2 {
        proof {
            reveal_strlit("2");
            assert("2"@ =~= seq![digit_char(2)]);
        }
        s.append("2");
    } else if d == 3 {
        proof {
            reveal_strlit("3");
            assert("3"@ =~= seq![digit_char(3)]);
        }
        s.append("3");
    } else if d == 4 {
        proof {
            reveal_strlit("4");
            assert("4"@ =~= seq![digit_char(4)]);
        }
        s.append("4");
    } else if d == 5 {
        proof {
            reveal_strlit("5");
            assert("5"@ =~= seq![digit_char(5)]);
        }
        s.append("5");
    } else if d == 6 {
        proof {
            reveal_strlit("6");
            assert("6"@ =~= seq![digit_char(6)]);
        }
        s.append("6");
    } else if d == 7 {
        proof {
            reveal_strlit("7");
            assert("7"@ =~= seq![digit_char(7)]);
        }
        s.append("7");
    } else if d == 8 {
        proof {
            reveal_strlit("8");
            assert("8"@ =~= seq![digit_char(8)]);
        }
        s.append("8");
    } else {
        proof {
            reveal_strlit("9");
            assert("9"@ =~= seq![digit_char(9)]);
        }
        s.append("9");
    }
}

/// Append the decimal notation of a number to a string.
fn push_decimal(s: &mut String, n: u32)
    ensures
        final(s)@ == old(s)@ + spec_decimal(n as nat),
    decreases n,
{
    if n < 10 {
        append_digit(s, n);
    } else {
        push_decimal(s, n / 10);
        append_digit(s, n % 10);
        proof {
            assert(final(s)@ =~= old(s)@ + spec_decimal(n as nat));
        }
    }
}

/// The decimal notation of a number as a string.
pub fn decimal_string(n: u32) -> (r: String)
    ensures
        r@ == spec_decimal(n as nat),
{
    let mut s = String::new();
    push_decimal(&mut s, n);
    proof {
        assert(s@ =~= spec_decimal(n as nat));
    }
    s
}

/// Label an ephemeral transparent address at the next derivation index,
/// advancing the index. A placeholder until the wallet engine derives real
/// transparent addresses: the label encodes the reserved index, which is
/// what the swap bookkeeping relies on.
pub fn generate_ephemeral_transparent_address(next_index: &mut u32) -> (r: SwapAddress)
    requires
        *old(next_index) < u32::MAX,
    ensures
        *final(next_index) == *old(next_index) + 1,
        r.index == *old(next_index),
        r.address_type is Transparent,
        r.address@ == "t_ephemeral_"@ + spec_decimal(*old(next_index) as nat),
{
    let index: u32 = *next_index;
    *next_index = index + 1;
    let mut address = String::from_str("t_ephemeral_");
    push_decimal(&mut address, index);
    SwapAddress { address, address_type: AddressType::Transparent, index }
}

/// The shielded receiving address handed out for inbound swaps. A
/// placeholder until the wallet engine supplies the unified address; the
/// shielded path does not consume a derivation index.
pub fn get_shielded_receiving_address() -> (r: SwapAddress)
    ensures
        r.address@ == "shielded_placeholder"@,
        r.address_type is Shielded,
        r.index == 0,
{
    SwapAddress {
        address: String::from_str("shielded_placeholder"),
        address_type: AddressType::Shielded,
        index: 0,
    }
}

} // verus!
