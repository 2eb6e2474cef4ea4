//! Stable migration names, derived from the migration id.
use vstd::prelude::*;

verus! {

/// Width to which the id is padded with leading zeros in a migration name.
pub const ID_WIDTH: u32 = 4;

/// The decimal digit `d` as a character.
pub open spec fn digit_char(d: nat) -> char {
    seq!['0', '1', '2', '3', '4', '5', '6', '7', '8', '9'][d as int]
}

/// The decimal representation of `n`, without leading zeros.
pub open spec fn decimal(n: nat) -> Seq<char>
    decreases n,
{
    if n < 10 {
        seq![digit_char(n)]
    } else {
        decimal(n / 10).push(digit_char(n % 10))
    }
}

/// `k` zero characters.
pub open spec fn zeros(k: nat) -> Seq<char> {
    Seq::new(k, |i: int| '0')
}

/// The decimal representation of `n`, padded with zeros to `ID_WIDTH` characters.
pub open spec fn padded_decimal(n: nat) -> Seq<char> {
    let d = decimal(n);
    if d.len() < ID_WIDTH {
        zeros((ID_WIDTH - d.len()) as nat) + d
    } else {
        d
    }
}

/// The name of the migration with id `id`, e.g. `Migration0013`.
pub open spec fn spec_migration_name(id: nat) -> Seq<char> {
    "Migration"@ + padded_decimal(id)
}

fn digit_str(d: u32) -> (r: &'static str)
    requires
        d < 10,
    ensures
        r@ == seq![digit_char(d as nat)],
{
    proof {
        reveal_strlit("0");
        reveal_strlit("1");
        reveal_strlit("2");
        reveal_strlit("3");
        reveal_strlit("4");
        reveal_strlit("5");
        reveal_strlit("6");
        reveal_strlit("7");
        reveal_strlit("8");
        reveal_strlit("9");
    }
    match d {
        0 => "0",
        1 => "1",
        2 => "2",
        3 => "3",
        4 => "4",
        5 => "5",
        6 => "6",
        7 => "7",
        8 => "8",
        _ => "9",
    }
}

/// Number of decimal digits of `n`.
fn decimal_len(n: u32) -> (r: u32)
    ensures
        r as nat == decimal(n as nat).len(),
    decreases n,
{
    if n < 10 {
        1
    } else {
        let k = decimal_len(n / 10);
        proof {
            lemma_decimal_len_bound((n / 10) as nat);
        }
        k + 1
    }
}

/// Ten to the power `k`.
pub open spec fn pow10(k: nat) -> nat
    decreases k,
{
    if k == 0 {
        1
    } else {
        10 * pow10((k - 1) as nat)
    }
}

proof fn lemma_decimal_len_below(n: nat, k: nat)
    requires
        n < pow10(k),
        k >= 1,
    ensures
        decimal(n).len() <= k,
    decreases k,
{
    if n >= 10 {
        assert(n / 10 < pow10((k - 1) as nat)) by (nonlinear_arith)
            requires
                n < 10 * pow10((k - 1) as nat),
        ;
        if k == 1 {
            assert(pow10(0) == 1);
        }
        lemma_decimal_len_below(n / 10, (k - 1) as nat);
    }
}

proof fn lemma_decimal_len_bound(n: nat)
    requires
        n <= u32::MAX,
    ensures
        decimal(n).len() <= 10,
{
    reveal_with_fuel(pow10, 11);
    assert(pow10(10) == 10000000000nat);
    lemma_decimal_len_below(n, 10);
}

fn push_decimal(s: &mut String, n: u32)
    ensures
        final(s)@ == old(s)@ + decimal(n as nat),
    decreases n,
{
    if n < 10 {
        s.append(digit_str(n));
    } else {
        push_decimal(s, n / 10);
        s.append(digit_str(n % 10));
        assert(final(s)@ =~= old(s)@ + decimal(n as nat));
    }
}

/// The name of the migration with id `id`: `Migration` followed by the id,
/// zero-padded to four digits.
pub fn migration_name(id: u32) -> (r: String)
    ensures
        r@ == spec_migration_name(id as nat),
{
    let mut s = String::from_str("Migration");
    let len = decimal_len(id);
    let mut k: u32 = len;
    while k < ID_WIDTH
        invariant
            len as nat == decimal(id as nat).len(),
            len <= k <= ID_WIDTH || (len == k && k > ID_WIDTH),
            s@ == "Migration"@ + zeros((k - len) as nat),
        decreases ID_WIDTH - k,
    {
        s.append("0");
        proof {
            reveal_strlit("0");
            assert(s@ =~= "Migration"@ + zeros((k + 1 - len) as nat));
        }
        k = k + 1;
    }
    push_decimal(&mut s, id);
    proof {
        if len < ID_WIDTH {
            assert(k == ID_WIDTH);
        } else {
            assert(zeros(0) =~= Seq::<char>::empty());
        }
        assert(s@ =~= spec_migration_name(id as nat));
    }
    s
}

} // verus!
