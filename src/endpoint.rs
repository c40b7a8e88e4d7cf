//! Endpoints derived from a node id alone.
use vstd::prelude::*;

verus! {

/// The character of the decimal digit `d` (`d < 10`).
pub open spec fn digit_char(d: nat) -> char
    recommends
        d < 10,
{
    seq!['0', '1', '2', '3', '4', '5', '6', '7', '8', '9'][d as int]
}

/// Decimal representation of `n`, without leading zeros.
pub open spec fn decimal(n: nat) -> Seq<char>
    decreases n,
{
    if n < 10 {
        seq![digit_char(n)]
    } else {
        decimal(n / 10).push(digit_char(n % 10))
    }
}

/// `s`, left-padded with `'0'` up to `width` characters.
pub open spec fn zero_pad(s: Seq<char>, width: nat) -> Seq<char> {
    if s.len() < width {
        Seq::new((width - s.len()) as nat, |_i: int| '0') + s
    } else {
        s
    }
}

/// `127.0.0.1:`
pub open spec fn loopback_host() -> Seq<char> {
    seq!['1', '2', '7', '.', '0', '.', '0', '.', '1', ':']
}

/// `127.0.0.1:<prefix><node id, zero-padded to four digits>`.
pub open spec fn endpoint_of(prefix: char, node_id: u16) -> Seq<char> {
    loopback_host().push(prefix) + zero_pad(decimal(node_id as nat), 4)
}

/// The client endpoint of a node: port prefix `2`.
pub open spec fn node_addr_spec(node_id: u16) -> Seq<char> {
    endpoint_of('2', node_id)
}

/// The status endpoint of a node: port prefix `3`.
pub open spec fn node_status_addr_spec(node_id: u16) -> Seq<char> {
    endpoint_of('3', node_id)
}

/// The value of a decimal digit character.
pub open spec fn digit_value(c: char) -> nat {
    if c == '1' {
        1
    } else if c == '2' {
        2
    } else if c == '3' {
        3
    } else if c == '4' {
        4
    } else if c == '5' {
        5
    } else if c == '6' {
        6
    } else if c == '7' {
        7
    } else if c == '8' {
        8
    } else if c == '9' {
        9
    } else {
        0
    }
}

/// The number a string of decimal digits denotes.
pub open spec fn decimal_value(s: Seq<char>) -> nat
    decreases s.len(),
{
    if s.len() == 0 {
        0
    } else {
        decimal_value(s.drop_last()) * 10 + digit_value(s.last())
    }
}

proof fn lemma_digit_value(d: nat)
    requires
        d < 10,
    ensures
        digit_value(digit_char(d)) == d,
{
    let ds = seq!['0', '1', '2', '3', '4', '5', '6', '7', '8', '9'];
    assert(ds[0] == '0' && ds[1] == '1' && ds[2] == '2' && ds[3] == '3' && ds[4] == '4');
    assert(ds[5] == '5' && ds[6] == '6' && ds[7] == '7' && ds[8] == '8' && ds[9] == '9');
}

proof fn lemma_decimal_value(n: nat)
    ensures
        decimal_value(decimal(n)) == n,
    decreases n,
{
    if n < 10 {
        lemma_digit_value(n);
        assert(decimal(n).drop_last() =~= Seq::<char>::empty());
        assert(decimal_value(Seq::<char>::empty()) == 0);
        assert(decimal(n).last() == digit_char(n));
    } else {
        lemma_decimal_value(n / 10);
        lemma_digit_value(n % 10);
        assert(decimal(n).drop_last() =~= decimal(n / 10));
        assert(decimal(n).last() == digit_char(n % 10));
        assert((n / 10) * 10 + n % 10 == n) by (nonlinear_arith);
    }
}

proof fn lemma_leading_zeros(k: nat, s: Seq<char>)
    ensures
        decimal_value(Seq::new(k, |_i: int| '0') + s) == decimal_value(s),
    decreases s.len(), k,
{
    let z = Seq::new(k, |_i: int| '0');
    if s.len() == 0 {
        assert(z + s =~= z);
        if k > 0 {
            assert(z.drop_last() =~= Seq::new((k - 1) as nat, |_i: int| '0') + s);
            lemma_leading_zeros((k - 1) as nat, s);
        }
    } else {
        assert((z + s).drop_last() =~= z + s.drop_last());
        lemma_leading_zeros(k, s.drop_last());
    }
}

/// Distinct node ids get distinct endpoints under the same prefix.
pub proof fn lemma_endpoint_injective(prefix: char, a: u16, b: u16)
    requires
        endpoint_of(prefix, a) == endpoint_of(prefix, b),
    ensures
        a == b,
{
    let pa = zero_pad(decimal(a as nat), 4);
    let pb = zero_pad(decimal(b as nat), 4);
    let e = endpoint_of(prefix, a);
    assert(e.subrange(11, e.len() as int) =~= pa);
    assert(e.subrange(11, e.len() as int) =~= pb);
    lemma_decimal_value(a as nat);
    lemma_decimal_value(b as nat);
    let da = decimal(a as nat);
    let db = decimal(b as nat);
    if da.len() < 4 {
        lemma_leading_zeros((4 - da.len()) as nat, da);
    }
    if db.len() < 4 {
        lemma_leading_zeros((4 - db.len()) as nat, db);
    }
}

fn digit_str(d: u16) -> (r: &'static str)
    requires
        d < 10,
    ensures
        r@ == seq![digit_char(d as nat)],
{
    match d {
        0 => {
            proof {
                reveal_strlit("0");
            }
            "0"
        },
        1 => {
            proof {
                reveal_strlit("1");
            }
            "1"
        },
        2 => {
            proof {
                reveal_strlit("2");
            }
            "2"
        },
        3 => {
            proof {
                reveal_strlit("3");
            }
            "3"
        },
        4 => {
            proof {
                reveal_strlit("4");
            }
            "4"
        },
        5 => {
            proof {
                reveal_strlit("5");
            }
            "5"
        },
        6 => {
            proof {
                reveal_strlit("6");
            }
            "6"
        },
        7 => {
            proof {
                reveal_strlit("7");
            }
            "7"
        },
        8 => {
            proof {
                reveal_strlit("8");
            }
            "8"
        },
        _ => {
            proof {
                reveal_strlit("9");
            }
            "9"
        },
    }
}

/// Appends the decimal representation of `n` to `s`.
pub(crate) fn append_decimal(s: &mut String, n: u16)
    ensures
        final(s)@ == old(s)@ + decimal(n as nat),
    decreases n,
{
    if n >= 10 {
        append_decimal(s, n / 10);
    }
    s.append(digit_str(n % 10));
    proof {
        assert(old(s)@ + decimal(n as nat) =~= final(s)@);
    }
}

/// Number of decimal digits of `n`.
fn decimal_len(n: u16) -> (r: usize)
    ensures
        r == decimal(n as nat).len(),
        1 <= r <= 5,
        n < 10000 ==> r <= 4,
        n < 1000 ==> r <= 3,
        n < 100 ==> r <= 2,
    decreases n,
{
    if n < 10 {
        1
    } else {
        1 + decimal_len(n / 10)
    }
}

fn endpoint(prefix: &str, node_id: u16) -> (r: String)
    requires
        prefix@.len() == 1,
    ensures
        r@ == endpoint_of(prefix@[0], node_id),
{
    proof {
        reveal_strlit("127.0.0.1:");
        reveal_strlit("0");
    }
    let mut s = String::from_str("127.0.0.1:");
    s.append(prefix);
    let ghost head = s@;
    assert(head =~= loopback_host().push(prefix@[0]));
    let len = decimal_len(node_id);
    let mut i: usize = len;
    while i < 4
        invariant
            len <= i <= 4 || (len > 4 && i == len),
            len == decimal(node_id as nat).len(),
            s@ == head + Seq::new((i - len) as nat, |_j: int| '0'),
        decreases 4 - i,
    {
        proof {
            reveal_strlit("0");
        }
        s.append("0");
        i = i + 1;
        assert(s@ =~= head + Seq::new((i - len) as nat, |_j: int| '0'));
    }
    append_decimal(&mut s, node_id);
    assert(s@ =~= endpoint_of(prefix@[0], node_id));
    s
}

/// Client endpoint of a node: `127.0.0.1:2` followed by the node id
/// zero-padded to four digits (node 1 listens on `127.0.0.1:20001`).
pub fn node_addr(node_id: u16) -> (r: String)
    ensures
        r@ == node_addr_spec(node_id),
{
    proof {
        reveal_strlit("2");
    }
    endpoint("2", node_id)
}

/// Status endpoint of a node: `127.0.0.1:3` followed by the node id
/// zero-padded to four digits.
pub fn node_status_addr(node_id: u16) -> (r: String)
    ensures
        r@ == node_status_addr_spec(node_id),
{
    proof {
        reveal_strlit("3");
    }
    endpoint("3", node_id)
}

} // verus!
