//! Deterministic naming of wire variants.
//!
//! Each descriptor gets one query variant and one response variant, both
//! named from its numeric id alone: `Query<id>` and `Response<id>`.

use vstd::prelude::*;

verus! {

/// The character for a single decimal digit.
pub open spec fn digit_char(d: nat) -> char {
    if d == 0 {
        '0'
    } else if d == 1 {
        '1'
    } else if d == 2 {
        '2'
    } else if d == 3 {
        '3'
    } else if d == 4 {
        '4'
    } else if d == 5 {
        '5'
    } else if d == 6 {
        '6'
    } else if d == 7 {
        '7'
    } else if d == 8 {
        '8'
    } else {
        '9'
    }
}

/// The decimal rendering of `n`, most significant digit first, no leading
/// zeros (except for `n == 0` itself).
pub open spec fn dec_str(n: nat) -> Seq<char>
    decreases n,
{
    if n < 10 {
        seq![digit_char(n)]
    } else {
        dec_str(n / 10) + seq![digit_char(n % 10)]
    }
}

/// Name of the query variant for descriptor `id`.
pub open spec fn query_variant_name(id: nat) -> Seq<char> {
    "Query"@ + dec_str(id)
}

/// Name of the response variant for descriptor `id`.
pub open spec fn response_variant_name(id: nat) -> Seq<char> {
    "Response"@ + dec_str(id)
}

proof fn lemma_digit_char_injective(a: nat, b: nat)
    requires
        a < 10,
        b < 10,
        digit_char(a) == digit_char(b),
    ensures
        a == b,
{
}

proof fn lemma_dec_str_len(n: nat)
    ensures
        dec_str(n).len() >= 1,
        (n < 10) <==> (dec_str(n).len() == 1),
    decreases n,
{
    if n >= 10 {
        lemma_dec_str_len(n / 10);
    }
}

/// Decimal renderings are collision-free: distinct numbers never
/// render to the same digits.
pub proof fn lemma_dec_str_injective(a: nat, b: nat)
    requires
        dec_str(a) == dec_str(b),
    ensures
        a == b,
    decreases a,
{
    lemma_dec_str_len(a);
    lemma_dec_str_len(b);
    if a < 10 && b < 10 {
        assert(dec_str(a)[0] == digit_char(a));
        assert(dec_str(b)[0] == digit_char(b));
        lemma_digit_char_injective(a, b);
    } else if a < 10 || b < 10 {
        assert(false);
    } else {
        let la = dec_str(a).len() as int;
        assert(dec_str(a)[la - 1] == digit_char(a % 10));
        assert(dec_str(b)[la - 1] == digit_char(b % 10));
        lemma_digit_char_injective(a % 10, b % 10);
        assert(dec_str(a).subrange(0, la - 1) =~= dec_str(a / 10));
        assert(dec_str(b).subrange(0, la - 1) =~= dec_str(b / 10));
        lemma_dec_str_injective(a / 10, b / 10);
        vstd::arithmetic::div_mod::lemma_fundamental_div_mod(a as int, 10);
        vstd::arithmetic::div_mod::lemma_fundamental_div_mod(b as int, 10);
    }
}

/// Law: wire variant naming is collision-free.  Distinct descriptor
/// ids always yield distinct query variant names and distinct response
/// variant names, and no query variant is ever named like a response
/// variant.
pub proof fn lemma_variant_names_collision_free(i: nat, j: nat)
    requires
        i != j,
    ensures
        query_variant_name(i) != query_variant_name(j),
        response_variant_name(i) != response_variant_name(j),
        query_variant_name(i) != response_variant_name(j),
{
    reveal_strlit("Query");
    reveal_strlit("Response");
    if query_variant_name(i) == query_variant_name(j) {
        assert(dec_str(i) =~= query_variant_name(i).subrange(
            "Query"@.len() as int,
            query_variant_name(i).len() as int,
        ));
        assert(dec_str(j) =~= query_variant_name(j).subrange(
            "Query"@.len() as int,
            query_variant_name(j).len() as int,
        ));
        lemma_dec_str_injective(i, j);
        assert(false);
    }
    if response_variant_name(i) == response_variant_name(j) {
        assert(dec_str(i) =~= response_variant_name(i).subrange(
            "Response"@.len() as int,
            response_variant_name(i).len() as int,
        ));
        assert(dec_str(j) =~= response_variant_name(j).subrange(
            "Response"@.len() as int,
            response_variant_name(j).len() as int,
        ));
        lemma_dec_str_injective(i, j);
        assert(false);
    }
    assert(query_variant_name(i)[0] == 'Q');
    assert(response_variant_name(j)[0] == 'R');
}

fn digit_str(d: u64) -> (r: &'static str)
    requires
        d < 10,
    ensures
        r@ == seq![digit_char(d as nat)],
{
    proof {
        reveal_strlit("0");
        reveal_strlit("1");
        reveal_strlit("2");
        reveal_strlit("3");
        reveal_strlit("4");
        reveal_strlit("5");
        reveal_strlit("6");
        reveal_strlit("7");
        reveal_strlit("8");
        reveal_strlit("9");
    }
    if d == 0 {
        "0"
    } else if d == 1 {
        "1"
    } else if d == 2 {
        "2"
    } else if d == 3 {
        "3"
    } else if d == 4 {
        "4"
    } else if d == 5 {
        "5"
    } else if d == 6 {
        "6"
    } else if d == 7 {
        "7"
    } else if d == 8 {
        "8"
    } else {
        "9"
    }
}

/// Renders `n` in decimal.
pub fn u64_to_dec(n: u64) -> (r: String)
    ensures
        r@ == dec_str(n as nat),
    decreases n,
{
    let d = n % 10;
    let digit = digit_str(d);
    if n < 10 {
        digit.to_owned()
    } else {
        let mut s = u64_to_dec(n / 10);
        s.append(digit);
        s
    }
}

/// Builds the executable query variant name for descriptor `id`.
pub fn query_variant_string(id: u64) -> (r: String)
    ensures
        r@ == query_variant_name(id as nat),
{
    let mut s = "Query".to_owned();
    let tail = u64_to_dec(id);
    s.append(tail.as_str());
    s
}

/// Builds the executable response variant name for descriptor `id`.
pub fn response_variant_string(id: u64) -> (r: String)
    ensures
        r@ == response_variant_name(id as nat),
{
    let mut s = "Response".to_owned();
    let tail = u64_to_dec(id);
    s.append(tail.as_str());
    s
}

} // verus!
