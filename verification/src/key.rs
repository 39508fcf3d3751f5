//! Keys under which the key-value backend keeps its state.

use vstd::prelude::*;
use vstd::string::*;

verus! {

/// The character that writes the decimal digit `d`.
pub open spec fn digit(d: nat) -> char
    recommends
        d < 10,
{
    if d == 0 {
        '0'
    } else if d == 1 {
        '1'
    } else if d == 2 {
        '2'
    } else if d == 3 {
        '3'
    } else if d == 4 {
        '4'
    } else if d == 5 {
        '5'
    } else if d == 6 {
        '6'
    } else if d == 7 {
        '7'
    } else if d == 8 {
        '8'
    } else {
        '9'
    }
}

/// The decimal numeral of `n`: most significant digit first, no leading zero
/// but for zero itself.
pub open spec fn decimal(n: nat) -> Seq<char>
    decreases n,
{
    if n < 10 {
        seq![digit(n)]
    } else {
        decimal(n / 10).push(digit(n % 10))
    }
}

/// The key of the counter from which record identifiers are drawn.
pub open spec fn next_id_key() -> Seq<char> {
    "next_item_id"@
}

/// The key of the set that lists the keys of all live records.
pub open spec fn item_index_key() -> Seq<char> {
    "items_index"@
}

/// The key under which the record with identifier `id` is kept.
pub open spec fn item_key_of(id: nat) -> Seq<char> {
    "item:"@ + decimal(id)
}

/// A numeral is never empty.
pub proof fn lemma_decimal_nonempty(n: nat)
    ensures
        decimal(n).len() >= 1,
    decreases n,
{
    if n >= 10 {
        lemma_decimal_nonempty(n / 10);
    }
}

/// Two numbers with the same numeral are the same number.
pub proof fn lemma_decimal_injective(a: nat, b: nat)
    requires
        decimal(a) == decimal(b),
    ensures
        a == b,
    decreases a,
{
    lemma_decimal_nonempty(a / 10);
    lemma_decimal_nonempty(b / 10);
    if a < 10 && b < 10 {
        assert(decimal(a)[0] == digit(a));
        assert(decimal(b)[0] == digit(b));
    } else if a >= 10 && b >= 10 {
        let da = decimal(a / 10);
        let db = decimal(b / 10);
        assert(decimal(a).last() == digit(a % 10));
        assert(decimal(b).last() == digit(b % 10));
        assert(decimal(a).drop_last() =~= da);
        assert(decimal(b).drop_last() =~= db);
        lemma_decimal_injective(a / 10, b / 10);
    } else if a < 10 {
        assert(decimal(a).len() == 1);
        assert(decimal(b).len() == decimal(b / 10).len() + 1);
    } else {
        assert(decimal(b).len() == 1);
        assert(decimal(a).len() == decimal(a / 10).len() + 1);
    }
}

/// Records with different identifiers live under different keys.
pub proof fn lemma_item_key_injective(a: nat, b: nat)
    requires
        item_key_of(a) == item_key_of(b),
    ensures
        a == b,
{
    reveal_strlit("item:");
    let ka = item_key_of(a);
    let kb = item_key_of(b);
    assert(ka.subrange(5, ka.len() as int) =~= decimal(a));
    assert(kb.subrange(5, kb.len() as int) =~= decimal(b));
    lemma_decimal_injective(a, b);
}

/// No record key is the counter's key or the index's key.
pub proof fn lemma_item_key_not_reserved(id: nat)
    ensures
        item_key_of(id) != next_id_key(),
        item_key_of(id) != item_index_key(),
{
    reveal_strlit("item:");
    reveal_strlit("next_item_id");
    reveal_strlit("items_index");
    lemma_decimal_nonempty(id);
    assert(item_key_of(id)[0] == 'i');
    assert(next_id_key()[0] == 'n');
    assert(item_key_of(id)[4] == ':');
    assert(item_index_key()[4] == 's');
}

/// The counter and the index live under different keys.
pub proof fn lemma_reserved_keys_differ()
    ensures
        next_id_key() != item_index_key(),
{
    reveal_strlit("next_item_id");
    reveal_strlit("items_index");
    assert(next_id_key()[0] == 'n');
    assert(item_index_key()[0] == 'i');
}

fn digit_text(d: usize) -> (r: &'static str)
    requires
        d < 10,
    ensures
        r@ == seq![digit(d as nat)],
{
    proof {
        reveal_strlit("0");
        reveal_strlit("1");
        reveal_strlit("2");
        reveal_strlit("3");
        reveal_strlit("4");
        reveal_strlit("5");
        reveal_strlit("6");
        reveal_strlit("7");
        reveal_strlit("8");
        reveal_strlit("9");
    }
    let r = if d == 0 {
        "0"
    } else if d == 1 {
        "1"
    } else if d == 2 {
        "2"
    } else if d == 3 {
        "3"
    } else if d == 4 {
        "4"
    } else if d == 5 {
        "5"
    } else if d == 6 {
        "6"
    } else if d == 7 {
        "7"
    } else if d == 8 {
        "8"
    } else {
        "9"
    };
    assert(r@ =~= seq![digit(d as nat)]);
    r
}

/// Writes `n` in decimal.
pub fn decimal_text(n: usize) -> (r: String)
    ensures
        r@ == decimal(n as nat),
    decreases n,
{
    if n < 10 {
        String::from_str(digit_text(n))
    } else {
        let mut r = decimal_text(n / 10);
        r.append(digit_text(n % 10));
        assert(r@ =~= decimal(n as nat));
        r
    }
}

/// The key of the counter from which record identifiers are drawn.
pub fn counter_key() -> (r: String)
    ensures
        r@ == next_id_key(),
{
    String::from_str("next_item_id")
}

/// The key of the set that lists the keys of all live records.
pub fn index_key() -> (r: String)
    ensures
        r@ == item_index_key(),
{
    String::from_str("items_index")
}

/// The key under which the record with identifier `id` is kept: the text
/// `item:` followed by the identifier in decimal.
pub fn item_key(id: usize) -> (r: String)
    ensures
        r@ == item_key_of(id as nat),
{
    let mut r = String::from_str("item:");
    let digits = decimal_text(id);
    r.append(digits.as_str());
    r
}

} // verus!
