//! JSON bodies for the two routes, rendered by the library itself so
//! that every byte of a successful response is pinned down.
//!
//! The format puts the fields in a fixed order with no whitespace, so
//! identical inputs always render to identical bodies.

use crate::decimal::dec_str;
use crate::models::{EthResponse, TokenData};
use crate::text::{append_str, chars_to_string};
use vstd::prelude::*;
use vstd::string::StrSliceExecFns;

verus! {

/// The character for one hexadecimal nibble, lower case.
pub open spec fn hex_nibble_char(d: nat) -> char {
    if d == 0 {
        '0'
    } else if d == 1 {
        '1'
    } else if d == 2 {
        '2'
    } else if d == 3 {
        '3'
    } else if d == 4 {
        '4'
    } else if d == 5 {
        '5'
    } else if d == 6 {
        '6'
    } else if d == 7 {
        '7'
    } else if d == 8 {
        '8'
    } else if d == 9 {
        '9'
    } else if d == 10 {
        'a'
    } else if d == 11 {
        'b'
    } else if d == 12 {
        'c'
    } else if d == 13 {
        'd'
    } else if d == 14 {
        'e'
    } else {
        'f'
    }
}

/// How a single character appears inside a JSON string literal:
/// quotes and backslashes get a backslash escape, control characters
/// the `\u00XX` form, and everything else stands for itself.
pub open spec fn escape_char(c: char) -> Seq<char> {
    if c == '"' {
        seq!['\\', '"']
    } else if c == '\\' {
        seq!['\\', '\\']
    } else if (c as u32) < 32 {
        seq!['\\', 'u', '0', '0', hex_nibble_char((c as u32 / 16) as nat), hex_nibble_char(
            (c as u32 % 16) as nat,
        )]
    } else {
        seq![c]
    }
}

/// The body of a JSON string literal: each character escaped in turn.
pub open spec fn json_escaped(s: Seq<char>) -> Seq<char>
    decreases s.len(),
{
    if s.len() == 0 {
        Seq::empty()
    } else {
        escape_char(s[0]) + json_escaped(s.drop_first())
    }
}

/// Escaping a concatenation escapes the parts.
proof fn lemma_json_escaped_append(a: Seq<char>, b: Seq<char>)
    ensures
        json_escaped(a + b) == json_escaped(a) + json_escaped(b),
    decreases a.len(),
{
    if a.len() == 0 {
        assert(a + b =~= b);
        assert(json_escaped(a) + json_escaped(b) =~= json_escaped(b));
    } else {
        lemma_json_escaped_append(a.drop_first(), b);
        assert((a + b).drop_first() =~= a.drop_first() + b);
        assert((a + b)[0] == a[0]);
        assert(escape_char(a[0]) + (json_escaped(a.drop_first()) + json_escaped(b)) =~= (escape_char(
            a[0],
        ) + json_escaped(a.drop_first())) + json_escaped(b));
    }
}

/// The escape of a single character.
proof fn lemma_json_escaped_one(c: char)
    ensures
        json_escaped(seq![c]) == escape_char(c),
{
    assert(seq![c].drop_first() =~= Seq::<char>::empty());
    assert(json_escaped(Seq::<char>::empty()) == Seq::<char>::empty());
    assert(seq![c][0] == c);
    assert(json_escaped(seq![c]) == escape_char(c) + json_escaped(Seq::<char>::empty()));
    assert(escape_char(c) + Seq::<char>::empty() =~= escape_char(c));
}

/// The character for one nibble, as executable code.
fn nibble_to_char(d: u32) -> (c: char)
    requires
        d < 16,
    ensures
        c == hex_nibble_char(d as nat),
{
    match d {
        0 => '0',
        1 => '1',
        2 => '2',
        3 => '3',
        4 => '4',
        5 => '5',
        6 => '6',
        7 => '7',
        8 => '8',
        9 => '9',
        10 => 'a',
        11 => 'b',
        12 => 'c',
        13 => 'd',
        14 => 'e',
        _ => 'f',
    }
}

/// Appends `s` to `out` with JSON string escaping applied.
pub fn append_json_escaped(out: &mut Vec<char>, s: &str)
    ensures
        final(out)@ == old(out)@ + json_escaped(s@),
{
    let n: usize = s.unicode_len();
    let mut i: usize = 0;
    proof {
        assert(s@.subrange(0, 0) =~= Seq::<char>::empty());
        assert(old(out)@ + Seq::<char>::empty() =~= old(out)@);
    }
    while i < n
        invariant
            n == s@.len(),
            i <= n,
            out@ == old(out)@ + json_escaped(s@.subrange(0, i as int)),
        decreases n - i,
    {
        let c = s.get_char(i);
        let u = c as u32;
        if c == '"' {
            out.push('\\');
            out.push('"');
        } else if c == '\\' {
            out.push('\\');
            out.push('\\');
        } else if u < 32 {
            out.push('\\');
            out.push('u');
            out.push('0');
            out.push('0');
            out.push(nibble_to_char(u / 16));
            out.push(nibble_to_char(u % 16));
        } else {
            out.push(c);
        }
        proof {
            assert(s@.subrange(0, i + 1) =~= s@.subrange(0, i as int) + seq![s@[i as int]]);
            lemma_json_escaped_append(s@.subrange(0, i as int), seq![s@[i as int]]);
            lemma_json_escaped_one(s@[i as int]);
            assert(out@ =~= old(out)@ + json_escaped(s@.subrange(0, i + 1)));
        }
        i = i + 1;
    }
    proof {
        assert(s@.subrange(0, n as int) =~= s@);
    }
}

/// The account route's JSON body for the given rendered field values.
pub open spec fn spec_eth_body(gas_price: Seq<char>, block_number: nat, balance: Seq<char>) -> Seq<
    char,
> {
    "{\"gasPrice\":\""@ + json_escaped(gas_price) + "\",\"blockNumber\":"@ + dec_str(block_number)
        + ",\"balance\":\""@ + json_escaped(balance) + "\"}"@
}

/// The token route's JSON body for the given rendered field values.
pub open spec fn spec_token_body(
    address: Seq<char>,
    name: Seq<char>,
    symbol: Seq<char>,
    total_supply: Seq<char>,
) -> Seq<char> {
    "{\"address\":\""@ + json_escaped(address) + "\",\"name\":\""@ + json_escaped(name)
        + "\",\"symbol\":\""@ + json_escaped(symbol) + "\",\"totalSupply\":\""@ + json_escaped(
        total_supply,
    ) + "\"}"@
}

/// Renders the account record as its JSON body.
pub fn eth_body_json(r: &EthResponse) -> (body: String)
    ensures
        body@ == spec_eth_body(r.gas_price@, r.block_number as nat, r.balance@),
{
    let mut out: Vec<char> = Vec::new();
    append_str(&mut out, "{\"gasPrice\":\"");
    append_json_escaped(&mut out, r.gas_price.as_str());
    append_str(&mut out, "\",\"blockNumber\":");
    let block = crate::decimal::Uint256::from_u64(r.block_number);
    let mut digits = block.to_decimal_chars();
    out.append(&mut digits);
    append_str(&mut out, ",\"balance\":\"");
    append_json_escaped(&mut out, r.balance.as_str());
    append_str(&mut out, "\"}");
    chars_to_string(&out)
}

/// Renders the token record as its JSON body.
pub fn token_body_json(t: &TokenData) -> (body: String)
    ensures
        body@ == spec_token_body(t.address@, t.name@, t.symbol@, t.total_supply@),
{
    let mut out: Vec<char> = Vec::new();
    append_str(&mut out, "{\"address\":\"");
    append_json_escaped(&mut out, t.address.as_str());
    append_str(&mut out, "\",\"name\":\"");
    append_json_escaped(&mut out, t.name.as_str());
    append_str(&mut out, "\",\"symbol\":\"");
    append_json_escaped(&mut out, t.symbol.as_str());
    append_str(&mut out, "\",\"totalSupply\":\"");
    append_json_escaped(&mut out, t.total_supply.as_str());
    append_str(&mut out, "\"}");
    chars_to_string(&out)
}

} // verus!
