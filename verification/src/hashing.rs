//! Output hashes for disk paths.
//!
//! Configuration data, action keys and over-long identifiers never appear in
//! an output path verbatim: a 64-bit hash of them does, rendered as lowercase
//! hexadecimal. The hash itself comes from `std`'s `DefaultHasher`, which
//! vstd models as a deterministic function of the written byte strings.

use vstd::prelude::*;

verus! {

use std::collections::hash_map::DefaultHasher;
use std::hash::Hasher;
use vstd::std_specs::hash::DefaultHasherAdditionalSpecFns;
use vstd::string::StringExecFns;
use vstd::utf8::encode_utf8;

/// The lowercase hexadecimal digit for `d`.
pub open spec fn hex_digit(d: int) -> char {
    if d == 0 {
        '0'
    } else if d == 1 {
        '1'
    } else if d == 2 {
        '2'
    } else if d == 3 {
        '3'
    } else if d == 4 {
        '4'
    } else if d == 5 {
        '5'
    } else if d == 6 {
        '6'
    } else if d == 7 {
        '7'
    } else if d == 8 {
        '8'
    } else if d == 9 {
        '9'
    } else if d == 10 {
        'a'
    } else if d == 11 {
        'b'
    } else if d == 12 {
        'c'
    } else if d == 13 {
        'd'
    } else if d == 14 {
        'e'
    } else {
        'f'
    }
}

/// `n` in lowercase hexadecimal, without leading zeros (`0` stands alone).
pub open spec fn hex_of(n: int) -> Seq<char>
    decreases n,
{
    if n < 16 {
        seq![hex_digit(n)]
    } else {
        hex_of(n / 16).push(hex_digit(n % 16))
    }
}

/// The `DefaultHasher` outcome of writing each string's bytes in order.
pub open spec fn hash_of_strings(parts: Seq<Seq<char>>) -> u64 {
    DefaultHasher::spec_finish(parts.map_values(|c: Seq<char>| encode_utf8(c)))
}

/// `hash_of_strings(parts)` in lowercase hexadecimal.
pub open spec fn hash_hex_of_strings(parts: Seq<Seq<char>>) -> Seq<char> {
    hex_of(hash_of_strings(parts) as int)
}

fn append_hex_digit(out: &mut String, d: u64)
    requires
        d < 16,
    ensures
        final(out)@ == old(out)@.push(hex_digit(d as int)),
{
    let piece: &str = if d == 0 {
        "0"
    } else if d == 1 {
        "1"
    } else if d == 2 {
        "2"
    } else if d == 3 {
        "3"
    } else if d == 4 {
        "4"
    } else if d == 5 {
        "5"
    } else if d == 6 {
        "6"
    } else if d == 7 {
        "7"
    } else if d == 8 {
        "8"
    } else if d == 9 {
        "9"
    } else if d == 10 {
        "a"
    } else if d == 11 {
        "b"
    } else if d == 12 {
        "c"
    } else if d == 13 {
        "d"
    } else if d == 14 {
        "e"
    } else {
        "f"
    };
    proof {
        reveal_strlit("0");
        reveal_strlit("1");
        reveal_strlit("2");
        reveal_strlit("3");
        reveal_strlit("4");
        reveal_strlit("5");
        reveal_strlit("6");
        reveal_strlit("7");
        reveal_strlit("8");
        reveal_strlit("9");
        reveal_strlit("a");
        reveal_strlit("b");
        reveal_strlit("c");
        reveal_strlit("d");
        reveal_strlit("e");
        reveal_strlit("f");
        assert(piece@ =~= seq![hex_digit(d as int)]);
    }
    out.append(piece);
    proof {
        assert(out@ =~= old(out)@.push(hex_digit(d as int)));
    }
}

fn append_hex(out: &mut String, n: u64)
    ensures
        final(out)@ == old(out)@ + hex_of(n as int),
    decreases n,
{
    if n >= 16 {
        append_hex(out, n / 16);
        append_hex_digit(out, n % 16);
        proof {
            assert(out@ =~= old(out)@ + hex_of(n as int));
        }
    } else {
        append_hex_digit(out, n);
        proof {
            assert(out@ =~= old(out)@ + hex_of(n as int));
        }
    }
}

/// Renders `n` as lowercase hexadecimal.
pub fn to_hex(n: u64) -> (r: String)
    ensures
        r@ == hex_of(n as int),
{
    let mut out = String::new();
    append_hex(&mut out, n);
    proof {
        assert(out@ =~= hex_of(n as int));
    }
    out
}

/// Hashes each string's bytes, in order, through one `DefaultHasher`.
pub fn hash_strings(parts: &Vec<&str>) -> (r: u64)
    ensures
        r == hash_of_strings(parts@.map_values(|p: &str| p@)),
{
    let ghost all: Seq<Seq<char>> = parts@.map_values(|p: &str| p@);
    let mut hasher = DefaultHasher::new();
    let mut i: usize = 0;
    while i < parts.len()
        invariant
            i <= parts.len(),
            all == parts@.map_values(|p: &str| p@),
            hasher@ == all.subrange(0, i as int).map_values(|c: Seq<char>| encode_utf8(c)),
        decreases parts.len() - i,
    {
        hasher.write(parts[i].as_bytes());
        proof {
            assert(all.subrange(0, i + 1).map_values(|c: Seq<char>| encode_utf8(c)) =~= all
                .subrange(0, i as int)
                .map_values(|c: Seq<char>| encode_utf8(c))
                .push(encode_utf8(parts@[i as int]@)));
        }
        i += 1;
    }
    proof {
        assert(all.subrange(0, parts@.len() as int) =~= all);
    }
    hasher.finish()
}

/// Hashes the strings and renders the hash as lowercase hexadecimal.
pub fn hash_hex(parts: &Vec<&str>) -> (r: String)
    ensures
        r@ == hash_hex_of_strings(parts@.map_values(|p: &str| p@)),
{
    let h = hash_strings(parts);
    to_hex(h)
}

} // verus!
