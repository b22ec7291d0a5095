use vstd::prelude::*;

verus! {

/// Modulus of the rolling hash: the largest prime below 2^32, so that a
/// folding step stays far below 2^64 and the digest fits in 8 hex digits.
pub const HASH_MODULUS: u64 = 4294967291;

/// Seed that separates password credentials from other uses of the hash.
pub const CREDENTIAL_SEED: u64 = 2166136261;

/// One folding step of the rolling hash.
pub open spec fn hash_push(h: int, c: char) -> int {
    (h * 31 + c as int) % (HASH_MODULUS as int)
}

/// The rolling hash of a character sequence, folded left to right
/// starting from `seed`.
pub open spec fn hash_seq(s: Seq<char>, seed: u64) -> int
    decreases s.len(),
{
    if s.len() == 0 {
        (seed as int) % (HASH_MODULUS as int)
    } else {
        hash_push(hash_seq(s.drop_last(), seed), s.last())
    }
}

/// Computes `hash_seq` over the characters of `s`.
pub fn hash_chars(s: &str, seed: u64) -> (h: u64)
    ensures
        h as int == hash_seq(s@, seed),
        h < HASH_MODULUS,
{
    let n: usize = s.unicode_len();
    let mut h: u64 = seed % HASH_MODULUS;
    let mut i: usize = 0;
    proof {
        assert(s@.subrange(0, 0) =~= Seq::<char>::empty());
    }
    while i < n
        invariant
            i <= n,
            n == s@.len(),
            h as int == hash_seq(s@.subrange(0, i as int), seed),
            h < HASH_MODULUS,
        decreases n - i,
    {
        let c = s.get_char(i);
        proof {
            assert(s@.subrange(0, i + 1).drop_last() =~= s@.subrange(0, i as int));
            assert(s@.subrange(0, i + 1).last() == s@[i as int]);
        }
        h = (h * 31 + c as u64) % HASH_MODULUS;
        i = i + 1;
    }
    proof {
        assert(s@.subrange(0, n as int) =~= s@);
    }
    h
}

/// `16^k`, for the place values of the hex rendering.
pub open spec fn pow16(k: int) -> int
    decreases k,
{
    if k <= 0 {
        1
    } else {
        16 * pow16(k - 1)
    }
}

/// The character for one hexadecimal digit.
pub open spec fn hex_digit(d: int) -> char {
    if d == 0 {
        '0'
    } else if d == 1 {
        '1'
    } else if d == 2 {
        '2'
    } else if d == 3 {
        '3'
    } else if d == 4 {
        '4'
    } else if d == 5 {
        '5'
    } else if d == 6 {
        '6'
    } else if d == 7 {
        '7'
    } else if d == 8 {
        '8'
    } else if d == 9 {
        '9'
    } else if d == 10 {
        'a'
    } else if d == 11 {
        'b'
    } else if d == 12 {
        'c'
    } else if d == 13 {
        'd'
    } else if d == 14 {
        'e'
    } else {
        'f'
    }
}

/// The 8-character lowercase hexadecimal rendering of `v`, most
/// significant nibble first; meaningful for `v` below 2^32.
pub open spec fn hex_render(v: int) -> Seq<char> {
    Seq::new(8, |i: int| hex_digit((v / pow16(7 - i)) % 16))
}

fn pow16_exec(k: usize) -> (p: u64)
    requires
        k <= 7,
    ensures
        p as int == pow16(k as int),
        1 <= p <= 268435456,
{
    let mut p: u64 = 1;
    let mut j: usize = 0;
    while j < k
        invariant
            j <= k <= 7,
            p as int == pow16(j as int),
            1 <= p <= 268435456,
        decreases k - j,
    {
        proof {
            lemma_pow16_bounds(j as int + 1);
        }
        p = p * 16;
        j = j + 1;
    }
    p
}

proof fn lemma_pow16_bounds(k: int)
    requires
        k <= 7,
    ensures
        1 <= pow16(k) <= 268435456,
{
    reveal_with_fuel(pow16, 9);
}

/// Renders `v` as its 8-digit lowercase hexadecimal string.
pub fn to_hex(v: u64) -> (s: String)
    requires
        v < 4294967296,
    ensures
        s@ == hex_render(v as int),
{
    let mut out = String::new();
    let mut i: usize = 0;
    while i < 8
        invariant
            i <= 8,
            v < 4294967296,
            out@ =~= Seq::new(i as nat, |j: int| hex_digit((v as int / pow16(7 - j)) % 16)),
        decreases 8 - i,
    {
        let p = pow16_exec(7 - i);
        let d: u64 = (v / p) % 16;
        let digit: &str = if d == 0 {
            "0"
        } else if d == 1 {
            "1"
        } else if d == 2 {
            "2"
        } else if d == 3 {
            "3"
        } else if d == 4 {
            "4"
        } else if d == 5 {
            "5"
        } else if d == 6 {
            "6"
        } else if d == 7 {
            "7"
        } else if d == 8 {
            "8"
        } else if d == 9 {
            "9"
        } else if d == 10 {
            "a"
        } else if d == 11 {
            "b"
        } else if d == 12 {
            "c"
        } else if d == 13 {
            "d"
        } else if d == 14 {
            "e"
        } else {
            "f"
        };
        proof {
            reveal_strlit("0");
            reveal_strlit("1");
            reveal_strlit("2");
            reveal_strlit("3");
            reveal_strlit("4");
            reveal_strlit("5");
            reveal_strlit("6");
            reveal_strlit("7");
            reveal_strlit("8");
            reveal_strlit("9");
            reveal_strlit("a");
            reveal_strlit("b");
            reveal_strlit("c");
            reveal_strlit("d");
            reveal_strlit("e");
            reveal_strlit("f");
            assert(digit@ =~= seq![hex_digit(d as int)]);
        }
        out.append(digit);
        i = i + 1;
    }
    proof {
        assert(out@ =~= hex_render(v as int));
    }
    out
}

/// The stored credential derived from a raw password: the hexadecimal
/// rendering of the password's rolling hash. Only this value is ever
/// retained; the raw password never is.
pub open spec fn credential_seq(password: Seq<char>) -> Seq<char> {
    hex_render(hash_seq(password, CREDENTIAL_SEED))
}

/// Derives the stored credential for `password`.
pub fn derive_credential(password: &str) -> (c: String)
    ensures
        c@ == credential_seq(password@),
{
    let h = hash_chars(password, CREDENTIAL_SEED);
    to_hex(h)
}

} // verus!
