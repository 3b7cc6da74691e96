use vstd::prelude::*;

verus! {

/// How many hexadecimal digits of a commit id name it in git commands.
pub const SHORT_ID_LEN: usize = 7;

/// The lower-case hexadecimal digit of `d`, for `0 <= d < 16`.
pub open spec fn hex_digit(d: int) -> char {
    seq!['0', '1', '2', '3', '4', '5', '6', '7', '8', '9', 'a', 'b', 'c', 'd', 'e', 'f'][d]
}

/// The value of the `i`-th four-bit group of `bytes`, high group first in each byte.
pub open spec fn nibble(bytes: Seq<u8>, i: int) -> int {
    if i % 2 == 0 {
        bytes[i / 2] as int / 16
    } else {
        bytes[i / 2] as int % 16
    }
}

/// `bytes` written as lower-case hexadecimal, two digits per byte.
pub open spec fn hex_of(bytes: Seq<u8>) -> Seq<char> {
    Seq::new(2 * bytes.len(), |i: int| hex_digit(nibble(bytes, i)))
}

/// The abbreviated form of a commit id: the first seven hexadecimal digits.
pub open spec fn short_id(bytes: Seq<u8>) -> Seq<char> {
    hex_of(bytes).take(SHORT_ID_LEN as int)
}

/// Writes the abbreviated form of the raw commit id `id`.
pub fn short_commit_id(id: &Vec<u8>) -> (r: String)
    requires
        2 * id@.len() >= SHORT_ID_LEN,
    ensures
        r@ == short_id(id@),
{
    let digits = "0123456789abcdef";
    proof {
        reveal_strlit("0123456789abcdef");
        assert(digits@ =~= seq![
            '0', '1', '2', '3', '4', '5', '6', '7', '8', '9', 'a', 'b', 'c', 'd', 'e', 'f'
        ]);
    }
    let mut r = String::new();
    let mut i: usize = 0;
    while i < SHORT_ID_LEN
        invariant
            0 <= i <= SHORT_ID_LEN,
            2 * id@.len() >= SHORT_ID_LEN,
            digits.is_ascii(),
            digits@ =~= seq![
                '0', '1', '2', '3', '4', '5', '6', '7', '8', '9', 'a', 'b', 'c', 'd', 'e', 'f'
            ],
            r@ =~= hex_of(id@).take(i as int),
        decreases SHORT_ID_LEN - i,
    {
        let b = id[i / 2];
        let d: usize = if i % 2 == 0 {
            (b / 16) as usize
        } else {
            (b % 16) as usize
        };
        let piece = digits.substring_ascii(d, d + 1);
        assert(piece@ =~= seq![hex_digit(nibble(id@, i as int))]);
        r.append(piece);
        assert(r@ =~= hex_of(id@).take(i + 1));
        i = i + 1;
    }
    r
}

} // verus!
