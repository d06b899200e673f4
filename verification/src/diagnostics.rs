//! Helpers for the developer tooling that captures raw packets.
use vstd::prelude::*;
use vstd::string::*;

verus! {

/// The lowercase hexadecimal digit for a value below 16.
pub open spec fn hex_digit(n: u8) -> char {
    if n < 10 {
        (48 + n) as char
    } else {
        (87 + n) as char
    }
}

/// A byte as two lowercase hexadecimal digits, high nibble first.
pub open spec fn hex_byte(b: u8) -> Seq<char> {
    seq![hex_digit(b / 16), hex_digit(b % 16)]
}

/// Bytes as two-digit lowercase hex, separated by single spaces.
pub open spec fn hex_preview_spec(bytes: Seq<u8>) -> Seq<char>
    decreases bytes.len(),
{
    if bytes.len() == 0 {
        seq![]
    } else if bytes.len() == 1 {
        hex_byte(bytes[0])
    } else {
        hex_preview_spec(bytes.drop_last()) + seq![' '] + hex_byte(bytes.last())
    }
}

fn hex_digit_str(n: u8) -> (digit: &'static str)
    requires
        n < 16,
    ensures
        digit@ == seq![hex_digit(n)],
{
    let digits = "0123456789abcdef";
    proof {
        reveal_strlit("0123456789abcdef");
    }
    assert(digits@[n as int] == hex_digit(n));
    digits.substring_ascii(n as usize, n as usize + 1)
}

/// Hex dump of a packet prefix, e.g. `[0x0a, 0xff]` -> `"0a ff"`.
pub fn hex_preview(bytes: &[u8]) -> (preview: String)
    ensures
        preview@ == hex_preview_spec(bytes@),
{
    let mut preview = String::new();
    let space = " ";
    proof {
        reveal_strlit(" ");
    }
    let mut i: usize = 0;
    while i < bytes.len()
        invariant
            i <= bytes.len(),
            space@ == seq![' '],
            preview@ == hex_preview_spec(bytes@.subrange(0, i as int)),
        decreases bytes.len() - i,
    {
        let b = bytes[i];
        let ghost prefix = bytes@.subrange(0, i as int);
        let ghost next = bytes@.subrange(0, i + 1);
        assert(next.drop_last() =~= prefix);
        assert(next.last() == b);
        if i > 0 {
            preview.append(space);
        }
        preview.append(hex_digit_str(b / 16));
        preview.append(hex_digit_str(b % 16));
        assert(preview@ =~= hex_preview_spec(next));
        i = i + 1;
    }
    assert(bytes@.subrange(0, bytes.len() as int) =~= bytes@);
    preview
}

} // verus!
