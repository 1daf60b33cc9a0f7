//! Fixed-width text fields: zero-padded on the wire, trimmed when read.
use vstd::prelude::*;

verus! {

/// `s` without its trailing zero bytes.
pub open spec fn trim_trailing_zeros(s: Seq<u8>) -> Seq<u8>
    decreases s.len(),
{
    if s.len() > 0 && s.last() == 0 {
        trim_trailing_zeros(s.drop_last())
    } else {
        s
    }
}

/// `s` followed by zero bytes up to `width`.
pub open spec fn pad_with_zeros(s: Seq<u8>, width: nat) -> Seq<u8> {
    s + Seq::new((width - s.len()) as nat, |i: int| 0u8)
}

/// Reads a fixed-width field: the field's bytes without trailing zeros.
pub fn decode_fixed_text(field: &[u8]) -> (r: Vec<u8>)
    ensures
        r@ == trim_trailing_zeros(field@),
{
    let mut end: usize = field.len();
    assert(field@.subrange(0, end as int) =~= field@);
    while end > 0 && field[end - 1] == 0
        invariant
            end <= field@.len(),
            trim_trailing_zeros(field@) == trim_trailing_zeros(field@.subrange(0, end as int)),
        decreases end,
    {
        assert(field@.subrange(0, end as int).drop_last() =~= field@.subrange(0, end - 1));
        end = end - 1;
    }
    let mut out: Vec<u8> = Vec::new();
    let mut i: usize = 0;
    while i < end
        invariant
            i <= end,
            end <= field@.len(),
            out@ =~= field@.subrange(0, i as int),
        decreases end - i,
    {
        out.push(field[i]);
        i = i + 1;
    }
    out
}

/// Writes a fixed-width field: `text` padded with zero bytes to `width`.
pub fn encode_fixed_text(text: &[u8], width: usize) -> (r: Vec<u8>)
    requires
        text@.len() <= width,
    ensures
        r@ == pad_with_zeros(text@, width as nat),
{
    let mut out: Vec<u8> = Vec::new();
    let mut i: usize = 0;
    while i < text.len()
        invariant
            i <= text@.len(),
            out@ =~= text@.subrange(0, i as int),
        decreases text@.len() - i,
    {
        out.push(text[i]);
        i = i + 1;
    }
    while i < width
        invariant
            text@.len() <= i <= width,
            out@ =~= pad_with_zeros(text@, i as nat),
        decreases width - i,
    {
        out.push(0u8);
        i = i + 1;
    }
    out
}

/// Padding a text that does not end in a zero byte and trimming it again
/// gives the text back.
pub proof fn lemma_fixed_text_round_trip(text: Seq<u8>, width: nat)
    requires
        text.len() <= width,
        text.len() == 0 || text.last() != 0,
    ensures
        trim_trailing_zeros(pad_with_zeros(text, width)) == text,
    decreases width - text.len(),
{
    if width > text.len() {
        assert(pad_with_zeros(text, width).drop_last() =~= pad_with_zeros(text, (width - 1) as nat));
        lemma_fixed_text_round_trip(text, (width - 1) as nat);
    } else {
        assert(pad_with_zeros(text, width) =~= text);
    }
}

} // verus!
