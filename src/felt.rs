//! The wire word: a field element held as 32 big-endian bytes.
use vstd::arithmetic::div_mod::lemma_div_denominator;
use vstd::prelude::*;
use vstd::utf8::{decode_utf8, encode_utf8, valid_utf8};

verus! {

/// `256` raised to `n`.
pub open spec fn pow256(n: nat) -> nat
    decreases n,
{
    if n == 0 {
        1
    } else {
        256 * pow256((n - 1) as nat)
    }
}

/// Index of the first nonzero byte of `s` at or after `i`, or `s.len()` if there is none.
pub open spec fn first_nonzero(s: Seq<u8>, i: int) -> int
    decreases s.len() - i,
{
    if i < 0 || i >= s.len() {
        s.len() as int
    } else if s[i] != 0 {
        i
    } else {
        first_nonzero(s, i + 1)
    }
}

/// The bytes of a short text held in a word: what follows the leading zero padding.
pub open spec fn text_span(s: Seq<u8>) -> Seq<u8> {
    s.skip(first_nonzero(s, 0))
}

/// Whether `text` can be held in one word and read back unchanged: its UTF-8 form takes
/// at most 32 bytes and does not begin with a zero byte.
pub open spec fn text_fits(text: Seq<char>) -> bool {
    let b = encode_utf8(text);
    &&& b.len() <= 32
    &&& (b.len() > 0 ==> b[0] != 0)
}

/// The 32 bytes that hold `text`: zero padding, then its UTF-8 form.
pub open spec fn text_word(text: Seq<char>) -> Seq<u8> {
    Seq::new((32 - encode_utf8(text).len()) as nat, |i: int| 0u8) + encode_utf8(text)
}

proof fn lemma_pow256_positive(n: nat)
    ensures
        pow256(n) >= 1,
    decreases n,
{
    if n > 0 {
        lemma_pow256_positive((n - 1) as nat);
    }
}

proof fn lemma_zero_prefix(s: Seq<u8>, n: int)
    requires
        0 <= n <= s.len(),
        forall|j: int| 0 <= j < n ==> s[j] == 0,
    ensures
        be_value(s.take(n)) == 0,
    decreases n,
{
    if n > 0 {
        assert(s.take(n).drop_last() =~= s.take(n - 1));
        lemma_zero_prefix(s, n - 1);
    }
}

proof fn lemma_first_nonzero_skips_padding(s: Seq<u8>, i: int, k: int)
    requires
        0 <= i <= k <= s.len(),
        forall|j: int| i <= j < k ==> s[j] == 0,
        k < s.len() ==> s[k] != 0,
    ensures
        first_nonzero(s, i) == k,
    decreases k - i,
{
    if i < k {
        lemma_first_nonzero_skips_padding(s, i + 1, k);
    }
}

/// A text that fits a word is read back from that word byte for byte.
pub proof fn lemma_text_word_span(text: Seq<char>)
    requires
        text_fits(text),
    ensures
        text_span(text_word(text)) == encode_utf8(text),
{
    let w = text_word(text);
    let pad = 32 - encode_utf8(text).len();
    lemma_first_nonzero_skips_padding(w, 0, pad);
    assert(w.skip(pad) =~= encode_utf8(text));
}

/// Relies on `String::from_utf8`: it accepts exactly the valid UTF-8 byte strings and
/// keeps the characters they encode.
#[verifier::external_body]
fn string_from_utf8(bytes: Vec<u8>) -> (r: Option<String>)
    ensures
        r is Some <==> valid_utf8(bytes@),
        r matches Some(s) ==> s@ == decode_utf8(bytes@),
{
    String::from_utf8(bytes).ok()
}

/// Unsigned value of a big-endian byte sequence.
pub open spec fn be_value(s: Seq<u8>) -> nat
    decreases s.len(),
{
    if s.len() == 0 {
        0
    } else {
        be_value(s.drop_last()) * 256 + s.last() as nat
    }
}

/// One word of a raw record, as 32 big-endian bytes.
#[derive(Clone, Copy, Debug, PartialEq, Eq)]
pub struct Felt {
    pub bytes: [u8; 32],
}

impl Felt {
    /// The integer that the word stands for.
    pub open spec fn value(self) -> nat {
        be_value(self.bytes@)
    }

    /// The word that holds the integer `v`.
    pub fn from_u64(v: u64) -> (r: Felt)
        ensures
            r.value() == v as nat,
    {
        let mut bytes = [0u8; 32];
        proof {
            lemma_zero_prefix(bytes@, 24);
            reveal_with_fuel(pow256, 9);
            assert(pow256(7) == 0x100_0000_0000_0000);
            assert(pow256(8) == 0x1_0000_0000_0000_0000);
            assert(v as nat / pow256(8) == 0);
        }
        let mut d: u64 = 0x100_0000_0000_0000;
        let mut i: usize = 24;
        while i < 32
            invariant
                24 <= i <= 32,
                bytes@.len() == 32,
                d >= 1,
                i < 32 ==> d as nat == pow256((31 - i) as nat),
                be_value(bytes@.take(i as int)) == v as nat / pow256((32 - i) as nat),
            decreases 32 - i,
        {
            let ghost before = bytes@;
            let b = ((v / d) % 256) as u8;
            bytes[i] = b;
            proof {
                let p = pow256((31 - i) as nat);
                assert(pow256((32 - i) as nat) == 256 * p);
                assert(bytes@.take(i as int + 1).drop_last() =~= before.take(i as int));
                lemma_div_denominator(v as int, p as int, 256);
                assert(v as nat / (p * 256) == (v as nat / p) / 256);
                assert(p * 256 == 256 * p);
            }
            if i < 31 {
                proof {
                    assert(pow256((31 - i) as nat) == 256 * pow256((30 - i) as nat));
                    lemma_pow256_positive((30 - i) as nat);
                }
                d = d / 256;
            }
            i = i + 1;
        }
        assert(bytes@.take(32) =~= bytes@);
        assert(pow256(0) == 1);
        assert(be_value(bytes@) == v as nat / 1);
        assert(v as nat / 1 == v as nat);
        Felt { bytes }
    }

    /// The word that holds a flag: one for `true`, zero for `false`.
    pub fn from_bool(b: bool) -> (r: Felt)
        ensures
            r.value() == (if b { 1nat } else { 0nat }),
    {
        Felt::from_u64(if b { 1 } else { 0 })
    }

    /// The bytes of the short text held in the word, without its zero padding.
    pub fn text_bytes(&self) -> (r: Vec<u8>)
        ensures
            r@ == text_span(self.bytes@),
    {
        let ghost s = self.bytes@;
        let mut i: usize = 0;
        while i < 32 && self.bytes[i] == 0
            invariant
                s == self.bytes@,
                s.len() == 32,
                0 <= i <= 32,
                forall|j: int| 0 <= j < i ==> s[j] == 0,
            decreases 32 - i,
        {
            i = i + 1;
        }
        proof {
            lemma_first_nonzero_skips_padding(s, 0, i as int);
        }
        let start = i;
        let mut out: Vec<u8> = Vec::new();
        while i < 32
            invariant
                s == self.bytes@,
                s.len() == 32,
                start <= i <= 32,
                out@ == s.subrange(start as int, i as int),
            decreases 32 - i,
        {
            out.push(self.bytes[i]);
            i = i + 1;
        }
        out
    }

    /// The short text held in the word; `None` when its bytes are not valid UTF-8.
    pub fn to_text(&self) -> (r: Option<String>)
        ensures
            r is Some <==> valid_utf8(text_span(self.bytes@)),
            r matches Some(t) ==> t@ == decode_utf8(text_span(self.bytes@)),
    {
        string_from_utf8(self.text_bytes())
    }

    /// The word that holds `text`, right-aligned behind zero padding.
    pub fn from_text(text: &str) -> (r: Felt)
        requires
            encode_utf8(text@).len() <= 32,
        ensures
            r.bytes@ == text_word(text@),
    {
        let b = text.as_bytes();
        let n = b.len();
        let pad = 32 - n;
        let mut bytes = [0u8; 32];
        let mut j: usize = 0;
        while j < n
            invariant
                b@ == encode_utf8(text@),
                n == b@.len(),
                n <= 32,
                pad == 32 - n,
                0 <= j <= n,
                bytes@.len() == 32,
                forall|k: int| 0 <= k < pad ==> bytes@[k] == 0,
                forall|k: int| 0 <= k < j ==> bytes@[pad + k] == b@[k],
            decreases n - j,
        {
            bytes[pad + j] = b[j];
            j = j + 1;
        }
        assert(bytes@ =~= text_word(text@));
        Felt { bytes }
    }

    /// Reads the word as an integer below `bound`; `None` when it does not fit.
    pub fn read_bounded(&self, bound: u128) -> (r: Option<u64>)
        requires
            0 < bound <= 0x1_0000_0000_0000_0000,
        ensures
            r == (if self.value() < bound { Some(self.value() as u64) } else { None::<u64> }),
    {
        let ghost s = self.bytes@;
        let mut acc: u64 = 0;
        let mut over = false;
        let mut i: usize = 0;
        assert(s.take(0) =~= Seq::<u8>::empty());
        while i < 32
            invariant
                s == self.bytes@,
                s.len() == 32,
                0 <= i <= 32,
                0 < bound <= 0x1_0000_0000_0000_0000,
                over <==> be_value(s.take(i as int)) >= bound,
                !over ==> acc as nat == be_value(s.take(i as int)),
            decreases 32 - i,
        {
            let b = self.bytes[i];
            assert(s.take(i as int + 1).drop_last() =~= s.take(i as int));
            assert(s.take(i as int + 1).last() == b);
            assert(be_value(s.take(i as int + 1)) == be_value(s.take(i as int)) * 256 + b as nat);
            if !over {
                let next: u128 = acc as u128 * 256 + b as u128;
                if next >= bound {
                    over = true;
                } else {
                    assert(next < 0x1_0000_0000_0000_0000);
                    acc = next as u64;
                }
            }
            i = i + 1;
        }
        assert(s.take(32) =~= s);
        if over {
            None
        } else {
            Some(acc)
        }
    }

    /// Whether the word is nonzero.
    pub fn is_nonzero(&self) -> (r: bool)
        ensures
            r == (self.value() != 0),
    {
        let ghost s = self.bytes@;
        let mut found = false;
        let mut i: usize = 0;
        assert(s.take(0) =~= Seq::<u8>::empty());
        while i < 32
            invariant
                s == self.bytes@,
                s.len() == 32,
                0 <= i <= 32,
                found <==> be_value(s.take(i as int)) != 0,
            decreases 32 - i,
        {
            let b = self.bytes[i];
            assert(s.take(i as int + 1).drop_last() =~= s.take(i as int));
            assert(s.take(i as int + 1).last() == b);
            assert(be_value(s.take(i as int + 1)) == be_value(s.take(i as int)) * 256 + b as nat);
            if b != 0 {
                found = true;
            }
            i = i + 1;
        }
        assert(s.take(32) =~= s);
        found
    }
}

} // verus!
