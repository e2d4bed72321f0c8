//! Program text: one line per instruction word, sixteen characters `0` or
//! `1`, most significant bit first, lines ended by `\n` or `\r\n` (the last
//! line's ending is optional).
use vstd::prelude::*;
use vstd::string::StringSliceAdditionalSpecFns;
use vstd::arithmetic::power2::{pow2, lemma2_to64, lemma_pow2_strictly_increases, lemma_pow2_unfold};

verus! {

/// Why a program could not be loaded.
#[derive(Clone, Copy, Debug, PartialEq, Eq, Structural)]
pub enum LoadError {
    /// A line is not sixteen binary digits with a proper ending.
    Malformed,
    /// The program has more words than instruction memory.
    TooLong,
}

pub open spec fn is_bit_char(c: u8) -> bool {
    c == 48 || c == 49
}

/// The number that a string of binary digits spells, most significant first.
pub open spec fn binary_value(l: Seq<u8>) -> nat
    decreases l.len(),
{
    if l.len() == 0 {
        0
    } else {
        2 * binary_value(l.drop_last()) + (l.last() - 48) as nat
    }
}

/// Sixteen binary digits.
pub open spec fn is_word_line(l: Seq<u8>) -> bool {
    l.len() == 16 && forall|j: int| 0 <= j < 16 ==> is_bit_char(#[trigger] l[j])
}

/// Bytes taken by the ending of a line whose digits start `b`: none at the
/// end of the text, one for `\n`, two for `\r\n`; -1 for anything else.
pub open spec fn ending_len(b: Seq<u8>) -> int {
    if b.len() == 16 {
        0
    } else if b.len() > 16 && b[16] == 10 {
        1
    } else if b.len() > 17 && b[16] == 13 && b[17] == 10 {
        2
    } else {
        -1
    }
}

/// The words that program text `b` encodes, or `None` where a line is
/// malformed.
pub open spec fn parse_spec(b: Seq<u8>) -> Option<Seq<u16>>
    decreases b.len(),
{
    if b.len() == 0 {
        Some(Seq::empty())
    } else if b.len() < 16 || !is_word_line(b.take(16)) || ending_len(b) < 0 {
        None
    } else {
        match parse_spec(b.skip(16 + ending_len(b))) {
            Some(ws) => Some(seq![binary_value(b.take(16)) as u16] + ws),
            None => None,
        }
    }
}

/// Reads the sixteen digits at `b[i..i + 16]`, or `None` where one is not
/// a binary digit.
fn parse_word(b: &[u8], i: usize) -> (r: Option<u16>)
    requires
        i + 16 <= b@.len(),
    ensures
        match r {
            Some(w) => is_word_line(b@.subrange(i as int, i + 16)) && w as nat == binary_value(
                b@.subrange(i as int, i + 16),
            ),
            None => !is_word_line(b@.subrange(i as int, i + 16)),
        },
{
    let n = b.len();
    let mut acc: u16 = 0;
    let mut k: usize = 0;
    proof {
        lemma2_to64();
        assert(b@.subrange(i as int, i as int) =~= Seq::<u8>::empty());
    }
    while k < 16
        invariant
            i + 16 <= b@.len() == n,
            k <= 16,
            acc as nat == binary_value(b@.subrange(i as int, i + k)),
            acc < pow2(k as nat),
            pow2(16) == 0x10000,
            forall|j: int| 0 <= j < k ==> is_bit_char(#[trigger] b@[i + j]),
        decreases 16 - k,
    {
        let c = b[i + k];
        if c != 48 && c != 49 {
            assert(b@.subrange(i as int, i + 16)[k as int] == c);
            return None;
        }
        proof {
            lemma_pow2_unfold((k + 1) as nat);
            if k + 1 < 16 {
                lemma_pow2_strictly_increases((k + 1) as nat, 16);
            }
            assert(b@.subrange(i as int, i + k + 1).drop_last() =~= b@.subrange(i as int, i + k));
        }
        acc = acc * 2 + (c - 48) as u16;
        k = k + 1;
    }
    proof {
        assert forall|j: int| 0 <= j < 16 implies is_bit_char(
            #[trigger] b@.subrange(i as int, i + 16)[j],
        ) by {
            assert(b@.subrange(i as int, i + 16)[j] == b@[i + j]);
        }
    }
    Some(acc)
}

/// Turns program text into instruction words.
pub fn parse_program(code: &str) -> (r: Result<Vec<u16>, LoadError>)
    ensures
        match r {
            Ok(v) => parse_spec(code.spec_bytes()) == Some(v@),
            Err(e) => parse_spec(code.spec_bytes()) is None && e == LoadError::Malformed,
        },
{
    let b = code.as_bytes();
    let mut words: Vec<u16> = Vec::new();
    let mut i: usize = 0;
    assert(b@.skip(0) =~= b@);
    while i < b.len()
        invariant
            i <= b@.len(),
            b@ == code.spec_bytes(),
            parse_spec(b@) == (match parse_spec(b@.skip(i as int)) {
                Some(ws) => Some(words@ + ws),
                None => None,
            }),
        decreases b.len() - i,
    {
        let ghost rest = b@.skip(i as int);
        if b.len() - i < 16 {
            return Err(LoadError::Malformed);
        }
        assert(rest.take(16) =~= b@.subrange(i as int, i + 16));
        let w = match parse_word(b, i) {
            Some(w) => w,
            None => {
                return Err(LoadError::Malformed);
            },
        };
        let e: usize = if b.len() - i == 16 {
            0
        } else if b[i + 16] == 10 {
            1
        } else if b.len() - i > 17 && b[i + 16] == 13 && b[i + 17] == 10 {
            2
        } else {
            return Err(LoadError::Malformed);
        };
        assert(ending_len(rest) == e);
        assert(rest.skip(16 + e as int) =~= b@.skip(i + 16 + e));
        proof {
            let tail = parse_spec(b@.skip(i + 16 + e));
            if tail is Some {
                assert(words@.push(w) + tail->Some_0 =~= words@ + (seq![w] + tail->Some_0));
            }
        }
        words.push(w);
        i = i + 16 + e;
    }
    assert(b@.skip(i as int) =~= Seq::<u8>::empty());
    assert(words@ + Seq::<u16>::empty() =~= words@);
    Ok(words)
}

} // verus!
