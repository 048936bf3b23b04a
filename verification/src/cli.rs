// Command-line logic that is worth verifying: the block-size argument parser
// and the model of where the copied bytes come from.  Opening files, reading
// metadata and the option parsing itself are left to the program around the
// library, which hands plain values in.

use vstd::prelude::*;

verus! {

/// Where the copied bytes come from, resolved once at startup.  A regular
/// file may carry the byte length that filesystem metadata declared for it;
/// standard input never does.
pub enum InputSource {
    StandardInput,
    RegularFile { declared_len: Option<u64> },
}

impl InputSource {
    /// The known total size of the source: the declared length of a regular
    /// file, absent for standard input or when no length was declared.
    pub open spec fn known_size_spec(self) -> Option<u64> {
        match self {
            InputSource::StandardInput => None,
            InputSource::RegularFile { declared_len } => declared_len,
        }
    }

    pub fn known_size(&self) -> (r: Option<u64>)
        ensures
            r == self.known_size_spec(),
    {
        match self {
            InputSource::StandardInput => None,
            InputSource::RegularFile { declared_len } => *declared_len,
        }
    }
}

/// An ASCII decimal digit.
pub open spec fn is_dec_digit(b: u8) -> bool {
    48 <= b <= 57
}

pub open spec fn all_dec_digits(s: Seq<u8>) -> bool {
    forall|i: int| 0 <= i < s.len() ==> is_dec_digit(#[trigger] s[i])
}

/// The value a byte contributes as a decimal digit; bytes below `'0'`
/// contribute nothing, so the value of a string is monotone in its prefixes.
pub open spec fn dec_digit_val(b: u8) -> nat {
    if b >= 48 {
        (b - 48) as nat
    } else {
        0
    }
}

/// The number denoted by a string of decimal digits, most significant first.
pub open spec fn dec_value(s: Seq<u8>) -> nat
    decreases s.len(),
{
    if s.len() == 0 {
        0
    } else {
        dec_value(s.drop_last()) * 10 + dec_digit_val(s.last())
    }
}

/// A longer prefix of a string never denotes a smaller number.
proof fn lemma_dec_value_prefix(s: Seq<u8>, i: int)
    requires
        0 <= i <= s.len(),
    ensures
        dec_value(s.take(i)) <= dec_value(s),
    decreases s.len() - i,
{
    if i < s.len() {
        assert(s.take(i + 1).drop_last() =~= s.take(i));
        assert(dec_value(s.take(i)) <= dec_value(s.take(i + 1)));
        lemma_dec_value_prefix(s, i + 1);
    } else {
        assert(s.take(i) =~= s);
    }
}

/// Parses a block-size argument.  Returns the denoted value exactly when the
/// text is one or more ASCII decimal digits denoting a positive number that
/// fits in `usize`; returns `None` otherwise (empty text, a non-digit, zero,
/// or a value too large).
pub fn parse_block_size(s: &[u8]) -> (r: Option<usize>)
    ensures
        match r {
            Some(n) => {
                &&& s@.len() > 0
                &&& all_dec_digits(s@)
                &&& n == dec_value(s@)
                &&& n >= 1
            },
            None => {
                ||| s@.len() == 0
                ||| !all_dec_digits(s@)
                ||| dec_value(s@) == 0
                ||| dec_value(s@) > usize::MAX
            },
        },
{
    if s.len() == 0 {
        return None;
    }
    let mut acc: usize = 0;
    let mut i: usize = 0;
    while i < s.len()
        invariant
            0 <= i <= s@.len(),
            all_dec_digits(s@.take(i as int)),
            acc == dec_value(s@.take(i as int)),
        decreases s@.len() - i,
    {
        let b: u8 = s[i];
        if b < 48 || b > 57 {
            assert(!is_dec_digit(s@[i as int]));
            return None;
        }
        let d: usize = (b - 48) as usize;
        proof {
            assert(s@.take(i + 1).drop_last() =~= s@.take(i as int));
            assert(s@.take(i + 1).last() == s@[i as int]);
            assert(dec_value(s@.take(i + 1)) == acc * 10 + d);
        }
        if acc > usize::MAX / 10 || (acc == usize::MAX / 10 && d > usize::MAX % 10) {
            proof {
                vstd::arithmetic::div_mod::lemma_fundamental_div_mod(usize::MAX as int, 10);
                assert(acc * 10 + d > usize::MAX);
                lemma_dec_value_prefix(s@, i + 1);
            }
            return None;
        }
        proof {
            vstd::arithmetic::div_mod::lemma_fundamental_div_mod(usize::MAX as int, 10);
            assert(acc * 10 + d <= usize::MAX);
        }
        acc = acc * 10 + d;
        i = i + 1;
    }
    proof {
        assert(s@.take(i as int) =~= s@);
    }
    if acc == 0 {
        None
    } else {
        Some(acc)
    }
}

} // verus!
