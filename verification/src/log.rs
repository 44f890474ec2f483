//! Text formatting of numbers and byte slices.
use vstd::prelude::*;

verus! {

/// Calls `String::push`, which appends `c` to the end of `s` (std's
/// documentation: "Appends the given char to the end of this String").
#[verifier::external_body]
pub(crate) fn push_char(s: &mut String, c: char)
    ensures
        final(s)@ == old(s)@.push(c),
{
    s.push(c);
}

/// Character of digit `d` (below 16): `0` to `9`, then `A` to `F` or `a` to
/// `f`.
pub open spec fn digit_char(d: nat, upper: bool) -> char {
    if d < 10 {
        (48 + d) as char
    } else if upper {
        (55 + d) as char
    } else {
        (87 + d) as char
    }
}

/// Digits of `v` in base `base`, most significant first, without leading
/// zeros (`0` is one digit).
pub open spec fn digits(v: nat, base: nat, upper: bool) -> Seq<char>
    decreases v,
{
    if base < 2 || v < base {
        seq![digit_char(v, upper)]
    } else {
        proof {
            vstd::arithmetic::div_mod::lemma_div_decreases(v as int, base as int);
        }
        digits(v / base, base, upper).push(digit_char(v % base, upper))
    }
}

/// `v` in base `base`, left-padded with `0` to at least `width` characters.
pub open spec fn padded(v: nat, base: nat, upper: bool, width: nat) -> Seq<char> {
    let d = digits(v, base, upper);
    if d.len() < width {
        Seq::new((width - d.len()) as nat, |i: int| '0') + d
    } else {
        d
    }
}

fn digit(d: u64, upper: bool) -> (r: char)
    requires
        d < 16,
    ensures
        r == digit_char(d as nat, upper),
{
    if d < 10 {
        ((48 + d) as u8) as char
    } else if upper {
        ((55 + d) as u8) as char
    } else {
        ((87 + d) as u8) as char
    }
}

/// Appends the digits of `v` in base `base`.
fn push_digits(out: &mut Vec<char>, v: u64, base: u64, upper: bool)
    requires
        2 <= base <= 16,
    ensures
        final(out)@ == old(out)@ + digits(v as nat, base as nat, upper),
    decreases v,
{
    if v >= base {
        proof {
            vstd::arithmetic::div_mod::lemma_div_decreases(v as int, base as int);
        }
        push_digits(out, v / base, base, upper);
    }
    proof {
        if v < base {
            assert(v % base == v) by (nonlinear_arith)
                requires
                    v < base,
            ;
        }
    }
    out.push(digit(v % base, upper));
    proof {
        assert(final(out)@ =~= old(out)@ + digits(v as nat, base as nat, upper));
    }
}

/// Appends the characters of `chars`.
fn push_chars(s: &mut String, chars: &Vec<char>)
    ensures
        final(s)@ == old(s)@ + chars@,
{
    let ghost start = s@;
    let mut i: usize = 0;
    while i < chars.len()
        invariant
            i <= chars@.len(),
            s@ == start + chars@.take(i as int),
        decreases chars.len() - i,
    {
        push_char(s, chars[i]);
        proof {
            assert(chars@.take(i + 1) =~= chars@.take(i as int).push(chars@[i as int]));
        }
        i = i + 1;
    }
    proof {
        assert(chars@.take(i as int) =~= chars@);
    }
}

/// Appends `v` in base `base`, left-padded with `0` to at least `width`
/// characters.
pub fn push_padded(s: &mut String, v: u64, base: u64, upper: bool, width: usize)
    requires
        2 <= base <= 16,
    ensures
        final(s)@ == old(s)@ + padded(v as nat, base as nat, upper, width as nat),
{
    let mut d: Vec<char> = Vec::new();
    push_digits(&mut d, v, base, upper);
    let count = d.len();
    let ghost start = s@;
    let mut i: usize = count;
    while i < width
        invariant
            count <= i,
            count < width ==> i <= width,
            count >= width ==> i == count,
            s@ == start + Seq::new((i - count) as nat, |j: int| '0'),
        decreases width - i,
    {
        push_char(s, '0');
        proof {
            assert(s@ =~= start + Seq::new((i + 1 - count) as nat, |j: int| '0'));
        }
        i = i + 1;
    }
    push_chars(s, &d);
    proof {
        if count < width {
            assert(i == width);
            assert(s@ =~= start + padded(v as nat, base as nat, upper, width as nat));
        } else {
            assert(Seq::new((i - count) as nat, |j: int| '0') =~= Seq::<char>::empty());
            assert(s@ =~= start + padded(v as nat, base as nat, upper, width as nat));
        }
    }
}

/// Bytes shown as lowercase hexadecimal, two digits each.
pub struct HexSlice<'a>(pub &'a [u8]);

/// Two lowercase hexadecimal digits for each byte of `bytes`.
pub open spec fn hex_bytes(bytes: Seq<u8>) -> Seq<char>
    decreases bytes.len(),
{
    if bytes.len() == 0 {
        seq![]
    } else {
        hex_bytes(bytes.drop_last()) + padded(bytes.last() as nat, 16, false, 2)
    }
}

impl<'a> HexSlice<'a> {
    /// The bytes as text: two lowercase hexadecimal digits each.
    pub fn to_string(&self) -> (r: String)
        ensures
            r@ == hex_bytes(self.0@),
    {
        let mut s = String::new();
        let mut i: usize = 0;
        while i < self.0.len()
            invariant
                i <= self.0@.len(),
                s@ == hex_bytes(self.0@.take(i as int)),
            decreases self.0.len() - i,
        {
            proof {
                assert(self.0@.take(i + 1).drop_last() =~= self.0@.take(i as int));
            }
            push_padded(&mut s, self.0[i] as u64, 16, false, 2);
            i = i + 1;
        }
        proof {
            assert(self.0@.take(i as int) =~= self.0@);
        }
        s
    }
}

impl<'a> From<&'a [u8]> for HexSlice<'a> {
    fn from(value: &'a [u8]) -> (r: Self) {
        HexSlice(value)
    }
}

impl<'a> vstd::std_specs::convert::FromSpecImpl<&'a [u8]> for HexSlice<'a> {
    open spec fn obeys_from_spec() -> bool {
        true
    }

    open spec fn from_spec(value: &'a [u8]) -> HexSlice<'a> {
        HexSlice(value)
    }
}

} // verus!
