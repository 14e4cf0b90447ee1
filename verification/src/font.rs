use vstd::prelude::*;
use vstd::string::*;
use crate::config::trunc_div;
use crate::render::{fill_cmd, fill_cmds, fill_rect, lemma_sent_nothing, lemma_sent_then, sent, DisplaySink, DrawCommand};

verus! {

/// `a:b`, each number with at least two digits (a zero in front of one
/// digit), as a clock shows minutes and seconds.
pub open spec fn clock_chars(a: nat, b: nat) -> Seq<char> {
    ascii_chars(zero_padded(a, 2)) + seq![':'] + ascii_chars(zero_padded(b, 2))
}

/// A number below ten to the `k` takes at most `k` (and at least `width`)
/// places when padded to `width` digits, each a digit.
pub proof fn lemma_padded_digits(v: nat, width: nat, k: nat)
    requires
        1 <= k,
        v < pow10(k),
    ensures
        zero_padded(v, width).len() <= if k < width { width } else { k },
        forall|i: int| 0 <= i < zero_padded(v, width).len() ==> 48 <= #[trigger] zero_padded(v, width)[i] <= 57,
{
    lemma_decimal_digits(v, k);
    let d = decimal(v);
    if d.len() < width {
        assert forall|i: int| 0 <= i < zero_padded(v, width).len() implies 48 <= #[trigger] zero_padded(v, width)[i] <= 57 by {
            if i >= width - d.len() {
                assert(zero_padded(v, width)[i] == d[i - (width - d.len())]);
            }
        }
    }
}

/// The text `a:b` of `clock_chars`.
pub fn clock_text(a: u32, b: u32) -> (r: TextBuffer<8>)
    requires
        a < 10000,
        b < 1000,
        a < 1000 || b < 100,
    ensures
        all_ascii(r.text()),
        ascii_chars(r.text()) == clock_chars(a as nat, b as nat),
{
    let mut text = TextBuffer::<8>::new();
    let ghost za = zero_padded(a as nat, 2);
    let ghost zb = zero_padded(b as nat, 2);
    proof {
        assert(pow10(4) == 10000) by { reveal_with_fuel(pow10, 5); }
        assert(pow10(3) == 1000) by { reveal_with_fuel(pow10, 4); }
        assert(pow10(2) == 100) by { reveal_with_fuel(pow10, 3); }
        if a < 1000 {
            lemma_padded_digits(a as nat, 2, 3);
            lemma_padded_digits(b as nat, 2, 3);
        } else {
            lemma_padded_digits(a as nat, 2, 4);
            lemma_padded_digits(b as nat, 2, 2);
        }
    }
    text.write_u32(a, 2);
    assert(text.text() =~= za) by {
        assert(za.take(za.len() as int) =~= za);
    }
    text.push_byte(58);
    assert(text.text() =~= za + seq![58u8]) by {
        assert(seq![58u8].take(1) =~= seq![58u8]);
    }
    text.write_u32(b, 2);
    proof {
        let t = text.text();
        assert(t =~= za + seq![58u8] + zb) by {
            assert(zb.take(zb.len() as int) =~= zb);
        }
        assert forall|i: int| 0 <= i < t.len() implies #[trigger] t[i] < 128 by {
            if i < za.len() {
                assert(t[i] == za[i]);
            } else if i > za.len() {
                assert(t[i] == zb[i - za.len() - 1]);
            }
        }
        assert(ascii_chars(t) =~= clock_chars(a as nat, b as nat)) by {
            assert forall|i: int| 0 <= i < t.len() implies #[trigger] ascii_chars(t)[i] == clock_chars(a as nat, b as nat)[i] by {
                if i < za.len() {
                    assert(t[i] == za[i]);
                } else if i > za.len() {
                    assert(t[i] == zb[i - za.len() - 1]);
                }
            }
        }
    }
    text
}

/// `y-m-d`, the year with at least four digits and the month and day with
/// at least two each.
pub open spec fn date_chars(y: nat, m: nat, d: nat) -> Seq<char> {
    ascii_chars(zero_padded(y, 4)) + seq!['-'] + ascii_chars(zero_padded(m, 2)) + seq!['-'] + ascii_chars(zero_padded(d, 2))
}

/// The text `y-m-d` of `date_chars`.
pub fn date_text(y: u32, m: u32, d: u32) -> (r: TextBuffer<16>)
    requires
        y < 100000,
        m < 1000,
        d < 1000,
    ensures
        all_ascii(r.text()),
        ascii_chars(r.text()) == date_chars(y as nat, m as nat, d as nat),
{
    let mut text = TextBuffer::<16>::new();
    let ghost zy = zero_padded(y as nat, 4);
    let ghost zm = zero_padded(m as nat, 2);
    let ghost zd = zero_padded(d as nat, 2);
    proof {
        assert(pow10(5) == 100000) by { reveal_with_fuel(pow10, 6); }
        assert(pow10(3) == 1000) by { reveal_with_fuel(pow10, 4); }
        lemma_padded_digits(y as nat, 4, 5);
        lemma_padded_digits(m as nat, 2, 3);
        lemma_padded_digits(d as nat, 2, 3);
    }
    text.write_u32(y, 4);
    assert(text.text() =~= zy) by { assert(zy.take(zy.len() as int) =~= zy); }
    text.push_byte(45);
    assert(text.text() =~= zy + seq![45u8]) by { assert(seq![45u8].take(1) =~= seq![45u8]); }
    text.write_u32(m, 2);
    assert(text.text() =~= zy + seq![45u8] + zm) by { assert(zm.take(zm.len() as int) =~= zm); }
    text.push_byte(45);
    assert(text.text() =~= zy + seq![45u8] + zm + seq![45u8]) by { assert(seq![45u8].take(1) =~= seq![45u8]); }
    text.write_u32(d, 2);
    proof {
        let t = text.text();
        let full = zy + seq![45u8] + zm + seq![45u8] + zd;
        assert(t =~= full) by { assert(zd.take(zd.len() as int) =~= zd); }
        let a = zy.len() as int;
        let b = a + 1 + zm.len();
        assert forall|i: int| 0 <= i < t.len() implies #[trigger] t[i] < 128 by {
            if i < a {
                assert(t[i] == zy[i]);
            } else if a < i < b {
                assert(t[i] == zm[i - a - 1]);
            } else if i > b {
                assert(t[i] == zd[i - b - 1]);
            }
        }
        assert forall|i: int| 0 <= i < t.len() implies #[trigger] ascii_chars(t)[i] == date_chars(y as nat, m as nat, d as nat)[i] by {
            if i < a {
                assert(t[i] == zy[i]);
            } else if a < i < b {
                assert(t[i] == zm[i - a - 1]);
            } else if i > b {
                assert(t[i] == zd[i - b - 1]);
            }
        }
        assert(ascii_chars(t) =~= date_chars(y as nat, m as nat, d as nat));
    }
    text
}

// ---------------------------------------------------------------------------
// Text assembled into a fixed buffer.

/// Up to `N` bytes of text; what does not fit is cut off.
pub struct TextBuffer<const N: usize> {
    bytes: [u8; N],
    len: usize,
}

/// The decimal digits of `v`, most significant first.
pub open spec fn decimal(v: nat) -> Seq<u8>
    decreases v,
{
    if v < 10 {
        seq![(48 + v) as u8]
    } else {
        decimal(v / 10).push((48 + v % 10) as u8)
    }
}

/// The decimal digits of `v`, with zeros in front up to `width` digits.
pub open spec fn zero_padded(v: nat, width: nat) -> Seq<u8> {
    let d = decimal(v);
    if d.len() >= width { d } else { Seq::new((width - d.len()) as nat, |i: int| 48u8) + d }
}

/// `text` followed by as much of `more` as fits in `cap` bytes.
pub open spec fn append_capped(text: Seq<u8>, more: Seq<u8>, cap: nat) -> Seq<u8> {
    let room = if cap >= text.len() { cap - text.len() } else { 0 };
    text + more.take(if more.len() <= room { more.len() as int } else { room as int })
}

/// The characters of ASCII bytes, one each.
pub open spec fn ascii_chars(bytes: Seq<u8>) -> Seq<char> {
    Seq::new(bytes.len(), |i: int| bytes[i] as char)
}

/// Every byte is ASCII.
pub open spec fn all_ascii(bytes: Seq<u8>) -> bool {
    forall|i: int| 0 <= i < bytes.len() ==> #[trigger] bytes[i] < 128
}

/// The decimal digits of `v` as characters.
pub open spec fn decimal_chars(v: nat) -> Seq<char> {
    ascii_chars(decimal(v))
}

/// The first `n` characters of `s`, or all of them.
pub open spec fn capped(s: Seq<char>, n: nat) -> Seq<char> {
    if s.len() <= n { s } else { s.take(n as int) }
}

/// Ten to the power `k`.
pub open spec fn pow10(k: nat) -> nat
    decreases k,
{
    if k == 0 { 1 } else { 10 * pow10((k - 1) as nat) }
}

/// A number below ten to the `k` has at most `k` digits, each `0` to `9`.
pub proof fn lemma_decimal_digits(v: nat, k: nat)
    requires
        k >= 1,
        v < pow10(k),
    ensures
        decimal(v).len() <= k,
        forall|i: int| 0 <= i < decimal(v).len() ==> 48 <= #[trigger] decimal(v)[i] <= 57,
    decreases k,
{
    if v >= 10 {
        assert(k >= 2) by {
            if k == 1 {
                assert(pow10(1) == 10) by { reveal_with_fuel(pow10, 2); }
            }
        }
        lemma_decimal_digits(v / 10, (k - 1) as nat);
    }
}

/// A `u32` has at most ten decimal digits.
pub proof fn lemma_u32_decimal(v: u32)
    ensures
        decimal(v as nat).len() <= 10,
        all_ascii(decimal(v as nat)),
        forall|i: int| 0 <= i < decimal(v as nat).len() ==> 48 <= #[trigger] decimal(v as nat)[i] <= 57,
{
    assert(pow10(10) == 10_000_000_000) by { reveal_with_fuel(pow10, 11); }
    lemma_decimal_digits(v as nat, 10);
}

/// `core::str::from_utf8` on the first `len` bytes, with the empty string
/// for bytes that are not UTF-8. The contract claims what the standard
/// library documents: valid UTF-8 comes back as the same bytes, and ASCII
/// bytes come back one character each.
#[verifier::external_body]
fn utf8_prefix<'a, const N: usize>(bytes: &'a [u8; N], len: usize) -> (r: &'a str)
    requires
        len <= N,
    ensures
        vstd::utf8::valid_utf8(bytes@.take(len as int)) ==> r.spec_bytes() == bytes@.take(len as int),
        !vstd::utf8::valid_utf8(bytes@.take(len as int)) ==> r@.len() == 0,
        (forall|i: int| 0 <= i < len ==> bytes@[i] < 128) ==> r@ == Seq::new(len as nat, |i: int| bytes@[i] as char),
{
    core::str::from_utf8(&bytes[..len]).unwrap_or("")
}

fn decimal_digits(v: u32) -> (r: Vec<u8>)
    ensures
        r@ == decimal(v as nat),
    decreases v,
{
    if v < 10 {
        vec![48 + v as u8]
    } else {
        let mut d = decimal_digits(v / 10);
        d.push(48 + (v % 10) as u8);
        d
    }
}

fn padded_decimal(v: u32, width: usize) -> (r: Vec<u8>)
    requires
        width <= 64,
    ensures
        r@ == zero_padded(v as nat, width as nat),
{
    let digits = decimal_digits(v);
    let mut out: Vec<u8> = Vec::new();
    let mut k: usize = digits.len();
    while k < width
        invariant
            digits@ == decimal(v as nat),
            digits.len() <= k <= width || (digits.len() == k && k >= width),
            width <= 64,
            out@ == Seq::new((k - digits.len()) as nat, |i: int| 48u8),
        decreases width - k,
    {
        out.push(48);
        k += 1;
        assert(out@ =~= Seq::new((k - digits.len()) as nat, |i: int| 48u8));
    }
    let mut j: usize = 0;
    let ghost zeros = out@;
    while j < digits.len()
        invariant
            j <= digits.len(),
            out@ == zeros + digits@.take(j as int),
        decreases digits.len() - j,
    {
        out.push(digits[j]);
        j += 1;
        assert(out@ =~= zeros + digits@.take(j as int));
    }
    assert(digits@.take(digits.len() as int) =~= digits@);
    if digits.len() >= width {
        assert(zeros =~= Seq::<u8>::empty());
        assert(out@ =~= digits@);
    }
    out
}

impl<const N: usize> TextBuffer<N> {
    #[verifier::type_invariant]
    spec fn inv(self) -> bool {
        self.len <= N
    }

    /// The bytes written so far.
    pub closed spec fn text(&self) -> Seq<u8> {
        self.bytes@.take(self.len as int)
    }

    pub fn new() -> (r: Self)
        ensures
            r.text() == Seq::<u8>::empty(),
    {
        let r = TextBuffer { bytes: [0u8; N], len: 0 };
        assert(r.text() =~= Seq::<u8>::empty());
        r
    }

    /// The text, or the empty string when it is not UTF-8 (a character
    /// cut at the end).
    pub fn as_str(&self) -> (r: &str)
        ensures
            all_ascii(self.text()) ==> r@ == ascii_chars(self.text()),
            vstd::utf8::valid_utf8(self.text()) ==> r.spec_bytes() == self.text(),
            !vstd::utf8::valid_utf8(self.text()) ==> r@.len() == 0,
    {
        proof { use_type_invariant(self); }
        let r = utf8_prefix(&self.bytes, self.len);
        proof {
            let t = self.text();
            assert(t.len() == self.len);
            if all_ascii(t) {
                assert forall|i: int| 0 <= i < self.len implies self.bytes@[i] < 128 by {
                    assert(t[i] == self.bytes@[i]);
                }
                assert(r@ =~= ascii_chars(t));
            }
        }
        r
    }

    fn write_bytes(&mut self, more: &[u8]) -> (ok: bool)
        ensures
            final(self).text() == append_capped(old(self).text(), more@, N as nat),
            ok == (more@.len() + old(self).text().len() <= N),
    {
        proof { use_type_invariant(&*self); }
        let remaining: usize = N - self.len;
        let copy_len: usize = if remaining < more.len() { remaining } else { more.len() };
        let ghost start = self.text();
        assert(start.len() == self.len);
        let mut bytes = self.bytes;
        let len = self.len;
        let mut i: usize = 0;
        while i < copy_len
            invariant
                len + copy_len <= N, i <= copy_len, copy_len <= more.len(),
                start.len() == len,
                forall|j: int| 0 <= j < len ==> #[trigger] bytes@[j] == start[j],
                forall|j: int| 0 <= j < i ==> #[trigger] bytes@[len + j] == more@[j],
            decreases copy_len - i,
        {
            bytes[len + i] = more[i];
            i += 1;
        }
        self.bytes = bytes;
        self.len = len + copy_len;
        assert forall|j: int| 0 <= j < len + copy_len implies #[trigger] self.text()[j] == append_capped(start, more@, N as nat)[j] by {
            if j >= len {
                assert(bytes@[len + (j - len)] == more@[j - len]);
            }
        }
        assert(self.text() =~= append_capped(start, more@, N as nat));
        copy_len == more.len()
    }

    /// Appends one byte when there is room; says whether there was.
    pub fn push_byte(&mut self, b: u8) -> (ok: bool)
        ensures
            final(self).text() == append_capped(old(self).text(), seq![b], N as nat),
            ok == (old(self).text().len() < N),
    {
        let one: [u8; 1] = [b];
        let r = self.write_bytes(&one);
        assert(one@ =~= seq![b]);
        r
    }

    /// Appends as much of `s` as fits; says whether all of it did.
    pub fn write_str(&mut self, s: &str) -> (ok: bool)
        ensures
            final(self).text() == append_capped(old(self).text(), s.spec_bytes(), N as nat),
            ok == (s.spec_bytes().len() + old(self).text().len() <= N),
    {
        self.write_bytes(s.as_bytes())
    }

    /// `label` followed by `value` in decimal, as a HUD shows them.
    pub fn labelled(label: &str, value: u32) -> (r: Self)
        requires
            vstd::string::is_ascii(label),
            label@.len() + 10 <= N,
        ensures
            all_ascii(r.text()),
            ascii_chars(r.text()) == label@ + decimal_chars(value as nat),
            r.text().len() <= label@.len() + 10,
    {
        let mut buf = Self::new();
        proof {
            vstd::utf8::is_ascii_chars_encode_utf8(label@);
            lemma_u32_decimal(value);
        }
        buf.write_str(label);
        let ghost t1 = buf.text();
        assert(t1 =~= label.spec_bytes());
        buf.write_u32(value, 0);
        proof {
            let t = buf.text();
            let d = decimal(value as nat);
            assert(zero_padded(value as nat, 0) == d);
            assert(t =~= t1 + d);
            assert forall|i: int| 0 <= i < t.len() implies #[trigger] t[i] < 128 by {
                if i >= t1.len() {
                    assert(t[i] == d[i - t1.len()]);
                } else {
                    assert(t[i] == label@[i] as u8);
                }
            }
            assert forall|i: int| 0 <= i < t.len() implies #[trigger] ascii_chars(t)[i] == (label@ + decimal_chars(value as nat))[i] by {
                if i >= t1.len() {
                    assert(t[i] == d[i - t1.len()]);
                } else {
                    assert(t[i] == label@[i] as u8);
                    assert(label@[i] as u8 as char == label@[i]);
                }
            }
            assert(ascii_chars(t) =~= label@ + decimal_chars(value as nat));
        }
        buf
    }

    /// Appends ASCII `s`, which fits.
    pub fn push_ascii(&mut self, s: &str)
        requires
            vstd::string::is_ascii(s),
            all_ascii(old(self).text()),
            old(self).text().len() + s@.len() <= N,
        ensures
            all_ascii(final(self).text()),
            ascii_chars(final(self).text()) == ascii_chars(old(self).text()) + s@,
            final(self).text().len() == old(self).text().len() + s@.len(),
    {
        proof { vstd::utf8::is_ascii_chars_encode_utf8(s@); }
        let ghost t0 = self.text();
        self.write_str(s);
        proof {
            let t = self.text();
            assert(t =~= t0 + s.spec_bytes());
            assert forall|i: int| 0 <= i < t.len() implies #[trigger] t[i] < 128 by {
                if i >= t0.len() {
                    assert(t[i] == s@[i - t0.len()] as u8);
                }
            }
            assert forall|i: int| 0 <= i < t.len() implies #[trigger] ascii_chars(t)[i] == (ascii_chars(t0) + s@)[i] by {
                if i >= t0.len() {
                    assert(t[i] == s@[i - t0.len()] as u8);
                    assert(s@[i - t0.len()] as u8 as char == s@[i - t0.len()]);
                }
            }
            assert(ascii_chars(t) =~= ascii_chars(t0) + s@);
        }
    }

    /// Appends `value` in decimal, which fits.
    pub fn push_number(&mut self, value: u32)
        requires
            all_ascii(old(self).text()),
            old(self).text().len() + 10 <= N,
        ensures
            all_ascii(final(self).text()),
            ascii_chars(final(self).text()) == ascii_chars(old(self).text()) + decimal_chars(value as nat),
            final(self).text().len() <= old(self).text().len() + 10,
    {
        proof { lemma_u32_decimal(value); }
        let ghost t0 = self.text();
        self.write_u32(value, 0);
        proof {
            let t = self.text();
            let d = decimal(value as nat);
            assert(zero_padded(value as nat, 0) == d);
            assert(t =~= t0 + d);
            assert forall|i: int| 0 <= i < t.len() implies #[trigger] t[i] < 128 by {
                if i >= t0.len() {
                    assert(t[i] == d[i - t0.len()]);
                }
            }
            assert(ascii_chars(t) =~= ascii_chars(t0) + decimal_chars(value as nat));
        }
    }

    /// `label` followed by `value` in decimal, cut off after `N` bytes.
    pub fn labelled_capped(label: &str, value: u32) -> (r: Self)
        requires
            vstd::string::is_ascii(label),
            label@.len() <= N,
        ensures
            all_ascii(r.text()),
            ascii_chars(r.text()) == capped(label@ + decimal_chars(value as nat), N as nat),
    {
        let mut buf = Self::new();
        proof {
            vstd::utf8::is_ascii_chars_encode_utf8(label@);
            lemma_u32_decimal(value);
        }
        buf.write_str(label);
        let ghost t1 = buf.text();
        assert(t1 =~= label.spec_bytes());
        buf.write_u32(value, 0);
        proof {
            let t = buf.text();
            let d = decimal(value as nat);
            let full = label@ + decimal_chars(value as nat);
            assert(zero_padded(value as nat, 0) == d);
            assert(t.len() == capped(full, N as nat).len());
            assert forall|i: int| 0 <= i < t.len() implies #[trigger] t[i] < 128 by {
                if i >= t1.len() {
                    assert(t[i] == d[i - t1.len()]);
                } else {
                    assert(t[i] == label@[i] as u8);
                }
            }
            assert forall|i: int| 0 <= i < t.len() implies #[trigger] ascii_chars(t)[i] == capped(full, N as nat)[i] by {
                if i >= t1.len() {
                    assert(t[i] == d[i - t1.len()]);
                } else {
                    assert(t[i] == label@[i] as u8);
                    assert(label@[i] as u8 as char == label@[i]);
                }
            }
            assert(ascii_chars(t) =~= capped(full, N as nat));
        }
        buf
    }

    /// `value` in decimal.
    pub fn number(value: u32) -> (r: Self)
        requires
            10 <= N,
        ensures
            all_ascii(r.text()),
            ascii_chars(r.text()) == decimal_chars(value as nat),
    {
        proof { reveal_strlit(""); }
        let r = Self::labelled("", value);
        assert(""@ + decimal_chars(value as nat) =~= decimal_chars(value as nat));
        r
    }

    /// Appends `value` in decimal, with zeros in front up to `width` digits
    /// (as the `{:0width}` format does); says whether all of it fitted.
    pub fn write_u32(&mut self, value: u32, width: usize) -> (ok: bool)
        requires
            width <= 64,
        ensures
            final(self).text() == append_capped(old(self).text(), zero_padded(value as nat, width as nat), N as nat),
            ok == (zero_padded(value as nat, width as nat).len() + old(self).text().len() <= N),
    {
        let digits = padded_decimal(value, width);
        self.write_bytes(digits.as_slice())
    }
}

// ---------------------------------------------------------------------------
// The bitmap font: five columns of seven bits per character.

pub open spec fn glyph(c: char) -> Seq<u8> {
    match c {
        '0' => seq![0x3E, 0x51, 0x49, 0x45, 0x3E],
        '1' => seq![0x00, 0x42, 0x7F, 0x40, 0x00],
        '2' => seq![0x42, 0x61, 0x51, 0x49, 0x46],
        '3' => seq![0x21, 0x41, 0x45, 0x4B, 0x31],
        '4' => seq![0x18, 0x14, 0x12, 0x7F, 0x10],
        '5' => seq![0x27, 0x45, 0x45, 0x45, 0x39],
        '6' => seq![0x3C, 0x4A, 0x49, 0x49, 0x30],
        '7' => seq![0x01, 0x71, 0x09, 0x05, 0x03],
        '8' => seq![0x36, 0x49, 0x49, 0x49, 0x36],
        '9' => seq![0x06, 0x49, 0x49, 0x29, 0x1E],
        ':' => seq![0x00, 0x36, 0x36, 0x00, 0x00],
        'A' | 'a' => seq![0x7E, 0x11, 0x11, 0x11, 0x7E],
        'B' | 'b' => seq![0x7F, 0x49, 0x49, 0x49, 0x36],
        'C' | 'c' => seq![0x3E, 0x41, 0x41, 0x41, 0x22],
        'D' | 'd' => seq![0x7F, 0x41, 0x41, 0x22, 0x1C],
        'E' | 'e' => seq![0x7F, 0x49, 0x49, 0x49, 0x41],
        'F' | 'f' => seq![0x7F, 0x09, 0x09, 0x09, 0x01],
        'G' | 'g' => seq![0x3E, 0x41, 0x49, 0x49, 0x7A],
        'H' | 'h' => seq![0x7F, 0x08, 0x08, 0x08, 0x7F],
        'I' | 'i' => seq![0x00, 0x41, 0x7F, 0x41, 0x00],
        'J' | 'j' => seq![0x20, 0x40, 0x41, 0x3F, 0x01],
        'K' | 'k' => seq![0x7F, 0x08, 0x14, 0x22, 0x41],
        'L' | 'l' => seq![0x7F, 0x40, 0x40, 0x40, 0x40],
        'M' | 'm' => seq![0x7F, 0x02, 0x0C, 0x02, 0x7F],
        'N' | 'n' => seq![0x7F, 0x04, 0x08, 0x10, 0x7F],
        'O' | 'o' => seq![0x3E, 0x41, 0x41, 0x41, 0x3E],
        'P' | 'p' => seq![0x7F, 0x09, 0x09, 0x09, 0x06],
        'Q' | 'q' => seq![0x3E, 0x41, 0x51, 0x21, 0x5E],
        'R' | 'r' => seq![0x7F, 0x09, 0x19, 0x29, 0x46],
        'S' | 's' => seq![0x46, 0x49, 0x49, 0x49, 0x31],
        'T' | 't' => seq![0x01, 0x01, 0x7F, 0x01, 0x01],
        'U' | 'u' => seq![0x3F, 0x40, 0x40, 0x40, 0x3F],
        'V' | 'v' => seq![0x1F, 0x20, 0x40, 0x20, 0x1F],
        'W' | 'w' => seq![0x7F, 0x20, 0x18, 0x20, 0x7F],
        'X' | 'x' => seq![0x63, 0x14, 0x08, 0x14, 0x63],
        'Y' | 'y' => seq![0x07, 0x08, 0x70, 0x08, 0x07],
        'Z' | 'z' => seq![0x61, 0x51, 0x49, 0x45, 0x43],
        _ => seq![0, 0, 0, 0, 0],
    }
}

fn font_columns(c: char) -> (r: [u8; 5])
    ensures
        r@ == glyph(c),
{
    let r: [u8; 5] = match c {
        '0' => [0x3E, 0x51, 0x49, 0x45, 0x3E],
        '1' => [0x00, 0x42, 0x7F, 0x40, 0x00],
        '2' => [0x42, 0x61, 0x51, 0x49, 0x46],
        '3' => [0x21, 0x41, 0x45, 0x4B, 0x31],
        '4' => [0x18, 0x14, 0x12, 0x7F, 0x10],
        '5' => [0x27, 0x45, 0x45, 0x45, 0x39],
        '6' => [0x3C, 0x4A, 0x49, 0x49, 0x30],
        '7' => [0x01, 0x71, 0x09, 0x05, 0x03],
        '8' => [0x36, 0x49, 0x49, 0x49, 0x36],
        '9' => [0x06, 0x49, 0x49, 0x29, 0x1E],
        ':' => [0x00, 0x36, 0x36, 0x00, 0x00],
        'A' | 'a' => [0x7E, 0x11, 0x11, 0x11, 0x7E],
        'B' | 'b' => [0x7F, 0x49, 0x49, 0x49, 0x36],
        'C' | 'c' => [0x3E, 0x41, 0x41, 0x41, 0x22],
        'D' | 'd' => [0x7F, 0x41, 0x41, 0x22, 0x1C],
        'E' | 'e' => [0x7F, 0x49, 0x49, 0x49, 0x41],
        'F' | 'f' => [0x7F, 0x09, 0x09, 0x09, 0x01],
        'G' | 'g' => [0x3E, 0x41, 0x49, 0x49, 0x7A],
        'H' | 'h' => [0x7F, 0x08, 0x08, 0x08, 0x7F],
        'I' | 'i' => [0x00, 0x41, 0x7F, 0x41, 0x00],
        'J' | 'j' => [0x20, 0x40, 0x41, 0x3F, 0x01],
        'K' | 'k' => [0x7F, 0x08, 0x14, 0x22, 0x41],
        'L' | 'l' => [0x7F, 0x40, 0x40, 0x40, 0x40],
        'M' | 'm' => [0x7F, 0x02, 0x0C, 0x02, 0x7F],
        'N' | 'n' => [0x7F, 0x04, 0x08, 0x10, 0x7F],
        'O' | 'o' => [0x3E, 0x41, 0x41, 0x41, 0x3E],
        'P' | 'p' => [0x7F, 0x09, 0x09, 0x09, 0x06],
        'Q' | 'q' => [0x3E, 0x41, 0x51, 0x21, 0x5E],
        'R' | 'r' => [0x7F, 0x09, 0x19, 0x29, 0x46],
        'S' | 's' => [0x46, 0x49, 0x49, 0x49, 0x31],
        'T' | 't' => [0x01, 0x01, 0x7F, 0x01, 0x01],
        'U' | 'u' => [0x3F, 0x40, 0x40, 0x40, 0x3F],
        'V' | 'v' => [0x1F, 0x20, 0x40, 0x20, 0x1F],
        'W' | 'w' => [0x7F, 0x20, 0x18, 0x20, 0x7F],
        'X' | 'x' => [0x63, 0x14, 0x08, 0x14, 0x63],
        'Y' | 'y' => [0x07, 0x08, 0x70, 0x08, 0x07],
        'Z' | 'z' => [0x61, 0x51, 0x49, 0x45, 0x43],
        _ => [0, 0, 0, 0, 0],
    };
    assert(r@ =~= glyph(c));
    r
}

/// The scale text is drawn at: 1, or 2 for anything larger.
pub open spec fn norm_scale(scale: i16) -> i16 {
    if scale <= 1 { 1 } else { 2 }
}

pub open spec fn bit_set(b: u8, row: u8) -> bool {
    (b >> row) & 1u8 == 1u8
}

/// The fills for the first `k` pixels of a glyph, column by column and
/// each column from the top.
pub open spec fn glyph_cmds(x: i16, y: i16, cols: Seq<u8>, color: u16, s: i16, k: int) -> Seq<DrawCommand>
    decreases k,
{
    if k <= 0 {
        Seq::empty()
    } else {
        let prev = glyph_cmds(x, y, cols, color, s, k - 1);
        let col = (k - 1) / 7;
        let row = (k - 1) % 7;
        if bit_set(cols[col], row as u8) {
            prev.push(fill_cmd((x + col * s) as i16, (y + row * s) as i16, s, s, color))
        } else {
            prev
        }
    }
}

/// What drawing one character sends.
pub open spec fn char_cmds(x: i16, y: i16, c: char, color: u16, scale: i16) -> Seq<DrawCommand> {
    glyph_cmds(x, y, glyph(c), color, norm_scale(scale), 35)
}

/// Draws one character with its top left corner at `x, y`.
pub fn draw_char<D: DisplaySink>(display: &mut D, x: i16, y: i16, c: char, color: u16, scale: i16)
    ensures
        sent(*old(display), *final(display), char_cmds(x, y, c, color, scale)),
{
    let s: i16 = if scale <= 1 { 1 } else { 2 };
    let cols = font_columns(c);
    let ghost start = *display;
    proof { lemma_sent_nothing(start); }
    let mut col: usize = 0;
    while col < 5
        invariant
            col <= 5, s == norm_scale(scale), cols@ == glyph(c),
            sent(start, *display, glyph_cmds(x, y, cols@, color, s, (col * 7) as int)),
        decreases 5 - col,
    {
        let bits = cols[col];
        let mut row: u8 = 0;
        while row < 7
            invariant
                col < 5, row <= 7, s == norm_scale(scale), cols@ == glyph(c), bits == cols@[col as int],
                sent(start, *display, glyph_cmds(x, y, cols@, color, s, (col * 7 + row) as int)),
            decreases 7 - row,
        {
            let ghost before = *display;
            let ghost k: int = (col * 7 + row) as int;
            assert((k + 1 - 1) / 7 == col as int && (k + 1 - 1) % 7 == row as int);
            if (bits >> row) & 1 == 1 {
                let dx: i32 = if s == 1 { col as i32 } else { 2 * col as i32 };
                let dy: i32 = if s == 1 { row as i32 } else { 2 * row as i32 };
                #[verifier::truncate]
                let px = (x as i32 + dx) as i16;
                #[verifier::truncate]
                let py = (y as i32 + dy) as i16;
                fill_rect(display, px, py, s, s, color);
                proof {
                    lemma_sent_then(start, before, *display, glyph_cmds(x, y, cols@, color, s, k), fill_cmds(px, py, s, s, color));
                    assert(glyph_cmds(x, y, cols@, color, s, k) + fill_cmds(px, py, s, s, color) =~= glyph_cmds(x, y, cols@, color, s, k + 1));
                }
            } else {
                assert(glyph_cmds(x, y, cols@, color, s, k) =~= glyph_cmds(x, y, cols@, color, s, k + 1));
            }
            row += 1;
        }
        col += 1;
    }
}

// ---------------------------------------------------------------------------
// Lines of text.

/// How far the pen moves per character.
pub open spec fn text_step(scale: i16) -> int {
    6 * norm_scale(scale)
}

/// What drawing `s` from `x, y` sends: each character one step to the right
/// of the one before (coordinates wrap at 16 bits).
pub open spec fn text_cmds(x: i16, y: i16, s: Seq<char>, color: u16, scale: i16) -> Seq<DrawCommand>
    decreases s.len(),
{
    if s.len() == 0 {
        Seq::empty()
    } else {
        text_cmds(x, y, s.drop_last(), color, scale)
            + char_cmds((x + (s.len() - 1) * text_step(scale)) as i16, y, s.last(), color, scale)
    }
}

fn draw_chars<D: DisplaySink>(display: &mut D, x: i16, y: i16, text: &str, color: u16, scale: i16, count: usize)
    requires
        count <= text@.len(),
    ensures
        sent(*old(display), *final(display), text_cmds(x, y, text@.take(count as int), color, scale)),
{
    let ghost start = *display;
    proof {
        lemma_sent_nothing(start);
        assert(text@.take(0) =~= Seq::<char>::empty());
    }
    let mut i: usize = 0;
    while i < count
        invariant
            i <= count <= text@.len(),
            sent(start, *display, text_cmds(x, y, text@.take(i as int), color, scale)),
        decreases count - i,
    {
        let c = text.get_char(i);
        let off: i128 = if scale <= 1 { 6 * (i as i128) } else { 12 * (i as i128) };
        #[verifier::truncate]
        let cx = (x as i128 + off) as i16;
        let ghost before = *display;
        draw_char(display, cx, y, c, color, scale);
        proof {
            let t = text@.take(i + 1);
            assert(t.drop_last() =~= text@.take(i as int));
            assert(t.last() == c);
            let st = text_step(scale);
            assert(st == 6 || st == 12);
            assert(off == (t.len() - 1) * st) by (nonlinear_arith)
                requires
                    t.len() - 1 == i as int,
                    (st == 6 && off == 6 * (i as int)) || (st == 12 && off == 12 * (i as int));
            assert(cx == (x + (t.len() - 1) * st) as i16);
            lemma_sent_then(start, before, *display, text_cmds(x, y, text@.take(i as int), color, scale), char_cmds(cx, y, c, color, scale));
        }
        i += 1;
    }
}

/// Draws `text` from `x, y`, six pixels per character at scale 1.
pub fn draw_text<D: DisplaySink>(display: &mut D, x: i16, y: i16, text: &str, color: u16, scale: i16)
    ensures
        sent(*old(display), *final(display), text_cmds(x, y, text@, color, scale)),
{
    let n = text.unicode_len();
    draw_chars(display, x, y, text, color, scale, n);
    assert(text@.take(n as int) =~= text@);
}

/// Draws at most `max_chars` characters of `text`.
pub fn draw_text_limited<D: DisplaySink>(
    display: &mut D,
    x: i16,
    y: i16,
    text: &str,
    color: u16,
    scale: i16,
    max_chars: usize,
)
    ensures
        sent(*old(display), *final(display), text_cmds(
            x,
            y,
            text@.take(if text@.len() < max_chars { text@.len() as int } else { max_chars as int }),
            color,
            scale,
        )),
{
    let n = text.unicode_len();
    let count = if n < max_chars { n } else { max_chars };
    draw_chars(display, x, y, text, color, scale, count);
}

/// Where centred text starts: half the spare width in from `x`, never left
/// of it (16-bit arithmetic, wrapping).
pub open spec fn centered_x(x: i16, w: i16, len: nat, scale: i16) -> i16 {
    let s = norm_scale(scale);
    let n = len as i16;
    let text_width = (n * 6 * s - s) as i16;
    let half = trunc_div((w - text_width) as i16 as int, 2);
    (x + if half > 0 { half } else { 0 }) as i16
}

/// Draws `text` centred in the `w` pixels from `x`.
/// What `draw_centered_text` sends: `text` centred in the box of width
/// `w` at `x`.
pub open spec fn centered_cmds(x: i16, y: i16, w: i16, text: Seq<char>, color: u16, scale: i16) -> Seq<DrawCommand> {
    text_cmds(centered_x(x, w, text.len(), scale), y, text, color, norm_scale(scale))
}

pub fn draw_centered_text<D: DisplaySink>(
    display: &mut D,
    x: i16,
    y: i16,
    w: i16,
    text: &str,
    color: u16,
    scale: i16,
)
    ensures
        sent(*old(display), *final(display), text_cmds(
            centered_x(x, w, text@.len(), scale),
            y,
            text@,
            color,
            norm_scale(scale),
        )),
{
    let s: i32 = if scale <= 1 { 1 } else { 2 };
    let count = text.unicode_len();
    #[verifier::truncate]
    let n = count as i16;
    #[verifier::truncate]
    let text_width = (n as i32 * 6 * s - s) as i16;
    #[verifier::truncate]
    let spare = (w as i32 - text_width as i32) as i16;
    let half: i32 = if spare >= 0 { spare as i32 / 2 } else { -((-(spare as i32)) / 2) };
    #[verifier::truncate]
    let start = (x as i32 + if half > 0 { half } else { 0 }) as i16;
    draw_text(display, start, y, text, color, s as i16);
}


// ---------------------------------------------------------------------------
// Smoothed text: each glyph scaled up with its edges blended.

/// Whether the glyph pixel at `col, row` is set; nothing is set outside
/// the five by seven grid.
pub open spec fn spec_bit_val(cols: Seq<u8>, col: int, row: int) -> int {
    if col < 0 || col >= 5 || row < 0 || row >= 7 {
        0
    } else if bit_set(cols[col], row as u8) {
        1
    } else {
        0
    }
}

fn font_bit_val(cols: &[u8; 5], col: i32, row: i32) -> (r: u32)
    ensures
        r == spec_bit_val(cols@, col as int, row as int),
        r <= 1,
{
    if col < 0 || col >= 5 || row < 0 || row >= 7 {
        return 0;
    }
    if (cols[col as usize] >> (row as u8)) & 1 == 1 {
        1
    } else {
        0
    }
}

/// How much of output pixel `ox, oy` the glyph covers, in fifths of full
/// ink rounded to 0 (none), 2, 3 or 4 (full): the pixel centre is sampled
/// between the four nearest glyph pixels, bilinearly.
pub open spec fn spec_aa_coverage(cols: Seq<u8>, ox: int, oy: int, scale: int) -> u8 {
    let w = 2 * scale;
    let cx = 2 * ox + 1;
    let cy = 2 * oy + 1;
    let col = cx / w;
    let row = cy / w;
    let dx = cx % w;
    let dy = cy % w;
    let coverage = spec_bit_val(cols, col, row) * (w - dx) * (w - dy)
        + spec_bit_val(cols, col + 1, row) * dx * (w - dy)
        + spec_bit_val(cols, col, row + 1) * (w - dx) * dy
        + spec_bit_val(cols, col + 1, row + 1) * dx * dy;
    let max_val = w * w;
    let alpha = (coverage * 4 + max_val / 2) / max_val;
    if alpha == 0 {
        0
    } else if alpha + 1 < 4 {
        (alpha + 1) as u8
    } else {
        4
    }
}

proof fn lemma_products(a: int, b: int, w: int)
    requires
        0 <= a <= w, 0 <= b <= w, 0 < w <= 120,
    ensures
        0 <= a * b <= w * w, w * w <= 14400,
{
    assert(0 <= a * b <= w * w) by (nonlinear_arith)
        requires 0 <= a <= w, 0 <= b <= w;
    assert(w * w <= 14400) by (nonlinear_arith)
        requires 0 < w <= 120;
}

fn compute_aa_coverage(cols: &[u8; 5], ox: usize, oy: usize, scale: usize) -> (r: u8)
    requires
        1 <= scale <= 60, ox < 5 * scale, oy < 7 * scale,
    ensures
        r == spec_aa_coverage(cols@, ox as int, oy as int, scale as int),
        r <= 4,
{
    let w: u32 = 2 * scale as u32;
    let cx: u32 = 2 * ox as u32 + 1;
    let cy: u32 = 2 * oy as u32 + 1;
    let col = (cx / w) as i32;
    let row = (cy / w) as i32;
    let dx = cx % w;
    let dy = cy % w;
    let wx0 = w - dx;
    let wx1 = dx;
    let wy0 = w - dy;
    let wy1 = dy;
    proof {
        lemma_products(wx0 as int, wy0 as int, w as int);
        lemma_products(wx1 as int, wy0 as int, w as int);
        lemma_products(wx0 as int, wy1 as int, w as int);
        lemma_products(wx1 as int, wy1 as int, w as int);
    }
    let b00 = font_bit_val(cols, col, row);
    let b10 = font_bit_val(cols, col + 1, row);
    let b01 = font_bit_val(cols, col, row + 1);
    let b11 = font_bit_val(cols, col + 1, row + 1);
    let p00 = wx0 * wy0;
    let p10 = wx1 * wy0;
    let p01 = wx0 * wy1;
    let p11 = wx1 * wy1;
    proof {
        assert(b00 * p00 <= 14400 && b10 * p10 <= 14400 && b01 * p01 <= 14400 && b11 * p11 <= 14400) by (nonlinear_arith)
            requires b00 <= 1, b10 <= 1, b01 <= 1, b11 <= 1, p00 <= 14400, p10 <= 14400, p01 <= 14400, p11 <= 14400;
        assert(w * w >= 4) by (nonlinear_arith)
            requires w >= 2;
    }
    let coverage = b00 * p00 + b10 * p10 + b01 * p01 + b11 * p11;
    let max_val = w * w;
    let alpha = (coverage * 4 + max_val / 2) / max_val;
    proof {
        assert(b00 * p00 == spec_bit_val(cols@, col as int, row as int) * (w - dx) * (w - dy)) by (nonlinear_arith)
            requires b00 == spec_bit_val(cols@, col as int, row as int), p00 == wx0 * wy0, wx0 == w - dx, wy0 == w - dy;
        assert(b10 * p10 == spec_bit_val(cols@, col + 1, row as int) * dx * (w - dy)) by (nonlinear_arith)
            requires b10 == spec_bit_val(cols@, col + 1, row as int), p10 == wx1 * wy0, wx1 == dx, wy0 == w - dy;
        assert(b01 * p01 == spec_bit_val(cols@, col as int, row + 1) * (w - dx) * dy) by (nonlinear_arith)
            requires b01 == spec_bit_val(cols@, col as int, row + 1), p01 == wx0 * wy1, wx0 == w - dx, wy1 == dy;
        assert(b11 * p11 == spec_bit_val(cols@, col + 1, row + 1) * dx * dy) by (nonlinear_arith)
            requires b11 == spec_bit_val(cols@, col + 1, row + 1), p11 == wx1 * wy1, wx1 == dx, wy1 == dy;
    }
    if alpha == 0 {
        0
    } else if alpha + 1 < 4 {
        (alpha + 1) as u8
    } else {
        4
    }
}

/// The colour of output pixel `ox, oy` of a smoothed glyph.
pub open spec fn aa_color(cols: Seq<u8>, ox: int, oy: int, scale: int, fg: u16, bg: u16) -> u16 {
    crate::theme::spec_blend(bg, fg, spec_aa_coverage(cols, ox, oy, scale))
}

/// The runs of equal colour among the first `n` pixels of row `oy`, as
/// start, length and colour.
pub open spec fn row_runs(cols: Seq<u8>, oy: int, scale: int, fg: u16, bg: u16, n: int) -> Seq<(int, int, u16)>
    decreases n,
{
    if n <= 0 {
        Seq::empty()
    } else {
        let r = row_runs(cols, oy, scale, fg, bg, n - 1);
        let c = aa_color(cols, n - 1, oy, scale, fg, bg);
        if r.len() > 0 && r.last().2 == c {
            r.update(r.len() - 1, (r.last().0, r.last().1 + 1, c))
        } else {
            r.push((n - 1, 1, c))
        }
    }
}

/// One fill per run, one pixel high.
pub open spec fn run_fills(x: i16, y: i16, runs: Seq<(int, int, u16)>) -> Seq<DrawCommand> {
    Seq::new(runs.len(), |i: int| fill_cmd((x + runs[i].0) as i16, y, runs[i].1 as i16, 1, runs[i].2))
}

/// What drawing the first `k` rows of a smoothed glyph sends.
pub open spec fn aa_rows(x: i16, y: i16, cols: Seq<u8>, scale: int, fg: u16, bg: u16, k: int) -> Seq<DrawCommand>
    decreases k,
{
    if k <= 0 {
        Seq::empty()
    } else {
        aa_rows(x, y, cols, scale, fg, bg, k - 1)
            + run_fills(x, (y + (k - 1)) as i16, row_runs(cols, k - 1, scale, fg, bg, 5 * scale))
    }
}

/// What drawing one smoothed character sends.
pub open spec fn aa_char_cmds(x: i16, y: i16, c: char, fg: u16, bg: u16, scale: i16) -> Seq<DrawCommand> {
    aa_rows(x, y, glyph(c), scale as int, fg, bg, 7 * scale)
}

proof fn lemma_run_lengths(cols: Seq<u8>, oy: int, scale: int, fg: u16, bg: u16, n: int)
    requires
        n >= 0,
    ensures
        forall|i: int| 0 <= i < row_runs(cols, oy, scale, fg, bg, n).len() ==>
            0 <= #[trigger] row_runs(cols, oy, scale, fg, bg, n)[i].0 < n
            && 1 <= row_runs(cols, oy, scale, fg, bg, n)[i].1 <= n,
        n > 0 ==> row_runs(cols, oy, scale, fg, bg, n).len() > 0,
    decreases n,
{
    if n > 0 {
        lemma_run_lengths(cols, oy, scale, fg, bg, n - 1);
        let r = row_runs(cols, oy, scale, fg, bg, n - 1);
        let c = aa_color(cols, n - 1, oy, scale, fg, bg);
        let r2 = row_runs(cols, oy, scale, fg, bg, n);
        if r.len() > 0 && r.last().2 == c {
            assert forall|i: int| 0 <= i < r2.len() implies 0 <= #[trigger] r2[i].0 < n && 1 <= r2[i].1 <= n by {
                if i != r.len() - 1 {
                    assert(r2[i] == r[i]);
                }
            }
        } else {
            assert forall|i: int| 0 <= i < r2.len() implies 0 <= #[trigger] r2[i].0 < n && 1 <= r2[i].1 <= n by {
                if i < r.len() {
                    assert(r2[i] == r[i]);
                }
            }
        }
    }
}

/// Draws one character scaled `scale` times with smoothed edges, blending
/// `fg` into `bg`, as runs of equal colour per pixel row.
pub fn draw_char_aa<D: DisplaySink>(display: &mut D, x: i16, y: i16, c: char, fg: u16, bg: u16, scale: i16)
    requires
        0 <= scale <= 60,
    ensures
        sent(*old(display), *final(display), aa_char_cmds(x, y, c, fg, bg, scale)),
{
    let s: usize = scale as usize;
    let char_w: usize = 5 * s;
    let char_h: usize = 7 * s;
    let cols = font_columns(c);
    let ghost start = *display;
    proof { lemma_sent_nothing(start); }
    let mut oy: usize = 0;
    while oy < char_h
        invariant
            s == scale, char_w == 5 * s, char_h == 7 * s, s <= 60, oy <= char_h, cols@ == glyph(c),
            sent(start, *display, aa_rows(x, y, cols@, s as int, fg, bg, oy as int)),
        decreases char_h - oy,
    {
        #[verifier::truncate]
        let row_y = (y as i32 + oy as i32) as i16;
        let ghost row_start = *display;
        draw_aa_row(display, x, row_y, &cols, oy, s, fg, bg);
        proof {
            lemma_sent_then(start, row_start, *display, aa_rows(x, y, cols@, s as int, fg, bg, oy as int),
                run_fills(x, row_y, row_runs(cols@, oy as int, s as int, fg, bg, 5 * s)));
        }
        oy += 1;
    }
}

fn draw_aa_row<D: DisplaySink>(display: &mut D, x: i16, row_y: i16, cols: &[u8; 5], oy: usize, s: usize, fg: u16, bg: u16)
    requires
        1 <= s <= 60, oy < 7 * s,
    ensures
        sent(*old(display), *final(display), run_fills(x, row_y, row_runs(cols@, oy as int, s as int, fg, bg, 5 * s))),
{
    let char_w: usize = 5 * s;
    let ghost row_start = *display;
    proof { lemma_sent_nothing(row_start); }
    let mut run_start: usize = 0;
    let mut run_len: i16 = 0;
    let mut run_color: u16 = 0;
    let mut ox: usize = 0;
    while ox < char_w
        invariant
            1 <= s <= 60, char_w == 5 * s, ox <= char_w, oy < 7 * s,
            ox == 0 ==> run_len == 0,
            ox > 0 ==> run_len > 0 && run_len <= ox && run_start < ox
                && row_runs(cols@, oy as int, s as int, fg, bg, ox as int).len() > 0
                && row_runs(cols@, oy as int, s as int, fg, bg, ox as int).last() == (run_start as int, run_len as int, run_color),
            sent(row_start, *display, run_fills(x, row_y,
                if ox == 0 { Seq::empty() } else { row_runs(cols@, oy as int, s as int, fg, bg, ox as int).drop_last() })),
        decreases char_w - ox,
    {
        proof { lemma_run_lengths(cols@, oy as int, s as int, fg, bg, ox as int); }
        let alpha = compute_aa_coverage(cols, ox, oy, s);
        let color = crate::theme::rgb565_blend(bg, fg, alpha);
        let ghost prev = row_runs(cols@, oy as int, s as int, fg, bg, ox as int);
        let ghost next = row_runs(cols@, oy as int, s as int, fg, bg, ox + 1);
        let ghost before = *display;
        if run_len > 0 && color == run_color {
            run_len += 1;
            assert(next.drop_last() =~= prev.drop_last());
        } else {
            if run_len > 0 {
                #[verifier::truncate]
                let run_x = (x as i32 + run_start as i32) as i16;
                fill_rect(display, run_x, row_y, run_len, 1, run_color);
                proof {
                    assert(next.drop_last() =~= prev);
                    lemma_sent_then(row_start, before, *display, run_fills(x, row_y, prev.drop_last()),
                        fill_cmds(run_x, row_y, run_len, 1, run_color));
                    assert(run_fills(x, row_y, prev) =~= run_fills(x, row_y, prev.drop_last())
                        + fill_cmds(run_x, row_y, run_len, 1, run_color));
                }
            } else {
                assert(next.drop_last() =~= Seq::<(int, int, u16)>::empty());
            }
            run_start = ox;
            run_len = 1;
            run_color = color;
        }
        ox += 1;
    }
    proof { lemma_run_lengths(cols@, oy as int, s as int, fg, bg, char_w as int); }
    let ghost all = row_runs(cols@, oy as int, s as int, fg, bg, char_w as int);
    let ghost before = *display;
    #[verifier::truncate]
    let run_x = (x as i32 + run_start as i32) as i16;
    fill_rect(display, run_x, row_y, run_len, 1, run_color);
    proof {
        lemma_sent_then(row_start, before, *display, run_fills(x, row_y, all.drop_last()),
            fill_cmds(run_x, row_y, run_len, 1, run_color));
        assert(run_fills(x, row_y, all) =~= run_fills(x, row_y, all.drop_last())
            + fill_cmds(run_x, row_y, run_len, 1, run_color));
    }
}

/// What drawing `s` smoothed sends: each character six `scale` steps to the
/// right of the one before.
pub open spec fn aa_text_cmds(x: i16, y: i16, s: Seq<char>, fg: u16, bg: u16, scale: i16) -> Seq<DrawCommand>
    decreases s.len(),
{
    if s.len() == 0 {
        Seq::empty()
    } else {
        aa_text_cmds(x, y, s.drop_last(), fg, bg, scale)
            + aa_char_cmds((x + (s.len() - 1) * (6 * scale)) as i16, y, s.last(), fg, bg, scale)
    }
}

/// Draws `text` with smoothed edges.
pub fn draw_text_aa<D: DisplaySink>(display: &mut D, x: i16, y: i16, text: &str, fg: u16, bg: u16, scale: i16)
    requires
        0 <= scale <= 60,
    ensures
        sent(*old(display), *final(display), aa_text_cmds(x, y, text@, fg, bg, scale)),
{
    let n = text.unicode_len();
    let ghost start = *display;
    proof {
        lemma_sent_nothing(start);
        assert(text@.take(0) =~= Seq::<char>::empty());
    }
    let mut i: usize = 0;
    while i < n
        invariant
            i <= n, n == text@.len(), 0 <= scale <= 60,
            sent(start, *display, aa_text_cmds(x, y, text@.take(i as int), fg, bg, scale)),
        decreases n - i,
    {
        let c = text.get_char(i);
        proof {
            assert((i as int) * (6 * scale) <= 360 * (usize::MAX as int)) by (nonlinear_arith)
                requires 0 <= scale <= 60, i <= usize::MAX;
            assert((i as int) * (6 * scale) >= 0) by (nonlinear_arith)
                requires 0 <= scale <= 60, i >= 0;
        }
        let off: i128 = (i as i128) * (6 * scale as i128);
        #[verifier::truncate]
        let cx = (x as i128 + off) as i16;
        let ghost before = *display;
        draw_char_aa(display, cx, y, c, fg, bg, scale);
        proof {
            let t = text@.take(i + 1);
            assert(t.drop_last() =~= text@.take(i as int));
            assert(t.last() == c);
            lemma_sent_then(start, before, *display, aa_text_cmds(x, y, text@.take(i as int), fg, bg, scale),
                aa_char_cmds(cx, y, c, fg, bg, scale));
        }
        i += 1;
    }
    assert(text@.take(n as int) =~= text@);
}

/// Where smoothed text centred in a `w` by `h` box starts (16-bit
/// arithmetic, wrapping).
pub open spec fn aa_centered_origin(x: i16, y: i16, w: i16, h: i16, len: nat, scale: i16) -> (i16, i16) {
    let n = len as i16;
    let char_w = (5 * scale) as i16;
    let gap = scale;
    let between = if (n - 1) as i16 > 0 { (n - 1) as i16 } else { 0 };
    let text_width = (n * char_w + between * gap) as i16;
    let text_height = (7 * scale) as i16;
    let half_w = trunc_div((w - text_width) as i16 as int, 2);
    let half_h = trunc_div((h - text_height) as i16 as int, 2);
    ((x + if half_w > 0 { half_w } else { 0 }) as i16, (y + if half_h > 0 { half_h } else { 0 }) as i16)
}

/// Draws smoothed `text` centred in the box at `x, y` of `w` by `h`.
pub fn draw_centered_text_aa<D: DisplaySink>(
    display: &mut D,
    x: i16,
    y: i16,
    w: i16,
    h: i16,
    text: &str,
    fg: u16,
    bg: u16,
    scale: i16,
)
    requires
        0 <= scale <= 60,
    ensures
        sent(*old(display), *final(display), aa_text_cmds(
            aa_centered_origin(x, y, w, h, text@.len(), scale).0,
            aa_centered_origin(x, y, w, h, text@.len(), scale).1,
            text@,
            fg,
            bg,
            scale,
        )),
{
    let count = text.unicode_len();
    #[verifier::truncate]
    let n = count as i16;
    let char_w: i16 = 5 * scale;
    let gap = scale;
    #[verifier::truncate]
    let n1 = (n as i32 - 1) as i16;
    let between: i16 = if n1 > 0 { n1 } else { 0 };
    proof {
        assert(-32768 * 300 <= n * char_w <= 32767 * 300) by (nonlinear_arith)
            requires -32768 <= n <= 32767, 0 <= char_w <= 300;
        assert(0 <= between * gap <= 32767 * 60) by (nonlinear_arith)
            requires 0 <= between <= 32767, 0 <= gap <= 60;
    }
    #[verifier::truncate]
    let text_width = (n as i64 * char_w as i64 + between as i64 * gap as i64) as i16;
    let text_height: i16 = 7 * scale;
    #[verifier::truncate]
    let spare_w = (w as i32 - text_width as i32) as i16;
    #[verifier::truncate]
    let spare_h = (h as i32 - text_height as i32) as i16;
    let half_w: i32 = if spare_w >= 0 { spare_w as i32 / 2 } else { -((-(spare_w as i32)) / 2) };
    let half_h: i32 = if spare_h >= 0 { spare_h as i32 / 2 } else { -((-(spare_h as i32)) / 2) };
    #[verifier::truncate]
    let start_x = (x as i32 + if half_w > 0 { half_w } else { 0 }) as i16;
    #[verifier::truncate]
    let start_y = (y as i32 + if half_h > 0 { half_h } else { 0 }) as i16;
    draw_text_aa(display, start_x, start_y, text, fg, bg, scale);
}


// ---------------------------------------------------------------------------
// Wrapped text.

/// The position of the first character at or after `i` that is not a space.
pub open spec fn skip_spaces(s: Seq<char>, i: int) -> int
    decreases s.len() - i,
{
    if 0 <= i < s.len() && s[i] == ' ' { skip_spaces(s, i + 1) } else { i }
}

/// The position of the last space among the first `m` characters, or -1.
pub open spec fn last_space_before(s: Seq<char>, m: int) -> int
    decreases m,
{
    if m <= 0 {
        -1
    } else if s[m - 1] == ' ' {
        m - 1
    } else {
        last_space_before(s, m - 1)
    }
}

/// How many characters of `s` go on the next line: all when they fit;
/// otherwise up to the last space among the first `max` characters, or
/// `max - 1` characters when there is none.
pub open spec fn line_len(s: Seq<char>, max: int) -> int {
    if s.len() < max || max == 0 {
        s.len() as int
    } else {
        let p = last_space_before(s, max);
        if p > 0 { p } else { max - 1 }
    }
}

/// What drawing `s` wrapped into at most `lines` lines of at most `max`
/// characters sends; leading spaces of each line are dropped, and each line
/// is ten pixels (twenty at scale 2) below the one before.
pub open spec fn wrapped_cmds(x: i16, y: i16, s: Seq<char>, color: u16, scale: i16, max: int, lines: int) -> Seq<DrawCommand>
    decreases lines,
{
    if lines <= 0 {
        Seq::empty()
    } else {
        let t = s.skip(skip_spaces(s, 0));
        if t.len() == 0 {
            Seq::empty()
        } else {
            let k = line_len(t, max);
            let line = t.take(k);
            text_cmds(x, y, line.take(if k < max { k } else { max }), color, scale)
                + wrapped_cmds(x, (y + 10 * norm_scale(scale)) as i16, t.skip(k), color, scale, max, lines - 1)
        }
    }
}

proof fn lemma_skip_spaces_bounds(s: Seq<char>, i: int)
    requires
        0 <= i <= s.len(),
    ensures
        i <= skip_spaces(s, i) <= s.len(),
    decreases s.len() - i,
{
    if i < s.len() && s[i] == ' ' {
        lemma_skip_spaces_bounds(s, i + 1);
    }
}

proof fn lemma_last_space_bounds(s: Seq<char>, m: int)
    ensures
        -1 <= last_space_before(s, m) < (if m > 0 { m } else { 0 }),
    decreases m,
{
    if m > 0 {
        lemma_last_space_bounds(s, m - 1);
    }
}

fn leading_spaces(s: &str) -> (r: usize)
    ensures
        r == skip_spaces(s@, 0),
{
    let n = s.unicode_len();
    let mut lead: usize = 0;
    while lead < n && s.get_char(lead) == ' '
        invariant
            lead <= n, n == s@.len(),
            skip_spaces(s@, 0) == skip_spaces(s@, lead as int),
        decreases n - lead,
    {
        lead += 1;
    }
    lead
}

fn last_space_within(s: &str, max: usize) -> (r: i128)
    ensures
        s@.len() >= max ==> r == last_space_before(s@, max as int),
{
    let m = s.unicode_len();
    let mut last_space: i128 = -1;
    let mut j: usize = 0;
    while j < m && j < max
        invariant
            j <= m, m == s@.len(), j <= max,
            last_space == last_space_before(s@, j as int),
        decreases m - j,
    {
        if s.get_char(j) == ' ' {
            last_space = j as i128;
        }
        j += 1;
    }
    last_space
}

/// Draws `text` wrapped at spaces into at most `max_lines` lines of at most
/// `max_chars_per_line` characters.
pub fn draw_wrapped_text<D: DisplaySink>(
    display: &mut D,
    x: i16,
    y: i16,
    text: &str,
    color: u16,
    scale: i16,
    max_chars_per_line: usize,
    max_lines: usize,
)
    ensures
        sent(*old(display), *final(display), wrapped_cmds(x, y, text@, color, scale, max_chars_per_line as int, max_lines as int)),
{
    let line_step: i16 = if scale <= 1 { 10 } else { 20 };
    let ghost start = *display;
    let ghost whole = wrapped_cmds(x, y, text@, color, scale, max_chars_per_line as int, max_lines as int);
    proof {
        lemma_sent_nothing(start);
        assert(Seq::<DrawCommand>::empty() + whole =~= whole);
    }
    let mut cursor: &str = text;
    let mut yy: i16 = y;
    let mut done: usize = 0;
    let ghost mut part: Seq<DrawCommand> = Seq::empty();
    while done < max_lines
        invariant_except_break
            done <= max_lines,
            sent(start, *display, part),
            part + wrapped_cmds(x, yy, cursor@, color, scale, max_chars_per_line as int, (max_lines - done) as int) == whole,
        invariant
            line_step == 10 * norm_scale(scale),
        ensures
            sent(start, *display, whole),
        decreases max_lines - done,
    {
        let n = cursor.unicode_len();
        let lead = leading_spaces(cursor);
        proof { lemma_skip_spaces_bounds(cursor@, 0); }
        let trimmed = cursor.substring_char(lead, n);
        assert(trimmed@ =~= cursor@.skip(skip_spaces(cursor@, 0)));
        let m = trimmed.unicode_len();
        if m == 0 {
            assert(wrapped_cmds(x, yy, cursor@, color, scale, max_chars_per_line as int, (max_lines - done) as int) =~= Seq::<DrawCommand>::empty());
            assert(part =~= whole);
            break;
        }
        let last_space = last_space_within(trimmed, max_chars_per_line);
        let k: usize = if m < max_chars_per_line || max_chars_per_line == 0 {
            m
        } else if last_space > 0 {
            last_space as usize
        } else {
            max_chars_per_line - 1
        };
        proof {
            lemma_last_space_bounds(trimmed@, max_chars_per_line as int);
            assert(k == line_len(trimmed@, max_chars_per_line as int));
        }
        let line = trimmed.substring_char(0, k);
        let ghost before = *display;
        draw_text_limited(display, x, yy, line, color, scale, max_chars_per_line);
        let rest = trimmed.substring_char(k, m);
        proof {
            assert(line@ =~= trimmed@.take(k as int));
            assert(rest@ =~= trimmed@.skip(k as int));
        }
        #[verifier::truncate]
        let next_y = (yy as i32 + line_step as i32) as i16;
        proof {
            let t = cursor@.skip(skip_spaces(cursor@, 0));
            let rem = (max_lines - done) as int;
            assert(t =~= trimmed@);
            assert(t.len() == m);
            assert(line_len(t, max_chars_per_line as int) == k);
            assert(t.take(k as int) =~= line@);
            assert(t.skip(k as int) =~= rest@);
            assert(next_y == (yy + 10 * norm_scale(scale)) as i16);
            assert(rem - 1 == (max_lines - done - 1) as int);
            assert(line@.len() == k);
            assert(wrapped_cmds(x, yy, cursor@, color, scale, max_chars_per_line as int, (max_lines - done) as int)
                == text_cmds(x, yy, line@.take(if k < max_chars_per_line { k as int } else { max_chars_per_line as int }), color, scale)
                    + wrapped_cmds(x, next_y, rest@, color, scale, max_chars_per_line as int, (max_lines - done - 1) as int));
            let drawn_line = text_cmds(x, yy, line@.take(if k < max_chars_per_line { k as int } else { max_chars_per_line as int }), color, scale);
            lemma_sent_then(start, before, *display, part, drawn_line);
            assert(part + drawn_line + wrapped_cmds(x, next_y, rest@, color, scale, max_chars_per_line as int, (max_lines - done - 1) as int) =~= whole);
            part = part + drawn_line;
        }
        cursor = rest;
        yy = next_y;
        done += 1;
    }
}

} // verus!
