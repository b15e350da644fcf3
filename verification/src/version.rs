//! The firmware version: parsing the decimal fields that Cargo hands to the
//! build, and the packed forms in which the version is reported.
use vstd::prelude::*;
use vstd::string::StringSliceAdditionalSpecFns;
use vstd::string::StringExecFns;

verus! {

broadcast use vstd::utf8::group_utf8_lib;

/// A semantic version as it is baked into the firmware.
#[derive(Clone, Copy, Debug, Eq, Ord, PartialEq, PartialOrd)]
pub struct Version {
    pub major: u8,
    pub minor: u8,
    pub patch: u8,
    pub pre: Option<&'static str>,
}

// ---------------------------------------------------------------------------
// Decimal text
// ---------------------------------------------------------------------------

/// The byte is one of the ASCII digits `0` to `9`.
pub open spec fn is_digit_byte(b: u8) -> bool {
    48 <= b <= 57
}

/// Every byte of `s` is an ASCII digit.
pub open spec fn all_digits(s: Seq<u8>) -> bool {
    forall|i: int| 0 <= i < s.len() ==> is_digit_byte(#[trigger] s[i])
}

/// The number that a string of ASCII digits spells in base ten.
pub open spec fn decimal_value(s: Seq<u8>) -> nat
    decreases s.len(),
{
    if s.len() == 0 {
        0
    } else {
        decimal_value(s.drop_last()) * 10 + (s.last() - 48) as nat
    }
}

/// The text is a number that `parse_simple_u8` accepts: at least one digit,
/// nothing but digits, and a value that fits in a `u8`.
pub open spec fn is_simple_u8_text(s: Seq<u8>) -> bool {
    &&& s.len() > 0
    &&& all_digits(s)
    &&& decimal_value(s) <= 255
}

/// The character of a single decimal digit.
pub open spec fn digit_char(d: nat) -> char {
    if d == 0 {
        '0'
    } else if d == 1 {
        '1'
    } else if d == 2 {
        '2'
    } else if d == 3 {
        '3'
    } else if d == 4 {
        '4'
    } else if d == 5 {
        '5'
    } else if d == 6 {
        '6'
    } else if d == 7 {
        '7'
    } else if d == 8 {
        '8'
    } else {
        '9'
    }
}

/// The shortest decimal rendering of `n`, as `to_string` writes it.
pub open spec fn decimal_chars(n: nat) -> Seq<char>
    decreases n,
{
    if n < 10 {
        seq![digit_char(n)]
    } else {
        decimal_chars(n / 10).push(digit_char(n % 10))
    }
}

/// The text that `Version::to_string` produces: `v1.2.3`, followed by
/// `-pre` when there is a pre-release tag.
pub open spec fn version_chars(v: Version) -> Seq<char> {
    let core = seq!['v'] + decimal_chars(v.major as nat) + seq!['.'] + decimal_chars(
        v.minor as nat,
    ) + seq!['.'] + decimal_chars(v.patch as nat);
    match v.pre {
        Some(p) => core + seq!['-'] + p@,
        None => core,
    }
}

/// A prefix of a digit string never spells a larger number than the string.
pub proof fn lemma_decimal_prefix_le(s: Seq<u8>, k: int)
    requires
        all_digits(s),
        0 <= k <= s.len(),
    ensures
        decimal_value(s.take(k)) <= decimal_value(s),
    decreases s.len(),
{
    if k == s.len() {
        assert(s.take(k) =~= s);
    } else {
        let t = s.drop_last();
        assert(all_digits(t)) by {
            assert forall|i: int| 0 <= i < t.len() implies is_digit_byte(#[trigger] t[i]) by {
                assert(t[i] == s[i]);
            }
        }
        lemma_decimal_prefix_le(t, k);
        assert(t.take(k) =~= s.take(k));
        assert(is_digit_byte(s[s.len() - 1]));
    }
}

/// A digit's character is the ASCII byte `48 + d`.
proof fn lemma_digit_char_byte(d: nat)
    requires
        d < 10,
    ensures
        digit_char(d) as u8 == 48 + d,
        '\0' <= digit_char(d) <= '\u{7f}',
{
    assert('0' as u8 == 48);
    assert('9' as u8 == 57);
}

/// The digits of `decimal_chars(n)` are ASCII and spell `n` back.
pub proof fn lemma_decimal_chars_bytes(n: nat)
    ensures
        decimal_chars(n).len() > 0,
        vstd::utf8::is_ascii_chars(decimal_chars(n)),
        all_digits(vstd::utf8::encode_utf8(decimal_chars(n))),
        decimal_value(vstd::utf8::encode_utf8(decimal_chars(n))) == n,
    decreases n,
{
    lemma_digit_char_byte(n % 10);
    let cs = decimal_chars(n);
    if n < 10 {
        assert(vstd::utf8::is_ascii_chars(cs));
    } else {
        lemma_decimal_chars_bytes(n / 10);
        let p = decimal_chars(n / 10);
        assert(cs =~= p + seq![digit_char(n % 10)]);
        assert(vstd::utf8::is_ascii_chars(cs)) by {
            assert forall|i: int| 0 <= i < cs.len() implies '\0' <= #[trigger] cs[i] <= '\u{7f}' by {
                if i < p.len() {
                    assert(cs[i] == p[i]);
                }
            }
        }
    }
    let bs = vstd::utf8::encode_utf8(cs);
    vstd::utf8::is_ascii_chars_encode_utf8(cs);
    assert(forall|i: int| 0 <= i < cs.len() ==> cs[i] as u8 == bs[i]);
    if n < 10 {
        assert(bs.len() == 1);
        assert(bs[0] == digit_char(n) as u8);
        assert(bs.drop_last() =~= Seq::<u8>::empty());
        assert(decimal_value(bs.drop_last()) == 0);
        assert(bs.last() == bs[0]);
        assert(decimal_value(bs) == decimal_value(bs.drop_last()) * 10 + (bs.last() - 48) as nat);
    } else {
        let p = decimal_chars(n / 10);
        let pb = vstd::utf8::encode_utf8(p);
        vstd::utf8::is_ascii_chars_encode_utf8(p);
        assert(bs.drop_last() =~= pb) by {
            assert forall|i: int| 0 <= i < pb.len() implies bs.drop_last()[i] == pb[i] by {
                assert(cs[i] == p[i]);
            }
        }
        assert(cs[cs.len() - 1] == digit_char(n % 10));
        assert(bs.last() == digit_char(n % 10) as u8);
        assert(decimal_value(bs) == decimal_value(bs.drop_last()) * 10 + (bs.last() - 48) as nat);
        assert(all_digits(bs)) by {
            assert forall|i: int| 0 <= i < bs.len() implies is_digit_byte(#[trigger] bs[i]) by {
                if i < pb.len() {
                    assert(bs[i] == bs.drop_last()[i]);
                }
            }
        }
    }
}

/// Parsing undoes rendering: every `u8` written in decimal is accepted by
/// `parse_simple_u8`, and parses back to itself.
pub proof fn lemma_parse_simple_u8_inverts_decimal(v: u8, s: &str)
    requires
        s@ == decimal_chars(v as nat),
    ensures
        is_simple_u8_text(s.spec_bytes()),
        decimal_value(s.spec_bytes()) == v,
{
    lemma_decimal_chars_bytes(v as nat);
}

/// Parses a decimal number of at most three digits, as the build's version
/// fields are written.
pub fn parse_simple_u8(s: &str) -> (value: u8)
    requires
        is_simple_u8_text(s.spec_bytes()),
    ensures
        value == decimal_value(s.spec_bytes()),
{
    let bytes = s.as_bytes();
    let ghost text = bytes@;
    let mut value: u8 = 0;
    let mut i: usize = 0;
    while i < bytes.len()
        invariant
            bytes@ == text,
            is_simple_u8_text(text),
            0 <= i <= text.len(),
            value == decimal_value(text.take(i as int)),
        decreases text.len() - i,
    {
        proof {
            lemma_decimal_prefix_le(text, i + 1);
            assert(text.take(i + 1).drop_last() =~= text.take(i as int));
            assert(is_digit_byte(text[i as int]));
        }
        value = value * 10;
        value = value + (bytes[i] - 48);
        i = i + 1;
    }
    proof {
        assert(text.take(i as int) =~= text);
    }
    value
}

/// Tells whether `parse_simple_u8` accepts the text.
pub fn is_simple_u8(s: &str) -> (ok: bool)
    ensures
        ok == is_simple_u8_text(s.spec_bytes()),
{
    let bytes = s.as_bytes();
    let ghost text = bytes@;
    if bytes.len() == 0 {
        return false;
    }
    let mut value: u32 = 0;
    let mut i: usize = 0;
    while i < bytes.len()
        invariant
            bytes@ == text,
            text == s.spec_bytes(),
            0 < text.len(),
            0 <= i <= text.len(),
            value == decimal_value(text.take(i as int)),
            value <= 255,
            all_digits(text.take(i as int)),
        decreases text.len() - i,
    {
        let b = bytes[i];
        if b < 48 || b > 57 {
            proof {
                assert(!is_digit_byte(text[i as int]));
            }
            return false;
        }
        proof {
            assert(text.take(i + 1).drop_last() =~= text.take(i as int));
        }
        value = value * 10 + (b - 48) as u32;
        proof {
            assert(all_digits(text.take(i + 1))) by {
                assert forall|j: int| 0 <= j < i + 1 implies is_digit_byte(
                    #[trigger] text.take(i + 1)[j],
                ) by {
                    if j < i {
                        assert(text.take(i + 1)[j] == text.take(i as int)[j]);
                    }
                }
            }
        }
        if value > 255 {
            proof {
                if all_digits(text) {
                    lemma_decimal_prefix_le(text, i + 1);
                }
            }
            return false;
        }
        i = i + 1;
    }
    proof {
        assert(text.take(i as int) =~= text);
    }
    true
}

/// An empty text means "absent".
pub fn optional_str(s: &'static str) -> (r: Option<&'static str>)
    ensures
        r == (if s@.len() == 0 {
            None
        } else {
            Some(s)
        }),
{
    if s.is_empty() {
        None
    } else {
        Some(s)
    }
}

/// The number that `Version::encode` packs: major in bits 22 and up, minor
/// in bits 6 to 13, patch in bits 0 to 5.
pub open spec fn encoded_version(major: int, minor: int, patch: int) -> int {
    major * 0x40_0000 + minor * 0x40 + patch
}

/// The USB `bcdDevice` value: major in the high byte, minor in the low byte.
pub open spec fn usb_release_value(major: int, minor: int) -> int {
    major * 0x100 + minor
}

/// `(major, minor, patch)` of `a` comes strictly before that of `b`.
pub open spec fn release_lt(a: Version, b: Version) -> bool {
    ||| a.major < b.major
    ||| (a.major == b.major && a.minor < b.minor)
    ||| (a.major == b.major && a.minor == b.minor && a.patch < b.patch)
}

/// The text of a version starts with `v` and the major number; with a
/// pre-release tag `p` it is the text without the tag, then `-`, then all of
/// `p`.
pub proof fn lemma_version_chars_pre(v: Version)
    ensures
        version_chars(v)[0] == 'v',
        version_chars(v).subrange(1, 1 + (decimal_chars(v.major as nat).len() as int)) == decimal_chars(
            v.major as nat,
        ),
        v.pre matches Some(p) ==> {
            let plain = version_chars(Version { pre: None, ..v });
            let t = version_chars(v);
            &&& t == plain + seq!['-'] + p@
            &&& t.len() == plain.len() + 1 + p@.len()
            &&& t.subrange(t.len() - p@.len(), t.len() as int) == p@
            &&& t[t.len() - p@.len() - 1] == '-'
        },
{
    let t = version_chars(v);
    let m = decimal_chars(v.major as nat);
    assert(t.subrange(1, 1 + (m.len() as int)) =~= m);
    match v.pre {
        Some(p) => {
            let plain = version_chars(Version { pre: None, ..v });
            assert(t =~= plain + seq!['-'] + p@);
            assert(t.subrange(t.len() - p@.len(), t.len() as int) =~= p@);
        },
        None => {},
    }
}

/// `u16::from_be_bytes`: the first byte is the high byte.
#[verifier::external_body]
fn u16_from_be_bytes(bytes: [u8; 2]) -> (r: u16)
    ensures
        r as int == bytes@[0] as int * 256 + bytes@[1] as int,
{
    u16::from_be_bytes(bytes)
}

impl Version {
    /// Builds the version from the package version fields that Cargo puts
    /// into the build environment (`CARGO_PKG_VERSION_MAJOR`, `_MINOR`,
    /// `_PATCH` and `_PRE`).
    pub fn from_env(major: &str, minor: &str, patch: &str, pre: &'static str) -> (v: Version)
        requires
            is_simple_u8_text(major.spec_bytes()),
            is_simple_u8_text(minor.spec_bytes()),
            is_simple_u8_text(patch.spec_bytes()),
        ensures
            v.major == decimal_value(major.spec_bytes()),
            v.minor == decimal_value(minor.spec_bytes()),
            v.patch == decimal_value(patch.spec_bytes()),
            v.pre == (if pre@.len() == 0 {
                None
            } else {
                Some(pre)
            }),
    {
        Version {
            major: parse_simple_u8(major),
            minor: parse_simple_u8(minor),
            patch: parse_simple_u8(patch),
            pre: optional_str(pre),
        }
    }

    /// Packs major, minor and patch into one word; the patch must fit in
    /// six bits.
    pub fn encode(&self) -> (code: u32)
        requires
            self.patch < 64,
        ensures
            code == encoded_version(self.major as int, self.minor as int, self.patch as int),
            code as int == self.major as int * 0x40_0000 + self.minor as int * 0x40
                + self.patch as int,
            code as int / 0x40_0000 == self.major as int,
            (code as int / 0x40) % 0x100 == self.minor as int,
            code as int % 0x40 == self.patch as int,
    {
        let a = self.major as u32;
        let b = self.minor as u32;
        let c = self.patch as u32;
        assert(((a << 22u32) | (b << 6u32) | c) == a * 0x40_0000 + b * 0x40 + c) by (bit_vector)
            requires
                a < 256,
                b < 256,
                c < 64,
        ;
        (a << 22u32) | (b << 6u32) | c
    }

    /// The release number reported to USB hosts: major and minor as the
    /// big-endian bytes of a `u16`.
    pub fn usb_release(&self) -> (release: u16)
        ensures
            release == usb_release_value(self.major as int, self.minor as int),
            release as int / 0x100 == self.major as int,
            release as int % 0x100 == self.minor as int,
    {
        u16_from_be_bytes([self.major, self.minor])
    }

    /// The version as text: `v{major}.{minor}.{patch}`, then `-{pre}` when
    /// there is a pre-release tag.
    pub fn to_string(&self) -> (text: String)
        ensures
            text@ == version_chars(*self),
            text@[0] == 'v',
            self.pre matches Some(p) ==> {
                &&& text@.len() >= p@.len() + 1
                &&& text@.subrange(text@.len() - p@.len(), text@.len() as int) == p@
                &&& text@[text@.len() - p@.len() - 1] == '-'
            },
    {
        proof {
            lemma_version_chars_pre(*self);
        }
        proof {
            reveal_strlit("v");
            reveal_strlit(".");
            reveal_strlit("-");
        }
        let mut text = String::from_str("v");
        append_decimal(&mut text, self.major);
        text.append(".");
        append_decimal(&mut text, self.minor);
        text.append(".");
        append_decimal(&mut text, self.patch);
        match self.pre {
            Some(p) => {
                text.append("-");
                text.append(p);
            },
            None => {},
        }
        proof {
            let core = seq!['v'] + decimal_chars(self.major as nat) + seq!['.'] + decimal_chars(
                self.minor as nat,
            ) + seq!['.'] + decimal_chars(self.patch as nat);
            match self.pre {
                Some(p) => {
                    assert(text@ =~= core + seq!['-'] + p@);
                },
                None => {
                    assert(text@ =~= core);
                },
            }
        }
        text
    }
}

/// The text of one decimal digit.
fn digit_str(d: u8) -> (s: &'static str)
    requires
        d < 10,
    ensures
        s@ == seq![digit_char(d as nat)],
{
    proof {
        reveal_strlit("0");
        reveal_strlit("1");
        reveal_strlit("2");
        reveal_strlit("3");
        reveal_strlit("4");
        reveal_strlit("5");
        reveal_strlit("6");
        reveal_strlit("7");
        reveal_strlit("8");
        reveal_strlit("9");
    }
    if d == 0 {
        "0"
    } else if d == 1 {
        "1"
    } else if d == 2 {
        "2"
    } else if d == 3 {
        "3"
    } else if d == 4 {
        "4"
    } else if d == 5 {
        "5"
    } else if d == 6 {
        "6"
    } else if d == 7 {
        "7"
    } else if d == 8 {
        "8"
    } else {
        "9"
    }
}

/// Appends `n` in decimal.
fn append_decimal(text: &mut String, n: u8)
    ensures
        final(text)@ == old(text)@ + decimal_chars(n as nat),
{
    let ghost start = text@;
    if n >= 100 {
        text.append(digit_str(n / 100));
    }
    if n >= 10 {
        text.append(digit_str((n / 10) % 10));
    }
    text.append(digit_str(n % 10));
    proof {
        let m = n as nat;
        if m >= 100 {
            assert(decimal_chars(m / 100) == seq![digit_char(m / 100)]);
            assert(decimal_chars(m / 10) =~= seq![digit_char(m / 100)].push(digit_char((m / 10) % 10)));
            assert((m / 10) / 10 == m / 100);
        } else if m >= 10 {
            assert(decimal_chars(m / 10) == seq![digit_char(m / 10)]);
            assert((m / 10) % 10 == m / 10);
        }
        assert(text@ =~= start + decimal_chars(m));
    }
}

/// The empty text, any
/// text with a byte that is not an ASCII digit, and the decimal text of any
/// number above 255 are refused.
pub proof fn lemma_simple_u8_text_refuses(s: Seq<u8>, i: int, n: nat)
    ensures
        !is_simple_u8_text(Seq::<u8>::empty()),
        0 <= i < s.len() && !(48 <= s[i] <= 57) ==> !is_simple_u8_text(s),
        n > 255 ==> !is_simple_u8_text(vstd::utf8::encode_utf8(decimal_chars(n))),
{
    lemma_decimal_chars_bytes(n);
}

/// The packed version is unique to `(major, minor, patch)`.
pub proof fn lemma_encode_injective(a: Version, b: Version)
    requires
        a.patch < 64,
        b.patch < 64,
        encoded_version(a.major as int, a.minor as int, a.patch as int) == encoded_version(
            b.major as int,
            b.minor as int,
            b.patch as int,
        ),
    ensures
        a.major == b.major,
        a.minor == b.minor,
        a.patch == b.patch,
{
    lemma_encode_order(a, b);
    lemma_encode_order(b, a);
}

/// The packed versions compare as the releases do: an earlier
/// `(major, minor, patch)` packs to a smaller number, and only then.
pub proof fn lemma_encode_order(a: Version, b: Version)
    requires
        a.patch < 64,
        b.patch < 64,
    ensures
        release_lt(a, b) <==> encoded_version(a.major as int, a.minor as int, a.patch as int)
            < encoded_version(b.major as int, b.minor as int, b.patch as int),
{
}

/// The USB release number compares as `(major, minor)` does, and is unique
/// to it.
pub proof fn lemma_usb_release_order(a: Version, b: Version)
    ensures
        usb_release_value(a.major as int, a.minor as int) < usb_release_value(
            b.major as int,
            b.minor as int,
        ) <==> (a.major < b.major || (a.major == b.major && a.minor < b.minor)),
        usb_release_value(a.major as int, a.minor as int) == usb_release_value(
            b.major as int,
            b.minor as int,
        ) <==> (a.major == b.major && a.minor == b.minor),
{
}

} // verus!
