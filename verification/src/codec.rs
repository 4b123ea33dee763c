//! The textual encoding of setting values.
//!
//! The `gsettings` command-line tool takes and prints values as text:
//! unsigned and signed integers in decimal, booleans as `true` and
//! `false`.  This module formats values for the tool's command line and
//! parses the value field of its replies, and binds each modeled key to
//! the schema and key names the tool uses.

use vstd::prelude::*;
use vstd::slice::slice_subrange;
use vstd::string::StringSliceAdditionalSpecFns;

use crate::reply;
use crate::settings::DesktopSettings;
use crate::settings::SettingKey;
use crate::settings::SettingValue;
use crate::settings::key_accepts;

verus! {

/// The byte value of the minus sign.
pub const MINUS: u8 = 45;

/// Compares two byte slices for equality.
pub fn bytes_eq(a: &[u8], b: &[u8]) -> (r: bool)
    ensures
        r == (a@ == b@),
{
    if a.len() != b.len() {
        return false;
    }
    let mut i: usize = 0;
    while i < a.len()
        invariant
            a@.len() == b@.len(),
            i <= a@.len(),
            forall|j: int| 0 <= j < i ==> a@[j] == b@[j],
        decreases a@.len() - i,
    {
        if a[i] != b[i] {
            return false;
        }
        i = i + 1;
    }
    proof {
        assert(a@ =~= b@);
    }
    true
}

/// Compares two strings for equality, by their UTF-8 bytes.
pub fn str_eq(a: &str, b: &str) -> (r: bool)
    ensures
        r == (a@ == b@),
{
    let r = bytes_eq(a.as_bytes(), b.as_bytes());
    proof {
        if a.spec_bytes() == b.spec_bytes() {
            vstd::utf8::encode_utf8_decode_utf8(a@);
            vstd::utf8::encode_utf8_decode_utf8(b@);
        }
    }
    r
}

/// Whether `b` is an ASCII decimal digit.
pub open spec fn is_ascii_digit(b: u8) -> bool {
    48 <= b <= 57
}

/// Whether every byte of `s` is an ASCII decimal digit.
pub open spec fn all_digits(s: Seq<u8>) -> bool {
    forall|i: int| 0 <= i < s.len() ==> is_ascii_digit(#[trigger] s[i])
}

/// The number that the digit bytes `s` denote in decimal.
pub open spec fn dec_value(s: Seq<u8>) -> nat
    decreases s.len(),
{
    if s.len() == 0 {
        0
    } else {
        dec_value(s.drop_last()) * 10 + ((s.last() - 48) as nat)
    }
}

/// The decimal digit bytes of `n`, most significant first, with no
/// leading zeros except for `n == 0` itself.
pub open spec fn dec_digits(n: nat) -> Seq<u8>
    decreases n,
{
    if n < 10 {
        seq![(48 + n) as u8]
    } else {
        dec_digits(n / 10) + seq![(48 + n % 10) as u8]
    }
}

/// The decimal digits of `n` are digits, there is at least one of them,
/// and they denote `n`.
pub proof fn lemma_dec_digits(n: nat)
    ensures
        dec_digits(n).len() > 0,
        all_digits(dec_digits(n)),
        dec_value(dec_digits(n)) == n,
    decreases n,
{
    if n < 10 {
        let s = dec_digits(n);
        assert(s =~= seq![(48 + n) as u8]);
        assert(s.drop_last() =~= Seq::<u8>::empty());
        assert(s.last() == (48 + n) as u8);
        assert(((48 + n) as u8) == 48 + n);
        assert(dec_value(s.drop_last()) == 0);
        assert(dec_value(s) == dec_value(s.drop_last()) * 10 + ((s.last() - 48) as nat));
        assert(dec_value(s) == n);
    } else {
        lemma_dec_digits(n / 10);
        let a = dec_digits(n / 10);
        let d = (48 + n % 10) as u8;
        let s = dec_digits(n);
        assert(s =~= a + seq![d]);
        assert(s.drop_last() =~= a);
        assert(s.last() == d);
        assert(((48 + n % 10) as u8) == 48 + n % 10);
        assert(dec_value(s) == dec_value(a) * 10 + (n % 10));
        assert(dec_value(s) == n);
        assert forall|i: int| 0 <= i < s.len() implies is_ascii_digit(s[i]) by {
            if i < a.len() {
                assert(s[i] == a[i]);
            } else {
                assert(s[i] == d);
            }
        }
    }
}

/// Appending digit bytes to digit bytes never lowers the denoted number.
proof fn lemma_dec_value_prefix(s: Seq<u8>, i: int)
    requires
        0 <= i <= s.len(),
        all_digits(s),
    ensures
        dec_value(s) >= dec_value(s.take(i)),
    decreases s.len() - i,
{
    if i < s.len() {
        let t = s.drop_last();
        assert(all_digits(t)) by {
            assert(forall|j: int| 0 <= j < t.len() ==> t[j] == s[j]);
        }
        lemma_dec_value_prefix(t, i);
        assert(t.take(i) =~= s.take(i));
        assert(is_ascii_digit(s.last()));
        assert(dec_value(s) == dec_value(t) * 10 + ((s.last() - 48) as nat));
        assert(dec_value(t) * 10 >= dec_value(t)) by (nonlinear_arith);
    } else {
        assert(s.take(i) =~= s);
    }
}

/// Parses `t` as an unsigned 32-bit decimal number: the whole of `t`
/// must be digits that denote a number within range.
pub fn parse_u32(t: &[u8]) -> (r: Option<u32>)
    ensures
        r is Some <==> (t@.len() > 0 && all_digits(t@) && dec_value(t@) <= u32::MAX),
        r matches Some(n) ==> n == dec_value(t@),
{
    if t.len() == 0 {
        return None;
    }
    let mut acc: u32 = 0;
    let mut i: usize = 0;
    while i < t.len()
        invariant
            0 < t@.len(),
            i <= t@.len(),
            all_digits(t@.take(i as int)),
            acc == dec_value(t@.take(i as int)),
        decreases t@.len() - i,
    {
        let b = t[i];
        proof {
            assert(t@.take(i + 1).drop_last() =~= t@.take(i as int));
            assert(t@.take(i + 1).last() == t@[i as int]);
        }
        if b < 48 || b > 57 {
            proof {
                assert(!is_ascii_digit(t@[i as int]));
            }
            return None;
        }
        let d: u32 = (b - 48) as u32;
        if acc > (u32::MAX - d) / 10 {
            proof {
                let q = ((u32::MAX - d) / 10) as int;
                assert(acc * 10 + d > u32::MAX) by (nonlinear_arith)
                    requires
                        acc > q,
                        q == (0xffff_ffff - d) / 10,
                        0 <= d < 10,
                ;
                assert(all_digits(t@.take(i + 1)));
                assert(dec_value(t@.take(i + 1)) == acc * 10 + d);
                if all_digits(t@) {
                    lemma_dec_value_prefix(t@, i + 1);
                    assert(dec_value(t@) > u32::MAX);
                }
            }
            return None;
        }
        proof {
            let q = ((u32::MAX - d) / 10) as int;
            assert(acc * 10 + d <= u32::MAX) by (nonlinear_arith)
                requires
                    0 <= acc <= q,
                    q == (0xffff_ffff - d) / 10,
                    0 <= d < 10,
            ;
        }
        acc = acc * 10 + d;
        i = i + 1;
    }
    proof {
        assert(t@.take(t@.len() as int) =~= t@);
    }
    Some(acc)
}

/// The signed 32-bit number that `s` denotes: an optional minus sign,
/// then decimal digits, within the range of the type.
pub open spec fn spec_parse_i32(s: Seq<u8>) -> Option<i32> {
    if s.len() > 0 && s[0] == MINUS {
        let d = s.skip(1);
        if d.len() > 0 && all_digits(d) && dec_value(d) <= 0x8000_0000 {
            Some((-(dec_value(d) as int)) as i32)
        } else {
            None
        }
    } else if s.len() > 0 && all_digits(s) && dec_value(s) <= i32::MAX {
        Some(dec_value(s) as i32)
    } else {
        None
    }
}

/// Parses `t` as a signed 32-bit decimal number.
pub fn parse_i32(t: &[u8]) -> (r: Option<i32>)
    ensures
        r == spec_parse_i32(t@),
{
    if t.len() == 0 {
        return None;
    }
    if t[0] == MINUS {
        let d = slice_subrange(t, 1, t.len());
        proof {
            assert(d@ =~= t@.skip(1));
        }
        match parse_u32(d) {
            Some(m) => {
                if m <= 0x8000_0000 {
                    let n: i32 = if m == 0x8000_0000 {
                        i32::MIN
                    } else {
                        -(m as i32)
                    };
                    Some(n)
                } else {
                    None
                }
            },
            None => None,
        }
    } else {
        match parse_u32(t) {
            Some(m) => {
                if m <= i32::MAX as u32 {
                    Some(m as i32)
                } else {
                    None
                }
            },
            None => None,
        }
    }
}

/// The digit bytes of the integer `n`, with a minus sign when `n` is
/// negative.
pub open spec fn int_digits(n: int) -> Seq<u8> {
    if n < 0 {
        seq![MINUS] + dec_digits((-n) as nat)
    } else {
        dec_digits(n as nat)
    }
}

/// Formats `n` as decimal digit bytes.
pub fn format_u32(n: u32) -> (r: Vec<u8>)
    ensures
        r@ == dec_digits(n as nat),
    decreases n,
{
    if n < 10 {
        let mut v: Vec<u8> = Vec::new();
        v.push(48 + n as u8);
        proof {
            assert(v@ =~= dec_digits(n as nat));
        }
        v
    } else {
        let mut v = format_u32(n / 10);
        v.push(48 + (n % 10) as u8);
        proof {
            assert(v@ =~= dec_digits((n / 10) as nat) + seq![(48 + (n as nat) % 10) as u8]);
        }
        v
    }
}

/// Formats `n` as decimal digit bytes with an optional minus sign.
pub fn format_i32(n: i32) -> (r: Vec<u8>)
    ensures
        r@ == int_digits(n as int),
{
    if n >= 0 {
        format_u32(n as u32)
    } else {
        let m64: i64 = -(n as i64);
        let mag: u32 = m64 as u32;
        let mut v: Vec<u8> = Vec::new();
        v.push(MINUS);
        let mut digits = format_u32(mag);
        v.append(&mut digits);
        proof {
            assert(v@ =~= seq![MINUS] + dec_digits((-(n as int)) as nat));
        }
        v
    }
}

/// The bytes of the word `true`.
pub open spec fn true_bytes() -> Seq<u8> {
    seq![116u8, 114u8, 117u8, 101u8]
}

/// The bytes of the word `false`.
pub open spec fn false_bytes() -> Seq<u8> {
    seq![102u8, 97u8, 108u8, 115u8, 101u8]
}

/// The bytes that print the boolean `b`.
pub open spec fn bool_bytes(b: bool) -> Seq<u8> {
    if b {
        true_bytes()
    } else {
        false_bytes()
    }
}

/// The boolean that `s` denotes: exactly the word `true` or `false`.
pub open spec fn spec_parse_boolean(s: Seq<u8>) -> Option<bool> {
    if s == true_bytes() {
        Some(true)
    } else if s == false_bytes() {
        Some(false)
    } else {
        None
    }
}

/// Parses `t` as a boolean word.
pub fn parse_boolean(t: &[u8]) -> (r: Option<bool>)
    ensures
        r == spec_parse_boolean(t@),
{
    if t.len() == 4 && t[0] == 116 && t[1] == 114 && t[2] == 117 && t[3] == 101 {
        proof {
            assert(t@ =~= true_bytes());
        }
        Some(true)
    } else if t.len() == 5 && t[0] == 102 && t[1] == 97 && t[2] == 108 && t[3] == 115 && t[4]
        == 101 {
        proof {
            assert(t@ =~= false_bytes());
        }
        Some(false)
    } else {
        proof {
            if t@ == true_bytes() {
                assert(t@.len() == 4);
                assert(t@[0] == 116 && t@[1] == 114 && t@[2] == 117 && t@[3] == 101);
            }
            if t@ == false_bytes() {
                assert(t@.len() == 5);
                assert(t@[0] == 102 && t@[1] == 97 && t@[2] == 108 && t@[3] == 115 && t@[4]
                    == 101);
            }
        }
        None
    }
}

/// Formats the boolean `b` as the word `true` or `false`.
pub fn format_boolean(b: bool) -> (r: Vec<u8>)
    ensures
        r@ == bool_bytes(b),
{
    let mut v: Vec<u8> = Vec::new();
    if b {
        v.push(116);
        v.push(114);
        v.push(117);
        v.push(101);
        proof {
            assert(v@ =~= true_bytes());
        }
    } else {
        v.push(102);
        v.push(97);
        v.push(108);
        v.push(115);
        v.push(101);
        proof {
            assert(v@ =~= false_bytes());
        }
    }
    v
}

/// The bytes that print `value` on the tool's command line.
pub open spec fn spec_format_value(value: SettingValue) -> Seq<u8> {
    match value {
        SettingValue::Uint(n) => dec_digits(n as nat),
        SettingValue::Int(n) => int_digits(n as int),
        SettingValue::Boolean(b) => bool_bytes(b),
    }
}

/// Formats `value` as the text that the tool takes on its command line.
pub fn format_value(value: &SettingValue) -> (r: Vec<u8>)
    ensures
        r@ == spec_format_value(*value),
{
    match value {
        SettingValue::Uint(n) => format_u32(*n),
        SettingValue::Int(n) => format_i32(*n),
        SettingValue::Boolean(b) => format_boolean(*b),
    }
}

/// The value of `key`'s type that the value field `s` denotes.
pub open spec fn spec_parse_value(key: SettingKey, s: Seq<u8>) -> Option<SettingValue> {
    match spec_default_shape(key) {
        SettingValue::Uint(_) => if s.len() > 0 && all_digits(s) && dec_value(s) <= u32::MAX {
            Some(SettingValue::Uint(dec_value(s) as u32))
        } else {
            None
        },
        SettingValue::Int(_) => match spec_parse_i32(s) {
            Some(n) => Some(SettingValue::Int(n)),
            None => None,
        },
        SettingValue::Boolean(_) => match spec_parse_boolean(s) {
            Some(b) => Some(SettingValue::Boolean(b)),
            None => None,
        },
    }
}

/// A value of the type that `key` holds; only its shape matters.
pub open spec fn spec_default_shape(key: SettingKey) -> SettingValue {
    crate::settings::spec_default_of(key)
}

/// Parses the value field `t` of a reply about `key`.
pub fn parse_value(key: SettingKey, t: &[u8]) -> (r: Option<SettingValue>)
    ensures
        r == spec_parse_value(key, t@),
{
    let shape = crate::settings::default_of(key);
    match shape {
        SettingValue::Uint(_) => match parse_u32(t) {
            Some(n) => Some(SettingValue::Uint(n)),
            None => None,
        },
        SettingValue::Int(_) => match parse_i32(t) {
            Some(n) => Some(SettingValue::Int(n)),
            None => None,
        },
        SettingValue::Boolean(_) => match parse_boolean(t) {
            Some(b) => Some(SettingValue::Boolean(b)),
            None => None,
        },
    }
}

/// The value that the raw reply `out` about `key` denotes.
pub open spec fn spec_decode_reply(key: SettingKey, out: Seq<u8>) -> Option<SettingValue> {
    spec_parse_value(key, reply::spec_reply_value(out))
}

/// Decodes the raw reply `out` that the tool printed for a read of
/// `key`: extracts the value field and parses it at the key's type.
pub fn decode_reply(key: SettingKey, out: &[u8]) -> (r: Option<SettingValue>)
    ensures
        r == spec_decode_reply(key, out@),
{
    let tok = reply::reply_value(out);
    parse_value(key, tok.as_slice())
}

/// A value parsed at a key's type has that key's type.
pub proof fn lemma_parse_value_fits(key: SettingKey, s: Seq<u8>)
    ensures
        spec_parse_value(key, s) matches Some(v) ==> key_accepts(key, v),
{
}

/// Absorbs the raw reply `out` of a read of `key` into the store `s`:
/// on a decodable reply the key takes the decoded value, otherwise the
/// store is unchanged.
pub fn apply_reply(s: &mut DesktopSettings, key: SettingKey, out: &[u8]) -> (ok: bool)
    ensures
        spec_decode_reply(key, out@) matches Some(v) ==> ok && *final(s) == old(s).spec_with(
            key,
            v,
        ),
        spec_decode_reply(key, out@) is None ==> !ok && *final(s) == *old(s),
{
    match decode_reply(key, out) {
        Some(v) => {
            proof {
                lemma_parse_value_fits(key, reply::spec_reply_value(out@));
            }
            s.set_value(key, v);
            true
        },
        None => false,
    }
}

/// Formatting a value of the key's type and parsing the text back
/// yields the value again.
pub proof fn lemma_value_codec_round_trip(key: SettingKey, value: SettingValue)
    requires
        key_accepts(key, value),
    ensures
        spec_parse_value(key, spec_format_value(value)) == Some(value),
{
    match value {
        SettingValue::Uint(n) => {
            lemma_dec_digits(n as nat);
        },
        SettingValue::Int(n) => {
            if n >= 0 {
                lemma_dec_digits(n as nat);
                let s = dec_digits(n as nat);
                assert(is_ascii_digit(s[0]));
                assert(s[0] != MINUS);
            } else {
                let m = (-(n as int)) as nat;
                lemma_dec_digits(m);
                let s = seq![MINUS] + dec_digits(m);
                assert(int_digits(n as int) == s);
                assert(s[0] == MINUS);
                assert(s.skip(1) =~= dec_digits(m));
                assert(m <= 0x8000_0000);
            }
        },
        SettingValue::Boolean(b) => {
            assert(true_bytes() != false_bytes()) by {
                assert(true_bytes().len() == 4);
                assert(false_bytes().len() == 5);
            }
        },
    }
}

/// The bytes of the word `uint32`, with which the tool prefixes an
/// unsigned value in its replies.
pub open spec fn uint_prefix() -> Seq<u8> {
    seq![117u8, 105u8, 110u8, 116u8, 51u8, 50u8]
}

/// The line that the tool prints for a read of a key holding `value`:
/// an unsigned value behind the word `uint32` and a space, any other
/// value alone, with a final newline.
pub open spec fn spec_render_reply(value: SettingValue) -> Seq<u8> {
    match value {
        SettingValue::Uint(_) => uint_prefix() + seq![reply::SPACE] + spec_format_value(value)
            + seq![reply::NEWLINE],
        SettingValue::Int(_) => spec_format_value(value) + seq![reply::NEWLINE],
        SettingValue::Boolean(_) => spec_format_value(value) + seq![reply::NEWLINE],
    }
}

/// The printed form of a value holds neither whitespace nor a space.
proof fn lemma_format_value_plain(value: SettingValue)
    ensures
        forall|i: int|
            0 <= i < spec_format_value(value).len() ==> !reply::is_ascii_whitespace(
                #[trigger] spec_format_value(value)[i],
            ),
{
    match value {
        SettingValue::Uint(n) => {
            lemma_dec_digits(n as nat);
        },
        SettingValue::Int(n) => {
            if n >= 0 {
                lemma_dec_digits(n as nat);
            } else {
                lemma_dec_digits((-(n as int)) as nat);
                let s = seq![MINUS] + dec_digits((-(n as int)) as nat);
                assert forall|i: int| 0 <= i < s.len() implies !reply::is_ascii_whitespace(
                    s[i],
                ) by {
                    if i > 0 {
                        assert(s[i] == dec_digits((-(n as int)) as nat)[i - 1]);
                        assert(is_ascii_digit(s[i]));
                    }
                }
            }
        },
        SettingValue::Boolean(b) => {
        },
    }
}

/// Decoding the line that the tool prints for a value of the key's
/// type yields the value again.
pub proof fn lemma_reply_round_trip(key: SettingKey, value: SettingValue)
    requires
        key_accepts(key, value),
    ensures
        spec_decode_reply(key, spec_render_reply(value)) == Some(value),
{
    let v = spec_format_value(value);
    lemma_format_value_plain(value);
    assert(forall|i: int| 0 <= i < v.len() ==> v[i] != reply::SPACE);
    assert(forall|i: int| 0 <= i < v.len() ==> v[i] != reply::NEWLINE);
    match value {
        SettingValue::Uint(_) => {
            let line = uint_prefix() + seq![reply::SPACE] + v;
            reply::lemma_strip_newlines_trailing(line);
            assert(forall|i: int| 0 <= i < line.len() ==> line[i] != reply::NEWLINE) by {
                assert(uint_prefix().len() == 6);
            }
            reply::lemma_strip_newlines_id(line);
            assert(forall|i: int| 0 <= i < uint_prefix().len() ==> uint_prefix()[i]
                != reply::SPACE);
            reply::lemma_second_field_after(uint_prefix(), v);
            reply::lemma_no_space(v);
            reply::lemma_trim_id(v);
            assert(reply::spec_reply_value(spec_render_reply(value)) == v);
        },
        SettingValue::Int(_) => {
            reply::lemma_strip_newlines_trailing(v);
            reply::lemma_strip_newlines_id(v);
            reply::lemma_no_space(v);
            assert(reply::spec_reply_value(spec_render_reply(value)) == v);
        },
        SettingValue::Boolean(_) => {
            reply::lemma_strip_newlines_trailing(v);
            reply::lemma_strip_newlines_id(v);
            reply::lemma_no_space(v);
            assert(reply::spec_reply_value(spec_render_reply(value)) == v);
        },
    }
    lemma_value_codec_round_trip(key, value);
}

/// The name of the schema that `key` belongs to, as the command-line
/// tool expects it.
pub open spec fn spec_schema_of(key: SettingKey) -> Seq<char> {
    match key {
        SettingKey::KeyboardPressDelay => "org.gnome.desktop.peripherals.keyboard"@,
        SettingKey::KeyboardRepeatInterval => "org.gnome.desktop.peripherals.keyboard"@,
        SettingKey::MouseNaturalScroll => "org.gnome.desktop.peripherals.mouse"@,
        SettingKey::TouchpadTapToClick => "org.gnome.desktop.peripherals.touchpad"@,
        SettingKey::TwoFingerScroll => "org.gnome.desktop.peripherals.touchpad"@,
        SettingKey::ShowBatteryPercentage => "org.gnome.desktop.interface"@,
        SettingKey::LocatePointer => "org.gnome.desktop.interface"@,
        SettingKey::CursorSize => "org.gnome.desktop.interface"@,
        SettingKey::NightlightActive => "org.gnome.settings-daemon.plugins.color"@,
        SettingKey::NightlightTemperature => "org.gnome.settings-daemon.plugins.color"@,
    }
}

/// The name of the schema that `key` belongs to.
pub fn schema_of(key: SettingKey) -> (r: &'static str)
    ensures
        r@ == spec_schema_of(key),
{
    match key {
        SettingKey::KeyboardPressDelay => "org.gnome.desktop.peripherals.keyboard",
        SettingKey::KeyboardRepeatInterval => "org.gnome.desktop.peripherals.keyboard",
        SettingKey::MouseNaturalScroll => "org.gnome.desktop.peripherals.mouse",
        SettingKey::TouchpadTapToClick => "org.gnome.desktop.peripherals.touchpad",
        SettingKey::TwoFingerScroll => "org.gnome.desktop.peripherals.touchpad",
        SettingKey::ShowBatteryPercentage => "org.gnome.desktop.interface",
        SettingKey::LocatePointer => "org.gnome.desktop.interface",
        SettingKey::CursorSize => "org.gnome.desktop.interface",
        SettingKey::NightlightActive => "org.gnome.settings-daemon.plugins.color",
        SettingKey::NightlightTemperature => "org.gnome.settings-daemon.plugins.color",
    }
}

/// The name of `key` inside its schema, as the command-line tool
/// expects it.
pub open spec fn spec_key_name_of(key: SettingKey) -> Seq<char> {
    match key {
        SettingKey::KeyboardPressDelay => "delay"@,
        SettingKey::KeyboardRepeatInterval => "repeat-interval"@,
        SettingKey::MouseNaturalScroll => "natural-scroll"@,
        SettingKey::TouchpadTapToClick => "tap-to-click"@,
        SettingKey::TwoFingerScroll => "two-finger-scrolling-enabled"@,
        SettingKey::ShowBatteryPercentage => "show-battery-percentage"@,
        SettingKey::LocatePointer => "locate-pointer"@,
        SettingKey::CursorSize => "cursor-size"@,
        SettingKey::NightlightActive => "night-light-enabled"@,
        SettingKey::NightlightTemperature => "night-light-temperature"@,
    }
}

/// The name of `key` inside its schema.
pub fn key_name_of(key: SettingKey) -> (r: &'static str)
    ensures
        r@ == spec_key_name_of(key),
{
    match key {
        SettingKey::KeyboardPressDelay => "delay",
        SettingKey::KeyboardRepeatInterval => "repeat-interval",
        SettingKey::MouseNaturalScroll => "natural-scroll",
        SettingKey::TouchpadTapToClick => "tap-to-click",
        SettingKey::TwoFingerScroll => "two-finger-scrolling-enabled",
        SettingKey::ShowBatteryPercentage => "show-battery-percentage",
        SettingKey::LocatePointer => "locate-pointer",
        SettingKey::CursorSize => "cursor-size",
        SettingKey::NightlightActive => "night-light-enabled",
        SettingKey::NightlightTemperature => "night-light-temperature",
    }
}

} // verus!
