//! The session store's record format. A session is persisted as one text
//! record: a fixed header line, then each of the four fields framed by its
//! length (twenty decimal digits, so the frame has a fixed width) and
//! newlines. The format is specified twice — `spec_encode` builds a record,
//! `spec_parse` reads one — and the round-trip theorem proves that reading
//! back a written record yields the session it came from, field for field.
//! The unverified shell only moves the text to and from the file.

use vstd::prelude::*;

use vstd::arithmetic::div_mod::{lemma_fundamental_div_mod, lemma_multiply_divide_lt};

verus! {

/// A persisted credential bundle. Immutable after creation within a run.
#[derive(PartialEq, Eq, Debug)]
pub struct Session {
    pub user_id: String,
    pub device_id: String,
    pub access_token: String,
    pub homeserver: String,
}

/// Mathematical image of a `Session`: its four fields as character
/// sequences.
pub struct SessionModel {
    pub user_id: Seq<char>,
    pub device_id: Seq<char>,
    pub access_token: Seq<char>,
    pub homeserver: Seq<char>,
}

impl View for Session {
    type V = SessionModel;

    open spec fn view(&self) -> SessionModel {
        SessionModel {
            user_id: self.user_id@,
            device_id: self.device_id@,
            access_token: self.access_token@,
            homeserver: self.homeserver@,
        }
    }
}

/// The width of every length field, in decimal digits. Wide enough for any
/// machine-representable length.
pub open spec fn length_width() -> nat {
    20
}

/// The header line every record starts with.
pub open spec fn magic() -> Seq<char> {
    "matrix-cli session v1\n"@
}

/// The decimal digit `d` (`d < 10`) as a character.
pub open spec fn digit_char(d: nat) -> char
    recommends
        d < 10,
{
    if d == 0 {
        '0'
    } else if d == 1 {
        '1'
    } else if d == 2 {
        '2'
    } else if d == 3 {
        '3'
    } else if d == 4 {
        '4'
    } else if d == 5 {
        '5'
    } else if d == 6 {
        '6'
    } else if d == 7 {
        '7'
    } else if d == 8 {
        '8'
    } else {
        '9'
    }
}

pub open spec fn is_digit(c: char) -> bool {
    c == '0' || c == '1' || c == '2' || c == '3' || c == '4' || c == '5' || c == '6' || c == '7'
        || c == '8' || c == '9'
}

/// The value of a decimal digit character.
pub open spec fn digit_val(c: char) -> nat
    recommends
        is_digit(c),
{
    if c == '0' {
        0
    } else if c == '1' {
        1
    } else if c == '2' {
        2
    } else if c == '3' {
        3
    } else if c == '4' {
        4
    } else if c == '5' {
        5
    } else if c == '6' {
        6
    } else if c == '7' {
        7
    } else if c == '8' {
        8
    } else {
        9
    }
}

pub open spec fn all_digits(s: Seq<char>) -> bool {
    forall|i: int| 0 <= i < s.len() ==> is_digit(#[trigger] s[i])
}

/// `n` written in decimal, zero-padded to exactly `w` digits.
pub open spec fn pad_dec(n: nat, w: nat) -> Seq<char>
    decreases w,
{
    if w == 0 {
        Seq::<char>::empty()
    } else {
        pad_dec(n / 10, (w - 1) as nat) + seq![digit_char(n % 10)]
    }
}

/// The value of a run of decimal digits.
pub open spec fn dec_val(s: Seq<char>) -> nat
    decreases s.len(),
{
    if s.len() == 0 {
        0
    } else {
        dec_val(s.drop_last()) * 10 + digit_val(s.last())
    }
}

pub open spec fn pow10(w: nat) -> nat
    decreases w,
{
    if w == 0 {
        1
    } else {
        10 * pow10((w - 1) as nat)
    }
}

pub proof fn lemma_pow10_mono(a: nat, b: nat)
    requires
        a <= b,
    ensures
        pow10(a) <= pow10(b),
    decreases b,
{
    if a < b {
        lemma_pow10_mono(a, (b - 1) as nat);
    }
}

pub proof fn lemma_pad_dec_len(n: nat, w: nat)
    ensures
        pad_dec(n, w).len() == w,
    decreases w,
{
    if w > 0 {
        lemma_pad_dec_len(n / 10, (w - 1) as nat);
    }
}

pub proof fn lemma_pad_dec_digits(n: nat, w: nat)
    ensures
        all_digits(pad_dec(n, w)),
    decreases w,
{
    if w > 0 {
        lemma_pad_dec_digits(n / 10, (w - 1) as nat);
        lemma_pad_dec_len(n / 10, (w - 1) as nat);
        let s = pad_dec(n, w);
        assert forall|i: int| 0 <= i < s.len() implies is_digit(#[trigger] s[i]) by {
            if i < w - 1 {
                assert(s[i] == pad_dec(n / 10, (w - 1) as nat)[i]);
            } else {
                assert(s[i] == digit_char(n % 10));
            }
        }
    }
}

/// Padding then reading back is the identity, for values that fit the width.
pub proof fn lemma_dec_val_pad(n: nat, w: nat)
    requires
        n < pow10(w),
    ensures
        dec_val(pad_dec(n, w)) == n,
    decreases w,
{
    if w == 0 {
        assert(pad_dec(n, w) =~= Seq::<char>::empty());
    } else {
        lemma_multiply_divide_lt(n as int, 10, pow10((w - 1) as nat) as int);
        lemma_dec_val_pad(n / 10, (w - 1) as nat);
        lemma_pad_dec_len(n / 10, (w - 1) as nat);
        let s = pad_dec(n, w);
        assert(s.drop_last() =~= pad_dec(n / 10, (w - 1) as nat));
        assert(s.last() == digit_char(n % 10));
        assert(digit_val(digit_char(n % 10)) == n % 10);
        lemma_fundamental_div_mod(n as int, 10);
    }
}

/// One framed field: its length, a newline, the field, a newline.
pub open spec fn nl() -> Seq<char> {
    seq!['\n']
}

pub open spec fn frame(f: Seq<char>) -> Seq<char> {
    pad_dec(f.len(), length_width()) + nl() + f + nl()
}

/// A whole record: the header, then the four fields framed.
pub open spec fn spec_encode(sv: SessionModel) -> Seq<char> {
    magic() + frame(sv.user_id) + frame(sv.device_id) + frame(sv.access_token) + frame(
        sv.homeserver,
    )
}

fn digit_str(d: u64) -> (r: &'static str)
    requires
        d < 10,
    ensures
        r@ == seq![digit_char(d as nat)],
{
    if d == 0 {
        proof {
            reveal_strlit("0");
            assert("0"@ =~= seq![digit_char(d as nat)]);
        }
        "0"
    } else if d == 1 {
        proof {
            reveal_strlit("1");
            assert("1"@ =~= seq![digit_char(d as nat)]);
        }
        "1"
    } else if d == 2 {
        proof {
            reveal_strlit("2");
            assert("2"@ =~= seq![digit_char(d as nat)]);
        }
        "2"
    } else if d == 3 {
        proof {
            reveal_strlit("3");
            assert("3"@ =~= seq![digit_char(d as nat)]);
        }
        "3"
    } else if d == 4 {
        proof {
            reveal_strlit("4");
            assert("4"@ =~= seq![digit_char(d as nat)]);
        }
        "4"
    } else if d == 5 {
        proof {
            reveal_strlit("5");
            assert("5"@ =~= seq![digit_char(d as nat)]);
        }
        "5"
    } else if d == 6 {
        proof {
            reveal_strlit("6");
            assert("6"@ =~= seq![digit_char(d as nat)]);
        }
        "6"
    } else if d == 7 {
        proof {
            reveal_strlit("7");
            assert("7"@ =~= seq![digit_char(d as nat)]);
        }
        "7"
    } else if d == 8 {
        proof {
            reveal_strlit("8");
            assert("8"@ =~= seq![digit_char(d as nat)]);
        }
        "8"
    } else {
        proof {
            reveal_strlit("9");
            assert("9"@ =~= seq![digit_char(d as nat)]);
        }
        "9"
    }
}

fn newline_str() -> (r: &'static str)
    ensures
        r@ == nl(),
{
    proof {
        reveal_strlit("\n");
        assert("\n"@ =~= nl());
    }
    "\n"
}

fn magic_str() -> (r: &'static str)
    ensures
        r@ == magic(),
{
    "matrix-cli session v1\n"
}

/// `n` in decimal, zero-padded to `w` digits.
fn pad_rec(n: usize, w: u8) -> (r: String)
    ensures
        r@ == pad_dec(n as nat, w as nat),
    decreases w,
{
    if w == 0 {
        String::new()
    } else {
        let rest = pad_rec(n / 10, w - 1);
        rest.concat(digit_str((n % 10) as u64))
    }
}

/// Writes the record for this session.
pub fn encode_session(s: &Session) -> (r: String)
    ensures
        r@ == spec_encode(s@),
{
    let mut out = String::from_str(magic_str());
    append_frame(&mut out, &s.user_id);
    append_frame(&mut out, &s.device_id);
    append_frame(&mut out, &s.access_token);
    append_frame(&mut out, &s.homeserver);
    proof {
        assert(out@ =~= spec_encode(s@));
    }
    out
}

/// Reads one framed field at `pos`: twenty digits, a newline, as many
/// characters as the digits say, a newline. Yields the field and the
/// position after its frame.
pub open spec fn spec_parse_field(text: Seq<char>, pos: int) -> Option<(Seq<char>, int)> {
    if pos + 21 <= text.len() && all_digits(text.subrange(pos, pos + 20)) && text[pos + 20]
        == '\n' {
        let n = dec_val(text.subrange(pos, pos + 20)) as int;
        if pos + 22 + n <= text.len() && text[pos + 21 + n] == '\n' {
            Some((text.subrange(pos + 21, pos + 21 + n), pos + 22 + n))
        } else {
            None
        }
    } else {
        None
    }
}

/// Reads a whole record: the header, four framed fields, nothing after.
pub open spec fn spec_parse(text: Seq<char>) -> Option<SessionModel> {
    let m = magic().len() as int;
    if text.len() >= m && text.subrange(0, m) == magic() {
        match spec_parse_field(text, m) {
            Some((user_id, p1)) => match spec_parse_field(text, p1) {
                Some((device_id, p2)) => match spec_parse_field(text, p2) {
                    Some((access_token, p3)) => match spec_parse_field(text, p3) {
                        Some((homeserver, p4)) => if p4 == text.len() {
                            Some(SessionModel { user_id, device_id, access_token, homeserver })
                        } else {
                            None
                        },
                        None => None,
                    },
                    None => None,
                },
                None => None,
            },
            None => None,
        }
    } else {
        None
    }
}

/// Any machine-representable length fits the fixed width of a length field.
proof fn lemma_usize_fits_width()
    ensures
        usize::MAX < pow10(length_width()),
{
    assert(pow10(20) == 100000000000000000000nat) by {
        reveal_with_fuel(pow10, 21);
    }
}

/// Where a frame was written, reading finds exactly the framed field, and
/// stops exactly after the frame.
proof fn lemma_parse_frame(pre: Seq<char>, f: Seq<char>, rest: Seq<char>)
    requires
        f.len() <= usize::MAX,
    ensures
        spec_parse_field(pre + frame(f) + rest, pre.len() as int) == Some(
            (f, pre.len() + frame(f).len() as int),
        ),
{
    let text = pre + frame(f) + rest;
    let pos = pre.len() as int;
    lemma_pad_dec_len(f.len(), length_width());
    assert(frame(f).len() == 22 + f.len());
    assert(text.subrange(pos, pos + 20) =~= pad_dec(f.len(), length_width()));
    lemma_pad_dec_digits(f.len(), length_width());
    assert(text[pos + 20] == '\n');
    lemma_usize_fits_width();
    lemma_dec_val_pad(f.len(), length_width());
    assert(dec_val(text.subrange(pos, pos + 20)) == f.len());
    let n = f.len() as int;
    assert(pos + 22 + n <= text.len());
    assert(text[pos + 21 + n] == '\n');
    assert(text.subrange(pos + 21, pos + 21 + n) =~= f);
}

/// Round trip of the session store: reading back a written record yields
/// the session it came from, equal in all fields.
pub proof fn theorem_session_round_trip(sv: SessionModel)
    requires
        sv.user_id.len() <= usize::MAX,
        sv.device_id.len() <= usize::MAX,
        sv.access_token.len() <= usize::MAX,
        sv.homeserver.len() <= usize::MAX,
    ensures
        spec_parse(spec_encode(sv)) == Some(sv),
{
    let text = spec_encode(sv);
    let m = magic().len() as int;
    let f1 = frame(sv.user_id);
    let f2 = frame(sv.device_id);
    let f3 = frame(sv.access_token);
    let f4 = frame(sv.homeserver);
    assert(text.subrange(0, m) =~= magic());
    assert(text =~= magic() + f1 + (f2 + f3 + f4));
    lemma_parse_frame(magic(), sv.user_id, f2 + f3 + f4);
    let p1 = magic().len() + f1.len() as int;
    assert(text =~= (magic() + f1) + f2 + (f3 + f4));
    lemma_parse_frame(magic() + f1, sv.device_id, f3 + f4);
    let p2 = p1 + f2.len() as int;
    assert(text =~= (magic() + f1 + f2) + f3 + f4);
    lemma_parse_frame(magic() + f1 + f2, sv.access_token, f4);
    let p3 = p2 + f3.len() as int;
    assert(text =~= (magic() + f1 + f2 + f3) + f4 + Seq::<char>::empty());
    lemma_parse_frame(magic() + f1 + f2 + f3, sv.homeserver, Seq::<char>::empty());
    let p4 = p3 + f4.len() as int;
    assert(p4 == text.len());
}

/// The record format is unambiguous: two sessions with the same record are
/// the same session.
pub proof fn lemma_encode_injective(a: SessionModel, b: SessionModel)
    requires
        a.user_id.len() <= usize::MAX,
        a.device_id.len() <= usize::MAX,
        a.access_token.len() <= usize::MAX,
        a.homeserver.len() <= usize::MAX,
        b.user_id.len() <= usize::MAX,
        b.device_id.len() <= usize::MAX,
        b.access_token.len() <= usize::MAX,
        b.homeserver.len() <= usize::MAX,
        spec_encode(a) == spec_encode(b),
    ensures
        a == b,
{
    theorem_session_round_trip(a);
    theorem_session_round_trip(b);
}

fn digit_of(c: char) -> (r: Option<u8>)
    ensures
        is_digit(c) ==> (r matches Some(d) && d == digit_val(c)),
        !is_digit(c) ==> r is None,
{
    match c {
        '0' => Some(0),
        '1' => Some(1),
        '2' => Some(2),
        '3' => Some(3),
        '4' => Some(4),
        '5' => Some(5),
        '6' => Some(6),
        '7' => Some(7),
        '8' => Some(8),
        '9' => Some(9),
        _ => None,
    }
}

fn parse_field(text: &str, pos: usize) -> (r: Option<(String, usize)>)
    requires
        pos <= text@.len(),
    ensures
        match spec_parse_field(text@, pos as int) {
            Some((f, p)) => r matches Some(pair) && pair.0@ == f && pair.1 == p,
            None => r is None,
        },
{
    let len = text.unicode_len();
    if len < 21 || pos > len - 21 {
        return None;
    }
    let ghost digits = text@.subrange(pos as int, pos as int + 20);
    let mut acc: u128 = 0;
    let mut i: usize = 0;
    while i < 20
        invariant
            0 <= i <= 20,
            pos + 21 <= len,
            len == text@.len(),
            digits == text@.subrange(pos as int, pos as int + 20),
            all_digits(text@.subrange(pos as int, pos as int + i)),
            acc == dec_val(text@.subrange(pos as int, pos as int + i)),
            acc < pow10(i as nat),
        decreases 20 - i,
    {
        let c = text.get_char(pos + i);
        match digit_of(c) {
            None => {
                proof {
                    assert(digits[i as int] == c);
                    assert(!all_digits(digits));
                }
                return None;
            },
            Some(d) => {
                proof {
                    let prefix = text@.subrange(pos as int, pos as int + i);
                    let ext = text@.subrange(pos as int, pos as int + i + 1);
                    assert(ext =~= prefix.push(c));
                    assert(ext.drop_last() =~= prefix);
                    assert(dec_val(ext) == acc * 10 + digit_val(c));
                    assert(pow10((i + 1) as nat) == 10 * pow10(i as nat));
                    assert(acc * 10 + digit_val(c) < pow10((i + 1) as nat));
                    lemma_pow10_mono((i + 1) as nat, 20);
                    assert(pow10(20) == 100000000000000000000nat) by {
                        reveal_with_fuel(pow10, 21);
                    }
                }
                acc = acc * 10 + d as u128;
            },
        }
        i = i + 1;
    }
    proof {
        assert(all_digits(digits));
        assert(acc == dec_val(digits));
    }
    if text.get_char(pos + 20) != '\n' {
        return None;
    }
    let avail = len - (pos + 21);
    if acc >= avail as u128 {
        proof {
            assert(pos + 22 + dec_val(digits) > len);
        }
        return None;
    }
    let n = acc as usize;
    if text.get_char(pos + 21 + n) != '\n' {
        return None;
    }
    let f = text.substring_char(pos + 21, pos + 21 + n);
    Some((String::from_str(f), pos + 22 + n))
}

/// Reads a record back into a session. `None` means the text is not a
/// record this store wrote: the caller reports it as corrupt, never as
/// absent.
pub fn parse_session(text: &str) -> (r: Option<Session>)
    ensures
        match spec_parse(text@) {
            Some(sv) => r matches Some(s) && s@ == sv,
            None => r is None,
        },
{
    let m = magic_str();
    let mlen = m.unicode_len();
    let len = text.unicode_len();
    if len < mlen {
        return None;
    }
    let mut i: usize = 0;
    while i < mlen
        invariant
            0 <= i <= mlen,
            mlen <= len,
            len == text@.len(),
            mlen == magic().len(),
            m@ == magic(),
            forall|j: int| 0 <= j < i ==> text@[j] == magic()[j],
        decreases mlen - i,
    {
        if text.get_char(i) != m.get_char(i) {
            proof {
                assert(text@.subrange(0, mlen as int)[i as int] != magic()[i as int]);
            }
            return None;
        }
        i = i + 1;
    }
    proof {
        assert(text@.subrange(0, mlen as int) =~= magic());
    }
    let r1 = parse_field(text, mlen);
    match r1 {
        None => None,
        Some((user_id, p1)) => {
            let r2 = parse_field(text, p1);
            match r2 {
                None => None,
                Some((device_id, p2)) => {
                    let r3 = parse_field(text, p2);
                    match r3 {
                        None => None,
                        Some((access_token, p3)) => {
                            let r4 = parse_field(text, p3);
                            match r4 {
                                None => None,
                                Some((homeserver, p4)) => {
                                    if p4 != len {
                                        None
                                    } else {
                                        Some(
                                            Session {
                                                user_id,
                                                device_id,
                                                access_token,
                                                homeserver,
                                            },
                                        )
                                    }
                                },
                            }
                        },
                    }
                },
            }
        },
    }
}

fn append_frame(out: &mut String, field: &String)
    ensures
        final(out)@ == old(out)@ + frame(field@),
{
    let len = field.as_str().unicode_len();
    let pad = pad_rec(len, 20);
    out.append(pad.as_str());
    out.append(newline_str());
    out.append(field.as_str());
    out.append(newline_str());
    proof {
        assert(out@ =~= old(out)@ + frame(field@));
    }
}

} // verus!
