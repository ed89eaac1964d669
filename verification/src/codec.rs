//! The wire codec: a self-describing binary format (a MessagePack subset
//! with fixed 32-bit headers) for the three message kinds that cross the
//! client boundary. The request and control decoders are exact inverses of
//! the encoders; every output frame has a verified encoder and a proved size
//! bound so a frame always fits one pipe packet.

use vstd::prelude::*;
use vstd::string::{StringExecFns, StrSliceExecFns, StringSliceAdditionalSpecFns};
use vstd::string::is_ascii;
use vstd::utf8::{encode_utf8, valid_utf8};
use crate::request::{ControlMessage, Error, Request};
use crate::response::StreamResponse;
use crate::trusted::utf8_to_string;

verus! {

/// Type tags of the wire format.
pub const TAG_BIN32: u8 = 0xc6;
pub const TAG_FALSE: u8 = 0xc2;
pub const TAG_TRUE: u8 = 0xc3;
pub const TAG_I32: u8 = 0xd2;
pub const TAG_I64: u8 = 0xd3;
pub const TAG_STR32: u8 = 0xdb;
pub const TAG_ARR32: u8 = 0xdd;
pub const TAG_MAP32: u8 = 0xdf;

/// The largest length a 32-bit header can carry, exclusive.
pub const LEN_LIMIT: u64 = 0x1_0000_0000;

/// A 32-bit value, big-endian.
pub open spec fn be32(n: u32) -> Seq<u8> {
    seq![
        (n >> 24) as u8,
        ((n >> 16) & 0xff) as u8,
        ((n >> 8) & 0xff) as u8,
        (n & 0xff) as u8,
    ]
}

/// A 64-bit value, big-endian.
pub open spec fn be64(n: u64) -> Seq<u8> {
    seq![
        (n >> 56) as u8,
        ((n >> 48) & 0xff) as u8,
        ((n >> 40) & 0xff) as u8,
        ((n >> 32) & 0xff) as u8,
        ((n >> 24) & 0xff) as u8,
        ((n >> 16) & 0xff) as u8,
        ((n >> 8) & 0xff) as u8,
        (n & 0xff) as u8,
    ]
}

/// The characters of an ASCII string as bytes.
pub open spec fn ascii_bytes(s: Seq<char>) -> Seq<u8> {
    s.map_values(|c: char| c as u8)
}

/// A boolean value.
pub open spec fn enc_bool(b: bool) -> Seq<u8> {
    if b {
        seq![TAG_TRUE]
    } else {
        seq![TAG_FALSE]
    }
}

/// A 32-bit signed integer.
pub open spec fn enc_i32(x: i32) -> Seq<u8> {
    seq![TAG_I32] + be32(x as u32)
}

/// A 64-bit signed integer.
pub open spec fn enc_i64(x: i64) -> Seq<u8> {
    seq![TAG_I64] + be64(x as u64)
}

/// A byte string.
pub open spec fn enc_bin(b: Seq<u8>) -> Seq<u8> {
    seq![TAG_BIN32] + be32(b.len() as u32) + b
}

/// A text string, from its UTF-8 bytes.
pub open spec fn enc_str_bytes(b: Seq<u8>) -> Seq<u8> {
    seq![TAG_STR32] + be32(b.len() as u32) + b
}

/// A fixed ASCII key or tag string.
pub open spec fn enc_key(k: Seq<char>) -> Seq<u8> {
    enc_str_bytes(ascii_bytes(k))
}

/// The concatenated elements of a byte-string array.
pub open spec fn enc_bin_elems(args: Seq<Seq<u8>>) -> Seq<u8>
    decreases args.len(),
{
    if args.len() == 0 {
        Seq::empty()
    } else {
        enc_bin(args[0]) + enc_bin_elems(args.drop_first())
    }
}

/// An array of byte strings.
pub open spec fn enc_arr(args: Seq<Seq<u8>>) -> Seq<u8> {
    seq![TAG_ARR32] + be32(args.len() as u32) + enc_bin_elems(args)
}

/// A map header for the given entry count.
pub open spec fn map_hdr(n: u32) -> Seq<u8> {
    seq![TAG_MAP32] + be32(n)
}

/// The mathematical content of a request on the wire: the language as its
/// UTF-8 bytes, the byte-string fields, and the timeout.
pub struct RequestModel {
    pub language: Seq<u8>,
    pub code: Seq<u8>,
    pub input: Seq<u8>,
    pub arguments: Seq<Seq<u8>>,
    pub options: Seq<Seq<u8>>,
    pub timeout: i32,
}

/// The wire model of a decoded request value.
pub open spec fn request_model(r: &Request) -> RequestModel {
    RequestModel {
        language: encode_utf8(r.language@),
        code: r.code@,
        input: r.input@,
        arguments: r.arguments@.map_values(|v: Vec<u8>| v@),
        options: r.options@.map_values(|v: Vec<u8>| v@),
        timeout: r.timeout,
    }
}

/// A request model the format can carry: 32-bit lengths and a language that
/// really is UTF-8.
pub open spec fn encodable(m: RequestModel) -> bool {
    &&& m.language.len() < LEN_LIMIT
    &&& valid_utf8(m.language)
    &&& m.code.len() < LEN_LIMIT
    &&& m.input.len() < LEN_LIMIT
    &&& m.arguments.len() < LEN_LIMIT
    &&& (forall|i: int| 0 <= i < m.arguments.len() ==> (#[trigger] m.arguments[i]).len() < LEN_LIMIT)
    &&& m.options.len() < LEN_LIMIT
    &&& (forall|i: int| 0 <= i < m.options.len() ==> (#[trigger] m.options[i]).len() < LEN_LIMIT)
}

/// The encoded request: one map of six named fields, in a fixed order.
pub open spec fn enc_request(m: RequestModel) -> Seq<u8> {
    map_hdr(6) + enc_key("language"@) + enc_str_bytes(m.language) + enc_key("code"@) + enc_bin(
        m.code,
    ) + enc_key("input"@) + enc_bin(m.input) + enc_key("arguments"@) + enc_arr(m.arguments)
        + enc_key("options"@) + enc_arr(m.options) + enc_key("timeout"@) + enc_i32(m.timeout)
}

/// The encoded `Kill` control message: the bare tag string.
pub open spec fn enc_control_kill() -> Seq<u8> {
    enc_key("Kill"@)
}

// ---------------------------------------------------------------------------
// Encoders.
// ---------------------------------------------------------------------------

fn push_byte(out: &mut Vec<u8>, b: u8)
    ensures
        final(out)@ == old(out)@ + seq![b],
{
    out.push(b);
    assert(out@ =~= old(out)@ + seq![b]);
}

fn push_be32(out: &mut Vec<u8>, n: u32)
    ensures
        final(out)@ == old(out)@ + be32(n),
{
    out.push((n >> 24) as u8);
    out.push(((n >> 16) & 0xff) as u8);
    out.push(((n >> 8) & 0xff) as u8);
    out.push((n & 0xff) as u8);
    assert(out@ =~= old(out)@ + be32(n));
}

fn push_be64(out: &mut Vec<u8>, n: u64)
    ensures
        final(out)@ == old(out)@ + be64(n),
{
    out.push((n >> 56) as u8);
    out.push(((n >> 48) & 0xff) as u8);
    out.push(((n >> 40) & 0xff) as u8);
    out.push(((n >> 32) & 0xff) as u8);
    out.push(((n >> 24) & 0xff) as u8);
    out.push(((n >> 16) & 0xff) as u8);
    out.push(((n >> 8) & 0xff) as u8);
    out.push((n & 0xff) as u8);
    assert(out@ =~= old(out)@ + be64(n));
}

fn push_bool(out: &mut Vec<u8>, b: bool)
    ensures
        final(out)@ == old(out)@ + enc_bool(b),
{
    if b {
        push_byte(out, TAG_TRUE);
    } else {
        push_byte(out, TAG_FALSE);
    }
}

fn push_i32(out: &mut Vec<u8>, x: i32)
    ensures
        final(out)@ == old(out)@ + enc_i32(x),
{
    push_byte(out, TAG_I32);
    push_be32(out, x as u32);
    assert(out@ =~= old(out)@ + enc_i32(x));
}

fn push_i64(out: &mut Vec<u8>, x: i64)
    ensures
        final(out)@ == old(out)@ + enc_i64(x),
{
    push_byte(out, TAG_I64);
    push_be64(out, x as u64);
    assert(out@ =~= old(out)@ + enc_i64(x));
}

fn push_bytes(out: &mut Vec<u8>, b: &Vec<u8>)
    ensures
        final(out)@ == old(out)@ + b@,
{
    let mut i: usize = 0;
    while i < b.len()
        invariant
            i <= b@.len(),
            out@ == old(out)@ + b@.take(i as int),
        decreases b@.len() - i,
    {
        let x = b[i];
        out.push(x);
        i = i + 1;
        assert(out@ =~= old(out)@ + b@.take(i as int));
    }
    assert(b@.take(b@.len() as int) =~= b@);
}

fn push_bin(out: &mut Vec<u8>, b: &Vec<u8>)
    requires
        b@.len() < LEN_LIMIT,
    ensures
        final(out)@ == old(out)@ + enc_bin(b@),
{
    push_byte(out, TAG_BIN32);
    push_be32(out, b.len() as u32);
    push_bytes(out, b);
    assert(out@ =~= old(out)@ + enc_bin(b@));
}

fn push_str_bytes(out: &mut Vec<u8>, b: &Vec<u8>)
    requires
        b@.len() < LEN_LIMIT,
    ensures
        final(out)@ == old(out)@ + enc_str_bytes(b@),
{
    push_byte(out, TAG_STR32);
    push_be32(out, b.len() as u32);
    push_bytes(out, b);
    assert(out@ =~= old(out)@ + enc_str_bytes(b@));
}

fn push_key(out: &mut Vec<u8>, k: &str)
    requires
        is_ascii(k),
        k@.len() < LEN_LIMIT,
    ensures
        final(out)@ == old(out)@ + enc_key(k@),
{
    push_byte(out, TAG_STR32);
    proof {
        vstd::string::is_ascii_spec_bytes(k);
        assert(k.spec_bytes() =~= ascii_bytes(k@));
    }
    let n = k.len();
    push_be32(out, n as u32);
    let mut i: usize = 0;
    while i < n
        invariant
            is_ascii(k),
            k.spec_bytes() == ascii_bytes(k@),
            i <= n == k@.len(),
            out@ == old(out)@ + seq![TAG_STR32] + be32(n as u32) + ascii_bytes(k@).take(i as int),
        decreases n - i,
    {
        let b = k.get_ascii(i);
        out.push(b);
        i = i + 1;
        assert(out@ =~= old(out)@ + seq![TAG_STR32] + be32(n as u32) + ascii_bytes(k@).take(
            i as int,
        ));
    }
    assert(ascii_bytes(k@).take(k@.len() as int) =~= ascii_bytes(k@));
    assert(out@ =~= old(out)@ + enc_key(k@));
}

pub proof fn lemma_enc_bin_elems_push(args: Seq<Seq<u8>>, x: Seq<u8>)
    ensures
        enc_bin_elems(args.push(x)) == enc_bin_elems(args) + enc_bin(x),
    decreases args.len(),
{
    let p = args.push(x);
    if args.len() == 0 {
        assert(p[0] == x);
        assert(p.drop_first() =~= Seq::<Seq<u8>>::empty());
        assert(enc_bin_elems(p.drop_first()) == Seq::<u8>::empty());
        assert(enc_bin_elems(p) == enc_bin(p[0]) + enc_bin_elems(p.drop_first()));
        assert(enc_bin_elems(p) =~= enc_bin_elems(args) + enc_bin(x));
    } else {
        lemma_enc_bin_elems_push(args.drop_first(), x);
        assert(p.drop_first() =~= args.drop_first().push(x));
        assert(p[0] == args[0]);
        assert(enc_bin_elems(p) == enc_bin(p[0]) + enc_bin_elems(p.drop_first()));
        assert(enc_bin_elems(args) == enc_bin(args[0]) + enc_bin_elems(args.drop_first()));
        assert(enc_bin_elems(p) =~= enc_bin_elems(args) + enc_bin(x));
    }
}

fn push_arr(out: &mut Vec<u8>, args: &Vec<Vec<u8>>)
    requires
        args@.len() < LEN_LIMIT,
        forall|i: int| 0 <= i < args@.len() ==> (#[trigger] args@[i])@.len() < LEN_LIMIT,
    ensures
        final(out)@ == old(out)@ + enc_arr(args@.map_values(|v: Vec<u8>| v@)),
{
    let ghost views = args@.map_values(|v: Vec<u8>| v@);
    push_byte(out, TAG_ARR32);
    push_be32(out, args.len() as u32);
    let mut i: usize = 0;
    proof {
        assert(views.take(0) =~= Seq::<Seq<u8>>::empty());
    }
    while i < args.len()
        invariant
            i <= args@.len(),
            views == args@.map_values(|v: Vec<u8>| v@),
            forall|j: int| 0 <= j < args@.len() ==> (#[trigger] args@[j])@.len() < LEN_LIMIT,
            out@ == old(out)@ + seq![TAG_ARR32] + be32(args@.len() as u32) + enc_bin_elems(
                views.take(i as int),
            ),
        decreases args@.len() - i,
    {
        push_bin(out, &args[i]);
        i = i + 1;
        proof {
            lemma_enc_bin_elems_push(views.take(i - 1), views[i - 1]);
            assert(views.take(i as int) =~= views.take(i - 1).push(views[i - 1]));
        }
    }
    assert(views.take(views.len() as int) =~= views);
    assert(out@ =~= old(out)@ + enc_arr(views));
}

/// Encodes a request in the wire format. Inverse of `decode_request`.
pub fn encode_request(r: &Request) -> (out: Vec<u8>)
    requires
        encodable(request_model(r)),
    ensures
        out@ == enc_request(request_model(r)),
{
    proof {
        reveal_strlit("language");
        reveal_strlit("code");
        reveal_strlit("input");
        reveal_strlit("arguments");
        reveal_strlit("options");
        reveal_strlit("timeout");
    }
    proof {
        let m = request_model(r);
        assert forall|i: int| 0 <= i < r.arguments@.len() implies (#[trigger] r.arguments@[i])@.len()
            < LEN_LIMIT by {
            assert(m.arguments[i] == r.arguments@[i]@);
        }
        assert forall|i: int| 0 <= i < r.options@.len() implies (#[trigger] r.options@[i])@.len()
            < LEN_LIMIT by {
            assert(m.options[i] == r.options@[i]@);
        }
    }
    let mut out: Vec<u8> = Vec::new();
    push_byte(&mut out, TAG_MAP32);
    push_be32(&mut out, 6);
    push_key(&mut out, "language");
    let lang_bytes = r.language.as_str().as_bytes_vec();
    push_str_bytes(&mut out, &lang_bytes);
    push_key(&mut out, "code");
    push_bin(&mut out, &r.code);
    push_key(&mut out, "input");
    push_bin(&mut out, &r.input);
    push_key(&mut out, "arguments");
    push_arr(&mut out, &r.arguments);
    push_key(&mut out, "options");
    push_arr(&mut out, &r.options);
    push_key(&mut out, "timeout");
    push_i32(&mut out, r.timeout);
    assert(out@ =~= enc_request(request_model(r)));
    out
}

/// Encodes the `Kill` control message. Inverse of `decode_control`.
pub fn encode_control(m: &ControlMessage) -> (out: Vec<u8>)
    ensures
        out@ == enc_control_kill(),
{
    proof {
        reveal_strlit("Kill");
    }
    let mut out: Vec<u8> = Vec::new();
    match m {
        ControlMessage::Kill => push_key(&mut out, "Kill"),
    }
    assert(out@ =~= enc_control_kill());
    out
}

// ---------------------------------------------------------------------------
// The decoder, as a mathematical parse over the byte sequence.
// ---------------------------------------------------------------------------

/// A 32-bit value reassembled from big-endian bytes.
pub open spec fn u32_from(b0: u8, b1: u8, b2: u8, b3: u8) -> u32 {
    ((b0 as u32) << 24) | ((b1 as u32) << 16) | ((b2 as u32) << 8) | (b3 as u32)
}

/// Consumes an exact byte pattern at `i`, or fails.
pub open spec fn rd_exact(s: Seq<u8>, i: int, pat: Seq<u8>) -> Option<int> {
    if 0 <= i && i + pat.len() <= s.len() && s.subrange(i, i + pat.len()) == pat {
        Some(i + pat.len())
    } else {
        None
    }
}

/// Consumes four big-endian bytes at `i`.
pub open spec fn rd_be32(s: Seq<u8>, i: int) -> Option<(u32, int)> {
    if 0 <= i && i + 4 <= s.len() {
        Some((u32_from(s[i], s[i + 1], s[i + 2], s[i + 3]), i + 4))
    } else {
        None
    }
}

/// Consumes a one-byte tag and a 32-bit length.
pub open spec fn rd_lenhdr(s: Seq<u8>, i: int, tag: u8) -> Option<(u32, int)> {
    match rd_exact(s, i, seq![tag]) {
        Some(j) => rd_be32(s, j),
        None => None,
    }
}

/// Consumes a tagged, length-prefixed payload (a byte or text string).
pub open spec fn rd_payload(s: Seq<u8>, i: int, tag: u8) -> Option<(Seq<u8>, int)> {
    match rd_lenhdr(s, i, tag) {
        Some((n, j)) => if j + n <= s.len() {
            Some((s.subrange(j, j + n), j + n))
        } else {
            None
        },
        None => None,
    }
}

/// Consumes a 32-bit signed integer.
pub open spec fn rd_i32(s: Seq<u8>, i: int) -> Option<(i32, int)> {
    match rd_exact(s, i, seq![TAG_I32]) {
        Some(j) => match rd_be32(s, j) {
            Some((v, j2)) => Some((v as i32, j2)),
            None => None,
        },
        None => None,
    }
}

/// Consumes `n` byte-string elements.
pub open spec fn rd_elems(s: Seq<u8>, i: int, n: nat) -> Option<(Seq<Seq<u8>>, int)>
    decreases n,
{
    if n == 0 {
        Some((Seq::empty(), i))
    } else {
        match rd_payload(s, i, TAG_BIN32) {
            Some((b, j)) => match rd_elems(s, j, (n - 1) as nat) {
                Some((rest, j2)) => Some((seq![b] + rest, j2)),
                None => None,
            },
            None => None,
        }
    }
}

/// Consumes an array of byte strings.
pub open spec fn rd_arr(s: Seq<u8>, i: int) -> Option<(Seq<Seq<u8>>, int)> {
    match rd_lenhdr(s, i, TAG_ARR32) {
        Some((n, j)) => rd_elems(s, j, n as nat),
        None => None,
    }
}

/// The request parse: a map of five or six fields in the fixed order, the
/// whole input consumed, the language valid UTF-8. A five-field map has no
/// timeout and gets the default of 60 seconds.
pub open spec fn dec_request(s: Seq<u8>) -> Option<RequestModel> {
    match rd_lenhdr(s, 0, TAG_MAP32) {
        Some((cnt, j0)) => if cnt == 5 || cnt == 6 {
            match rd_exact(s, j0, enc_key("language"@)) {
                Some(j1) => match rd_payload(s, j1, TAG_STR32) {
                    Some((language, j2)) => if valid_utf8(language) {
                        match rd_exact(s, j2, enc_key("code"@)) {
                            Some(j3) => match rd_payload(s, j3, TAG_BIN32) {
                                Some((code, j4)) => match rd_exact(s, j4, enc_key("input"@)) {
                                    Some(j5) => match rd_payload(s, j5, TAG_BIN32) {
                                        Some((input, j6)) => match rd_exact(
                                            s,
                                            j6,
                                            enc_key("arguments"@),
                                        ) {
                                            Some(j7) => match rd_arr(s, j7) {
                                                Some((arguments, j8)) => match rd_exact(
                                                    s,
                                                    j8,
                                                    enc_key("options"@),
                                                ) {
                                                    Some(j9) => match rd_arr(s, j9) {
                                                        Some((options, j10)) => dec_request_tail(
                                                            s,
                                                            j10,
                                                            cnt,
                                                            RequestModel {
                                                                language,
                                                                code,
                                                                input,
                                                                arguments,
                                                                options,
                                                                timeout: 60,
                                                            },
                                                        ),
                                                        None => None,
                                                    },
                                                    None => None,
                                                },
                                                None => None,
                                            },
                                            None => None,
                                        },
                                        None => None,
                                    },
                                    None => None,
                                },
                                None => None,
                            },
                            None => None,
                        }
                    } else {
                        None
                    },
                    None => None,
                },
                None => None,
            }
        } else {
            None
        },
        None => None,
    }
}

/// The tail of the request parse: the optional timeout field, then the end
/// of the input.
pub open spec fn dec_request_tail(s: Seq<u8>, i: int, cnt: u32, m: RequestModel) -> Option<
    RequestModel,
> {
    if cnt == 6 {
        match rd_exact(s, i, enc_key("timeout"@)) {
            Some(j) => match rd_i32(s, j) {
                Some((t, j2)) => if j2 == s.len() {
                    Some(RequestModel { timeout: t, ..m })
                } else {
                    None
                },
                None => None,
            },
            None => None,
        }
    } else {
        if i == s.len() {
            Some(m)
        } else {
            None
        }
    }
}

/// The control parse: exactly the encoded `Kill` tag; every other input,
/// unknown tags included, is rejected.
pub open spec fn dec_control(s: Seq<u8>) -> Option<ControlMessage> {
    if s == enc_control_kill() {
        Some(ControlMessage::Kill)
    } else {
        None
    }
}

// ---------------------------------------------------------------------------
// The executable decoders, proved to implement the parse above.
// ---------------------------------------------------------------------------

fn take_tag(s: &Vec<u8>, pos: usize, tag: u8) -> (r: Option<usize>)
    ensures
        match r {
            Some(j) => rd_exact(s@, pos as int, seq![tag]) == Some(j as int) && j == pos + 1,
            None => rd_exact(s@, pos as int, seq![tag]) is None,
        },
{
    if pos < s.len() && s[pos] == tag {
        proof {
            assert(s@.subrange(pos as int, pos + 1) =~= seq![tag]);
        }
        Some(pos + 1)
    } else {
        proof {
            if pos + 1 <= s@.len() {
                assert(s@.subrange(pos as int, pos + 1)[0] == s@[pos as int]);
                assert(s@.subrange(pos as int, pos + 1) != seq![tag]);
            }
        }
        None
    }
}

fn take_be32(s: &Vec<u8>, pos: usize) -> (r: Option<(u32, usize)>)
    ensures
        match r {
            Some((v, j)) => rd_be32(s@, pos as int) == Some((v, j as int)) && j == pos + 4 && j
                <= s@.len(),
            None => rd_be32(s@, pos as int) is None,
        },
{
    if pos <= s.len() && s.len() - pos >= 4 {
        let v = ((s[pos] as u32) << 24) | ((s[pos + 1] as u32) << 16) | ((s[pos + 2] as u32) << 8)
            | (s[pos + 3] as u32);
        Some((v, pos + 4))
    } else {
        None
    }
}

fn take_lenhdr(s: &Vec<u8>, pos: usize, tag: u8) -> (r: Option<(u32, usize)>)
    ensures
        match r {
            Some((v, j)) => rd_lenhdr(s@, pos as int, tag) == Some((v, j as int)) && j <= s@.len(),
            None => rd_lenhdr(s@, pos as int, tag) is None,
        },
{
    match take_tag(s, pos, tag) {
        Some(j) => take_be32(s, j),
        None => None,
    }
}

fn copy_range(s: &Vec<u8>, from: usize, to: usize) -> (r: Vec<u8>)
    requires
        from <= to <= s@.len(),
    ensures
        r@ == s@.subrange(from as int, to as int),
{
    let mut r: Vec<u8> = Vec::new();
    let mut i: usize = from;
    while i < to
        invariant
            from <= i <= to <= s@.len(),
            r@ == s@.subrange(from as int, i as int),
        decreases to - i,
    {
        let b = s[i];
        r.push(b);
        i = i + 1;
        assert(r@ =~= s@.subrange(from as int, i as int));
    }
    r
}

fn take_payload(s: &Vec<u8>, pos: usize, tag: u8) -> (r: Option<(Vec<u8>, usize)>)
    ensures
        match r {
            Some((v, j)) => rd_payload(s@, pos as int, tag) == Some((v@, j as int)) && j
                <= s@.len(),
            None => rd_payload(s@, pos as int, tag) is None,
        },
{
    match take_lenhdr(s, pos, tag) {
        Some((n, j)) => {
            let nu = n as usize;
            if nu <= s.len() - j {
                let v = copy_range(s, j, j + nu);
                Some((v, j + nu))
            } else {
                None
            }
        },
        None => None,
    }
}

fn take_i32(s: &Vec<u8>, pos: usize) -> (r: Option<(i32, usize)>)
    ensures
        match r {
            Some((v, j)) => rd_i32(s@, pos as int) == Some((v, j as int)) && j <= s@.len(),
            None => rd_i32(s@, pos as int) is None,
        },
{
    match take_tag(s, pos, TAG_I32) {
        Some(j) => match take_be32(s, j) {
            Some((v, j2)) => Some((v as i32, j2)),
            None => None,
        },
        None => None,
    }
}

fn key_bytes(k: &str) -> (r: Vec<u8>)
    requires
        is_ascii(k),
        k@.len() < LEN_LIMIT,
    ensures
        r@ == enc_key(k@),
{
    let mut r: Vec<u8> = Vec::new();
    push_key(&mut r, k);
    assert(r@ =~= enc_key(k@));
    r
}

fn take_exact(s: &Vec<u8>, pos: usize, pat: &Vec<u8>) -> (r: Option<usize>)
    ensures
        match r {
            Some(j) => rd_exact(s@, pos as int, pat@) == Some(j as int) && j == pos + pat@.len()
                && j <= s@.len(),
            None => rd_exact(s@, pos as int, pat@) is None,
        },
{
    if pos <= s.len() && pat.len() <= s.len() - pos {
        let end = pos + pat.len();
        let mut i: usize = 0;
        while i < pat.len()
            invariant
                i <= pat@.len(),
                end == pos + pat@.len(),
                end <= s@.len(),
                forall|t: int| 0 <= t < i ==> s@[pos + t] == pat@[t],
            decreases pat@.len() - i,
        {
            if s[pos + i] != pat[i] {
                proof {
                    let sub = s@.subrange(pos as int, pos + pat@.len());
                    assert(sub[i as int] == s@[pos + i]);
                    assert(sub != pat@);
                }
                return None;
            }
            i = i + 1;
        }
        proof {
            assert(s@.subrange(pos as int, pos + pat@.len()) =~= pat@);
        }
        Some(pos + pat.len())
    } else {
        None
    }
}

fn take_arr(s: &Vec<u8>, pos: usize) -> (r: Option<(Vec<Vec<u8>>, usize)>)
    ensures
        match r {
            Some((v, j)) => rd_arr(s@, pos as int) == Some(
                (v@.map_values(|x: Vec<u8>| x@), j as int),
            ) && j <= s@.len(),
            None => rd_arr(s@, pos as int) is None,
        },
{
    match take_lenhdr(s, pos, TAG_ARR32) {
        Some((n, j0)) => {
            let mut acc: Vec<Vec<u8>> = Vec::new();
            let mut cur: usize = j0;
            let mut k: u32 = 0;
            proof {
                assert(acc@.map_values(|x: Vec<u8>| x@) =~= Seq::<Seq<u8>>::empty());
            }
            while k < n
                invariant
                    k <= n,
                    cur <= s@.len(),
                    rd_lenhdr(s@, pos as int, TAG_ARR32) == Some((n, j0 as int)),
                    rd_elems(s@, j0 as int, n as nat) == (match rd_elems(
                        s@,
                        cur as int,
                        (n - k) as nat,
                    ) {
                        Some((rest, e)) => Some((acc@.map_values(|x: Vec<u8>| x@) + rest, e)),
                        None => None::<(Seq<Seq<u8>>, int)>,
                    }),
                decreases n - k,
            {
                match take_payload(s, cur, TAG_BIN32) {
                    Some((b, j2)) => {
                        let ghost old_views = acc@.map_values(|x: Vec<u8>| x@);
                        let ghost bview = b@;
                        acc.push(b);
                        proof {
                            assert(acc@.map_values(|x: Vec<u8>| x@) =~= old_views.push(bview));
                            assert(old_views + (seq![bview] + (match rd_elems(
                                s@,
                                j2 as int,
                                (n - k - 1) as nat,
                            ) {
                                Some((rest, _)) => rest,
                                None => Seq::empty(),
                            })) =~= old_views.push(bview) + (match rd_elems(
                                s@,
                                j2 as int,
                                (n - k - 1) as nat,
                            ) {
                                Some((rest, _)) => rest,
                                None => Seq::empty(),
                            }));
                        }
                        cur = j2;
                        k = k + 1;
                    },
                    None => {
                        return None;
                    },
                }
            }
            proof {
                assert(acc@.map_values(|x: Vec<u8>| x@) + Seq::<Seq<u8>>::empty() =~= acc@.map_values(
                    |x: Vec<u8>| x@,
                ));
            }
            Some((acc, cur))
        },
        None => None,
    }
}

/// Decodes a request from one inbound message; every failure, trailing bytes
/// included, is a policy violation. Inverse of `encode_request`.
pub fn decode_request(bytes: &Vec<u8>) -> (r: Result<Request, Error>)
    ensures
        r matches Ok(req) ==> dec_request(bytes@) == Some(request_model(&req)),
        r is Err ==> dec_request(bytes@) is None,
        r matches Err(e) ==> e matches Error::PolicyViolation(_),
{
    proof {
        reveal_strlit("language");
        reveal_strlit("code");
        reveal_strlit("input");
        reveal_strlit("arguments");
        reveal_strlit("options");
        reveal_strlit("timeout");
    }
    let hdr = match take_lenhdr(bytes, 0, TAG_MAP32) {
        Some(h) => h,
        None => {
            return Err(malformed());
        },
    };
    let (cnt, j0) = hdr;
    if cnt != 5 && cnt != 6 {
        return Err(malformed());
    }
    let key_language = key_bytes("language");
    let j1 = match take_exact(bytes, j0, &key_language) {
        Some(j) => j,
        None => {
            return Err(malformed());
        },
    };
    let lang = match take_payload(bytes, j1, TAG_STR32) {
        Some(p) => p,
        None => {
            return Err(malformed());
        },
    };
    let (lang_bytes, j2) = lang;
    let ghost lang_view = lang_bytes@;
    let language = match utf8_to_string(lang_bytes) {
        Some(t) => t,
        None => {
            return Err(malformed());
        },
    };
    let key_code = key_bytes("code");
    let j3 = match take_exact(bytes, j2, &key_code) {
        Some(j) => j,
        None => {
            return Err(malformed());
        },
    };
    let code_p = match take_payload(bytes, j3, TAG_BIN32) {
        Some(p) => p,
        None => {
            return Err(malformed());
        },
    };
    let (code, j4) = code_p;
    let key_input = key_bytes("input");
    let j5 = match take_exact(bytes, j4, &key_input) {
        Some(j) => j,
        None => {
            return Err(malformed());
        },
    };
    let input_p = match take_payload(bytes, j5, TAG_BIN32) {
        Some(p) => p,
        None => {
            return Err(malformed());
        },
    };
    let (input, j6) = input_p;
    let key_arguments = key_bytes("arguments");
    let j7 = match take_exact(bytes, j6, &key_arguments) {
        Some(j) => j,
        None => {
            return Err(malformed());
        },
    };
    let args_p = match take_arr(bytes, j7) {
        Some(p) => p,
        None => {
            return Err(malformed());
        },
    };
    let (arguments, j8) = args_p;
    let key_options = key_bytes("options");
    let j9 = match take_exact(bytes, j8, &key_options) {
        Some(j) => j,
        None => {
            return Err(malformed());
        },
    };
    let opts_p = match take_arr(bytes, j9) {
        Some(p) => p,
        None => {
            return Err(malformed());
        },
    };
    let (options, j10) = opts_p;
    if cnt == 6 {
        let key_timeout = key_bytes("timeout");
        let j11 = match take_exact(bytes, j10, &key_timeout) {
            Some(j) => j,
            None => {
                return Err(malformed());
            },
        };
        let t_p = match take_i32(bytes, j11) {
            Some(p) => p,
            None => {
                return Err(malformed());
            },
        };
        let (timeout, j12) = t_p;
        if j12 != bytes.len() {
            return Err(extra_data());
        }
        Ok(Request { language, code, input, arguments, options, timeout })
    } else {
        if j10 != bytes.len() {
            return Err(extra_data());
        }
        Ok(Request { language, code, input, arguments, options, timeout: 60 })
    }
}

fn malformed() -> (r: Error)
    ensures
        r matches Error::PolicyViolation(m) && m@ == "malformed request"@,
{
    let mut m = String::new();
    m.append("malformed request");
    assert(m@ =~= "malformed request"@);
    Error::PolicyViolation(m)
}

fn extra_data() -> (r: Error)
    ensures
        r matches Error::PolicyViolation(m) && m@ == "found extra data"@,
{
    let mut m = String::new();
    m.append("found extra data");
    assert(m@ =~= "found extra data"@);
    Error::PolicyViolation(m)
}

/// Decodes a control message: exactly `Kill`; an unknown tag is a policy
/// violation. Inverse of `encode_control`.
pub fn decode_control(bytes: &Vec<u8>) -> (r: Result<ControlMessage, Error>)
    ensures
        r matches Ok(m) ==> dec_control(bytes@) == Some(m),
        r is Err ==> dec_control(bytes@) is None,
        r matches Err(e) ==> (e matches Error::PolicyViolation(msg) && msg@
            == "unknown control message"@),
{
    proof {
        reveal_strlit("Kill");
    }
    let pat = key_bytes("Kill");
    match take_exact(bytes, 0, &pat) {
        Some(j) => {
            if j == bytes.len() {
                proof {
                    assert(bytes@.subrange(0, pat@.len() as int) =~= bytes@);
                }
                return Ok(ControlMessage::Kill);
            }
        },
        None => {},
    }
    proof {
        if bytes@ == enc_control_kill() {
            assert(bytes@.subrange(0, enc_control_kill().len() as int) =~= enc_control_kill());
            assert(rd_exact(bytes@, 0, enc_control_kill()) is Some);
        }
    }
    let mut m = String::new();
    m.append("unknown control message");
    assert(m@ =~= "unknown control message"@);
    Err(Error::PolicyViolation(m))
}

// ---------------------------------------------------------------------------
// Round-trip laws: decoding an encoded value gives the value back.
// ---------------------------------------------------------------------------

proof fn lemma_be32_round(n: u32)
    ensures
        u32_from(
            (n >> 24) as u8,
            ((n >> 16) & 0xff) as u8,
            ((n >> 8) & 0xff) as u8,
            (n & 0xff) as u8,
        ) == n,
{
    assert((((((n >> 24) as u8) as u32) << 24) | ((((n >> 16) & 0xff) as u8 as u32) << 16) | ((((n
        >> 8) & 0xff) as u8 as u32) << 8) | ((n & 0xff) as u8 as u32)) == n) by (bit_vector);
}

proof fn lemma_i32_round(x: i32)
    ensures
        ((x as u32) as i32) == x,
{
    assert(((x as u32) as i32) == x) by (bit_vector);
}

proof fn lemma_rd_be32_at(s: Seq<u8>, i: int, n: u32)
    requires
        0 <= i,
        i + 4 <= s.len(),
        s.subrange(i, i + 4) == be32(n),
    ensures
        rd_be32(s, i) == Some((n, i + 4)),
{
    assert(s[i] == be32(n)[0]);
    assert(s[i + 1] == be32(n)[1]);
    assert(s[i + 2] == be32(n)[2]);
    assert(s[i + 3] == be32(n)[3]);
    lemma_be32_round(n);
}

proof fn lemma_rd_payload_at(s: Seq<u8>, i: int, tag: u8, b: Seq<u8>)
    requires
        b.len() < LEN_LIMIT,
        0 <= i,
        i + 5 + b.len() <= s.len(),
        s.subrange(i, i + 5 + b.len()) == seq![tag] + be32(b.len() as u32) + b,
    ensures
        rd_payload(s, i, tag) == Some((b, i + 5 + b.len())),
{
    let e = seq![tag] + be32(b.len() as u32) + b;
    assert(s.subrange(i, i + 1) =~= seq![tag]) by {
        assert(s[i] == e[0]);
    }
    assert(rd_exact(s, i, seq![tag]) == Some(i + 1));
    assert(s.subrange(i + 1, i + 5) =~= be32(b.len() as u32)) by {
        assert forall|t: int| 0 <= t < 4 implies #[trigger] s.subrange(i + 1, i + 5)[t] == be32(
            b.len() as u32,
        )[t] by {
            assert(s.subrange(i + 1, i + 5)[t] == s[i + 1 + t]);
            assert(s[i + 1 + t] == e[1 + t]);
        }
    }
    lemma_rd_be32_at(s, i + 1, b.len() as u32);
    assert((b.len() as u32) as int == b.len() as int);
    assert(s.subrange(i + 5, i + 5 + b.len()) =~= b) by {
        assert forall|t: int| 0 <= t < b.len() implies #[trigger] s.subrange(i + 5, i + 5 + b.len())[t]
            == b[t] by {
            assert(s.subrange(i + 5, i + 5 + b.len())[t] == s[i + 5 + t]);
            assert(s[i + 5 + t] == e[5 + t]);
        }
    }
}

proof fn lemma_rd_exact_at(s: Seq<u8>, i: int, pat: Seq<u8>)
    requires
        0 <= i,
        i + pat.len() <= s.len(),
        s.subrange(i, i + pat.len()) == pat,
    ensures
        rd_exact(s, i, pat) == Some(i + pat.len()),
{
}

proof fn lemma_rd_i32_at(s: Seq<u8>, i: int, x: i32)
    requires
        0 <= i,
        i + 5 <= s.len(),
        s.subrange(i, i + 5) == enc_i32(x),
    ensures
        rd_i32(s, i) == Some((x, i + 5)),
{
    let e = enc_i32(x);
    assert(s.subrange(i, i + 1) =~= seq![TAG_I32]) by {
        assert(s[i] == e[0]);
    }
    assert(s.subrange(i + 1, i + 5) =~= be32(x as u32)) by {
        assert forall|t: int| 0 <= t < 4 implies #[trigger] s.subrange(i + 1, i + 5)[t] == be32(x as u32)[t] by {
            assert(s.subrange(i + 1, i + 5)[t] == s[i + 1 + t]);
            assert(s[i + 1 + t] == e[1 + t]);
        }
    }
    lemma_rd_be32_at(s, i + 1, x as u32);
    lemma_i32_round(x);
}

proof fn lemma_rd_elems_at(s: Seq<u8>, i: int, args: Seq<Seq<u8>>)
    requires
        forall|t: int| 0 <= t < args.len() ==> (#[trigger] args[t]).len() < LEN_LIMIT,
        0 <= i,
        i + enc_bin_elems(args).len() <= s.len(),
        s.subrange(i, i + enc_bin_elems(args).len()) == enc_bin_elems(args),
    ensures
        rd_elems(s, i, args.len() as nat) == Some((args, i + enc_bin_elems(args).len())),
    decreases args.len(),
{
    if args.len() == 0 {
        assert(args =~= Seq::<Seq<u8>>::empty());
    } else {
        let head = args[0];
        let e0 = enc_bin(head);
        let rest = enc_bin_elems(args.drop_first());
        assert(enc_bin_elems(args) == e0 + rest);
        assert(e0.len() == 5 + head.len());
        let full = enc_bin_elems(args);
        assert(s.subrange(i, i + e0.len()) =~= e0) by {
            assert forall|t: int| 0 <= t < e0.len() implies #[trigger] s.subrange(i, i + e0.len())[t]
                == e0[t] by {
                assert(s.subrange(i, i + e0.len())[t] == s[i + t]);
                assert(s[i + t] == full[t]);
                assert(full[t] == e0[t]);
            }
        }
        assert(e0 =~= seq![TAG_BIN32] + be32(head.len() as u32) + head);
        lemma_rd_payload_at(s, i, TAG_BIN32, head);
        let j = i + 5 + head.len();
        assert(s.subrange(j, j + rest.len()) =~= rest) by {
            assert forall|t: int| 0 <= t < rest.len() implies #[trigger] s.subrange(j, j + rest.len())[t]
                == rest[t] by {
                assert(s.subrange(j, j + rest.len())[t] == s[j + t]);
                assert(s[j + t] == full[e0.len() + t]);
                assert(full[e0.len() + t] == rest[t]);
            }
        }
        assert forall|t: int| 0 <= t < args.drop_first().len() implies (#[trigger] args.drop_first()[t]).len()
            < LEN_LIMIT by {
            assert(args.drop_first()[t] == args[t + 1]);
        }
        lemma_rd_elems_at(s, j, args.drop_first());
        assert(seq![head] + args.drop_first() =~= args);
        assert(rd_elems(s, i, args.len() as nat) == Some((args, i + full.len())));
    }
}

proof fn lemma_rd_arr_at(s: Seq<u8>, i: int, args: Seq<Seq<u8>>)
    requires
        args.len() < LEN_LIMIT,
        forall|t: int| 0 <= t < args.len() ==> (#[trigger] args[t]).len() < LEN_LIMIT,
        0 <= i,
        i + enc_arr(args).len() <= s.len(),
        s.subrange(i, i + enc_arr(args).len()) == enc_arr(args),
    ensures
        rd_arr(s, i) == Some((args, i + enc_arr(args).len())),
{
    let e = enc_arr(args);
    let n = args.len() as u32;
    assert(s.subrange(i, i + 1) =~= seq![TAG_ARR32]) by {
        assert(s[i] == e[0]);
    }
    assert(s.subrange(i + 1, i + 5) =~= be32(n)) by {
        assert forall|t: int| 0 <= t < 4 implies #[trigger] s.subrange(i + 1, i + 5)[t] == be32(n)[t] by {
            assert(s.subrange(i + 1, i + 5)[t] == s[i + 1 + t]);
            assert(s[i + 1 + t] == e[1 + t]);
        }
    }
    lemma_rd_be32_at(s, i + 1, n);
    let body = enc_bin_elems(args);
    assert(s.subrange(i + 5, i + 5 + body.len()) =~= body) by {
        assert forall|t: int| 0 <= t < body.len() implies #[trigger] s.subrange(i + 5, i + 5 + body.len())[t]
            == body[t] by {
            assert(s.subrange(i + 5, i + 5 + body.len())[t] == s[i + 5 + t]);
            assert(s[i + 5 + t] == e[5 + t]);
        }
    }
    lemma_rd_elems_at(s, i + 5, args);
    assert(n as nat == args.len());
}

/// Decoding an encoded request yields the request back: the codec loses
/// nothing and invents nothing.
#[verifier::rlimit(100)]
#[verifier::spinoff_prover]
pub proof fn lemma_request_round_trip(m: RequestModel)
    requires
        encodable(m),
    ensures
        dec_request(enc_request(m)) == Some(m),
{
    reveal_strlit("language");
    reveal_strlit("code");
    reveal_strlit("input");
    reveal_strlit("arguments");
    reveal_strlit("options");
    reveal_strlit("timeout");
    let a0 = map_hdr(6);
    let a1 = enc_key("language"@);
    let a2 = enc_str_bytes(m.language);
    let a3 = enc_key("code"@);
    let a4 = enc_bin(m.code);
    let a5 = enc_key("input"@);
    let a6 = enc_bin(m.input);
    let a7 = enc_key("arguments"@);
    let a8 = enc_arr(m.arguments);
    let a9 = enc_key("options"@);
    let a10 = enc_arr(m.options);
    let a11 = enc_key("timeout"@);
    let a12 = enc_i32(m.timeout);
    let s = enc_request(m);
    assert(s == a0 + a1 + a2 + a3 + a4 + a5 + a6 + a7 + a8 + a9 + a10 + a11 + a12);

    let o0: int = 0;
    let o1 = o0 + a0.len();
    let o2 = o1 + a1.len();
    let o3 = o2 + a2.len();
    let o4 = o3 + a3.len();
    let o5 = o4 + a4.len();
    let o6 = o5 + a5.len();
    let o7 = o6 + a6.len();
    let o8 = o7 + a7.len();
    let o9 = o8 + a8.len();
    let o10 = o9 + a9.len();
    let o11 = o10 + a10.len();
    let o12 = o11 + a11.len();
    let o13 = o12 + a12.len();
    assert(s.len() == o13);

    assert(s.subrange(o0, o1) =~= a0);
    assert(s.subrange(o1, o2) =~= a1);
    assert(s.subrange(o2, o3) =~= a2);
    assert(s.subrange(o3, o4) =~= a3);
    assert(s.subrange(o4, o5) =~= a4);
    assert(s.subrange(o5, o6) =~= a5);
    assert(s.subrange(o6, o7) =~= a6);
    assert(s.subrange(o7, o8) =~= a7);
    assert(s.subrange(o8, o9) =~= a8);
    assert(s.subrange(o9, o10) =~= a9);
    assert(s.subrange(o10, o11) =~= a10);
    assert(s.subrange(o11, o12) =~= a11);
    assert(s.subrange(o12, o13) =~= a12);

    assert(s.subrange(o0, 1) =~= seq![TAG_MAP32]) by {
        assert(s.subrange(o0, o1)[0] == s[0]);
    }
    assert(s.subrange(1, 5) =~= be32(6)) by {
        assert forall|t: int| 0 <= t < 4 implies #[trigger] s.subrange(1, 5)[t] == be32(6)[t] by {
            assert(s.subrange(1, 5)[t] == s[1 + t]);
            assert(s[1 + t] == a0[1 + t]);
        }
    }
    lemma_rd_be32_at(s, 1, 6);
    assert(rd_lenhdr(s, 0, TAG_MAP32) == Some((6u32, 5int)));

    lemma_rd_exact_at(s, o1, a1);
    assert(a2 =~= seq![TAG_STR32] + be32(m.language.len() as u32) + m.language);
    lemma_rd_payload_at(s, o2, TAG_STR32, m.language);
    lemma_rd_exact_at(s, o3, a3);
    assert(a4 =~= seq![TAG_BIN32] + be32(m.code.len() as u32) + m.code);
    lemma_rd_payload_at(s, o4, TAG_BIN32, m.code);
    lemma_rd_exact_at(s, o5, a5);
    assert(a6 =~= seq![TAG_BIN32] + be32(m.input.len() as u32) + m.input);
    lemma_rd_payload_at(s, o6, TAG_BIN32, m.input);
    lemma_rd_exact_at(s, o7, a7);
    lemma_rd_arr_at(s, o8, m.arguments);
    lemma_rd_exact_at(s, o9, a9);
    lemma_rd_arr_at(s, o10, m.options);
    lemma_rd_exact_at(s, o11, a11);
    lemma_rd_i32_at(s, o12, m.timeout);

    let parsed = dec_request(s);
    assert(parsed == Some(RequestModel {
        language: m.language,
        code: m.code,
        input: m.input,
        arguments: m.arguments,
        options: m.options,
        timeout: m.timeout,
    }));
    assert(RequestModel {
        language: m.language,
        code: m.code,
        input: m.input,
        arguments: m.arguments,
        options: m.options,
        timeout: m.timeout,
    } == m);
}

/// Decoding an encoded `Kill` yields `Kill`, and nothing else decodes: an
/// unknown tag is rejected.
pub proof fn lemma_control_round_trip(s: Seq<u8>)
    ensures
        dec_control(enc_control_kill()) == Some(ControlMessage::Kill),
        dec_control(s) is Some ==> s == enc_control_kill(),
{
}

// ---------------------------------------------------------------------------
// Output frames.
// ---------------------------------------------------------------------------

/// The encoded form of an output frame: a one-entry map from the variant tag
/// to its payload; the `Done` payload is a map of fifteen named fields.
pub open spec fn enc_frame(r: StreamResponse) -> Seq<u8> {
    match r {
        StreamResponse::Stdout(b) => map_hdr(1) + enc_key("Stdout"@) + enc_bin(b@),
        StreamResponse::Stderr(b) => map_hdr(1) + enc_key("Stderr"@) + enc_bin(b@),
        StreamResponse::Done {
            timed_out,
            stdout_truncated,
            stderr_truncated,
            status_type,
            status_value,
            real: real_ns,
            kernel,
            user,
            max_mem,
            waits,
            preemptions,
            major_page_faults,
            minor_page_faults,
            input_ops,
            output_ops,
        } => map_hdr(1) + enc_key("Done"@) + map_hdr(15) + enc_key("timed_out"@) + enc_bool(
            timed_out,
        ) + enc_key("stdout_truncated"@) + enc_bool(stdout_truncated) + enc_key("stderr_truncated"@)
            + enc_bool(stderr_truncated) + enc_key("status_type"@) + enc_str_bytes(
            encode_utf8(status_type@),
        ) + enc_key("status_value"@) + enc_i32(status_value) + enc_key("real"@) + enc_i64(real_ns)
            + enc_key("kernel"@) + enc_i64(kernel) + enc_key("user"@) + enc_i64(user) + enc_key(
            "max_mem"@,
        ) + enc_i64(max_mem) + enc_key("waits"@) + enc_i64(waits) + enc_key("preemptions"@)
            + enc_i64(preemptions) + enc_key("major_page_faults"@) + enc_i64(major_page_faults)
            + enc_key("minor_page_faults"@) + enc_i64(minor_page_faults) + enc_key("input_ops"@)
            + enc_i64(input_ops) + enc_key("output_ops"@) + enc_i64(output_ops),
    }
}

/// A frame the format can carry.
pub open spec fn frame_encodable(r: StreamResponse) -> bool {
    match r {
        StreamResponse::Stdout(b) => b@.len() < LEN_LIMIT,
        StreamResponse::Stderr(b) => b@.len() < LEN_LIMIT,
        StreamResponse::Done { status_type, .. } => encode_utf8(status_type@).len() < LEN_LIMIT,
    }
}

/// Encodes one output frame.
#[verifier::rlimit(100)]
#[verifier::spinoff_prover]
pub fn encode_frame(r: &StreamResponse) -> (out: Vec<u8>)
    requires
        frame_encodable(*r),
    ensures
        out@ == enc_frame(*r),
{
    let mut out: Vec<u8> = Vec::new();
    match r {
        StreamResponse::Stdout(b) => {
            proof {
                reveal_strlit("Stdout");
            }
            push_byte(&mut out, TAG_MAP32);
            push_be32(&mut out, 1);
            push_key(&mut out, "Stdout");
            push_bin(&mut out, b);
            assert(out@ =~= enc_frame(*r));
        },
        StreamResponse::Stderr(b) => {
            proof {
                reveal_strlit("Stderr");
            }
            push_byte(&mut out, TAG_MAP32);
            push_be32(&mut out, 1);
            push_key(&mut out, "Stderr");
            push_bin(&mut out, b);
            assert(out@ =~= enc_frame(*r));
        },
        StreamResponse::Done {
            timed_out,
            stdout_truncated,
            stderr_truncated,
            status_type,
            status_value,
            real: real_ns,
            kernel,
            user,
            max_mem,
            waits,
            preemptions,
            major_page_faults,
            minor_page_faults,
            input_ops,
            output_ops,
        } => {
            proof {
                reveal_strlit("Done");
                reveal_strlit("timed_out");
                reveal_strlit("stdout_truncated");
                reveal_strlit("stderr_truncated");
                reveal_strlit("status_type");
                reveal_strlit("status_value");
                reveal_strlit("real");
                reveal_strlit("kernel");
                reveal_strlit("user");
                reveal_strlit("max_mem");
                reveal_strlit("waits");
                reveal_strlit("preemptions");
                reveal_strlit("major_page_faults");
                reveal_strlit("minor_page_faults");
                reveal_strlit("input_ops");
                reveal_strlit("output_ops");
            }
            push_byte(&mut out, TAG_MAP32);
            push_be32(&mut out, 1);
            push_key(&mut out, "Done");
            push_byte(&mut out, TAG_MAP32);
            push_be32(&mut out, 15);
            push_key(&mut out, "timed_out");
            push_bool(&mut out, *timed_out);
            push_key(&mut out, "stdout_truncated");
            push_bool(&mut out, *stdout_truncated);
            push_key(&mut out, "stderr_truncated");
            push_bool(&mut out, *stderr_truncated);
            push_key(&mut out, "status_type");
            let status_bytes = status_type.as_str().as_bytes_vec();
            push_str_bytes(&mut out, &status_bytes);
            push_key(&mut out, "status_value");
            push_i32(&mut out, *status_value);
            push_key(&mut out, "real");
            push_i64(&mut out, *real_ns);
            push_key(&mut out, "kernel");
            push_i64(&mut out, *kernel);
            push_key(&mut out, "user");
            push_i64(&mut out, *user);
            push_key(&mut out, "max_mem");
            push_i64(&mut out, *max_mem);
            push_key(&mut out, "waits");
            push_i64(&mut out, *waits);
            push_key(&mut out, "preemptions");
            push_i64(&mut out, *preemptions);
            push_key(&mut out, "major_page_faults");
            push_i64(&mut out, *major_page_faults);
            push_key(&mut out, "minor_page_faults");
            push_i64(&mut out, *minor_page_faults);
            push_key(&mut out, "input_ops");
            push_i64(&mut out, *input_ops);
            push_key(&mut out, "output_ops");
            push_i64(&mut out, *output_ops);
            assert(out@ =~= enc_frame(*r));
        },
    }
    out
}

/// Every frame the supervisor emits fits one pipe packet: an output chunk of
/// at most the read-buffer size encodes with 21 bytes of overhead, and the
/// `Done` frame is a few hundred bytes, both under `PIPE_BUF`.
#[verifier::rlimit(100)]
#[verifier::spinoff_prover]
pub proof fn lemma_frame_fits_packet(r: StreamResponse)
    requires
        match r {
            StreamResponse::Stdout(b) => b@.len() <= crate::OUTPUT_BUF_SIZE,
            StreamResponse::Stderr(b) => b@.len() <= crate::OUTPUT_BUF_SIZE,
            StreamResponse::Done { status_type, .. } => encode_utf8(status_type@).len() <= 16,
        },
    ensures
        enc_frame(r).len() <= crate::PIPE_BUF,
{
    match r {
        StreamResponse::Stdout(b) => {
            reveal_strlit("Stdout");
            assert(enc_frame(r).len() == 21 + b@.len());
        },
        StreamResponse::Stderr(b) => {
            reveal_strlit("Stderr");
            assert(enc_frame(r).len() == 21 + b@.len());
        },
        StreamResponse::Done { status_type, .. } => {
            reveal_strlit("Done");
            reveal_strlit("timed_out");
            reveal_strlit("stdout_truncated");
            reveal_strlit("stderr_truncated");
            reveal_strlit("status_type");
            reveal_strlit("status_value");
            reveal_strlit("real");
            reveal_strlit("kernel");
            reveal_strlit("user");
            reveal_strlit("max_mem");
            reveal_strlit("waits");
            reveal_strlit("preemptions");
            reveal_strlit("major_page_faults");
            reveal_strlit("minor_page_faults");
            reveal_strlit("input_ops");
            reveal_strlit("output_ops");
            assert(enc_frame(r).len() <= 400);
        },
    }
}

/// The report strings of the wait dispositions all encode within the bound
/// the packet-size lemma asks for.
pub proof fn lemma_status_type_fits(status: crate::response::ChildStatus, s: Seq<char>)
    requires
        s == crate::response::status_type_chars(status),
    ensures
        encode_utf8(s).len() <= 16,
        encode_utf8(s).len() < LEN_LIMIT,
{
    reveal_strlit("exited");
    reveal_strlit("killed");
    reveal_strlit("core_dumped");
    reveal_strlit("unknown");
    vstd::utf8::is_ascii_chars_encode_utf8(s);
    match status {
        crate::response::ChildStatus::Exited(_) => {
            assert(vstd::utf8::is_ascii_chars(s));
        },
        crate::response::ChildStatus::Signaled { core_dumped: false, .. } => {
            assert(vstd::utf8::is_ascii_chars(s));
        },
        crate::response::ChildStatus::Signaled { core_dumped: true, .. } => {
            assert(vstd::utf8::is_ascii_chars(s));
        },
        crate::response::ChildStatus::Unknown => {
            assert(vstd::utf8::is_ascii_chars(s));
        },
    }
}

} // verus!
