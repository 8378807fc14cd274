use vstd::prelude::*;
use vstd::utf8::encode_utf8;

verus! {

/// A text that the matchers take: ASCII characters only, and none of them NUL.
pub open spec fn routable(path: Seq<char>) -> bool {
    forall|i: int| 0 <= i < path.len() ==> '\u{1}' <= #[trigger] path[i] <= '\u{7f}'
}

/// The hexadecimal digit, in upper case, of a number below sixteen.
pub open spec fn hex_digit(d: u8) -> char {
    if d < 10 {
        ((48 + d) as u8) as char
    } else {
        ((55 + d) as u8) as char
    }
}

/// One byte in ASCII: an ASCII byte other than NUL stands for itself, any other byte is
/// percent-encoded.
pub open spec fn escape_byte(b: u8) -> Seq<char> {
    if 1 <= b <= 0x7f {
        seq![b as char]
    } else {
        seq!['%', hex_digit(b / 16), hex_digit(b % 16)]
    }
}

/// The bytes in ASCII, one after the other.
pub open spec fn escape_bytes(bytes: Seq<u8>) -> Seq<char>
    decreases bytes.len(),
{
    if bytes.len() == 0 {
        Seq::empty()
    } else {
        escape_bytes(bytes.drop_last()) + escape_byte(bytes.last())
    }
}

/// The ASCII form of a text: its UTF-8 bytes, with every byte outside ASCII, and NUL,
/// percent-encoded. A `%` of the text stays as it is, so percent-decoding the form gives
/// what percent-decoding the text gives.
pub open spec fn escaped(text: Seq<char>) -> Seq<char> {
    escape_bytes(encode_utf8(text))
}

/// The first `k` bytes of an ASCII text without NUL stand for its first `k` characters.
proof fn own_form_up_to(text: Seq<char>, bytes: Seq<u8>, k: int)
    requires
        routable(text),
        bytes.len() == text.len(),
        forall|i: int| 0 <= i < text.len() ==> text[i] as u8 == #[trigger] bytes[i],
        0 <= k <= text.len(),
    ensures
        escape_bytes(bytes.take(k)) == text.take(k),
    decreases k,
{
    if k > 0 {
        own_form_up_to(text, bytes, k - 1);
        let c = text[k - 1];
        assert('\u{1}' <= c <= '\u{7f}');
        assert(bytes.take(k).drop_last() =~= bytes.take(k - 1));
        assert(bytes.take(k).last() == bytes[k - 1]);
        assert((c as u8) as char == c);
        assert(text.take(k) =~= text.take(k - 1).push(c));
        assert(escape_bytes(bytes.take(k)) =~= text.take(k));
    } else {
        assert(escape_bytes(bytes.take(0)) =~= text.take(0));
    }
}

/// A text that is routable is its own ASCII form.
pub proof fn routable_is_its_own_form(text: Seq<char>)
    requires
        routable(text),
    ensures
        escaped(text) == text,
{
    assert(vstd::utf8::is_ascii_chars(text));
    vstd::utf8::is_ascii_chars_encode_utf8(text);
    let bytes = encode_utf8(text);
    own_form_up_to(text, bytes, text.len() as int);
    assert(bytes.take(text.len() as int) =~= bytes);
    assert(text.take(text.len() as int) =~= text);
}

/// `String::push` of std: the character goes to the end of the text.
#[verifier::external_body]
fn push_char(text: &mut String, c: char)
    ensures
        final(text)@ == old(text)@.push(c),
{
    text.push(c)
}

/// The hexadecimal digit of a number below sixteen.
fn hex(d: u8) -> (c: char)
    requires
        d < 16,
    ensures
        c == hex_digit(d),
        '0' <= c <= 'F',
{
    if d < 10 {
        (48 + d) as char
    } else {
        (55 + d) as char
    }
}

/// Whether every character of `path` is an ASCII character other than NUL.
pub fn is_routable(path: &str) -> (ok: bool)
    ensures
        ok == routable(path@),
{
    if !path.is_ascii() {
        return false;
    }
    let n: usize = path.unicode_len();
    let mut i: usize = 0;
    while i < n
        invariant
            i <= n,
            n == path@.len(),
            path.is_ascii(),
            forall|j: int| 0 <= j < i ==> '\u{1}' <= #[trigger] path@[j] <= '\u{7f}',
        decreases n - i,
    {
        if path.get_ascii(i) == 0 {
            return false;
        }
        i += 1;
    }
    true
}

/// The ASCII form of a text, which every matcher takes.
pub fn ascii_form(text: &str) -> (out: String)
    ensures
        out@ == escaped(text@),
        routable(out@),
{
    let bytes = text.as_bytes();
    let mut out = String::new();
    let mut i: usize = 0;
    while i < bytes.len()
        invariant
            i <= bytes@.len(),
            out@ == escape_bytes(bytes@.take(i as int)),
            routable(out@),
        decreases bytes@.len() - i,
    {
        let b: u8 = bytes[i];
        proof {
            assert(bytes@.take(i + 1).drop_last() =~= bytes@.take(i as int));
            assert(bytes@.take(i + 1).last() == b);
        }
        if 1 <= b && b <= 0x7f {
            push_char(&mut out, b as char);
        } else {
            push_char(&mut out, '%');
            push_char(&mut out, hex(b / 16));
            push_char(&mut out, hex(b % 16));
            assert(out@ =~= escape_bytes(bytes@.take(i as int)) + escape_byte(b));
        }
        i += 1;
    }
    assert(bytes@.take(bytes@.len() as int) =~= bytes@);
    out
}

} // verus!
