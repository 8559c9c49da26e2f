//! Path utilities: percent-escaping of arbitrary bytes into filesystem-safe
//! names, stripping of extended-length path prefixes, and the diagnostics
//! attached to failed removals.

use vstd::prelude::*;
use vstd::string::*;
use crate::text;

verus! {

/// Whether a byte is percent-escaped: every non-ASCII byte, the ASCII
/// control characters including delete, and the characters
/// `/ \ < > : " | ? *` and space, which are forbidden or reserved in
/// filesystem names.
pub open spec fn escapes(b: u8) -> bool {
    b >= 0x80 || b < 0x20 || b == 0x7f || b == 0x2f || b == 0x5c || b == 0x3c || b == 0x3e
        || b == 0x3a || b == 0x22 || b == 0x7c || b == 0x3f || b == 0x2a || b == 0x20
}

/// The uppercase hexadecimal digit for `d`.
pub open spec fn hex_digit(d: nat) -> char {
    if d == 0 { '0' }
    else if d == 1 { '1' }
    else if d == 2 { '2' }
    else if d == 3 { '3' }
    else if d == 4 { '4' }
    else if d == 5 { '5' }
    else if d == 6 { '6' }
    else if d == 7 { '7' }
    else if d == 8 { '8' }
    else if d == 9 { '9' }
    else if d == 10 { 'A' }
    else if d == 11 { 'B' }
    else if d == 12 { 'C' }
    else if d == 13 { 'D' }
    else if d == 14 { 'E' }
    else { 'F' }
}

/// The characters a single byte escapes to: `%XY` when escaped, the byte
/// itself as a character otherwise.
pub open spec fn escape_byte(b: u8) -> Seq<char> {
    if escapes(b) {
        seq!['%', hex_digit((b / 16) as nat), hex_digit((b % 16) as nat)]
    } else {
        seq![b as char]
    }
}

/// The escaped form of a byte sequence.
pub open spec fn escape_model(bytes: Seq<u8>) -> Seq<char>
    decreases bytes.len(),
{
    if bytes.len() == 0 {
        Seq::empty()
    } else {
        escape_byte(bytes[0]) + escape_model(bytes.subrange(1, bytes.len() as int))
    }
}

/// The uppercase hexadecimal digit for `d`.
fn hex_char_of(d: u8) -> (r: char)
    requires
        d < 16,
    ensures
        r == hex_digit(d as nat),
{
    match d {
        0 => '0',
        1 => '1',
        2 => '2',
        3 => '3',
        4 => '4',
        5 => '5',
        6 => '6',
        7 => '7',
        8 => '8',
        9 => '9',
        10 => 'A',
        11 => 'B',
        12 => 'C',
        13 => 'D',
        14 => 'E',
        _ => 'F',
    }
}

/// Whether `b` must be escaped.
fn escapes_exec(b: u8) -> (r: bool)
    ensures
        r == escapes(b),
{
    b >= 0x80 || b < 0x20 || b == 0x7f || b == 0x2f || b == 0x5c || b == 0x3c || b == 0x3e
        || b == 0x3a || b == 0x22 || b == 0x7c || b == 0x3f || b == 0x2a || b == 0x20
}

/// Percent-escape arbitrary bytes into a name safe for a directory entry.
pub fn escape_path(unescaped: &[u8]) -> (r: String)
    ensures
        r@ == escape_model(unescaped@),
{
    let n = unescaped.len();
    let mut out = String::new();
    let mut i: usize = 0;
    while i < n
        invariant
            n == unescaped@.len(),
            0 <= i <= n,
            out@ == escape_model(unescaped@.subrange(0, i as int)),
        decreases n - i,
    {
        let b = *vstd::slice::slice_index_get(unescaped, i);
        if escapes_exec(b) {
            text::push_char(&mut out, '%');
            text::push_char(&mut out, hex_char_of(b / 16));
            text::push_char(&mut out, hex_char_of(b % 16));
        } else {
            text::push_char(&mut out, b as char);
        }
        proof {
            lemma_escape_model_snoc(unescaped@, i as int);
            assert(out@ =~= escape_model(unescaped@.subrange(0, i + 1)));
        }
        i += 1;
    }
    proof {
        assert(unescaped@.subrange(0, n as int) =~= unescaped@);
    }
    out
}

/// Extending the input by one byte extends the escaped form by that byte's
/// escape.
proof fn lemma_escape_model_snoc(bytes: Seq<u8>, i: int)
    requires
        0 <= i < bytes.len(),
    ensures
        escape_model(bytes.subrange(0, i + 1)) == escape_model(bytes.subrange(0, i)) + escape_byte(
            bytes[i],
        ),
    decreases i,
{
    let a = bytes.subrange(0, i + 1);
    let b = bytes.subrange(0, i);
    if i == 0 {
        assert(a =~= seq![bytes[0]]);
        assert(b =~= Seq::<u8>::empty());
        assert(escape_model(Seq::<u8>::empty()) =~= Seq::<char>::empty());
        assert(a[0] == bytes[0]);
        assert(a.subrange(1, a.len() as int) =~= Seq::<u8>::empty());
        assert(escape_model(a) == escape_byte(bytes[0]) + escape_model(
            a.subrange(1, a.len() as int),
        ));
        assert(escape_model(b) + escape_byte(bytes[0]) =~= escape_byte(bytes[0]));
        assert(escape_model(a) =~= escape_byte(bytes[0]));
    } else {
        let tail = bytes.subrange(1, bytes.len() as int);
        lemma_escape_model_snoc(tail, i - 1);
        assert(a.subrange(1, a.len() as int) =~= tail.subrange(0, i));
        assert(b.subrange(1, b.len() as int) =~= tail.subrange(0, i - 1));
        assert(tail.subrange(0, i)[i - 1] == bytes[i]);
        assert(escape_model(a) == escape_byte(bytes[0]) + escape_model(tail.subrange(0, i)));
        assert(escape_model(b) == escape_byte(bytes[0]) + escape_model(tail.subrange(0, i - 1)));
        assert(escape_model(a) =~= escape_model(b) + escape_byte(bytes[i]));
    }
}

/// Escaping never loses information: two byte strings free of the percent
/// byte that escape to the same name are the same. The percent byte itself
/// is passed through unescaped, so `%2F` and `/` escape alike; inputs
/// holding it are excluded.
pub proof fn lemma_escape_injective(a: Seq<u8>, b: Seq<u8>)
    requires
        forall|i: int| 0 <= i < a.len() ==> a[i] != 0x25,
        forall|i: int| 0 <= i < b.len() ==> b[i] != 0x25,
        escape_model(a) == escape_model(b),
    ensures
        a == b,
    decreases a.len(),
{
    if a.len() == 0 {
        if b.len() > 0 {
            assert(escape_model(b).len() > 0);
        }
        assert(a =~= b);
    } else {
        assert(escape_model(a).len() > 0);
        if b.len() == 0 {
            assert(false);
        }
        let a0 = a[0];
        let b0 = b[0];
        let ea = escape_byte(a0);
        let eb = escape_byte(b0);
        let ta = a.subrange(1, a.len() as int);
        let tb = b.subrange(1, b.len() as int);
        assert(escape_model(a) == ea + escape_model(ta));
        assert(escape_model(b) == eb + escape_model(tb));
        // An unescaped leading byte is ASCII and not the percent byte, so the
        // first character tells the two cases apart.
        assert((ea[0] == '%') == escapes(a0)) by {
            if !escapes(a0) {
                assert(a0 < 0x80 && a0 != 0x25);
                assert((a0 as char) as u8 == a0);
                assert(('%' as u8) == 0x25);
            }
        }
        assert((eb[0] == '%') == escapes(b0)) by {
            if !escapes(b0) {
                assert(b0 < 0x80 && b0 != 0x25);
                assert((b0 as char) as u8 == b0);
                assert(('%' as u8) == 0x25);
            }
        }
        assert(escape_model(a)[0] == ea[0]);
        assert(escape_model(b)[0] == eb[0]);
        if escapes(a0) {
            assert(escapes(b0));
            assert(escape_model(a)[1] == ea[1] && escape_model(a)[2] == ea[2]);
            assert(escape_model(b)[1] == eb[1] && escape_model(b)[2] == eb[2]);
            assert(hex_digit((a0 / 16) as nat) == hex_digit((b0 / 16) as nat));
            assert(hex_digit((a0 % 16) as nat) == hex_digit((b0 % 16) as nat));
            assert(a0 / 16 == b0 / 16 && a0 % 16 == b0 % 16);
            assert(a0 == b0);
            assert(escape_model(ta) =~= escape_model(a).subrange(3, escape_model(a).len() as int));
            assert(escape_model(tb) =~= escape_model(b).subrange(3, escape_model(b).len() as int));
            lemma_escape_injective(ta, tb);
        } else {
            assert(!escapes(b0));
            assert((a0 as char) == (b0 as char));
            assert((a0 as char) as u8 == a0);
            assert((b0 as char) as u8 == b0);
            assert(a0 == b0);
            assert(escape_model(ta) =~= escape_model(a).subrange(1, escape_model(a).len() as int));
            assert(escape_model(tb) =~= escape_model(b).subrange(1, escape_model(b).len() as int));
            lemma_escape_injective(ta, tb);
        }
        assert(a =~= seq![a0] + ta);
        assert(b =~= seq![b0] + tb);
    }
}

/// The extended-length path prefix `\\?\`.
pub open spec fn verbatim_marker() -> Seq<char> {
    seq!['\\', '\\', '?', '\\']
}

/// The index of the first backslash in `s`, or its length if none occurs.
pub open spec fn until_backslash(s: Seq<char>) -> int
    decreases s.len(),
{
    if s.len() == 0 {
        0
    } else if s[0] == '\\' {
        0
    } else {
        1 + until_backslash(s.subrange(1, s.len() as int))
    }
}

/// What an extended-length prefix strips to: for `\\?\X:...` the plain drive
/// `X:\`, for `\\?\name...` the leading component `name`; `None` when the
/// path does not carry the marker.
pub open spec fn strip_verbatim_spec(s: Seq<char>) -> Option<Seq<char>> {
    if s.len() >= 4 && s.subrange(0, 4) == verbatim_marker() {
        let rest = s.subrange(4, s.len() as int);
        if rest.len() >= 2 && rest[1] == ':' {
            Some(seq![rest[0], ':', '\\'])
        } else {
            Some(rest.subrange(0, until_backslash(rest)))
        }
    } else {
        None
    }
}

/// If a path prefix uses the extended-length syntax (`\\?\`), return the
/// equivalent version without it; `None` when the prefix is not verbatim.
/// Verbatim UNC prefixes are not handled and are excluded.
pub fn strip_verbatim_from_prefix(path: &str) -> (r: Option<String>)
    requires
        !text::starts_with_spec(path@, seq!['\\', '\\', '?', '\\', 'U', 'N', 'C', '\\']),
    ensures
        match r {
            Some(p) => strip_verbatim_spec(path@) == Some(p@),
            None => strip_verbatim_spec(path@) is None,
        },
{
    proof {
        reveal_strlit("\\\\?\\");
    }
    if !text::starts_with(path, "\\\\?\\") {
        proof {
            assert("\\\\?\\"@ =~= verbatim_marker());
        }
        return None;
    }
    let n = path.unicode_len();
    proof {
        assert("\\\\?\\"@ =~= verbatim_marker());
        assert(path@.subrange(0, 4) == verbatim_marker());
    }
    let rest = path.substring_char(4, n);
    let rn = rest.unicode_len();
    if rn >= 2 && rest.get_char(1) == ':' {
        let mut out = String::new();
        text::push_char(&mut out, rest.get_char(0));
        text::push_char(&mut out, ':');
        text::push_char(&mut out, '\\');
        proof {
            assert(out@ =~= seq![rest@[0], ':', '\\']);
        }
        Some(out)
    } else {
        let mut k: usize = 0;
        while k < rn && rest.get_char(k) != '\\'
            invariant
                rn == rest@.len(),
                0 <= k <= rn,
                forall|j: int| 0 <= j < k ==> rest@[j] != '\\',
            decreases rn - k,
        {
            k += 1;
        }
        proof {
            lemma_until_backslash(rest@, k as int);
        }
        let lead = rest.substring_char(0, k);
        Some(lead.to_owned())
    }
}

/// `until_backslash` is the position of the first backslash.
proof fn lemma_until_backslash(s: Seq<char>, k: int)
    requires
        0 <= k <= s.len(),
        forall|j: int| 0 <= j < k ==> s[j] != '\\',
        k < s.len() ==> s[k] == '\\',
    ensures
        until_backslash(s) == k,
    decreases k,
{
    if s.len() == 0 {
    } else if s[0] == '\\' {
    } else {
        let tail = s.subrange(1, s.len() as int);
        assert(forall|j: int| 0 <= j < k - 1 ==> tail[j] == s[j + 1] && s[j + 1] != '\\');
        lemma_until_backslash(tail, k - 1);
    }
}

/// A failed removal, remembering the path it concerned and the underlying
/// error's description.
pub struct RemoveError {
    /// The path that could not be removed.
    pub path: String,
    /// The underlying error, as its debug text.
    pub detail: String,
}

impl RemoveError {
    /// The human-readable description of this failure.
    pub fn message(&self) -> (r: String)
        ensures
            r@ == "failed to remove '"@ + self.path@ + "' : "@ + self.detail@,
    {
        let mut out = "failed to remove '".to_owned();
        out.append(self.path.as_str());
        out.append("' : ");
        out.append(self.detail.as_str());
        out
    }
}

/// Attach the offending path to a removal error's description.
pub fn improve_remove_error(detail: String, path: &str) -> (r: RemoveError)
    ensures
        r.path@ == path@,
        r.detail == detail,
{
    RemoveError { path: path.to_owned(), detail }
}

} // verus!
