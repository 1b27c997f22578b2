//! Character-sequence helpers shared by the text-producing and text-parsing
//! parts of the crate.
use vstd::prelude::*;

verus! {

/// Whether two string slices hold the same characters.
pub(crate) fn str_eq(a: &str, b: &str) -> (equal: bool)
    ensures
        equal == (a@ == b@),
{
    let x: String = a.to_owned();
    let y: String = b.to_owned();
    x == y
}

/// A copy of a string.
pub(crate) fn clone_string(s: &String) -> (copy: String)
    ensures
        copy@ == s@,
{
    s.clone()
}

/// The characters of `s`, in order.
pub(crate) fn chars_of(s: &str) -> (chars: Vec<char>)
    ensures
        chars@ == s@,
{
    let mut v: Vec<char> = Vec::new();
    for c in it: s.chars()
        invariant
            v@ == it.seq().take(it.index() as int),
            it.seq() == s@,
    {
        v.push(c);
    }
    v
}

/// `String`'s `FromIterator<&char>`: the string made of the given characters, in order.
#[verifier::external_body]
pub(crate) fn string_from_chars(chars: &Vec<char>) -> (s: String)
    ensures
        s@ == chars@,
{
    chars.iter().collect()
}

/// An owned copy of a string slice.
pub fn owned(s: &str) -> (o: String)
    ensures
        o@ == s@,
{
    String::from_str(s)
}

/// Whether `needle` occurs as a contiguous run inside `hay`.
pub open spec fn spec_contains(hay: Seq<char>, needle: Seq<char>) -> bool {
    exists|i: int| 0 <= i <= hay.len() - needle.len() && #[trigger] hay.subrange(i, i + needle.len()) == needle
}

/// Whether `needle` occurs at position `at` of `hay`.
fn occurs_at(hay: &Vec<char>, needle: &Vec<char>, at: usize) -> (found: bool)
    requires
        at + needle.len() <= hay.len(),
    ensures
        found == (hay@.subrange(at as int, at + needle.len()) == needle@),
{
    let mut j: usize = 0;
    while j < needle.len()
        invariant
            at + needle.len() <= hay.len(),
            j <= needle.len(),
            forall|k: int| 0 <= k < j ==> hay@[at + k] == needle@[k],
        decreases needle.len() - j,
    {
        if hay[at + j] != needle[j] {
            assert(hay@.subrange(at as int, at + needle.len())[j as int] != needle@[j as int]);
            return false;
        }
        j = j + 1;
    }
    assert(hay@.subrange(at as int, at + needle.len()) =~= needle@);
    true
}

/// Whether `needle` occurs as a contiguous run of characters inside `hay`
/// (`str::contains` with a string pattern).
pub fn contains(hay: &str, needle: &str) -> (found: bool)
    ensures
        found == spec_contains(hay@, needle@),
{
    let h = chars_of(hay);
    let n = chars_of(needle);
    if n.len() > h.len() {
        return false;
    }
    let last = h.len() - n.len();
    let mut i: usize = 0;
    loop
        invariant
            last == h.len() - n.len(),
            n.len() <= h.len(),
            i <= last,
            h@ == hay@,
            n@ == needle@,
            forall|k: int| 0 <= k < i ==> #[trigger] h@.subrange(k, k + n.len()) != n@,
        decreases last - i,
    {
        if occurs_at(&h, &n, i) {
            return true;
        }
        if i == last {
            return false;
        }
        i = i + 1;
    }
}


/// The decimal digit `d`.
pub open spec fn spec_digit(d: nat) -> char {
    seq!['0', '1', '2', '3', '4', '5', '6', '7', '8', '9'][d as int]
}

/// `n` written in decimal.
pub open spec fn spec_decimal(n: nat) -> Seq<char>
    decreases n,
{
    if n < 10 { seq![spec_digit(n)] } else { spec_decimal(n / 10).push(spec_digit(n % 10)) }
}

/// The digit `d` as a character.
pub fn digit(d: usize) -> (c: char)
    requires
        d < 10,
    ensures
        c == spec_digit(d as nat),
{
    let digits = ['0', '1', '2', '3', '4', '5', '6', '7', '8', '9'];
    assert(digits@ == seq!['0', '1', '2', '3', '4', '5', '6', '7', '8', '9']);
    digits[d]
}

/// `n` written in decimal.
pub fn decimal(n: u64) -> (digits: Vec<char>)
    ensures
        digits@ == spec_decimal(n as nat),
    decreases n,
{
    if n < 10 {
        let mut v = Vec::new();
        v.push(digit(n as usize));
        assert(v@ =~= seq![spec_digit(n as nat)]);
        v
    } else {
        let mut v = decimal(n / 10);
        v.push(digit((n % 10) as usize));
        v
    }
}

/// Appends the characters of `s` to `v`.
pub fn push_str(v: &mut Vec<char>, s: &str)
    ensures
        final(v)@ == old(v)@ + s@,
{
    let cs = chars_of(s);
    let ghost start = v@;
    let mut i: usize = 0;
    while i < cs.len()
        invariant
            i <= cs@.len(),
            v@ == start + cs@.take(i as int),
        decreases cs@.len() - i,
    {
        v.push(cs[i]);
        i = i + 1;
        assert(v@ =~= start + cs@.take(i as int));
    }
    assert(cs@.take(i as int) =~= cs@);
}

/// Whether `c` has the Unicode `White_Space` property (`char::is_whitespace`).
pub open spec fn spec_is_whitespace(c: char) -> bool {
    let u = c as u32;
    ||| 0x09 <= u <= 0x0D
    ||| u == 0x20
    ||| u == 0x85
    ||| u == 0xA0
    ||| u == 0x1680
    ||| 0x2000 <= u <= 0x200A
    ||| u == 0x2028
    ||| u == 0x2029
    ||| u == 0x202F
    ||| u == 0x205F
    ||| u == 0x3000
}

/// Whether `c` is white space in the Unicode sense.
pub fn is_whitespace(c: char) -> (ws: bool)
    ensures
        ws == spec_is_whitespace(c),
{
    let u = c as u32;
    (0x09 <= u && u <= 0x0D) || u == 0x20 || u == 0x85 || u == 0xA0 || u == 0x1680
        || (0x2000 <= u && u <= 0x200A) || u == 0x2028 || u == 0x2029 || u == 0x202F || u == 0x205F
        || u == 0x3000
}

/// The number of bytes of the UTF-8 encoding of `c` (`char::len_utf8`).
pub open spec fn spec_utf8_width(c: char) -> nat {
    let u = c as u32;
    if u < 0x80 { 1 } else if u < 0x800 { 2 } else if u < 0x10000 { 3 } else { 4 }
}

/// The number of bytes of the UTF-8 encoding of a character sequence.
pub open spec fn spec_utf8_len(s: Seq<char>) -> nat
    decreases s.len(),
{
    if s.len() == 0 { 0 } else { spec_utf8_len(s.drop_last()) + spec_utf8_width(s.last()) }
}

/// A prefix never takes more bytes than the whole, and every character
/// takes at least one byte.
pub proof fn lemma_utf8_prefix(s: Seq<char>, n: int)
    requires
        0 <= n <= s.len(),
    ensures
        spec_utf8_len(s.take(n)) <= spec_utf8_len(s),
        n <= spec_utf8_len(s.take(n)),
    decreases s.len() - n,
{
    if n < s.len() {
        lemma_utf8_prefix(s, n + 1);
        assert(s.take(n + 1).drop_last() =~= s.take(n));
    } else {
        assert(s.take(n) =~= s);
    }
    lemma_utf8_at_least_len(s.take(n));
}

/// Every character takes at least one byte.
pub proof fn lemma_utf8_at_least_len(s: Seq<char>)
    ensures
        s.len() <= spec_utf8_len(s),
    decreases s.len(),
{
    if s.len() > 0 {
        lemma_utf8_at_least_len(s.drop_last());
    }
}

/// Counting from the front gives the same byte count as counting from the back.
pub proof fn lemma_utf8_len_first(s: Seq<char>)
    requires
        s.len() > 0,
    ensures
        spec_utf8_len(s) == spec_utf8_width(s[0]) + spec_utf8_len(s.drop_first()),
    decreases s.len(),
{
    if s.len() > 1 {
        lemma_utf8_len_first(s.drop_last());
        assert(s.drop_last().drop_first() =~= s.drop_first().drop_last());
        assert(s.drop_last()[0] == s[0]);
        assert(s.drop_first().last() == s.last());
    } else {
        assert(s.drop_first() =~= Seq::<char>::empty());
        assert(s.drop_last() =~= Seq::<char>::empty());
    }
}

/// The byte count above is the length of the standard UTF-8 encoding.
pub proof fn lemma_utf8_len_is_encoding_len(s: Seq<char>)
    ensures
        vstd::utf8::encode_utf8(s).len() == spec_utf8_len(s),
    decreases s.len(),
{
    if s.len() > 0 {
        lemma_utf8_len_first(s);
        lemma_utf8_len_is_encoding_len(s.drop_first());
        vstd::utf8::char_is_scalar(s[0]);
    }
    if s.len() == 0 {
        assert(vstd::utf8::encode_utf8(s) =~= Seq::<u8>::empty());
    }
}

/// The length in bytes of the UTF-8 text `s` (`str::len`).
pub fn byte_len(s: &str) -> (n: usize)
    ensures
        n == spec_utf8_len(s@),
{
    let bytes = s.as_bytes();
    proof {
        lemma_utf8_len_is_encoding_len(s@);
    }
    bytes.len()
}

/// The number of bytes of the UTF-8 encoding of `c`.
pub fn utf8_width(c: char) -> (w: usize)
    ensures
        w == spec_utf8_width(c),
{
    let u = c as u32;
    if u < 0x80 { 1 } else if u < 0x800 { 2 } else if u < 0x10000 { 3 } else { 4 }
}

/// The byte length of the UTF-8 encoding of `chars`.
pub fn utf8_len(chars: &Vec<char>) -> (n: usize)
    requires
        spec_utf8_len(chars@) <= usize::MAX,
    ensures
        n == spec_utf8_len(chars@),
{
    let mut n: usize = 0;
    let mut i: usize = 0;
    while i < chars.len()
        invariant
            i <= chars@.len(),
            n == spec_utf8_len(chars@.take(i as int)),
            spec_utf8_len(chars@) <= usize::MAX,
        decreases chars@.len() - i,
    {
        proof {
            assert(chars@.take(i as int + 1).drop_last() =~= chars@.take(i as int));
            lemma_utf8_prefix(chars@, i as int + 1);
        }
        n = n + utf8_width(chars[i]);
        i = i + 1;
    }
    assert(chars@.take(i as int) =~= chars@);
    n
}

/// `s` with trailing white space removed (`str::trim_end`).
pub open spec fn spec_trim_end(s: Seq<char>) -> Seq<char>
    decreases s.len(),
{
    if s.len() > 0 && spec_is_whitespace(s.last()) { spec_trim_end(s.drop_last()) } else { s }
}

/// Trimming keeps a prefix.
pub proof fn lemma_trim_end_prefix(s: Seq<char>)
    ensures
        spec_trim_end(s).len() <= s.len(),
        spec_trim_end(s) == s.take(spec_trim_end(s).len() as int),
    decreases s.len(),
{
    if s.len() > 0 && spec_is_whitespace(s.last()) {
        lemma_trim_end_prefix(s.drop_last());
        let t = spec_trim_end(s.drop_last());
        assert(t =~= s.take(t.len() as int));
    } else {
        assert(s =~= s.take(s.len() as int));
    }
}

/// `chars` with trailing white space removed.
pub fn trim_end(chars: Vec<char>) -> (trimmed: Vec<char>)
    ensures
        trimmed@ == spec_trim_end(chars@),
{
    let mut v = chars;
    while v.len() > 0 && is_whitespace(v[v.len() - 1])
        invariant
            spec_trim_end(v@) == spec_trim_end(chars@),
        decreases v@.len(),
    {
        let ghost before = v@;
        v.pop();
        assert(v@ =~= before.drop_last());
    }
    v
}

/// The pieces of `s` between newline characters: one more piece than there
/// are newlines.
pub open spec fn spec_split_newlines(s: Seq<char>) -> Seq<Seq<char>>
    decreases s.len(),
{
    if s.len() == 0 {
        seq![Seq::<char>::empty()]
    } else {
        let parts = spec_split_newlines(s.drop_last());
        if s.last() == '\n' {
            parts.push(Seq::<char>::empty())
        } else {
            parts.update(parts.len() - 1, parts.last().push(s.last()))
        }
    }
}

/// A line with the carriage return of a CR-LF ending removed.
pub open spec fn spec_strip_cr(line: Seq<char>) -> Seq<char> {
    if line.len() > 0 && line.last() == '\r' { line.drop_last() } else { line }
}

/// The lines of `s` (`str::lines`): split at `\n` or `\r\n`; a final line
/// ending adds no empty line, and an empty text has no lines.
pub open spec fn spec_lines(s: Seq<char>) -> Seq<Seq<char>> {
    let parts = spec_split_newlines(s);
    let full = parts.take(parts.len() - 1).map_values(|p: Seq<char>| spec_strip_cr(p));
    if parts.last().len() == 0 { full } else { full.push(parts.last()) }
}

/// The views of a list of character vectors.
pub open spec fn seqs_view(v: Seq<Vec<char>>) -> Seq<Seq<char>> {
    v.map_values(|l: Vec<char>| l@)
}

/// The lines of `chars`, as `str::lines` splits them; no line takes more
/// bytes than the whole text.
pub fn lines_of(chars: &Vec<char>) -> (lines: Vec<Vec<char>>)
    ensures
        seqs_view(lines@) == spec_lines(chars@),
        forall|j: int| 0 <= j < lines@.len() ==> spec_utf8_len(#[trigger] lines@[j]@) <= spec_utf8_len(chars@),
{
    let mut done: Vec<Vec<char>> = Vec::new();
    let mut cur: Vec<char> = Vec::new();
    let ghost mut raw: Seq<Seq<char>> = Seq::empty();
    let mut i: usize = 0;
    while i < chars.len()
        invariant
            i <= chars@.len(),
            spec_split_newlines(chars@.take(i as int)) == raw.push(cur@),
            seqs_view(done@) == raw.map_values(|p: Seq<char>| spec_strip_cr(p)),
            spec_utf8_len(cur@) <= spec_utf8_len(chars@.take(i as int)),
            forall|j: int| 0 <= j < done@.len() ==> spec_utf8_len(#[trigger] done@[j]@) <= spec_utf8_len(chars@),
        decreases chars@.len() - i,
    {
        let c = chars[i];
        proof {
            assert(chars@.take(i as int + 1).drop_last() =~= chars@.take(i as int));
            assert(chars@.take(i as int + 1).last() == c);
            lemma_utf8_prefix(chars@, i as int);
            lemma_utf8_prefix(chars@, i as int + 1);
        }
        if c == '\n' {
            let mut line = Vec::new();
            std::mem::swap(&mut line, &mut cur);
            let ghost piece = line@;
            if line.len() > 0 && line[line.len() - 1] == '\r' {
                let ghost before = line@;
                line.pop();
                assert(line@ =~= before.drop_last());
            }
            assert(line@ == spec_strip_cr(piece));
            proof {
                lemma_utf8_prefix(piece, line@.len() as int);
                assert(line@ =~= piece.take(line@.len() as int));
            }
            let ghost before_done = done@;
            done.push(line);
            proof {
                assert(raw.push(piece).push(Seq::<char>::empty()) =~= raw.push(piece).push(cur@));
                let prev = raw;
                raw = raw.push(piece);
                assert(seqs_view(done@) =~= seqs_view(before_done).push(spec_strip_cr(piece)));
                assert(raw.map_values(|p: Seq<char>| spec_strip_cr(p))
                    =~= prev.map_values(|p: Seq<char>| spec_strip_cr(p)).push(spec_strip_cr(piece)));
            }
        } else {
            let ghost before = cur@;
            cur.push(c);
            proof {
                assert(cur@.drop_last() =~= before);
                let parts = spec_split_newlines(chars@.take(i as int));
                assert(parts.last() == before);
                assert(raw.push(before).update(raw.len() as int, before.push(c)) =~= raw.push(cur@));
            }
        }
        i = i + 1;
    }
    proof {
        assert(chars@.take(i as int) =~= chars@);
        let parts = raw.push(cur@);
        assert(parts.take(parts.len() - 1) =~= raw);
    }
    if cur.len() > 0 {
        let ghost before_done = done@;
        done.push(cur);
        assert(seqs_view(done@) =~= seqs_view(before_done).push(cur@));
    }
    done
}

} // verus!
