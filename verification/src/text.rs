use vstd::prelude::*;
use vstd::std_specs::iter::IteratorSpec;

verus! {

/// True if `a` and `b` hold the same characters in the same order.
pub(crate) fn str_eq(a: &str, b: &str) -> (r: bool)
    ensures
        r == (a@ == b@),
{
    let mut left = a.chars();
    let mut right = b.chars();
    let ghost mut done: int = 0;
    loop
        invariant
            0 <= done <= a@.len(),
            done <= b@.len(),
            left.remaining() == a@.skip(done),
            right.remaining() == b@.skip(done),
            a@.take(done) == b@.take(done),
        decreases a@.len() - done,
    {
        match left.next() {
            Some(x) => match right.next() {
                Some(y) => {
                    proof {
                        assert(x == a@[done]);
                        assert(y == b@[done]);
                        assert(a@.skip(done).drop_first() =~= a@.skip(done + 1));
                        assert(b@.skip(done).drop_first() =~= b@.skip(done + 1));
                    }
                    if x != y {
                        return false;
                    }
                    proof {
                        assert(a@.take(done + 1) =~= a@.take(done).push(x));
                        assert(b@.take(done + 1) =~= b@.take(done).push(y));
                        done = done + 1;
                    }
                },
                None => {
                    proof {
                        assert(b@.len() == done);
                        assert(a@.len() > done);
                    }
                    return false;
                },
            },
            None => {
                proof {
                    assert(a@.len() == done);
                    assert(a@.take(done) =~= a@);
                }
                match right.next() {
                    Some(_) => {
                        proof {
                            assert(b@.len() > done);
                        }
                        return false;
                    },
                    None => {
                        proof {
                            assert(b@.len() == done);
                            assert(b@.take(done) =~= b@);
                        }
                        return true;
                    },
                }
            },
        }
    }
}

/// `String::push` of the standard library: appends one character to the end
/// of the string.
#[verifier::external_body]
pub(crate) fn push_char(s: &mut String, c: char)
    ensures
        final(s)@ == old(s)@.push(c),
{
    s.push(c);
}

/// The character that stands for the digit `d` in base 10 or 16; the letters
/// are lower case.
pub open spec fn digit_char(d: nat) -> char
    recommends
        d < 16,
{
    if d < 10 {
        (48 + d) as u8 as char
    } else {
        (87 + d) as u8 as char
    }
}

/// The digits of `n` in the base `base`, without leading zeros; "0" for 0.
pub open spec fn digits(n: nat, base: nat) -> Seq<char>
    recommends
        2 <= base <= 16,
    decreases n,
    via digits_decreases
{
    if n < base || base < 2 {
        seq![digit_char(n)]
    } else {
        digits(n / base, base).push(digit_char(n % base))
    }
}

#[via_fn]
proof fn digits_decreases(n: nat, base: nat) {
    if !(n < base || base < 2) {
        assert(n / base < n) by (nonlinear_arith)
            requires
                n >= base,
                base >= 2,
        ;
    }
}

/// `n` in decimal.
pub open spec fn decimal(n: nat) -> Seq<char> {
    digits(n, 10)
}

/// `count` zeros.
pub open spec fn zeros(count: nat) -> Seq<char> {
    Seq::new(count, |i: int| '0')
}

/// `n` in hexadecimal with the prefix "0x", lower-case letters, and zeros in
/// front of the digits until there are `width` of them.
pub open spec fn hex(n: nat, width: nat) -> Seq<char> {
    let body = digits(n, 16);
    let missing = if width > body.len() {
        (width - body.len()) as nat
    } else {
        0
    };
    seq!['0', 'x'] + zeros(missing) + body
}

/// `s` with every `from` replaced by `to`.
pub open spec fn replaced(s: Seq<char>, from: char, to: Seq<char>) -> Seq<char>
    decreases s.len(),
{
    if s.len() == 0 {
        s
    } else if s.last() == from {
        replaced(s.drop_last(), from, to) + to
    } else {
        replaced(s.drop_last(), from, to).push(s.last())
    }
}

/// The UTF-16 code units of a character: the code point itself if it fits 16
/// bits, and else a high and a low surrogate that share its upper and lower
/// ten bits above 0x10000.
pub open spec fn utf16_of_char(c: char) -> Seq<u16> {
    let code = c as u32;
    if code < 0x10000 {
        seq![code as u16]
    } else {
        seq![
            (0xD800 + ((code - 0x10000) as u32 >> 10)) as u16,
            (0xDC00 + ((code - 0x10000) as u32 & 0x3FF)) as u16,
        ]
    }
}

/// The UTF-16 code units of a text.
pub open spec fn utf16(s: Seq<char>) -> Seq<u16>
    decreases s.len(),
{
    if s.len() == 0 {
        Seq::<u16>::empty()
    } else {
        utf16(s.drop_last()) + utf16_of_char(s.last())
    }
}

/// The UTF-16 code units of a text, followed by the terminating zero.
pub open spec fn utf16_nul(s: Seq<char>) -> Seq<u16> {
    utf16(s).push(0)
}

/// The greatest position of `s` at which `c` stands, or -1 if it stands
/// nowhere.
pub open spec fn last_index_of(s: Seq<char>, c: char) -> int
    decreases s.len(),
{
    if s.len() == 0 {
        -1
    } else if s.last() == c {
        s.len() - 1
    } else {
        last_index_of(s.drop_last(), c)
    }
}

/// Whether `c` separates the parts of a path.
pub open spec fn is_separator(c: char) -> bool {
    c == '\\' || c == '/'
}

/// The path `relative` below the directory `base`. A backslash is put between
/// the two unless `base` is empty or ends with a separator already.
pub open spec fn joined(base: Seq<char>, relative: Seq<char>) -> Seq<char> {
    if base.len() == 0 || is_separator(base.last()) {
        base + relative
    } else {
        base.push('\\') + relative
    }
}

/// The position of the last separator of `path`, or -1 if it holds none.
pub open spec fn last_separator(path: Seq<char>) -> int {
    let backslash = last_index_of(path, '\\');
    let slash = last_index_of(path, '/');
    if backslash >= slash {
        backslash
    } else {
        slash
    }
}

/// The directory that holds `path`: what stands in front of the last
/// separator. A path without separators lies in the empty directory.
pub open spec fn directory(path: Seq<char>) -> Seq<char> {
    if last_separator(path) >= 0 {
        path.take(last_separator(path))
    } else {
        Seq::<char>::empty()
    }
}

/// The part of `path` behind its last backslash; behind its last slash if it
/// holds no backslash; all of it if it holds neither.
pub open spec fn file_name(path: Seq<char>) -> Seq<char> {
    let backslash = last_index_of(path, '\\');
    let slash = last_index_of(path, '/');
    if backslash >= 0 {
        path.skip(backslash + 1)
    } else if slash >= 0 {
        path.skip(slash + 1)
    } else {
        path
    }
}

/// `last_index_of` finds a position of `c`, and the last one: behind it `c`
/// does not stand any more.
pub proof fn lemma_last_index_of(s: Seq<char>, c: char)
    ensures
        -1 <= last_index_of(s, c) < s.len(),
        last_index_of(s, c) >= 0 ==> s[last_index_of(s, c)] == c,
        forall|i: int| last_index_of(s, c) < i < s.len() ==> s[i] != c,
    decreases s.len(),
{
    if s.len() > 0 && s.last() != c {
        let front = s.drop_last();
        lemma_last_index_of(front, c);
        assert forall|i: int| last_index_of(s, c) < i < s.len() implies s[i] != c by {
            if i < front.len() {
                assert(front[i] == s[i]);
            }
        }
    }
}

/// The file name of a path holds no backslash; it holds no slash either
/// unless the path holds a backslash in front of it.
pub proof fn lemma_file_name(path: Seq<char>)
    ensures
        !file_name(path).contains('\\'),
        last_index_of(path, '\\') < 0 ==> !file_name(path).contains('/'),
        file_name(path).len() <= path.len(),
{
    lemma_last_index_of(path, '\\');
    lemma_last_index_of(path, '/');
}

/// Returns the character that stands for the digit `d`.
fn digit(d: u8) -> (c: char)
    requires
        d < 16,
    ensures
        c == digit_char(d as nat),
{
    if d < 10 {
        (48u8 + d) as char
    } else {
        (87u8 + d) as char
    }
}

/// Appends the digits of `n` in the base `base` to `out`.
fn push_digits(out: &mut String, n: u64, base: u64)
    requires
        2 <= base <= 16,
    ensures
        final(out)@ == old(out)@ + digits(n as nat, base as nat),
    decreases n,
{
    if n < base {
        push_char(out, digit(n as u8));
        proof {
            assert(out@ =~= old(out)@ + digits(n as nat, base as nat));
        }
    } else {
        proof {
            assert(n / base < n) by (nonlinear_arith)
                requires
                    n >= base,
                    base >= 2,
            ;
        }
        push_digits(out, n / base, base);
        push_char(out, digit((n % base) as u8));
        proof {
            assert(out@ =~= old(out)@ + digits(n as nat, base as nat));
        }
    }
}

/// The number of digits of `n` in the base `base`.
fn count_digits(n: u64, base: u64) -> (count: u64)
    requires
        2 <= base <= 16,
    ensures
        count == digits(n as nat, base as nat).len(),
        1 <= count,
{
    let mut count: u64 = 1;
    let mut rest: u64 = n;
    while rest >= base
        invariant
            2 <= base <= 16,
            1 <= count,
            count + rest <= n + 1,
            count + digits(rest as nat, base as nat).len() == digits(n as nat, base as nat).len()
                + 1,
        decreases rest,
    {
        rest = rest / base;
        count = count + 1;
    }
    count
}

/// Appends `n` in decimal to `out`.
pub fn push_decimal(out: &mut String, n: u64)
    ensures
        final(out)@ == old(out)@ + decimal(n as nat),
{
    push_digits(out, n, 10);
}

/// Appends `n` in hexadecimal to `out`: the prefix "0x", then at least
/// `width` digits with lower-case letters, led by zeros if `n` has fewer.
pub fn push_hex(out: &mut String, n: u64, width: usize)
    ensures
        final(out)@ == old(out)@ + hex(n as nat, width as nat),
{
    push_char(out, '0');
    push_char(out, 'x');
    let count = count_digits(n, 16);
    let missing: u64 = if (width as u64) > count {
        (width as u64) - count
    } else {
        0
    };
    let mut padding: u64 = 0;
    while padding < missing
        invariant
            padding <= missing,
            out@ == old(out)@ + seq!['0', 'x'] + zeros(padding as nat),
        decreases missing - padding,
    {
        push_char(out, '0');
        proof {
            assert(zeros(padding as nat).push('0') =~= zeros((padding + 1) as nat));
            assert(out@ =~= old(out)@ + seq!['0', 'x'] + zeros((padding + 1) as nat));
        }
        padding = padding + 1;
    }
    push_digits(out, n, 16);
    proof {
        assert(old(out)@ + seq!['0', 'x'] + zeros(padding as nat) + digits(n as nat, 16) =~= old(
            out,
        )@ + (seq!['0', 'x'] + zeros(padding as nat) + digits(n as nat, 16)));
        assert(out@ =~= old(out)@ + hex(n as nat, width as nat));
    }
}

/// Returns `s` with every `from` replaced by `to`.
pub fn replace_char(s: &str, from: char, to: &str) -> (r: String)
    ensures
        r@ == replaced(s@, from, to@),
{
    let mut out = String::new();
    let mut it = s.chars();
    let ghost mut done: int = 0;
    loop
        invariant
            0 <= done <= s@.len(),
            it.remaining() == s@.skip(done),
            out@ == replaced(s@.take(done), from, to@),
        decreases s@.len() - done,
    {
        match it.next() {
            Some(c) => {
                proof {
                    assert(c == s@[done]);
                    assert(s@.take(done + 1).drop_last() =~= s@.take(done));
                    assert(s@.skip(done).drop_first() =~= s@.skip(done + 1));
                }
                if c == from {
                    out.append(to);
                } else {
                    push_char(&mut out, c);
                }
                proof {
                    done = done + 1;
                }
            },
            None => {
                proof {
                    assert(s@.take(done) =~= s@);
                }
                return out;
            },
        }
    }
}

/// Returns the code point of `c`. No character lies above 0x10FFFF.
pub(crate) fn code_point(c: char) -> (r: u32)
    ensures
        r == c as u32,
        r <= 0x10_FFFF,
{
    c as u32
}

/// Encodes `s` in UTF-16 and ends it with a zero, as wide-character system
/// calls take their texts.
pub fn encode_utf16_nul(s: &str) -> (r: Vec<u16>)
    ensures
        r@ == utf16_nul(s@),
{
    let mut units: Vec<u16> = Vec::new();
    let mut it = s.chars();
    let ghost mut done: int = 0;
    loop
        invariant
            0 <= done <= s@.len(),
            it.remaining() == s@.skip(done),
            units@ == utf16(s@.take(done)),
        decreases s@.len() - done,
    {
        match it.next() {
            Some(c) => {
                proof {
                    assert(c == s@[done]);
                    assert(s@.take(done + 1).drop_last() =~= s@.take(done));
                    assert(s@.skip(done).drop_first() =~= s@.skip(done + 1));
                }
                let code: u32 = code_point(c);
                if code < 0x10000 {
                    units.push(code as u16);
                } else {
                    let rest: u32 = code - 0x10000;
                    assert(rest >> 10 <= 0x3FF) by (bit_vector)
                        requires
                            rest <= 0xF_FFFF,
                    ;
                    assert(rest & 0x3FF <= 0x3FF) by (bit_vector);
                    units.push((0xD800 + (rest >> 10)) as u16);
                    units.push((0xDC00 + (rest & 0x3FF)) as u16);
                }
                proof {
                    done = done + 1;
                    assert(units@ =~= utf16(s@.take(done)));
                }
            },
            None => {
                proof {
                    assert(s@.take(done) =~= s@);
                }
                units.push(0);
                return units;
            },
        }
    }
}

/// Returns the position of the last `c` in `s`, counted in characters, if
/// there is one.
pub fn rfind_char(s: &str, c: char) -> (r: Option<usize>)
    ensures
        match r {
            Some(at) => at == last_index_of(s@, c),
            None => last_index_of(s@, c) == -1,
        },
{
    let len = s.unicode_len();
    let mut found: Option<usize> = None;
    let mut it = s.chars();
    let mut done: usize = 0;
    loop
        invariant
            0 <= done <= s@.len(),
            s@.len() == len,
            it.remaining() == s@.skip(done as int),
            match found {
                Some(at) => at == last_index_of(s@.take(done as int), c),
                None => last_index_of(s@.take(done as int), c) == -1,
            },
        decreases s@.len() - done,
    {
        match it.next() {
            Some(next) => {
                proof {
                    assert(next == s@[done as int]);
                    assert(s@.take(done + 1).drop_last() =~= s@.take(done as int));
                    assert(s@.skip(done as int).drop_first() =~= s@.skip(done + 1));
                }
                if next == c {
                    found = Some(done);
                }
                done = done + 1;
            },
            None => {
                proof {
                    assert(s@.take(done as int) =~= s@);
                }
                return found;
            },
        }
    }
}

/// Returns the path `relative` below the directory `base`.
pub fn join_path(base: &str, relative: &str) -> (r: String)
    ensures
        r@ == joined(base@, relative@),
{
    let len = base.unicode_len();
    let mut path = String::from_str(base);
    if len > 0 {
        let last = base.get_char(len - 1);
        if last != '\\' && last != '/' {
            push_char(&mut path, '\\');
        }
    }
    path.append(relative);
    path
}

/// Returns the directory that holds `path`.
pub fn directory_of(path: &str) -> (r: String)
    ensures
        r@ == directory(path@),
{
    let len = path.unicode_len();
    proof {
        lemma_last_index_of(path@, '\\');
        lemma_last_index_of(path@, '/');
    }
    let backslash = rfind_char(path, '\\');
    let slash = rfind_char(path, '/');
    let end = match (backslash, slash) {
        (Some(a), Some(b)) => if a >= b {
            a
        } else {
            b
        },
        (Some(a), None) => a,
        (None, Some(b)) => b,
        (None, None) => 0,
    };
    let front = path.substring_char(0, end);
    proof {
        assert(path@.subrange(0, end as int) =~= path@.take(end as int));
        assert(path@.take(0) =~= Seq::<char>::empty());
    }
    String::from_str(front)
}

/// Returns the file name at the end of `path`: what stands behind the last
/// backslash, or behind the last slash in a path without backslashes, or the
/// whole of a path without either.
pub fn file_name_of(path: &str) -> (r: String)
    ensures
        r@ == file_name(path@),
{
    let len = path.unicode_len();
    proof {
        lemma_last_index_of(path@, '\\');
        lemma_last_index_of(path@, '/');
    }
    let start = match rfind_char(path, '\\') {
        Some(at) => at + 1,
        None => match rfind_char(path, '/') {
            Some(at) => at + 1,
            None => 0,
        },
    };
    let name = path.substring_char(start, len);
    proof {
        assert(path@.subrange(start as int, len as int) =~= path@.skip(start as int));
        assert(path@.skip(0) =~= path@);
    }
    String::from_str(name)
}

} // verus!
