//! Character-level text operations used by the rest of the crate: searching,
//! replacing, splitting into lines, and building strings piece by piece.
use vstd::prelude::*;

verus! {

/// `needle` occurs in `hay` as a contiguous run of characters.
pub open spec fn has_substring(hay: Seq<char>, needle: Seq<char>) -> bool {
    exists|i: int|
        0 <= i && i + needle.len() <= hay.len() && #[trigger] hay.subrange(i, i + needle.len())
            == needle
}

/// `hay` begins with `prefix`.
pub open spec fn has_prefix(hay: Seq<char>, prefix: Seq<char>) -> bool {
    prefix.len() <= hay.len() && hay.subrange(0, prefix.len() as int) == prefix
}

/// `hay` ends with `suffix`.
pub open spec fn has_suffix(hay: Seq<char>, suffix: Seq<char>) -> bool {
    suffix.len() <= hay.len() && hay.subrange(hay.len() - suffix.len(), hay.len() as int)
        == suffix
}

/// Every non-overlapping occurrence of `from`, taken from the left, replaced by `to`.
pub open spec fn replaced(s: Seq<char>, from: Seq<char>, to: Seq<char>) -> Seq<char>
    decreases s.len(),
{
    if from.len() == 0 || s.len() < from.len() {
        s
    } else if s.subrange(0, from.len() as int) == from {
        to + replaced(s.skip(from.len() as int), from, to)
    } else {
        seq![s[0]] + replaced(s.skip(1), from, to)
    }
}

/// Replacing a text that does not occur leaves the text as it is.
pub proof fn replacing_what_is_absent(s: Seq<char>, from: Seq<char>, to: Seq<char>)
    requires
        from.len() > 0,
        !has_substring(s, from),
    ensures
        replaced(s, from, to) == s,
    decreases s.len(),
{
    if s.len() >= from.len() {
        assert(s.subrange(0, from.len() as int) != from) by {
            if s.subrange(0, from.len() as int) == from {
                assert(s.subrange(0int, 0int + from.len()) == from);
            }
        }
        let rest = s.skip(1);
        assert(!has_substring(rest, from)) by {
            if has_substring(rest, from) {
                let i = choose|i: int|
                    0 <= i && i + from.len() <= rest.len() && #[trigger] rest.subrange(
                        i,
                        i + from.len(),
                    ) == from;
                assert(s.subrange(i + 1, i + 1 + from.len()) =~= rest.subrange(i, i + from.len()));
            }
        }
        replacing_what_is_absent(rest, from, to);
        assert(seq![s[0]] + rest =~= s);
    }
}

/// Lower-case form of a string as `str::to_lowercase` computes it (full Unicode case mapping).
pub uninterp spec fn lowercase(s: Seq<char>) -> Seq<char>;

/// Returns the lower-case form of `s`.
///
/// Calls `str::to_lowercase`. The contract only ties the result to `lowercase(s@)`;
/// the Unicode case tables themselves are not restated here.
#[verifier::external_body]
pub(crate) fn to_lowercase(s: &str) -> (res: String)
    ensures
        res@ == lowercase(s@),
{
    s.to_lowercase()
}

/// The debug rendering of a string, as `format!("{:?}", s)` writes it: quoted, with
/// special characters escaped.
pub uninterp spec fn debug_text(s: Seq<char>) -> Seq<char>;

/// Returns the debug rendering of `s`.
///
/// Calls the `Debug` formatting of `str`. The contract only ties the result to
/// `debug_text(s@)`; the escaping rules are not restated here.
#[verifier::external_body]
pub(crate) fn debug_string(s: &str) -> (res: String)
    ensures
        res@ == debug_text(s@),
{
    format!("{:?}", s)
}

/// `c` is white space in the sense of Unicode's `White_Space` property, which
/// `char::is_whitespace` and `str::trim` use: tab to carriage return, space, next
/// line, no-break space, ogham space mark, en quad to hair space, line and
/// paragraph separator, narrow no-break space, medium mathematical space and
/// ideographic space.
pub open spec fn is_white_space(c: char) -> bool {
    let n = c as u32;
    (0x9 <= n && n <= 0xD) || n == 0x20 || n == 0x85 || n == 0xA0 || n == 0x1680 || (0x2000 <= n
        && n <= 0x200A) || n == 0x2028 || n == 0x2029 || n == 0x202F || n == 0x205F || n == 0x3000
}

/// `s` without its leading white space.
pub open spec fn trim_start(s: Seq<char>) -> Seq<char>
    decreases s.len(),
{
    if s.len() > 0 && is_white_space(s[0]) {
        trim_start(s.drop_first())
    } else {
        s
    }
}

/// `s` without its trailing white space.
pub open spec fn trim_end(s: Seq<char>) -> Seq<char>
    decreases s.len(),
{
    if s.len() > 0 && is_white_space(s.last()) {
        trim_end(s.drop_last())
    } else {
        s
    }
}

/// `s` without its leading and trailing white space, as `str::trim` gives it.
pub open spec fn trimmed(s: Seq<char>) -> Seq<char> {
    trim_end(trim_start(s))
}

/// Whether `c` is white space.
fn white_space(c: char) -> (res: bool)
    ensures
        res == is_white_space(c),
{
    let n = c as u32;
    (0x9 <= n && n <= 0xD) || n == 0x20 || n == 0x85 || n == 0xA0 || n == 0x1680 || (0x2000 <= n
        && n <= 0x200A) || n == 0x2028 || n == 0x2029 || n == 0x202F || n == 0x205F || n == 0x3000
}

/// Returns `s` without its leading and trailing white space.
pub fn trim_text(s: &str) -> (res: String)
    ensures
        res@ == trimmed(s@),
{
    let cs = chars_of(s);
    let n = cs.len();
    let mut i: usize = 0;
    assert(cs@.skip(0) =~= cs@);
    while i < n && white_space(cs[i])
        invariant
            n == cs@.len(),
            i <= n,
            trim_start(cs@) == trim_start(cs@.skip(i as int)),
        decreases n - i,
    {
        assert(cs@.skip(i as int)[0] == cs@[i as int]);
        assert(cs@.skip(i as int).drop_first() =~= cs@.skip(i + 1));
        i = i + 1;
    }
    if i < n {
        assert(cs@.skip(i as int)[0] == cs@[i as int]);
    }
    assert(trim_start(cs@) == cs@.skip(i as int));
    assert(cs@.skip(i as int) =~= cs@.subrange(i as int, n as int));
    let mut j: usize = n;
    while j > i && white_space(cs[j - 1])
        invariant
            n == cs@.len(),
            i <= j <= n,
            trim_end(cs@.subrange(i as int, n as int)) == trim_end(cs@.subrange(i as int, j as int)),
        decreases j - i,
    {
        assert(cs@.subrange(i as int, j as int).last() == cs@[j - 1]);
        assert(cs@.subrange(i as int, j as int).drop_last() =~= cs@.subrange(i as int, j - 1));
        j = j - 1;
    }
    if j > i {
        assert(cs@.subrange(i as int, j as int).last() == cs@[j - 1]);
    }
    let mut out: Vec<char> = Vec::new();
    let mut k: usize = i;
    while k < j
        invariant
            i <= k <= j <= n,
            n == cs@.len(),
            out@ == cs@.subrange(i as int, k as int),
        decreases j - k,
    {
        out.push(cs[k]);
        k = k + 1;
        assert(out@ =~= cs@.subrange(i as int, k as int));
    }
    string_of(&out)
}

/// Appends one character to `s`. Calls `String::push`.
#[verifier::external_body]
pub(crate) fn push_char(s: &mut String, c: char)
    ensures
        final(s)@ == old(s)@.push(c),
{
    s.push(c)
}

/// The characters of `s`, in order.
pub fn chars_of(s: &str) -> (res: Vec<char>)
    ensures
        res@ == s@,
{
    let n = s.unicode_len();
    let mut res: Vec<char> = Vec::new();
    let mut i: usize = 0;
    while i < n
        invariant
            n == s@.len(),
            i <= n,
            res@ == s@.take(i as int),
        decreases n - i,
    {
        let c = s.get_char(i);
        res.push(c);
        i = i + 1;
        assert(res@ =~= s@.take(i as int));
    }
    assert(res@ =~= s@);
    res
}

/// The string made of the characters of `v`.
pub fn string_of(v: &Vec<char>) -> (res: String)
    ensures
        res@ == v@,
{
    let mut res = String::new();
    let mut i: usize = 0;
    while i < v.len()
        invariant
            i <= v.len(),
            res@ == v@.take(i as int),
        decreases v.len() - i,
    {
        push_char(&mut res, v[i]);
        i = i + 1;
        assert(res@ =~= v@.take(i as int));
    }
    assert(res@ =~= v@);
    res
}

/// Whether `needle` occurs in `hay` starting at position `at`.
pub fn matches_at(hay: &Vec<char>, at: usize, needle: &Vec<char>) -> (res: bool)
    ensures
        res == (at + needle@.len() <= hay@.len() && hay@.subrange(
            at as int,
            at + needle@.len(),
        ) == needle@),
{
    if at > hay.len() || needle.len() > hay.len() - at {
        return false;
    }
    let mut j: usize = 0;
    while j < needle.len()
        invariant
            at + needle@.len() <= hay@.len(),
            at + needle.len() <= hay.len(),
            j <= needle@.len(),
            forall|k: int| 0 <= k < j ==> hay@[at + k] == needle@[k],
        decreases needle.len() - j,
    {
        if hay[at + j] != needle[j] {
            assert(hay@.subrange(at as int, at + needle@.len())[j as int] != needle@[j as int]);
            return false;
        }
        j = j + 1;
    }
    assert(hay@.subrange(at as int, at + needle@.len()) =~= needle@);
    true
}

/// Whether `needle` occurs somewhere in `hay` (characters given as vectors).
pub fn chars_contain(hay: &Vec<char>, needle: &Vec<char>) -> (res: bool)
    ensures
        res == has_substring(hay@, needle@),
{
    if needle.len() > hay.len() {
        return false;
    }
    let last = hay.len() - needle.len();
    let mut i: usize = 0;
    loop
        invariant
            last == hay@.len() - needle@.len(),
            i <= last,
            forall|k: int|
                0 <= k < i ==> #[trigger] hay@.subrange(k, k + needle@.len()) != needle@,
        decreases last - i,
    {
        if matches_at(hay, i, needle) {
            return true;
        }
        if i == last {
            return false;
        }
        i = i + 1;
    }
}

/// Whether `needle` occurs in `hay`, as `str::contains` with a string pattern.
pub fn contains(hay: &str, needle: &str) -> (res: bool)
    ensures
        res == has_substring(hay@, needle@),
{
    let h = chars_of(hay);
    let n = chars_of(needle);
    chars_contain(&h, &n)
}

/// Whether `hay` begins with `prefix`, as `str::starts_with`.
pub fn starts_with(hay: &str, prefix: &str) -> (res: bool)
    ensures
        res == has_prefix(hay@, prefix@),
{
    let h = chars_of(hay);
    let p = chars_of(prefix);
    matches_at(&h, 0, &p)
}

/// Whether two strings hold the same characters.
pub fn same_text(a: &str, b: &str) -> (res: bool)
    ensures
        res == (a@ == b@),
{
    let x = chars_of(a);
    let y = chars_of(b);
    if x.len() != y.len() {
        return false;
    }
    let r = matches_at(&x, 0, &y);
    proof {
        if r {
            assert(x@ =~= x@.subrange(0, y@.len() as int));
        } else {
            assert(x@.subrange(0, y@.len() as int) =~= x@);
        }
    }
    r
}

/// `s` without `suffix` when it ends with it, as `str::strip_suffix`.
pub fn strip_suffix(s: &str, suffix: &str) -> (res: Option<String>)
    ensures
        has_suffix(s@, suffix@) ==> res is Some && res->0@ == s@.subrange(0, s@.len() - suffix@.len()),
        !has_suffix(s@, suffix@) ==> res is None,
{
    let h = chars_of(s);
    let p = chars_of(suffix);
    if p.len() > h.len() {
        return None;
    }
    let at = h.len() - p.len();
    if matches_at(&h, at, &p) {
        let out = s.substring_char(0, at);
        Some(String::from_str(out))
    } else {
        None
    }
}

proof fn lemma_replaced_step(s: Seq<char>, from: Seq<char>, to: Seq<char>, i: int)
    requires
        from.len() > 0,
        0 <= i <= s.len(),
    ensures
        s.skip(i).len() >= from.len() && s.skip(i).subrange(0, from.len() as int) == from
            ==> replaced(s.skip(i), from, to) == to + replaced(s.skip(i + from.len()), from, to),
        s.skip(i).len() >= from.len() && s.skip(i).subrange(0, from.len() as int) != from
            ==> replaced(s.skip(i), from, to) == seq![s[i]] + replaced(s.skip(i + 1), from, to),
        s.skip(i).len() < from.len() ==> replaced(s.skip(i), from, to) == s.skip(i),
{
    if i + from.len() <= s.len() {
        assert(s.skip(i).skip(from.len() as int) =~= s.skip(i + from.len()));
    }
    if i + 1 <= s.len() {
        assert(s.skip(i).skip(1) =~= s.skip(i + 1));
    }
}

/// Every non-overlapping occurrence of `from` in `s`, taken from the left, replaced by
/// `to`, as `str::replace` does for a non-empty pattern.
pub fn replace_all(s: &str, from: &str, to: &str) -> (res: String)
    requires
        from@.len() > 0,
    ensures
        res@ == replaced(s@, from@, to@),
{
    let h = chars_of(s);
    let f = chars_of(from);
    let t = chars_of(to);
    let mut out: Vec<char> = Vec::new();
    let mut i: usize = 0;
    assert(h@.skip(0) =~= h@);
    while i < h.len()
        invariant
            f@.len() > 0,
            f@ == from@,
            t@ == to@,
            h@ == s@,
            i <= h@.len(),
            out@ + replaced(h@.skip(i as int), f@, t@) == replaced(h@, f@, t@),
        decreases h.len() - i,
    {
        proof {
            lemma_replaced_step(h@, f@, t@, i as int);
        }
        if f.len() <= h.len() - i && matches_at(&h, i, &f) {
            assert(h@.skip(i as int).subrange(0, f@.len() as int) =~= h@.subrange(
                i as int,
                i + f@.len(),
            ));
            let ghost before = out@;
            let mut k: usize = 0;
            while k < t.len()
                invariant
                    k <= t@.len(),
                    out@ == before + t@.take(k as int),
                decreases t.len() - k,
            {
                out.push(t[k]);
                k = k + 1;
                assert(out@ =~= before + t@.take(k as int));
            }
            assert(t@.take(t@.len() as int) =~= t@);
            assert(out@ + replaced(h@.skip(i + f@.len()), f@, t@) =~= before + (t@ + replaced(
                h@.skip(i + f@.len()),
                f@,
                t@,
            )));
            i = i + f.len();
        } else {
            proof {
                if f@.len() <= h@.len() - i {
                    assert(h@.skip(i as int).subrange(0, f@.len() as int) =~= h@.subrange(
                        i as int,
                        i + f@.len(),
                    ));
                }
            }
            let ghost before = out@;
            out.push(h[i]);
            proof {
                if f@.len() <= h@.len() - i {
                    assert(out@ + replaced(h@.skip(i + 1), f@, t@) =~= before + (seq![h@[i as int]]
                        + replaced(h@.skip(i + 1), f@, t@)));
                } else {
                    assert(replaced(h@.skip(i as int), f@, t@) == h@.skip(i as int));
                    assert(h@.skip(i as int) =~= seq![h@[i as int]] + h@.skip(i + 1));
                    assert(h@.skip(i + 1).len() < f@.len());
                    assert(replaced(h@.skip(i + 1), f@, t@) == h@.skip(i + 1));
                    assert(out@ + replaced(h@.skip(i + 1), f@, t@) =~= before + replaced(
                        h@.skip(i as int),
                        f@,
                        t@,
                    ));
                }
            }
            i = i + 1;
        }
    }
    assert(h@.skip(i as int) =~= Seq::<char>::empty());
    assert(replaced(h@.skip(i as int), f@, t@) == h@.skip(i as int));
    assert(out@ =~= replaced(h@, f@, t@));
    string_of(&out)
}

/// `a` followed by `b`.
pub fn join2(a: &str, b: &str) -> (res: String)
    ensures
        res@ == a@ + b@,
{
    let s = String::from_str(a);
    s.concat(b)
}

/// `a`, `b` and `c` one after the other.
pub fn join3(a: &str, b: &str, c: &str) -> (res: String)
    ensures
        res@ == a@ + b@ + c@,
{
    let s = String::from_str(a);
    let s = s.concat(b);
    s.concat(c)
}

/// A line as `str::lines` gives it: a trailing carriage return goes with the
/// line feed that ends the line.
pub open spec fn strip_cr(line: Seq<char>) -> Seq<char> {
    if line.len() > 0 && line.last() == '\r' {
        line.drop_last()
    } else {
        line
    }
}

/// The lines of `s` after the partial line `cur`, as `str::lines` splits them: at
/// each line feed (dropping a carriage return just before it); a last line that
/// is not ended by a line feed counts only when it is not empty.
pub open spec fn lines_from(s: Seq<char>, cur: Seq<char>) -> Seq<Seq<char>>
    decreases s.len(),
{
    if s.len() == 0 {
        if cur.len() == 0 {
            seq![]
        } else {
            seq![cur]
        }
    } else if s[0] == '\n' {
        seq![strip_cr(cur)] + lines_from(s.drop_first(), seq![])
    } else {
        lines_from(s.drop_first(), cur.push(s[0]))
    }
}

/// The lines of `s`, as `str::lines` gives them.
pub open spec fn lines_of(s: Seq<char>) -> Seq<Seq<char>> {
    lines_from(s, seq![])
}

/// Text that ends with a line feed splits into its own lines followed by the lines
/// of whatever comes after it.
pub proof fn lines_of_ended_text_and_more(a: Seq<char>, b: Seq<char>, cur: Seq<char>)
    requires
        a.len() > 0,
        a.last() == '\n',
    ensures
        lines_from(a + b, cur) == lines_from(a, cur) + lines_of(b),
    decreases a.len(),
{
    assert((a + b).drop_first() =~= a.drop_first() + b);
    assert((a + b)[0] == a[0]);
    if a[0] == '\n' {
        if a.len() == 1 {
            assert(a.drop_first() =~= Seq::<char>::empty());
            assert(a.drop_first() + b =~= b);
            assert(lines_from(a.drop_first(), seq![]) =~= Seq::<Seq<char>>::empty());
            assert(lines_from(a, cur) =~= seq![strip_cr(cur)]);
        } else {
            lines_of_ended_text_and_more(a.drop_first(), b, seq![]);
            assert(a.drop_first().last() == a.last());
        }
        assert(seq![strip_cr(cur)] + (lines_from(a.drop_first(), seq![]) + lines_of(b)) =~= (seq![
            strip_cr(cur),
        ] + lines_from(a.drop_first(), seq![])) + lines_of(b));
    } else {
        assert(a.len() > 1);
        assert(a.drop_first().last() == a.last());
        lines_of_ended_text_and_more(a.drop_first(), b, cur.push(a[0]));
    }
}

/// The lines of `s`, as `str::lines` gives them.
pub fn split_lines(s: &str) -> (res: Vec<String>)
    ensures
        res@.map_values(|l: String| l@) == lines_of(s@),
{
    let h = chars_of(s);
    let mut out: Vec<String> = Vec::new();
    let mut cur: Vec<char> = Vec::new();
    let mut i: usize = 0;
    assert(h@.skip(0) =~= h@);
    while i < h.len()
        invariant
            h@ == s@,
            i <= h@.len(),
            out@.map_values(|l: String| l@) + lines_from(h@.skip(i as int), cur@) == lines_of(h@),
        decreases h.len() - i,
    {
        assert(h@.skip(i as int)[0] == h@[i as int]);
        assert(h@.skip(i as int).drop_first() =~= h@.skip(i + 1));
        if h[i] == '\n' {
            let ghost before = out@;
            let ghost c = cur@;
            let mut line = cur;
            if line.len() > 0 && line[line.len() - 1] == '\r' {
                line.pop();
            }
            assert(line@ == strip_cr(c)) by {
                if c.len() > 0 && c.last() == '\r' {
                    assert(line@ =~= c.drop_last());
                }
            }
            out.push(string_of(&line));
            cur = Vec::new();
            assert(out@.map_values(|l: String| l@) =~= before.map_values(|l: String| l@) + seq![
                strip_cr(c),
            ]);
            assert(out@.map_values(|l: String| l@) + lines_from(h@.skip(i + 1), cur@)
                =~= before.map_values(|l: String| l@) + (seq![strip_cr(c)] + lines_from(
                h@.skip(i + 1),
                seq![],
            )));
        } else {
            cur.push(h[i]);
        }
        i = i + 1;
    }
    assert(h@.skip(i as int) =~= Seq::<char>::empty());
    if cur.len() > 0 {
        let ghost before = out@;
        out.push(string_of(&cur));
        assert(out@.map_values(|l: String| l@) =~= before.map_values(|l: String| l@) + seq![cur@]);
    } else {
        assert(out@.map_values(|l: String| l@) + seq![] =~= out@.map_values(|l: String| l@));
    }
    out
}

/// `a` comes before `b` in the order of `String`'s `<`: character by character by
/// code point, a proper prefix first. (UTF-8 keeps the order of code points, so
/// this is also the order of the bytes.)
pub open spec fn text_lt(a: Seq<char>, b: Seq<char>) -> bool
    decreases a.len(),
{
    if a.len() == 0 {
        b.len() > 0
    } else if b.len() == 0 {
        false
    } else if a[0] != b[0] {
        (a[0] as int) < (b[0] as int)
    } else {
        text_lt(a.drop_first(), b.drop_first())
    }
}

/// The order of `String`'s `<` is a strict total order: no text comes before
/// itself, it is transitive, and of two different texts one comes before the other.
pub proof fn text_order_is_strict_total(a: Seq<char>, b: Seq<char>, c: Seq<char>)
    ensures
        !text_lt(a, a),
        text_lt(a, b) && text_lt(b, c) ==> text_lt(a, c),
        a != b ==> text_lt(a, b) || text_lt(b, a),
        text_lt(a, b) ==> !text_lt(b, a),
    decreases a.len(),
{
    if a.len() > 0 && b.len() > 0 && c.len() > 0 {
        text_order_is_strict_total(a.drop_first(), b.drop_first(), c.drop_first());
    }
    if a.len() > 0 && b.len() > 0 {
        text_order_is_strict_total(a.drop_first(), b.drop_first(), b.drop_first());
        if a[0] != b[0] {
            assert((a[0] as int) != (b[0] as int));
        }
        if a != b && a[0] == b[0] {
            assert(a.drop_first() != b.drop_first()) by {
                if a.drop_first() == b.drop_first() {
                    assert(a =~= seq![a[0]] + a.drop_first());
                    assert(b =~= seq![b[0]] + b.drop_first());
                }
            }
        }
    }
    if a.len() > 0 {
        text_order_is_strict_total(a.drop_first(), a.drop_first(), a.drop_first());
    }
    if a.len() == 0 && b.len() == 0 {
        assert(a =~= b);
    }
}

/// Whether `a` comes before `b` in the order of `String`'s `<`.
pub fn less_than(a: &str, b: &str) -> (res: bool)
    ensures
        res == text_lt(a@, b@),
{
    let x = chars_of(a);
    let y = chars_of(b);
    let mut i: usize = 0;
    assert(x@.skip(0) =~= x@);
    assert(y@.skip(0) =~= y@);
    while i < x.len() && i < y.len()
        invariant
            x@ == a@,
            y@ == b@,
            i <= x@.len(),
            i <= y@.len(),
            text_lt(x@, y@) == text_lt(x@.skip(i as int), y@.skip(i as int)),
        decreases x.len() - i,
    {
        assert(x@.skip(i as int)[0] == x@[i as int]);
        assert(y@.skip(i as int)[0] == y@[i as int]);
        if x[i] != y[i] {
            return x[i] < y[i];
        }
        assert(x@.skip(i as int).drop_first() =~= x@.skip(i + 1));
        assert(y@.skip(i as int).drop_first() =~= y@.skip(i + 1));
        i = i + 1;
    }
    i == x.len() && i < y.len()
}

} // verus!
