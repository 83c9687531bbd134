//! Character-sequence utilities over `&str` and `String`: conversion, splitting,
//! substring search and replacement, and strings written as `{:?}` and as JSON
//! write them, each stated over `Seq<char>`.

use vstd::prelude::*;

use crate::decimal::hex_char;

verus! {

// ---------------------------------------------------------------------------
// Specifications
// ---------------------------------------------------------------------------

/// The pieces of `s` between occurrences of `sep`, as `str::split` with a `char`
/// pattern yields them: `k` separators give `k + 1` pieces, empty pieces included.
pub open spec fn split_spec(s: Seq<char>, sep: char) -> Seq<Seq<char>>
    decreases s.len(),
{
    if s.len() == 0 {
        seq![Seq::<char>::empty()]
    } else {
        let prev = split_spec(s.drop_last(), sep);
        if s.last() == sep {
            prev.push(Seq::<char>::empty())
        } else {
            prev.update(prev.len() - 1, prev.last().push(s.last()))
        }
    }
}

/// The pieces joined back together with `sep` between neighbours.
pub open spec fn join_spec(pieces: Seq<Seq<char>>, sep: char) -> Seq<char>
    decreases pieces.len(),
{
    if pieces.len() == 0 {
        Seq::<char>::empty()
    } else if pieces.len() == 1 {
        pieces[0]
    } else {
        join_spec(pieces.drop_last(), sep).push(sep) + pieces.last()
    }
}

/// `s` does not hold `c`.
pub open spec fn free_of(s: Seq<char>, c: char) -> bool {
    forall|j: int| 0 <= j < s.len() ==> s[j] != c
}

/// The lowercase hexadecimal digits of `n` (below 256), without leading zeros.
pub open spec fn hex_digits(n: u8) -> Seq<char> {
    if n < 16 {
        seq![hex_char(n)]
    } else {
        seq![hex_char(n / 16), hex_char(n % 16)]
    }
}

/// How `{:?}` writes the character `c` inside a string: `"` and `\` behind a
/// backslash, tab, line feed, carriage return and NUL as `\t`, `\n`, `\r`,
/// `\0`, the other ASCII control characters as `\u{..}` in hexadecimal, and
/// every other character as itself.
pub open spec fn debug_escape_char(c: char) -> Seq<char> {
    if c == '"' {
        seq!['\\', '"']
    } else if c == '\\' {
        seq!['\\', '\\']
    } else if c == '\t' {
        seq!['\\', 't']
    } else if c == '\n' {
        seq!['\\', 'n']
    } else if c == '\r' {
        seq!['\\', 'r']
    } else if c == '\0' {
        seq!['\\', '0']
    } else if (c as u32) < 0x20 || (c as u32) == 0x7f {
        seq!['\\', 'u', '{'] + hex_digits(c as u8) + seq!['}']
    } else {
        seq![c]
    }
}

/// The characters of `s`, each escaped as `debug_escape_char` says.
pub open spec fn debug_escape(s: Seq<char>) -> Seq<char>
    decreases s.len(),
{
    if s.len() == 0 {
        Seq::<char>::empty()
    } else {
        debug_escape(s.drop_last()) + debug_escape_char(s.last())
    }
}

/// `s` as `{:?}` writes a string: escaped, between double quotes.
pub open spec fn debug_quoted(s: Seq<char>) -> Seq<char> {
    seq!['"'] + debug_escape(s) + seq!['"']
}

/// The quoted strings of `v`, separated by `, `.
pub open spec fn debug_items(v: Seq<Seq<char>>) -> Seq<char>
    decreases v.len(),
{
    if v.len() == 0 {
        Seq::<char>::empty()
    } else if v.len() == 1 {
        debug_quoted(v[0])
    } else {
        debug_items(v.drop_last()) + seq![',', ' '] + debug_quoted(v.last())
    }
}

/// A list of strings as `{:?}` writes it: `["a", "b"]`.
pub open spec fn debug_list(v: Seq<Seq<char>>) -> Seq<char> {
    seq!['['] + debug_items(v) + seq![']']
}

/// How serde_json writes the character `c` inside a JSON string: `"` and `\`
/// behind a backslash; backspace, tab, line feed, form feed and carriage return
/// as `\b`, `\t`, `\n`, `\f`, `\r`; the other control characters below 0x20 as
/// `\u00` and two lowercase hexadecimal digits; every other character as itself.
pub open spec fn json_escape_char(c: char) -> Seq<char> {
    if c == '"' {
        seq!['\\', '"']
    } else if c == '\\' {
        seq!['\\', '\\']
    } else if (c as u32) == 8 {
        seq!['\\', 'b']
    } else if c == '\t' {
        seq!['\\', 't']
    } else if c == '\n' {
        seq!['\\', 'n']
    } else if (c as u32) == 12 {
        seq!['\\', 'f']
    } else if c == '\r' {
        seq!['\\', 'r']
    } else if (c as u32) < 0x20 {
        seq!['\\', 'u', '0', '0', hex_char((c as u8) >> 4u8), hex_char((c as u8) & 0x0fu8)]
    } else {
        seq![c]
    }
}

/// The characters of `s`, each escaped as `json_escape_char` says.
pub open spec fn json_escape(s: Seq<char>) -> Seq<char>
    decreases s.len(),
{
    if s.len() == 0 {
        Seq::<char>::empty()
    } else {
        json_escape(s.drop_last()) + json_escape_char(s.last())
    }
}

/// `s` as a JSON string: escaped, between double quotes.
pub open spec fn json_string(s: Seq<char>) -> Seq<char> {
    seq!['"'] + json_escape(s) + seq!['"']
}

/// Number of occurrences of `c` in `s`.
pub open spec fn count_char(s: Seq<char>, c: char) -> nat
    decreases s.len(),
{
    if s.len() == 0 {
        0
    } else {
        count_char(s.drop_last(), c) + if s.last() == c { 1nat } else { 0nat }
    }
}

/// `p` occurs in `s` starting at index `i`.
pub open spec fn occurs_at(s: Seq<char>, p: Seq<char>, i: int) -> bool {
    0 <= i && i + p.len() <= s.len() && s.subrange(i, i + p.len()) == p
}

/// `p` occurs somewhere in `s` (the empty pattern occurs in every sequence).
pub open spec fn contains_spec(s: Seq<char>, p: Seq<char>) -> bool {
    exists|i: int| occurs_at(s, p, i)
}

/// `s` with every non-overlapping occurrence of `p`, searched from the left,
/// replaced by `r`, as `str::replace` does. The empty pattern matches at every
/// character boundary, the start and the end included.
pub open spec fn replace_all_spec(s: Seq<char>, p: Seq<char>, r: Seq<char>) -> Seq<char>
    decreases s.len(),
{
    if p.len() == 0 {
        if s.len() == 0 {
            r
        } else {
            r + seq![s[0]] + replace_all_spec(s.drop_first(), p, r)
        }
    } else if s.len() < p.len() {
        s
    } else if s.take(p.len() as int) == p {
        r + replace_all_spec(s.skip(p.len() as int), p, r)
    } else {
        seq![s[0]] + replace_all_spec(s.drop_first(), p, r)
    }
}

/// `s` with the first `n` non-overlapping occurrences of `p`, searched from the
/// left, replaced by `r`, as `str::replacen` does.
pub open spec fn replacen_spec(s: Seq<char>, p: Seq<char>, r: Seq<char>, n: nat) -> Seq<char>
    decreases s.len(),
{
    if n == 0 {
        s
    } else if p.len() == 0 {
        if s.len() == 0 {
            r
        } else {
            r + seq![s[0]] + replacen_spec(s.drop_first(), p, r, (n - 1) as nat)
        }
    } else if s.len() < p.len() {
        s
    } else if s.take(p.len() as int) == p {
        r + replacen_spec(s.skip(p.len() as int), p, r, (n - 1) as nat)
    } else {
        seq![s[0]] + replacen_spec(s.drop_first(), p, r, n)
    }
}

// ---------------------------------------------------------------------------
// Lemmas
// ---------------------------------------------------------------------------

/// Splitting always yields at least one piece, one more than there are separators.
pub proof fn lemma_split_len(s: Seq<char>, sep: char)
    ensures
        split_spec(s, sep).len() == count_char(s, sep) + 1,
    decreases s.len(),
{
    if s.len() > 0 {
        lemma_split_len(s.drop_last(), sep);
    }
}

/// No piece of a split holds the separator.
pub proof fn lemma_split_pieces_free_of_sep(s: Seq<char>, sep: char)
    ensures
        forall|i: int|
            0 <= i < split_spec(s, sep).len() ==> free_of(#[trigger] split_spec(s, sep)[i], sep),
    decreases s.len(),
{
    if s.len() > 0 {
        lemma_split_pieces_free_of_sep(s.drop_last(), sep);
        lemma_split_len(s.drop_last(), sep);
        let prev = split_spec(s.drop_last(), sep);
        if s.last() != sep {
            assert forall|i: int| 0 <= i < split_spec(s, sep).len() implies free_of(
                #[trigger] split_spec(s, sep)[i],
                sep,
            ) by {
                if i == prev.len() - 1 {
                    assert(free_of(prev[i], sep));
                    assert(split_spec(s, sep)[i] == prev.last().push(s.last()));
                } else {
                    assert(free_of(prev[i], sep));
                }
            }
        } else {
            assert forall|i: int| 0 <= i < split_spec(s, sep).len() implies free_of(
                #[trigger] split_spec(s, sep)[i],
                sep,
            ) by {
                if i < prev.len() {
                    assert(free_of(prev[i], sep));
                }
            }
        }
    }
}

proof fn lemma_join_push_last(pieces: Seq<Seq<char>>, sep: char, x: char)
    requires
        pieces.len() >= 1,
    ensures
        join_spec(pieces.update(pieces.len() - 1, pieces.last().push(x)), sep)
            == join_spec(pieces, sep).push(x),
{
    let q = pieces.update(pieces.len() - 1, pieces.last().push(x));
    if pieces.len() == 1 {
        assert(q[0] == pieces[0].push(x));
    } else {
        assert(q.drop_last() =~= pieces.drop_last());
        assert(q.last() == pieces.last().push(x));
        assert(join_spec(pieces.drop_last(), sep).push(sep) + pieces.last().push(x)
            =~= (join_spec(pieces.drop_last(), sep).push(sep) + pieces.last()).push(x));
    }
}

/// Joining the pieces of a split with the same separator gives the text back.
pub proof fn lemma_join_split(s: Seq<char>, sep: char)
    ensures
        join_spec(split_spec(s, sep), sep) == s,
    decreases s.len(),
{
    if s.len() > 0 {
        let prev = split_spec(s.drop_last(), sep);
        lemma_join_split(s.drop_last(), sep);
        lemma_split_len(s.drop_last(), sep);
        if s.last() == sep {
            let cur = prev.push(Seq::<char>::empty());
            assert(cur.drop_last() =~= prev);
            assert(join_spec(cur, sep) =~= s.drop_last().push(sep) + Seq::<char>::empty());
            assert(s =~= s.drop_last().push(sep));
        } else {
            lemma_join_push_last(prev, sep, s.last());
            assert(s =~= s.drop_last().push(s.last()));
        }
    }
}

/// Appending text free of the separator extends the last piece of a split.
proof fn lemma_split_append_free(s: Seq<char>, t: Seq<char>, sep: char)
    requires
        free_of(t, sep),
    ensures
        split_spec(s + t, sep) == split_spec(s, sep).update(
            split_spec(s, sep).len() - 1,
            split_spec(s, sep).last() + t,
        ),
    decreases t.len(),
{
    lemma_split_len(s, sep);
    let ps = split_spec(s, sep);
    if t.len() == 0 {
        assert(s + t =~= s);
        assert(ps.last() + t =~= ps.last());
        assert(ps.update(ps.len() - 1, ps.last() + t) =~= ps);
    } else {
        let u = t.drop_last();
        assert(free_of(u, sep));
        lemma_split_append_free(s, u, sep);
        assert((s + t).drop_last() =~= s + u);
        assert((s + t).last() == t.last());
        let prev = split_spec(s + u, sep);
        assert(prev.last() == ps.last() + u);
        assert(prev.last().push(t.last()) =~= ps.last() + t);
        assert(prev.update(prev.len() - 1, prev.last().push(t.last())) =~= ps.update(
            ps.len() - 1,
            ps.last() + t,
        ));
    }
}

/// Splitting a join of pieces that hold no separator gives the pieces back.
pub proof fn lemma_split_join(pieces: Seq<Seq<char>>, sep: char)
    requires
        pieces.len() >= 1,
        forall|i: int| 0 <= i < pieces.len() ==> free_of(#[trigger] pieces[i], sep),
    ensures
        split_spec(join_spec(pieces, sep), sep) == pieces,
    decreases pieces.len(),
{
    let e = Seq::<char>::empty();
    if pieces.len() == 1 {
        assert(free_of(pieces[0], sep));
        lemma_split_append_free(e, pieces[0], sep);
        assert(e + pieces[0] =~= pieces[0]);
        assert(seq![e].update(0, e + pieces[0]) =~= pieces);
    } else {
        let dl = pieces.drop_last();
        assert forall|i: int| 0 <= i < dl.len() implies free_of(#[trigger] dl[i], sep) by {
            assert(free_of(pieces[i], sep));
        }
        lemma_split_join(dl, sep);
        let j = join_spec(dl, sep).push(sep);
        assert(j.drop_last() =~= join_spec(dl, sep));
        assert(split_spec(j, sep) == dl.push(e));
        assert(free_of(pieces[pieces.len() - 1], sep));
        lemma_split_append_free(j, pieces.last(), sep);
        assert(e + pieces.last() =~= pieces.last());
        assert(dl.push(e).update(dl.len() as int, e + pieces.last()) =~= pieces);
    }
}

// ---------------------------------------------------------------------------
// Executable functions
// ---------------------------------------------------------------------------

/// Calls std's `String::push`, which appends `c` at the end of `s`; the
/// contract says exactly that of the characters of `s`.
#[verifier::external_body]
pub(crate) fn push_char(s: &mut String, c: char)
    ensures
        final(s)@ == old(s)@.push(c),
{
    s.push(c);
}

/// The characters of `s`, in order.
pub fn chars_of(s: &str) -> (res: Vec<char>)
    ensures
        res@ == s@,
{
    let n = s.unicode_len();
    let mut res: Vec<char> = Vec::new();
    for i in 0..n
        invariant
            n == s@.len(),
            res@ == s@.take(i as int),
    {
        let c = s.get_char(i);
        res.push(c);
        assert(s@.take(i + 1) =~= s@.take(i as int).push(c));
    }
    assert(s@.take(n as int) =~= s@);
    res
}

/// A `String` holding the characters `cs[from..to]`.
pub fn string_from_range(cs: &Vec<char>, from: usize, to: usize) -> (res: String)
    requires
        from <= to <= cs@.len(),
    ensures
        res@ == cs@.subrange(from as int, to as int),
{
    let mut res = String::new();
    let mut i = from;
    while i < to
        invariant
            from <= i <= to <= cs@.len(),
            res@ == cs@.subrange(from as int, i as int),
        decreases to - i,
    {
        push_char(&mut res, cs[i]);
        assert(cs@.subrange(from as int, i + 1) =~= cs@.subrange(from as int, i as int).push(
            cs@[i as int],
        ));
        i = i + 1;
    }
    res
}

/// Appends the characters `cs[from..to]` to `out`.
pub fn append_range(out: &mut String, cs: &Vec<char>, from: usize, to: usize)
    requires
        from <= to <= cs@.len(),
    ensures
        final(out)@ == old(out)@ + cs@.subrange(from as int, to as int),
{
    let mut i = from;
    while i < to
        invariant
            from <= i <= to <= cs@.len(),
            out@ == old(out)@ + cs@.subrange(from as int, i as int),
        decreases to - i,
    {
        push_char(out, cs[i]);
        assert(old(out)@ + cs@.subrange(from as int, i + 1) =~= (old(out)@ + cs@.subrange(
            from as int,
            i as int,
        )).push(cs@[i as int]));
        i = i + 1;
    }
}

/// Whether the characters of `cs` are those of `s`.
pub fn chars_equal(cs: &Vec<char>, s: &str) -> (res: bool)
    ensures
        res == (cs@ == s@),
{
    let n = s.unicode_len();
    if cs.len() != n {
        return false;
    }
    for i in 0..n
        invariant
            n == s@.len(),
            cs@.len() == n,
            forall|j: int| 0 <= j < i ==> cs@[j] == s@[j],
    {
        if cs[i] != s.get_char(i) {
            return false;
        }
    }
    assert(cs@ =~= s@);
    true
}

/// Whether `p` occurs in `cs` at index `i`.
pub fn matches_at(cs: &Vec<char>, i: usize, p: &Vec<char>) -> (res: bool)
    requires
        i <= cs@.len(),
    ensures
        res == occurs_at(cs@, p@, i as int),
{
    if p.len() > cs.len() - i {
        return false;
    }
    let m = p.len();
    let mut k: usize = 0;
    while k < m
        invariant
            m == p@.len(),
            i + m <= cs.len(),
            k <= m,
            forall|j: int| 0 <= j < k ==> cs@[i + j] == p@[j],
        decreases m - k,
    {
        if cs[i + k] != p[k] {
            assert(cs@.subrange(i as int, i + m)[k as int] != p@[k as int]);
            return false;
        }
        k = k + 1;
    }
    assert(cs@.subrange(i as int, i + m) =~= p@);
    true
}

/// Whether `p` occurs in `s` (std's `str::contains` with a `&str` pattern).
pub fn contains_str(s: &str, p: &str) -> (res: bool)
    ensures
        res == contains_spec(s@, p@),
{
    let cs = chars_of(s);
    let ps = chars_of(p);
    if ps.len() == 0 {
        assert(cs@.subrange(0, 0) =~= ps@);
        assert(occurs_at(cs@, ps@, 0));
        return true;
    }
    let n = cs.len();
    for i in 0..n
        invariant
            n == cs@.len(),
            cs@ == s@,
            ps@ == p@,
            ps@.len() > 0,
            forall|j: int| 0 <= j < i ==> !occurs_at(cs@, ps@, j),
    {
        if matches_at(&cs, i, &ps) {
            assert(occurs_at(s@, p@, i as int));
            return true;
        }
    }
    assert forall|j: int| !occurs_at(cs@, ps@, j) by {
        if 0 <= j && j + ps@.len() <= cs@.len() {
            assert(j < n);
        }
    }
    false
}

/// The pieces of `s` between occurrences of `sep` (std's `str::split` with a
/// `char` pattern, collected).
pub fn split_char(s: &str, sep: char) -> (res: Vec<String>)
    ensures
        res@.len() == split_spec(s@, sep).len(),
        forall|k: int| 0 <= k < res@.len() ==> #[trigger] res@[k]@ == split_spec(s@, sep)[k],
{
    let cs = chars_of(s);
    let n = cs.len();
    let mut pieces: Vec<String> = Vec::new();
    let mut start: usize = 0;
    assert(cs@.take(0) =~= Seq::<char>::empty());
    for i in 0..n
        invariant
            n == cs@.len(),
            cs@ == s@,
            start <= i,
            pieces@.len() + 1 == split_spec(cs@.take(i as int), sep).len(),
            forall|k: int|
                0 <= k < pieces@.len() ==> #[trigger] pieces@[k]@ == split_spec(
                    cs@.take(i as int),
                    sep,
                )[k],
            split_spec(cs@.take(i as int), sep).last() == cs@.subrange(start as int, i as int),
    {
        let ghost prev = split_spec(cs@.take(i as int), sep);
        assert(cs@.take(i + 1).drop_last() =~= cs@.take(i as int));
        assert(cs@.take(i + 1).last() == cs@[i as int]);
        if cs[i] == sep {
            let piece = string_from_range(&cs, start, i);
            pieces.push(piece);
            start = i + 1;
            assert(cs@.subrange(start as int, i + 1) =~= Seq::<char>::empty());
        } else {
            assert(cs@.subrange(start as int, i + 1) =~= cs@.subrange(start as int, i as int).push(
                cs@[i as int],
            ));
        }
    }
    let piece = string_from_range(&cs, start, n);
    pieces.push(piece);
    assert(cs@.take(n as int) =~= cs@);
    pieces
}

/// `s` with every non-overlapping occurrence of `p` replaced by `r` (std's
/// `str::replace`).
pub fn replace_all(s: &str, p: &str, r: &str) -> (res: String)
    ensures
        res@ == replace_all_spec(s@, p@, r@),
{
    let cs = chars_of(s);
    let ps = chars_of(p);
    let n = cs.len();
    let m = ps.len();
    let mut out = String::new();
    let mut i: usize = 0;
    assert(cs@.skip(0) =~= cs@);
    while i < n
        invariant
            n == cs@.len(),
            m == ps@.len(),
            cs@ == s@,
            ps@ == p@,
            i <= n,
            out@ + replace_all_spec(cs@.skip(i as int), ps@, r@) == replace_all_spec(cs@, ps@, r@),
        decreases n - i,
    {
        let ghost rest = cs@.skip(i as int);
        let ghost before = out@;
        assert(rest.drop_first() =~= cs@.skip(i + 1));
        assert(rest[0] == cs@[i as int]);
        if m == 0 {
            out.append(r);
            push_char(&mut out, cs[i]);
            assert(out@ + replace_all_spec(cs@.skip(i + 1), ps@, r@) =~= before + (r@ + seq![
                rest[0],
            ] + replace_all_spec(rest.drop_first(), ps@, r@)));
            i = i + 1;
        } else if matches_at(&cs, i, &ps) {
            out.append(r);
            assert(rest.take(m as int) =~= cs@.subrange(i as int, i + m));
            assert(rest.skip(m as int) =~= cs@.skip(i + m));
            assert(out@ + replace_all_spec(cs@.skip(i + m), ps@, r@) =~= before + (r@
                + replace_all_spec(rest.skip(m as int), ps@, r@)));
            i = i + m;
        } else {
            assert(rest.len() >= m ==> rest.take(m as int) =~= cs@.subrange(i as int, i + m));
            push_char(&mut out, cs[i]);
            assert(out@ + replace_all_spec(cs@.skip(i + 1), ps@, r@) =~= before + (seq![rest[0]]
                + replace_all_spec(rest.drop_first(), ps@, r@)));
            i = i + 1;
        }
    }
    assert(cs@.skip(n as int) =~= Seq::<char>::empty());
    if m == 0 {
        out.append(r);
    }
    out
}

/// `s` with the first `count` non-overlapping occurrences of `p` replaced by `r`
/// (std's `str::replacen`).
pub fn replacen(s: &str, p: &str, r: &str, count: usize) -> (res: String)
    ensures
        res@ == replacen_spec(s@, p@, r@, count as nat),
{
    let cs = chars_of(s);
    let ps = chars_of(p);
    let n = cs.len();
    let m = ps.len();
    let mut out = String::new();
    let mut i: usize = 0;
    let mut left: usize = count;
    assert(cs@.skip(0) =~= cs@);
    while i < n && left > 0
        invariant
            n == cs@.len(),
            m == ps@.len(),
            cs@ == s@,
            ps@ == p@,
            i <= n,
            out@ + replacen_spec(cs@.skip(i as int), ps@, r@, left as nat) == replacen_spec(
                cs@,
                ps@,
                r@,
                count as nat,
            ),
        decreases n - i,
    {
        let ghost rest = cs@.skip(i as int);
        let ghost before = out@;
        assert(rest.drop_first() =~= cs@.skip(i + 1));
        assert(rest[0] == cs@[i as int]);
        if m == 0 {
            out.append(r);
            push_char(&mut out, cs[i]);
            assert(out@ + replacen_spec(cs@.skip(i + 1), ps@, r@, (left - 1) as nat) =~= before + (
            r@ + seq![rest[0]] + replacen_spec(rest.drop_first(), ps@, r@, (left - 1) as nat)));
            i = i + 1;
            left = left - 1;
        } else if matches_at(&cs, i, &ps) {
            out.append(r);
            assert(rest.take(m as int) =~= cs@.subrange(i as int, i + m));
            assert(rest.skip(m as int) =~= cs@.skip(i + m));
            assert(out@ + replacen_spec(cs@.skip(i + m), ps@, r@, (left - 1) as nat) =~= before + (
            r@ + replacen_spec(rest.skip(m as int), ps@, r@, (left - 1) as nat)));
            i = i + m;
            left = left - 1;
        } else {
            assert(rest.len() >= m ==> rest.take(m as int) =~= cs@.subrange(i as int, i + m));
            push_char(&mut out, cs[i]);
            assert(out@ + replacen_spec(cs@.skip(i + 1), ps@, r@, left as nat) =~= before + (seq![
                rest[0],
            ] + replacen_spec(rest.drop_first(), ps@, r@, left as nat)));
            i = i + 1;
        }
    }
    if left == 0 {
        append_range(&mut out, &cs, i, n);
        assert(cs@.subrange(i as int, n as int) =~= cs@.skip(i as int));
    } else {
        assert(cs@.skip(n as int) =~= Seq::<char>::empty());
        if m == 0 {
            out.append(r);
        }
    }
    out
}

/// The escape of one character, as `debug_escape_char` says.
fn push_debug_char(out: &mut String, c: char)
    ensures
        final(out)@ == old(out)@ + debug_escape_char(c),
{
    let code: u32 = c as u32;
    if c == '"' {
        push_char(out, '\\');
        push_char(out, '"');
    } else if c == '\\' {
        push_char(out, '\\');
        push_char(out, '\\');
    } else if c == '\t' {
        push_char(out, '\\');
        push_char(out, 't');
    } else if c == '\n' {
        push_char(out, '\\');
        push_char(out, 'n');
    } else if c == '\r' {
        push_char(out, '\\');
        push_char(out, 'r');
    } else if c == '\0' {
        push_char(out, '\\');
        push_char(out, '0');
    } else if code < 0x20 || code == 0x7f {
        let n: u8 = code as u8;
        push_char(out, '\\');
        push_char(out, 'u');
        push_char(out, '{');
        if n < 16 {
            push_char(out, hex_digit_of(n));
        } else {
            push_char(out, hex_digit_of(n / 16));
            push_char(out, hex_digit_of(n % 16));
        }
        push_char(out, '}');
    } else {
        push_char(out, c);
    }
    assert(out@ =~= old(out)@ + debug_escape_char(c));
}

/// The lowercase hexadecimal digit of `n`.
fn hex_digit_of(n: u8) -> (c: char)
    requires
        n < 16,
    ensures
        c == hex_char(n),
{
    match n {
        0 => '0',
        1 => '1',
        2 => '2',
        3 => '3',
        4 => '4',
        5 => '5',
        6 => '6',
        7 => '7',
        8 => '8',
        9 => '9',
        10 => 'a',
        11 => 'b',
        12 => 'c',
        13 => 'd',
        14 => 'e',
        _ => 'f',
    }
}

/// Appends `s` as `{:?}` writes a string.
pub fn push_debug_quoted(out: &mut String, s: &str)
    ensures
        final(out)@ == old(out)@ + debug_quoted(s@),
{
    let cs = chars_of(s);
    let n = cs.len();
    push_char(out, '"');
    for i in 0..n
        invariant
            n == cs@.len(),
            cs@ == s@,
            out@ == old(out)@ + seq!['"'] + debug_escape(cs@.take(i as int)),
    {
        push_debug_char(out, cs[i]);
        assert(cs@.take(i + 1).drop_last() =~= cs@.take(i as int));
    }
    assert(cs@.take(n as int) =~= cs@);
    push_char(out, '"');
    assert(out@ =~= old(out)@ + debug_quoted(s@));
}

/// The strings of `v` as `{:?}` writes a list of them: `["a", "b"]`.
pub fn debug_list_text(v: &Vec<String>) -> (res: String)
    ensures
        res@ == debug_list(v@.map_values(|s: String| s@)),
{
    let ghost vs = v@.map_values(|s: String| s@);
    let mut out = String::new();
    push_char(&mut out, '[');
    let n = v.len();
    for i in 0..n
        invariant
            n == v@.len(),
            vs == v@.map_values(|s: String| s@),
            out@ == seq!['['] + debug_items(vs.take(i as int)),
    {
        let ghost before = out@;
        if i > 0 {
            push_char(&mut out, ',');
            push_char(&mut out, ' ');
        }
        push_debug_quoted(&mut out, v[i].as_str());
        proof {
            let t = vs.take(i + 1);
            assert(t.drop_last() =~= vs.take(i as int));
            assert(t.last() == v@[i as int]@);
            if i == 0 {
                assert(out@ =~= seq!['['] + debug_items(t));
            } else {
                assert(out@ =~= seq!['['] + debug_items(t));
            }
        }
    }
    assert(vs.take(n as int) =~= vs);
    push_char(&mut out, ']');
    assert(out@ =~= debug_list(vs));
    out
}

/// The JSON escape of one character, as `json_escape_char` says.
fn push_json_char(out: &mut String, c: char)
    ensures
        final(out)@ == old(out)@ + json_escape_char(c),
{
    let code: u32 = c as u32;
    if c == '"' {
        push_char(out, '\\');
        push_char(out, '"');
    } else if c == '\\' {
        push_char(out, '\\');
        push_char(out, '\\');
    } else if code == 8 {
        push_char(out, '\\');
        push_char(out, 'b');
    } else if c == '\t' {
        push_char(out, '\\');
        push_char(out, 't');
    } else if c == '\n' {
        push_char(out, '\\');
        push_char(out, 'n');
    } else if code == 12 {
        push_char(out, '\\');
        push_char(out, 'f');
    } else if c == '\r' {
        push_char(out, '\\');
        push_char(out, 'r');
    } else if code < 0x20 {
        let n: u8 = code as u8;
        let hi: u8 = n >> 4u8;
        let lo: u8 = n & 0x0fu8;
        assert(n >> 4u8 < 16u8) by (bit_vector);
        assert(n & 0x0fu8 < 16u8) by (bit_vector);
        push_char(out, '\\');
        push_char(out, 'u');
        push_char(out, '0');
        push_char(out, '0');
        push_char(out, hex_digit_of(hi));
        push_char(out, hex_digit_of(lo));
    } else {
        push_char(out, c);
    }
    assert(out@ =~= old(out)@ + json_escape_char(c));
}

/// Appends `s` as a JSON string.
pub fn push_json_string(out: &mut String, s: &str)
    ensures
        final(out)@ == old(out)@ + json_string(s@),
{
    let cs = chars_of(s);
    let n = cs.len();
    push_char(out, '"');
    for i in 0..n
        invariant
            n == cs@.len(),
            cs@ == s@,
            out@ == old(out)@ + seq!['"'] + json_escape(cs@.take(i as int)),
    {
        push_json_char(out, cs[i]);
        assert(cs@.take(i + 1).drop_last() =~= cs@.take(i as int));
    }
    assert(cs@.take(n as int) =~= cs@);
    push_char(out, '"');
    assert(out@ =~= old(out)@ + json_string(s@));
}

} // verus!
