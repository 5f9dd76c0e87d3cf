//! Character-level helpers shared by the settings and start-up code.
use vstd::prelude::*;
use vstd::string::*;

verus! {

/// Appends one character: `String::push`.
///
/// The string afterwards is the string before with `c` at its end.
#[verifier::external_body]
pub(crate) fn string_push(s: &mut String, c: char)
    ensures
        final(s)@ == old(s)@.push(c),
{
    s.push(c);
}

/// The first `n` characters of `s`, or all of `s` where it is shorter.
pub open spec fn clip(s: Seq<char>, n: nat) -> Seq<char> {
    if s.len() <= n {
        s
    } else {
        s.take(n as int)
    }
}

/// Keeps at most `n` characters.
pub fn clip_text(s: &str, n: usize) -> (r: String)
    ensures
        r@ == clip(s@, n as nat),
{
    if s.unicode_len() <= n {
        s.to_owned()
    } else {
        s.substring_char(0, n).to_owned()
    }
}

/// Whether two texts hold the same characters.
pub fn same_text(a: &str, b: &str) -> (r: bool)
    ensures
        r == (a@ == b@),
{
    a.to_owned() == b.to_owned()
}

/// Whether a text holds another one at an index.
pub open spec fn holds_at(s: Seq<char>, part: Seq<char>, i: int) -> bool {
    0 <= i && i + part.len() <= s.len() && s.subrange(i, i + part.len()) == part
}

/// `s` from an index on, with `to` in place of each occurrence of `from`,
/// taken from left to right without overlap.
pub open spec fn replaced_from(s: Seq<char>, from: Seq<char>, to: Seq<char>, i: int) -> Seq<char>
    decreases s.len() - i,
{
    if i < 0 || i >= s.len() {
        Seq::empty()
    } else if from.len() > 0 && holds_at(s, from, i) {
        to + replaced_from(s, from, to, i + from.len())
    } else {
        seq![s[i]] + replaced_from(s, from, to, i + 1)
    }
}

/// `s` with `to` in place of each occurrence of `from`.
pub open spec fn replaced(s: Seq<char>, from: Seq<char>, to: Seq<char>) -> Seq<char> {
    replaced_from(s, from, to, 0)
}

/// The characters of a text.
pub fn chars_of(s: &str) -> (r: Vec<char>)
    ensures
        r@ == s@,
{
    let mut out: Vec<char> = Vec::new();
    for c in it: s.chars()
        invariant
            it.seq() == s@,
            out@ == it.seq().take(it.index() as int),
    {
        out.push(c);
        assert(out@ =~= it.seq().take(it.index() + 1));
    }
    assert(s@.take(s@.len() as int) =~= s@);
    out
}

fn is_at(s: &Vec<char>, part: &Vec<char>, i: usize) -> (r: bool)
    requires
        i <= s@.len(),
    ensures
        r == holds_at(s@, part@, i as int),
{
    if part.len() > s.len() - i {
        return false;
    }
    let end: usize = s.len();
    for k in 0..part.len()
        invariant
            end == s@.len(),
            i + part@.len() <= end,
            forall|j: int| 0 <= j < k ==> s@[i + j] == part@[j],
    {
        if s[i + k] != part[k] {
            assert(s@.subrange(i as int, i + part@.len())[k as int] == s@[i + k]);
            return false;
        }
    }
    assert(s@.subrange(i as int, i + part@.len()) =~= part@);
    true
}

/// Puts `to` in place of each occurrence of `from`, which is not empty.
pub fn replace_all(s: &str, from: &str, to: &str) -> (r: String)
    requires
        from@.len() > 0,
    ensures
        r@ == replaced(s@, from@, to@),
{
    let text = chars_of(s);
    let part = chars_of(from);
    let mut out = String::new();
    let mut i: usize = 0;
    while i < text.len()
        invariant
            i <= text@.len(),
            part@ == from@,
            part@.len() > 0,
            text@ == s@,
            out@ + replaced_from(s@, from@, to@, i as int) == replaced(s@, from@, to@),
        decreases text@.len() - i,
    {
        let ghost before = out@;
        if is_at(&text, &part, i) {
            out.append(to);
            assert(out@ + replaced_from(s@, from@, to@, i + part@.len()) =~= before + replaced_from(
                s@,
                from@,
                to@,
                i as int,
            ));
            i = i + part.len();
        } else {
            string_push(&mut out, text[i]);
            assert(out@ + replaced_from(s@, from@, to@, i + 1) =~= before + replaced_from(
                s@,
                from@,
                to@,
                i as int,
            ));
            i = i + 1;
        }
    }
    assert(out@ =~= replaced(s@, from@, to@));
    out
}

/// The character of a decimal digit.
pub open spec fn digit(d: int) -> char {
    (48 + d) as char
}

/// A number in decimal.
pub open spec fn decimal(n: int) -> Seq<char>
    decreases n,
{
    if n < 10 {
        seq![digit(n)]
    } else {
        decimal(n / 10).push(digit(n % 10))
    }
}

fn digit_char(d: u32) -> (c: char)
    requires
        d < 10,
    ensures
        c == digit(d as int),
{
    (48 + d as u8) as char
}

/// Writes a number in decimal.
pub fn decimal_text(n: u32) -> (r: String)
    ensures
        r@ == decimal(n as int),
    decreases n,
{
    if n < 10 {
        let mut out = String::new();
        string_push(&mut out, digit_char(n));
        assert(out@ =~= seq![digit(n as int)]);
        out
    } else {
        let mut out = decimal_text(n / 10);
        string_push(&mut out, digit_char(n % 10));
        out
    }
}

/// A signed number in decimal.
pub open spec fn signed_decimal(n: int) -> Seq<char> {
    if n < 0 {
        seq!['-'] + decimal(-n)
    } else {
        decimal(n)
    }
}

/// Writes a signed number in decimal.
pub fn signed_decimal_text(n: i32) -> (r: String)
    ensures
        r@ == signed_decimal(n as int),
{
    if n < 0 {
        let mut out = String::new();
        string_push(&mut out, '-');
        let magnitude: i64 = -(n as i64);
        out.append(decimal_text(magnitude as u32).as_str());
        assert(out@ =~= signed_decimal(n as int));
        out
    } else {
        decimal_text(n as u32)
    }
}

/// The character of a hexadecimal digit.
pub open spec fn hex_digit(d: int) -> char {
    if d < 10 {
        (48 + d) as char
    } else {
        (87 + d) as char
    }
}

/// The last `width` hexadecimal digits of a number.
pub open spec fn hex_digits(n: int, width: nat) -> Seq<char>
    decreases width,
{
    if width == 0 {
        Seq::empty()
    } else {
        hex_digits(n / 16, (width - 1) as nat).push(hex_digit(n % 16))
    }
}

/// Writes the last `width` hexadecimal digits of a number.
pub fn hex_text(n: u32, width: u32) -> (r: String)
    ensures
        r@ == hex_digits(n as int, width as nat),
    decreases width,
{
    if width == 0 {
        String::new()
    } else {
        let mut out = hex_text(n / 16, width - 1);
        let d: u32 = n % 16;
        let c = if d < 10 {
            (48 + d as u8) as char
        } else {
            (87 + d as u8) as char
        };
        string_push(&mut out, c);
        out
    }
}

/// The parts of a text between separators; a text without any is one part.
pub open spec fn split(s: Seq<char>, sep: char) -> Seq<Seq<char>>
    decreases s.len(),
{
    if s.len() == 0 {
        seq![Seq::empty()]
    } else {
        let before = split(s.drop_last(), sep);
        if s.last() == sep {
            before.push(Seq::empty())
        } else {
            before.update(before.len() - 1, before.last().push(s.last()))
        }
    }
}

/// Parts with a separator between neighbours.
pub open spec fn join(parts: Seq<Seq<char>>, sep: char) -> Seq<char>
    decreases parts.len(),
{
    if parts.len() == 0 {
        Seq::empty()
    } else if parts.len() == 1 {
        parts[0]
    } else {
        join(parts.drop_last(), sep).push(sep) + parts.last()
    }
}

/// A text has at least one part, and no part holds a separator.
pub proof fn lemma_split(s: Seq<char>, sep: char)
    ensures
        split(s, sep).len() > 0,
        forall|i: int, k: int|
            0 <= i < split(s, sep).len() && 0 <= k < split(s, sep)[i].len() ==> split(
                s,
                sep,
            )[i][k] != sep,
    decreases s.len(),
{
    if s.len() > 0 {
        lemma_split(s.drop_last(), sep);
        let before = split(s.drop_last(), sep);
        assert(before.last() == before[before.len() - 1]);
    }
}

/// Joining the parts of a text gives it back.
pub proof fn law_join_inverts_split(s: Seq<char>, sep: char)
    ensures
        join(split(s, sep), sep) == s,
    decreases s.len(),
{
    if s.len() == 0 {
        assert(split(s, sep) =~= seq![Seq::<char>::empty()]);
        assert(join(split(s, sep), sep) =~= s);
    } else {
        let rest = s.drop_last();
        law_join_inverts_split(rest, sep);
        lemma_split(rest, sep);
        let before = split(rest, sep);
        let parts = split(s, sep);
        if s.last() == sep {
            assert(parts.drop_last() =~= before);
            assert(join(parts, sep) =~= join(before, sep).push(sep));
        } else {
            assert(parts.drop_last() =~= before.drop_last());
            if before.len() == 1 {
                assert(join(parts, sep) =~= join(before, sep).push(s.last()));
            } else {
                assert(join(parts, sep) =~= join(before, sep).push(s.last()));
            }
        }
        assert(rest.push(s.last()) =~= s);
    }
}

/// Splitting joined parts gives them back, where none holds a separator and
/// there is one.
pub proof fn law_split_inverts_join(parts: Seq<Seq<char>>, sep: char)
    requires
        parts.len() > 0,
        forall|i: int, k: int| 0 <= i < parts.len() && 0 <= k < parts[i].len() ==> parts[i][k] != sep,
    ensures
        split(join(parts, sep), sep) == parts,
    decreases parts.len(), parts.last().len(),
{
    let last = parts.last();
    let s = join(parts, sep);
    assert(last == parts[parts.len() - 1]);
    if last.len() > 0 {
        let shorter = parts.update(parts.len() - 1, last.drop_last());
        assert forall|i: int, k: int|
            0 <= i < shorter.len() && 0 <= k < shorter[i].len() implies shorter[i][k] != sep by {
            assert(parts[i][k] == shorter[i][k]);
        }
        assert(shorter.last() == last.drop_last());
        law_split_inverts_join(shorter, sep);
        assert(shorter.drop_last() =~= parts.drop_last());
        assert(join(shorter, sep) =~= s.drop_last());
        assert(s.last() == last.last());
        assert(last.last() == parts[parts.len() - 1][last.len() - 1]);
        assert(shorter.update(parts.len() - 1, last.drop_last().push(last.last())) =~= parts) by {
            assert(last.drop_last().push(last.last()) =~= last);
        }
    } else if parts.len() == 1 {
        assert(s =~= Seq::empty());
        assert(parts =~= seq![Seq::<char>::empty()]);
    } else {
        let fewer = parts.drop_last();
        assert forall|i: int, k: int|
            0 <= i < fewer.len() && 0 <= k < fewer[i].len() implies fewer[i][k] != sep by {
            assert(parts[i][k] == fewer[i][k]);
        }
        law_split_inverts_join(fewer, sep);
        assert(s =~= join(fewer, sep).push(sep));
        assert(s.drop_last() =~= join(fewer, sep));
        assert(last =~= Seq::<char>::empty());
        assert(fewer.push(last) =~= parts);
    }
}

/// Whether a text holds another one somewhere.
pub open spec fn holds(s: Seq<char>, part: Seq<char>) -> bool {
    exists|i: int| #[trigger] holds_at(s, part, i)
}

/// Whether a text holds another one somewhere.
pub fn contains_text(s: &str, part: &str) -> (r: bool)
    ensures
        r == holds(s@, part@),
{
    let text = chars_of(s);
    let wanted = chars_of(part);
    for i in 0..text.len()
        invariant
            text@ == s@,
            wanted@ == part@,
            forall|j: int| 0 <= j < i ==> !holds_at(s@, part@, j),
    {
        if is_at(&text, &wanted, i) {
            return true;
        }
    }
    if wanted.len() == 0 {
        assert(s@.subrange(s@.len() as int, s@.len() as int) =~= part@);
        assert(holds_at(s@, part@, s@.len() as int));
        return true;
    }
    false
}

/// The texts of a list of strings.
pub open spec fn texts(list: Seq<String>) -> Seq<Seq<char>> {
    list.map_values(|s: String| s@)
}

/// Takes a text apart at the separators.
pub fn split_text(s: &str, sep: char) -> (r: Vec<String>)
    ensures
        texts(r@) == split(s@, sep),
        r@.len() > 0,
{
    let mut parts: Vec<String> = Vec::new();
    let mut part = String::new();
    assert(texts(parts@).push(part@) =~= split(Seq::empty(), sep));
    let ghost mut seen: Seq<char> = Seq::empty();
    for c in it: s.chars()
        invariant
            it.seq() == s@,
            seen == it.seq().take(it.index() as int),
            texts(parts@).push(part@) == split(seen, sep),
    {
        let ghost before = texts(parts@);
        let ghost whole = before.push(part@);
        proof {
            assert(it.seq().take(it.index() + 1) =~= seen.push(c));
            assert(seen.push(c).drop_last() =~= seen);
            assert(whole.last() == part@);
            assert(whole.update(whole.len() - 1, part@.push(c)) =~= before.push(part@.push(c)));
            seen = seen.push(c);
        }
        if c == sep {
            let mut next = String::new();
            std::mem::swap(&mut next, &mut part);
            parts.push(next);
            assert(texts(parts@) =~= whole);
        } else {
            string_push(&mut part, c);
        }
    }
    assert(s@.take(s@.len() as int) =~= s@);
    let ghost before = texts(parts@);
    parts.push(part);
    assert(texts(parts@) =~= before.push(part@));
    parts
}

/// Puts parts together with a separator between neighbours.
pub fn join_text(parts: &Vec<String>, sep: char) -> (r: String)
    ensures
        r@ == join(texts(parts@), sep),
{
    let mut out = String::new();
    for i in 0..parts.len()
        invariant
            out@ == join(texts(parts@).take(i as int), sep),
    {
        let ghost before = texts(parts@).take(i as int);
        let ghost after = texts(parts@).take(i + 1);
        assert(after.drop_last() =~= before);
        assert(after.last() == parts@[i as int]@);
        if i > 0 {
            string_push(&mut out, sep);
        } else {
            assert(out@ =~= Seq::empty());
        }
        out.append(parts[i].as_str());
        assert(out@ =~= join(after, sep));
    }
    assert(texts(parts@).take(parts@.len() as int) =~= texts(parts@));
    out
}

} // verus!
