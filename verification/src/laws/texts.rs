//! Texts: cut, compared, searched, taken apart, and the device name.
use crate::config::device_name;
use crate::config::device_name::{default_device_name, normalize_device_name};
use crate::text;
use vstd::prelude::*;

verus! {

/// A text is cut to its first characters, and one that is short enough is kept.
pub proof fn law_text_is_cut(s: &str, n: usize, r: String, k: int)
    requires
        call_ensures(text::clip_text, (s, n), r),
    ensures
        s@.len() <= n ==> r@ == s@,
        s@.len() > n ==> r@.len() == n,
        0 <= k < r@.len() ==> r@[k] == s@[k],
{
}

/// Texts are the same where they hold the same characters, and the characters
/// of a text are its own.
pub proof fn law_texts_are_compared_by_characters(a: &str, b: &str, r: bool, chars: Vec<char>)
    requires
        call_ensures(text::same_text, (a, b), r),
        call_ensures(text::chars_of, (a,), chars),
    ensures
        r == (a@ == b@),
        chars@ == a@,
{
}

/// A text holds another one exactly where that one stands in it whole.
pub proof fn law_text_is_found_where_it_stands(
    s: &str,
    part: &str,
    r: bool,
    before: Seq<char>,
    after: Seq<char>,
)
    requires
        call_ensures(text::contains_text, (s, part), r),
    ensures
        s@ == before + part@ + after ==> r,
        r ==> exists|i: int|
            0 <= i && i + part@.len() <= s@.len() && #[trigger] s@.subrange(i, i + part@.len())
                == part@,
{
    if s@ == before + part@ + after {
        let i = before.len() as int;
        assert(s@.subrange(i, i + part@.len()) =~= part@);
        assert(text::holds_at(s@, part@, i));
    }
    if r {
        let i = choose|i: int| #[trigger] text::holds_at(s@, part@, i);
        assert(s@.subrange(i, i + part@.len()) == part@);
    }
}

/// A text that does not hold what is to be replaced stays as it is; one
/// occurrence is replaced where it stands, and what is around it stays.
pub proof fn law_occurrence_is_replaced(
    s: &str,
    from: &str,
    to: &str,
    r: String,
    before: Seq<char>,
    after: Seq<char>,
)
    requires
        from@.len() > 0,
        call_ensures(text::replace_all, (s, from, to), r),
    ensures
        (forall|i: int| !(#[trigger] text::holds_at(s@, from@, i))) ==> r@ == s@,
        s@ == before + from@ + after && (forall|i: int|
            i != before.len() ==> !(#[trigger] text::holds_at(s@, from@, i))) ==> r@ == before + to@
            + after,
{
    if forall|i: int| !(#[trigger] text::holds_at(s@, from@, i)) {
        lemma_kept(s@, from@, to@, 0);
        assert(s@.skip(0) =~= s@);
    }
    if s@ == before + from@ + after && (forall|i: int|
        i != before.len() ==> !(#[trigger] text::holds_at(s@, from@, i))) {
        let n = before.len() as int;
        assert(s@.subrange(n, n + from@.len()) =~= from@);
        assert(text::holds_at(s@, from@, n));
        lemma_one(s@, from@, to@, n, 0);
        lemma_kept(s@, from@, to@, n + from@.len());
        assert(s@.subrange(0, n) =~= before);
        assert(s@.skip(n + from@.len()) =~= after);
        assert(r@ =~= before + to@ + after);
    }
}

proof fn lemma_kept(s: Seq<char>, from: Seq<char>, to: Seq<char>, i: int)
    requires
        0 <= i <= s.len(),
        forall|j: int| i <= j ==> !(#[trigger] text::holds_at(s, from, j)),
    ensures
        text::replaced_from(s, from, to, i) == s.skip(i),
    decreases s.len() - i,
{
    if i < s.len() {
        assert(!text::holds_at(s, from, i));
        lemma_kept(s, from, to, i + 1);
        assert(seq![s[i]] + s.skip(i + 1) =~= s.skip(i));
    } else {
        assert(s.skip(i) =~= Seq::empty());
    }
}

proof fn lemma_one(s: Seq<char>, from: Seq<char>, to: Seq<char>, n: int, i: int)
    requires
        0 <= i <= n < s.len(),
        from.len() > 0,
        text::holds_at(s, from, n),
        forall|j: int| j != n ==> !(#[trigger] text::holds_at(s, from, j)),
    ensures
        text::replaced_from(s, from, to, i) == s.subrange(i, n) + to + text::replaced_from(
            s,
            from,
            to,
            n + from.len(),
        ),
    decreases n - i,
{
    let tail = text::replaced_from(s, from, to, n + from.len());
    if i < n {
        assert(!text::holds_at(s, from, i));
        lemma_one(s, from, to, n, i + 1);
        assert(seq![s[i]] + (s.subrange(i + 1, n) + to + tail) =~= s.subrange(i, n) + to + tail);
    } else {
        assert(s.subrange(n, n) + to + tail =~= to + tail);
    }
}

/// A text that was taken apart is put together again as it was; no part holds a
/// separator.
pub proof fn law_parts_make_up_the_text(
    s: &str,
    sep: char,
    parts: Vec<String>,
    joined: String,
    i: int,
    k: int,
)
    requires
        call_ensures(text::split_text, (s, sep), parts),
        call_ensures(text::join_text, (&parts, sep), joined),
    ensures
        joined@ == s@,
        parts@.len() > 0,
        0 <= i < parts@.len() && 0 <= k < parts@[i]@.len() ==> parts@[i]@[k] != sep,
        (forall|j: int| 0 <= j < s@.len() ==> #[trigger] s@[j] != sep) ==> parts@.len() == 1
            && parts@[0]@ == s@,
{
    text::law_join_inverts_split(s@, sep);
    text::lemma_split(s@, sep);
    if 0 <= i < parts@.len() {
        assert(text::texts(parts@)[i] == parts@[i]@);
    }
    if forall|j: int| 0 <= j < s@.len() ==> #[trigger] s@[j] != sep {
        lemma_unsplit(s@, sep);
        assert(text::texts(parts@)[0] == parts@[0]@);
    }
}

proof fn lemma_unsplit(s: Seq<char>, sep: char)
    requires
        forall|j: int| 0 <= j < s.len() ==> #[trigger] s[j] != sep,
    ensures
        text::split(s, sep) == seq![s],
    decreases s.len(),
{
    if s.len() > 0 {
        let rest = s.drop_last();
        assert forall|j: int| 0 <= j < rest.len() implies #[trigger] rest[j] != sep by {
            assert(rest[j] == s[j]);
        }
        lemma_unsplit(rest, sep);
        assert(s.last() == s[s.len() - 1]);
        assert(rest.push(s.last()) =~= s);
        assert(text::split(s, sep) =~= seq![s]);
    } else {
        assert(s =~= Seq::empty());
        assert(text::split(s, sep) =~= seq![s]);
    }
}

/// Whether a character counts as blank in a name.
pub open spec fn is_blank(c: char) -> bool {
    c == ' ' || c == '\t' || c == '\r' || c == '\n' || c == '\u{0b}' || c == '\u{0c}'
}

/// A name that is kept has at most sixty-four characters. A tidy one, without
/// outer blanks and with single spaces inside, is kept as it is where it fits
/// and is not the host's own, which is kept as none.
pub proof fn law_tidy_name_is_kept(raw: &str, host: &str, r: String)
    requires
        call_ensures(normalize_device_name, (raw, host), r),
    ensures
        r@.len() <= 64,
        (forall|i: int|
            0 <= i < raw@.len() && is_blank(#[trigger] raw@[i]) ==> raw@[i] == ' ' && 0 < i
                < raw@.len() - 1 && !is_blank(raw@[i - 1]) && !is_blank(raw@[i + 1])) && raw@.len()
            <= 64 ==> r@ == if raw@ == host@ {
            Seq::<char>::empty()
        } else {
            raw@
        },
        r@ != host@ || host@.len() == 0,
{
    if forall|i: int|
        0 <= i < raw@.len() && is_blank(#[trigger] raw@[i]) ==> raw@[i] == ' ' && 0 < i < raw@.len()
            - 1 && !is_blank(raw@[i - 1]) && !is_blank(raw@[i + 1]) {
        assert forall|i: int| 0 <= i < raw@.len() && device_name::is_blank(#[trigger] raw@[i]) implies raw@[i]
            == ' ' && 0 < i < raw@.len() - 1 && !device_name::is_blank(raw@[i - 1])
            && !device_name::is_blank(raw@[i + 1]) by {
            assert(is_blank(raw@[i]));
        }
        device_name::law_tidy_is_kept(raw@);
    }
}

/// A name that is kept and was not cut is tidy: its only blanks are single
/// spaces between other characters.
pub proof fn law_kept_name_is_tidy(raw: &str, host: &str, r: String, i: int)
    requires
        call_ensures(normalize_device_name, (raw, host), r),
        r@.len() < 64,
        0 <= i < r@.len(),
        is_blank(r@[i]),
    ensures
        r@[i] == ' ',
        0 < i < r@.len() - 1,
        !is_blank(r@[i - 1]) && !is_blank(r@[i + 1]),
{
    device_name::law_collapsed_is_tidy(raw@);
    let whole = device_name::collapsed(raw@);
    assert(r@ == whole);
    assert(device_name::is_blank(whole[i]));
}

/// Characters of a name that are not blank are all kept, in their order.
pub open spec fn unblanked(s: Seq<char>) -> Seq<char>
    decreases s.len(),
{
    if s.len() == 0 {
        Seq::empty()
    } else if is_blank(s.last()) {
        unblanked(s.drop_last())
    } else {
        unblanked(s.drop_last()).push(s.last())
    }
}

proof fn lemma_unblanked_cat(a: Seq<char>, b: Seq<char>)
    ensures
        unblanked(a + b) == unblanked(a) + unblanked(b),
    decreases b.len(),
{
    if b.len() == 0 {
        assert(a + b =~= a);
        assert(unblanked(a) + unblanked(b) =~= unblanked(a));
    } else {
        assert((a + b).drop_last() =~= a + b.drop_last());
        lemma_unblanked_cat(a, b.drop_last());
        assert(unblanked(a + b) =~= unblanked(a) + unblanked(b));
    }
}

proof fn lemma_spaced(ws: Seq<Seq<char>>)
    ensures
        unblanked(device_name::spaced(ws)) == flat(ws),
    decreases ws.len(),
{
    reveal_with_fuel(flat, 2);
    if ws.len() == 1 {
        assert(ws.drop_last() =~= Seq::empty());
        assert(flat(ws) =~= unblanked(ws[0]));
    } else if ws.len() > 1 {
        lemma_spaced(ws.drop_last());
        let front = device_name::spaced(ws.drop_last()).push(' ');
        lemma_unblanked_cat(front, ws.last());
        assert(front.drop_last() =~= device_name::spaced(ws.drop_last()));
    }
}

spec fn flat(ws: Seq<Seq<char>>) -> Seq<char>
    decreases ws.len(),
{
    if ws.len() == 0 {
        Seq::empty()
    } else {
        flat(ws.drop_last()) + unblanked(ws.last())
    }
}

proof fn lemma_words(s: Seq<char>)
    ensures
        flat(device_name::words(s)) == unblanked(s),
        s.len() > 0 && !is_blank(s.last()) ==> device_name::words(s).len() > 0,
    decreases s.len(),
{
    if s.len() > 0 {
        let rest = s.drop_last();
        let before = device_name::words(rest);
        let now = device_name::words(s);
        lemma_words(rest);
        if is_blank(s.last()) {
            assert(now == before);
        } else if rest.len() == 0 || is_blank(rest.last()) {
            assert(now == before.push(seq![s.last()]));
            assert(now.drop_last() =~= before);
            reveal_with_fuel(unblanked, 2);
            assert(seq![s.last()].drop_last() =~= Seq::empty());
            assert(unblanked(seq![s.last()]) =~= seq![s.last()]);
            assert(flat(now) =~= unblanked(s));
        } else {
            let w = before.last().push(s.last());
            assert(now.drop_last() =~= before.drop_last());
            assert(now.last() == w);
            assert(w.drop_last() =~= before.last());
            assert(flat(now) =~= flat(before).push(s.last()));
        }
    }
}

/// Cleaning a name loses none of its other characters, as long as it is not cut
/// and not the host's own.
pub proof fn law_cleaning_loses_only_blanks(raw: &str, host: &str, r: String)
    requires
        call_ensures(normalize_device_name, (raw, host), r),
        0 < r@.len() < 64,
    ensures
        unblanked(r@) == unblanked(raw@),
{
    lemma_words(raw@);
    lemma_spaced(device_name::words(raw@));
}

proof fn lemma_c_string(bytes: Seq<u8>, n: int)
    requires
        0 <= n <= bytes.len(),
        forall|i: int| 0 <= i < n ==> bytes[i] != 0,
        n == bytes.len() || bytes[n] == 0,
    ensures
        device_name::c_string(bytes) == bytes.take(n),
    decreases n,
{
    if n == 0 {
        assert(bytes.take(0) =~= Seq::empty());
    } else {
        let rest = bytes.drop_first();
        assert forall|i: int| 0 <= i < n - 1 implies rest[i] != 0 by {
            assert(bytes[i + 1] != 0);
        }
        lemma_c_string(rest, n - 1);
        assert(bytes.take(n) =~= seq![bytes[0]] + rest.take(n - 1));
    }
}

/// The host's name is what the system wrote before the first zero byte, cut to
/// sixty-four characters; there is none where the system failed.
pub proof fn law_hosts_name_ends_at_the_zero(rc: i32, buf: &[u8], r: String, n: int, k: int)
    requires
        call_ensures(default_device_name, (rc, buf), r),
        0 <= n <= buf@.len(),
        forall|i: int| 0 <= i < n ==> buf@[i] != 0,
        n == buf@.len() || buf@[n] == 0,
    ensures
        rc != 0 ==> r@.len() == 0,
        rc == 0 ==> {
            let name = device_name::utf8_lossy(buf@.take(n));
            &&& name.len() <= 64 ==> r@ == name
            &&& name.len() > 64 ==> r@.len() == 64
            &&& 0 <= k < r@.len() ==> r@[k] == name[k]
        },
{
    lemma_c_string(buf@, n);
}

} // verus!
