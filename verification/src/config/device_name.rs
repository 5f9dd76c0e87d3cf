//! The device name that the client reports to the server.
use crate::text;
use crate::text::{clip_text, same_text, string_push};
use vstd::prelude::*;

verus! {

/// Longest device name, in characters: the width of the server's column.
pub const DEVICE_NAME_MAX: usize = 64;

/// The characters that count as blank in a device name.
pub open spec fn is_blank(c: char) -> bool {
    c == ' ' || c == '\t' || c == '\r' || c == '\n' || c == '\u{0b}' || c == '\u{0c}'
}

/// The maximal runs of non-blank characters, in order.
pub open spec fn words(s: Seq<char>) -> Seq<Seq<char>>
    decreases s.len(),
{
    if s.len() == 0 {
        Seq::empty()
    } else {
        let rest = s.drop_last();
        let before = words(rest);
        if is_blank(s.last()) {
            before
        } else if rest.len() == 0 || is_blank(rest.last()) {
            before.push(seq![s.last()])
        } else {
            before.update(before.len() - 1, before.last().push(s.last()))
        }
    }
}

/// The words with one space between neighbours.
pub open spec fn spaced(ws: Seq<Seq<char>>) -> Seq<char>
    decreases ws.len(),
{
    if ws.len() == 0 {
        Seq::empty()
    } else if ws.len() == 1 {
        ws[0]
    } else {
        spaced(ws.drop_last()).push(' ') + ws.last()
    }
}

/// `raw` without outer blanks and with each inner run of blanks as one space.
pub open spec fn collapsed(raw: Seq<char>) -> Seq<char> {
    spaced(words(raw))
}

/// The override to keep for `raw`: collapsed and cut to the column's width,
/// and nothing at all where that is the platform's own name.
pub open spec fn normalized(raw: Seq<char>, platform_default: Seq<char>) -> Seq<char> {
    let name = text::clip(collapsed(raw), DEVICE_NAME_MAX as nat);
    if name == platform_default {
        Seq::empty()
    } else {
        name
    }
}

/// What the scan has collected after `s`: the collapsed text, with a space
/// pending after the last word where `s` ends in a blank.
spec fn scanned(s: Seq<char>) -> Seq<char> {
    if words(s).len() > 0 && is_blank(s.last()) {
        collapsed(s).push(' ')
    } else {
        collapsed(s)
    }
}

proof fn lemma_words_nonempty(s: Seq<char>)
    ensures
        forall|i: int| 0 <= i < words(s).len() ==> (#[trigger] words(s)[i]).len() > 0 && !is_blank(
            words(s)[i].last(),
        ) && !is_blank(words(s)[i].first()),
        s.len() > 0 && !is_blank(s.last()) ==> words(s).len() > 0,
    decreases s.len(),
{
    if s.len() > 0 {
        lemma_words_nonempty(s.drop_last());
        let rest = s.drop_last();
        let before = words(rest);
        if !is_blank(s.last()) && rest.len() > 0 && !is_blank(rest.last()) {
            assert(before.last() == before[before.len() - 1]);
            assert(before.last().push(s.last()).first() == before.last().first());
            assert(before.last().push(s.last()).last() == s.last());
        }
    }
}

proof fn lemma_spaced_end(ws: Seq<Seq<char>>)
    requires
        forall|i: int| 0 <= i < ws.len() ==> (#[trigger] ws[i]).len() > 0 && !is_blank(
            ws[i].last(),
        ),
        ws.len() > 0,
    ensures
        spaced(ws).len() > 0,
        !is_blank(spaced(ws).last()),
{
    if ws.len() > 1 {
        let a = spaced(ws.drop_last()).push(' ');
        assert((a + ws.last()).last() == ws.last().last());
        assert(ws.last() == ws[ws.len() - 1]);
    }
}

proof fn lemma_scan_step(s: Seq<char>, c: char)
    ensures
        is_blank(c) ==> scanned(s.push(c)) == if s.len() > 0 && !is_blank(s.last()) {
            scanned(s).push(' ')
        } else {
            scanned(s)
        },
        !is_blank(c) ==> scanned(s.push(c)) == scanned(s).push(c),
{
    let t = s.push(c);
    assert(t.drop_last() =~= s);
    lemma_words_nonempty(s);
    lemma_words_nonempty(t);
    let before = words(s);
    if !is_blank(c) {
        if s.len() == 0 || is_blank(s.last()) {
            let ws = before.push(seq![c]);
            assert(words(t) == ws);
            assert(ws.drop_last() =~= before);
            if before.len() == 0 {
                assert(spaced(ws) =~= seq![c]);
                assert(scanned(s) =~= Seq::empty());
                assert(scanned(t) =~= scanned(s).push(c));
            } else {
                assert(spaced(ws) == spaced(before).push(' ') + seq![c]);
                assert(scanned(t) =~= scanned(s).push(c));
            }
        } else {
            let w = before.last().push(c);
            let ws = before.update(before.len() - 1, w);
            assert(words(t) == ws);
            assert(ws.drop_last() =~= before.drop_last());
            if before.len() == 1 {
                assert(scanned(t) =~= scanned(s).push(c));
            } else {
                assert(spaced(ws) =~= spaced(before).push(c));
                assert(scanned(t) =~= scanned(s).push(c));
            }
        }
    }
}

/// Whether a text has no outer blanks, and inside only single spaces.
pub open spec fn is_tidy(s: Seq<char>) -> bool {
    forall|i: int|
        0 <= i < s.len() && is_blank(#[trigger] s[i]) ==> s[i] == ' ' && 0 < i < s.len() - 1
            && !is_blank(s[i - 1]) && !is_blank(s[i + 1])
}

/// What the scan has collected is tidy but for a space at its end.
proof fn lemma_scanned_tidy(s: Seq<char>)
    ensures
        forall|i: int|
            0 <= i < scanned(s).len() && is_blank(#[trigger] scanned(s)[i]) ==> scanned(s)[i] == ' '
                && 0 < i && !is_blank(scanned(s)[i - 1]) && (i < scanned(s).len() - 1
                ==> !is_blank(scanned(s)[i + 1])),
        scanned(s).len() > 0 && s.len() > 0 ==> is_blank(scanned(s).last()) == is_blank(s.last()),
        s.len() > 0 && !is_blank(s.last()) ==> scanned(s).len() > 0,
        s.len() == 0 ==> scanned(s).len() == 0,
    decreases s.len(),
{
    if s.len() > 0 {
        let rest = s.drop_last();
        lemma_scanned_tidy(rest);
        lemma_scan_step(rest, s.last());
        assert(rest.push(s.last()) =~= s);
    }
}

/// The scan collects a tidy text as it is.
proof fn lemma_scanned_prefix(s: Seq<char>, n: int)
    requires
        is_tidy(s),
        0 <= n <= s.len(),
    ensures
        scanned(s.take(n)) == s.take(n),
    decreases n,
{
    if n == 0 {
        assert(s.take(0) =~= Seq::empty());
        assert(scanned(s.take(0)) =~= Seq::empty());
    } else {
        lemma_scanned_prefix(s, n - 1);
        lemma_scan_step(s.take(n - 1), s[n - 1]);
        assert(s.take(n - 1).push(s[n - 1]) =~= s.take(n));
        if is_blank(s[n - 1]) {
            assert(!is_blank(s[n - 2]));
            assert(s.take(n - 1).last() == s[n - 2]);
        }
    }
}

/// A collapsed name is tidy.
pub proof fn law_collapsed_is_tidy(raw: Seq<char>)
    ensures
        is_tidy(collapsed(raw)),
{
    lemma_scanned_tidy(raw);
    lemma_words_nonempty(raw);
    let out = collapsed(raw);
    if words(raw).len() > 0 {
        lemma_spaced_end(words(raw));
    }
    assert forall|i: int| 0 <= i < out.len() && is_blank(#[trigger] out[i]) implies out[i] == ' '
        && 0 < i < out.len() - 1 && !is_blank(out[i - 1]) && !is_blank(out[i + 1]) by {
        assert(scanned(raw)[i] == out[i]);
        assert(scanned(raw)[i - 1] == out[i - 1]);
        if i == out.len() - 1 {
            assert(out.last() == out[i]);
        } else {
            assert(scanned(raw)[i + 1] == out[i + 1]);
        }
    }
}

/// A tidy name is collapsed to itself, so collapsing twice is collapsing
/// once.
pub proof fn law_tidy_is_kept(name: Seq<char>)
    requires
        is_tidy(name),
    ensures
        collapsed(name) == name,
{
    lemma_scanned_prefix(name, name.len() as int);
    assert(name.take(name.len() as int) =~= name);
    if name.len() > 0 {
        assert(name.last() == name[name.len() - 1]);
        assert(!is_blank(name.last()));
    }
}

/// Outer blanks do not matter, and neither does how wide or of what kind the
/// inner ones are: names with the same words are kept as the same.
pub proof fn law_only_words_matter(a: Seq<char>, b: Seq<char>, platform_default: Seq<char>)
    requires
        words(a) == words(b),
    ensures
        normalized(a, platform_default) == normalized(b, platform_default),
{
}

/// A kept name fits the server's column.
pub proof fn law_name_fits(raw: Seq<char>, platform_default: Seq<char>)
    ensures
        normalized(raw, platform_default).len() <= DEVICE_NAME_MAX,
{
}

/// Cleaning a kept name again changes nothing, unless the name was cut right
/// after a space, which a second cleaning takes away.
pub proof fn law_cleaning_is_idempotent(raw: Seq<char>, platform_default: Seq<char>)
    requires
        ({
            let cut = text::clip(collapsed(raw), DEVICE_NAME_MAX as nat);
            cut.len() == 0 || cut.last() != ' ' || cut == platform_default
        }),
    ensures
        normalized(normalized(raw, platform_default), platform_default) == normalized(
            raw,
            platform_default,
        ),
{
    let whole = collapsed(raw);
    let cut = text::clip(whole, DEVICE_NAME_MAX as nat);
    law_collapsed_is_tidy(raw);
    law_tidy_is_kept(Seq::empty());
    if cut != platform_default {
        assert forall|i: int| 0 <= i < cut.len() && is_blank(#[trigger] cut[i]) implies cut[i] == ' '
            && 0 < i < cut.len() - 1 && !is_blank(cut[i - 1]) && !is_blank(cut[i + 1]) by {
            assert(whole[i] == cut[i]);
            assert(whole[i - 1] == cut[i - 1]);
            if i == cut.len() - 1 {
                assert(cut.last() == cut[i]);
            } else {
                assert(whole[i + 1] == cut[i + 1]);
            }
        }
        law_tidy_is_kept(cut);
    }
}

/// The host's own name clears the override, however it is padded.
pub proof fn law_platform_name_clears(raw: Seq<char>, platform_default: Seq<char>)
    requires
        collapsed(raw) == platform_default,
        platform_default.len() <= DEVICE_NAME_MAX,
    ensures
        normalized(raw, platform_default) == Seq::<char>::empty(),
{
}

/// What `String::from_utf8_lossy` makes of bytes.
pub uninterp spec fn utf8_lossy(bytes: Seq<u8>) -> Seq<char>;

/// `String::from_utf8_lossy`. Valid UTF-8 is decoded; what stands in place of
/// invalid bytes is left to the name.
#[verifier::external_body]
fn decoded_lossily(bytes: &[u8]) -> (r: String)
    ensures
        r@ == utf8_lossy(bytes@),
        vstd::utf8::valid_utf8(bytes@) ==> r@ == vstd::utf8::decode_utf8(bytes@),
{
    String::from_utf8_lossy(bytes).into_owned()
}

/// The bytes before the first zero, or all of them.
pub open spec fn c_string(bytes: Seq<u8>) -> Seq<u8>
    decreases bytes.len(),
{
    if bytes.len() == 0 || bytes[0] == 0 {
        Seq::empty()
    } else {
        seq![bytes[0]] + c_string(bytes.drop_first())
    }
}

/// A prefix without zeros that runs to a zero or to the end is the C string.
proof fn lemma_c_string(bytes: Seq<u8>, n: int)
    requires
        0 <= n <= bytes.len(),
        forall|i: int| 0 <= i < n ==> bytes[i] != 0,
        n == bytes.len() || bytes[n] == 0,
    ensures
        c_string(bytes) == bytes.take(n),
    decreases n,
{
    if n == 0 {
        assert(bytes.take(0) =~= Seq::empty());
    } else {
        let rest = bytes.drop_first();
        assert forall|i: int| 0 <= i < n - 1 implies rest[i] != 0 by {
            assert(bytes[i + 1] != 0);
        }
        lemma_c_string(rest, n - 1);
        assert(bytes.take(n) =~= seq![bytes[0]] + rest.take(n - 1));
    }
}

/// The name of the device where the user has set none, from what the system
/// call for the host's name returned and left in its buffer: the text up to
/// the first zero byte, cut to [`DEVICE_NAME_MAX`] characters, and no name at
/// all where the call failed.
pub fn default_device_name(rc: i32, buf: &[u8]) -> (r: String)
    ensures
        r@ == if rc != 0 {
            Seq::empty()
        } else {
            text::clip(utf8_lossy(c_string(buf@)), DEVICE_NAME_MAX as nat)
        },
{
    if rc != 0 {
        return String::new();
    }
    let mut name: Vec<u8> = Vec::new();
    let mut i: usize = 0;
    while i < buf.len() && buf[i] != 0
        invariant
            i <= buf.len(),
            name@ == buf@.take(i as int),
            forall|j: int| 0 <= j < i ==> buf@[j] != 0,
        decreases buf.len() - i,
    {
        name.push(buf[i]);
        assert(buf@.take(i + 1) =~= buf@.take(i as int).push(buf@[i as int]));
        i = i + 1;
    }
    proof {
        lemma_c_string(buf@, i as int);
    }
    clip_text(decoded_lossily(name.as_slice()).as_str(), DEVICE_NAME_MAX)
}

fn blank(c: char) -> (r: bool)
    ensures
        r == is_blank(c),
{
    c == ' ' || c == '\t' || c == '\r' || c == '\n' || c == '\u{0b}' || c == '\u{0c}'
}

/// Cleans a device name typed by the user.
///
/// Outer blanks go, inner runs of blanks become one space, the result is cut
/// to [`DEVICE_NAME_MAX`] characters, and a name equal to `platform_default`
/// becomes empty.
pub fn normalize_device_name(raw: &str, platform_default: &str) -> (r: String)
    ensures
        r@ == normalized(raw@, platform_default@),
{
    let mut trimmed = String::new();
    let mut in_space = true;
    let ghost mut seen: Seq<char> = Seq::empty();
    for c in it: raw.chars()
        invariant
            seen == it.seq().take(it.index() as int),
            it.seq() == raw@,
            trimmed@ == scanned(seen),
            in_space == (seen.len() == 0 || is_blank(seen.last())),
    {
        proof {
            lemma_scan_step(seen, c);
            assert(it.seq().take(it.index() + 1) =~= seen.push(c));
            seen = seen.push(c);
        }
        if blank(c) {
            if !in_space {
                string_push(&mut trimmed, ' ');
            }
            in_space = true;
        } else {
            string_push(&mut trimmed, c);
            in_space = false;
        }
    }
    proof {
        assert(raw@.take(raw@.len() as int) =~= raw@);
        lemma_words_nonempty(raw@);
        if words(raw@).len() > 0 {
            lemma_spaced_end(words(raw@));
        }
    }
    let n = trimmed.as_str().unicode_len();
    let tidy = if n > 0 && trimmed.as_str().get_char(n - 1) == ' ' {
        trimmed.as_str().substring_char(0, n - 1).to_owned()
    } else {
        trimmed
    };
    assert(tidy@ =~= collapsed(raw@));
    let name = clip_text(tidy.as_str(), DEVICE_NAME_MAX);
    if same_text(name.as_str(), platform_default) {
        String::new()
    } else {
        name
    }
}

} // verus!
