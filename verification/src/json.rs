//! JSON objects of `serde_json`, as far as the settings code reads and fills
//! them: what an object holds, its text forms and the reading of a text.
use crate::text;
use vstd::prelude::*;

verus! {

#[verifier::external_type_specification]
#[verifier::external_body]
pub struct ExJsonValue(serde_json::Value);

#[verifier::external_type_specification]
#[verifier::external_body]
#[verifier::reject_recursive_types(K)]
#[verifier::reject_recursive_types(V)]
pub struct ExJsonMap<K, V>(serde_json::Map<K, V>);

/// A JSON object: `serde_json::Map`.
pub type JsonObject = serde_json::Map<String, serde_json::Value>;

/// A value to put into an object.
pub enum JsonScalar {
    Text(String),
    Flag(bool),
    Int(i32),
    /// A number given by its decimal text; what no finite double denotes is
    /// stored as `null`.
    Real(String),
    List(Vec<String>),
}

/// What an object holds under one key.
pub enum Member {
    Null,
    Text(Seq<char>),
    Flag(bool),
    /// A number that an `i64` holds.
    Int(i64),
    /// A whole number above those.
    Wide(u64),
    /// Any other number; its double stands in [`json_reals`].
    Real,
    /// An array of texts only.
    List(Seq<Seq<char>>),
    /// Any other array, or an object.
    Other,
}

/// The members of an object by key.
pub uninterp spec fn json_members(o: serde_json::Map<String, serde_json::Value>) -> Map<
    Seq<char>,
    Member,
>;

/// For each key whose member is a number, the bit pattern of that number as
/// an IEEE 754 double.
pub uninterp spec fn json_reals(o: serde_json::Map<String, serde_json::Value>) -> Map<
    Seq<char>,
    u64,
>;

/// The bit pattern of the finite double that a decimal text denotes; none
/// where the text denotes no number or no finite one.
pub uninterp spec fn parsed_real(text: Seq<char>) -> Option<u64>;

/// What a text holds as a JSON object: its members and its numbers, or none
/// where the text is not JSON or not an object.
pub uninterp spec fn json_object(text: Seq<char>) -> Option<
    (Map<Seq<char>, Member>, Map<Seq<char>, u64>),
>;

/// The text of an object on one line, from its members and [`fractions`].
pub uninterp spec fn json_compact(
    members: Map<Seq<char>, Member>,
    fractions: Map<Seq<char>, u64>,
) -> Seq<char>;

/// The text of an object over indented lines, from its members and
/// [`fractions`].
pub uninterp spec fn json_pretty(
    members: Map<Seq<char>, Member>,
    fractions: Map<Seq<char>, u64>,
) -> Seq<char>;

/// The numbers that are no whole ones: the double of each [`Member::Real`].
#[verifier::opaque]
pub open spec fn fractions(members: Map<Seq<char>, Member>, reals: Map<Seq<char>, u64>) -> Map<
    Seq<char>,
    u64,
> {
    Map::new(
        |k: Seq<char>| members.contains_key(k) && members[k] is Real && reals.contains_key(k),
        |k: Seq<char>| reals[k],
    )
}

/// The decimal text of a value given by one, and no text for any other.
pub open spec fn decimal_text(value: JsonScalar) -> Seq<char> {
    match value {
        JsonScalar::Real(t) => t@,
        _ => Seq::empty(),
    }
}

/// The member that a value becomes, `denoted` being what its decimal text
/// denotes.
pub open spec fn stored(value: JsonScalar, denoted: Option<u64>) -> Member {
    match value {
        JsonScalar::Text(s) => Member::Text(s@),
        JsonScalar::Flag(b) => Member::Flag(b),
        JsonScalar::Int(n) => Member::Int(n as i64),
        JsonScalar::Real(_) => if denoted is Some {
            Member::Real
        } else {
            Member::Null
        },
        JsonScalar::List(l) => Member::List(text::texts(l@)),
    }
}

/// The numbers of an object after `value` was put under `key`, `denoted` being
/// what its decimal text denotes. Of an `Int` only that a double stands
/// there: which one is left unsaid.
pub open spec fn reals_after(
    before: Map<Seq<char>, u64>,
    after: Map<Seq<char>, u64>,
    key: Seq<char>,
    value: JsonScalar,
    denoted: Option<u64>,
) -> bool {
    match value {
        JsonScalar::Real(_) => match denoted {
            Some(bits) => after == before.insert(key, bits),
            None => after == before.remove(key),
        },
        JsonScalar::Int(_) => after.contains_key(key) && after.remove(key) == before.remove(key),
        _ => after == before.remove(key),
    }
}

/// An object without members.
pub open spec fn no_members() -> Map<Seq<char>, Member> {
    Map::empty()
}

/// An object without numbers.
pub open spec fn no_reals() -> Map<Seq<char>, u64> {
    Map::empty()
}

/// Whether a document is an object with exactly these members.
pub open spec fn reads_back(
    document: Option<(Map<Seq<char>, Member>, Map<Seq<char>, u64>)>,
    members: Map<Seq<char>, Member>,
) -> bool {
    match document {
        Some(d) => d.0 == members,
        None => false,
    }
}

/// Whether the object's text is settled by its members and fractions: nothing
/// in it is nested deeper than a list of texts.
#[verifier::opaque]
pub open spec fn is_flat(members: Map<Seq<char>, Member>) -> bool {
    forall|k: Seq<char>| #[trigger] members.contains_key(k) ==> members[k] !is Other
}

/// Whether every fraction is non-negative and below two to the power of
/// 1023, half the range of a double.
pub open spec fn in_range(fractions: Map<Seq<char>, u64>) -> bool {
    forall|k: Seq<char>| #[trigger]
        fractions.contains_key(k) ==> fractions[k] < 0x7FE0_0000_0000_0000
}

/// The fractions of an object that has none but, where there is one, `number`
/// under `key`.
pub open spec fn only_fraction(key: Seq<char>, number: Option<u64>) -> Map<Seq<char>, u64> {
    match number {
        Some(bits) => no_reals().insert(key, bits),
        None => no_reals(),
    }
}

/// `serde_json::Map::new`: an object without members.
#[verifier::external_body]
pub(crate) fn object_new() -> (o: JsonObject)
    ensures
        json_members(o) == no_members(),
        json_reals(o) == no_reals(),
{
    serde_json::Map::new()
}

/// `serde_json::Map::insert`: afterwards the object holds `value` under
/// `key`, in place of what stood there, and all else as before.
///
/// A decimal text goes through `str::parse` and `Number::from_f64`, which
/// gives no number for an infinite or undefined one; such a value is stored
/// as `null`.
#[verifier::external_body]
pub(crate) fn object_put(o: &mut JsonObject, key: &str, value: JsonScalar)
    ensures
        json_members(*final(o)) == json_members(*old(o)).insert(
            key@,
            stored(value, parsed_real(decimal_text(value))),
        ),
        reals_after(
            json_reals(*old(o)),
            json_reals(*final(o)),
            key@,
            value,
            parsed_real(decimal_text(value)),
        ),
{
    let v = match value {
        JsonScalar::Text(s) => serde_json::Value::String(s),
        JsonScalar::Flag(b) => serde_json::Value::Bool(b),
        JsonScalar::Int(n) => serde_json::Value::from(n),
        JsonScalar::Real(t) => t.parse().ok().and_then(serde_json::Number::from_f64).map_or(
            serde_json::Value::Null,
            serde_json::Value::Number,
        ),
        JsonScalar::List(l) => serde_json::Value::Array(
            l.into_iter().map(serde_json::Value::String).collect(),
        ),
    };
    o.insert(key.to_string(), v);
}

/// `serde_json::Map::get` with `Value::as_str`: the text under `key`, where
/// the member there is a text.
#[verifier::external_body]
pub(crate) fn text_member(o: &JsonObject, key: &str) -> (r: Option<String>)
    ensures
        (match r {
            Some(s) => Some(s@),
            None => None,
        }) == text_at(json_members(*o), key@),
{
    o.get(key).and_then(|v| v.as_str()).map(|s| s.to_string())
}

/// `serde_json::Map::get` with `Value::as_bool`: the flag under `key`, where
/// the member there is one.
#[verifier::external_body]
pub(crate) fn flag_member(o: &JsonObject, key: &str) -> (r: Option<bool>)
    ensures
        r == flag_at(json_members(*o), key@),
{
    o.get(key).and_then(|v| v.as_bool())
}

/// `serde_json::Map::get` with `Value::as_i64`: the number under `key`,
/// where the member there is one that an `i64` holds.
#[verifier::external_body]
pub(crate) fn int_member(o: &JsonObject, key: &str) -> (r: Option<i64>)
    ensures
        r == int_at(json_members(*o), key@),
{
    o.get(key).and_then(|v| v.as_i64())
}

/// `serde_json::Map::get` with `Value::as_f64`: the bit pattern of the
/// number under `key`, there exactly where the member is a number.
#[verifier::external_body]
pub(crate) fn real_member(o: &JsonObject, key: &str) -> (r: Option<u64>)
    ensures
        r == real_at(json_reals(*o), key@),
        r is Some == number_at(json_members(*o), key@),
{
    o.get(key).and_then(|v| v.as_f64()).map(|x| x.to_bits())
}

/// `serde_json::from_str` into a value, of which only an object is kept.
#[verifier::external_body]
pub(crate) fn parse_object(text: &str) -> (r: Option<JsonObject>)
    ensures
        (match r {
            Some(o) => Some((json_members(o), json_reals(o))),
            None => None,
        }) == json_object(text@),
{
    match serde_json::from_str(text) {
        Ok(serde_json::Value::Object(o)) => Some(o),
        _ => None,
    }
}

/// `serde_json::to_string`. A map with text keys always has a text form, and
/// its keys come in their order, so the form depends on what the object holds
/// alone. Reading that form back gives the same members; of the fractions
/// nothing is claimed, since the parser need not give back the very same
/// double.
#[verifier::external_body]
pub(crate) fn object_compact(o: &JsonObject) -> (r: String)
    requires
        is_flat(json_members(*o)),
    ensures
        r@ == json_compact(json_members(*o), fractions(json_members(*o), json_reals(*o))),
        in_range(fractions(json_members(*o), json_reals(*o))) ==> reads_back(
            json_object(r@),
            json_members(*o),
        ),
{
    serde_json::to_string(o).unwrap_or_default()
}

/// `serde_json::to_string_pretty`, with the same reading back as
/// [`object_compact`], also where a newline follows: `from_str` skips the
/// blanks after the value.
#[verifier::external_body]
pub(crate) fn object_pretty(o: &JsonObject) -> (r: String)
    requires
        is_flat(json_members(*o)),
    ensures
        r@ == json_pretty(json_members(*o), fractions(json_members(*o), json_reals(*o))),
        in_range(fractions(json_members(*o), json_reals(*o))) ==> reads_back(
            json_object(r@),
            json_members(*o),
        ) && reads_back(json_object(r@.push('\n')), json_members(*o)),
{
    serde_json::to_string_pretty(o).unwrap_or_default()
}

/// The text under a key, where the member there is a text.
pub open spec fn text_at(m: Map<Seq<char>, Member>, key: Seq<char>) -> Option<Seq<char>> {
    if m.contains_key(key) {
        match m[key] {
            Member::Text(s) => Some(s),
            _ => None,
        }
    } else {
        None
    }
}

/// The flag under a key, where the member there is a flag.
pub open spec fn flag_at(m: Map<Seq<char>, Member>, key: Seq<char>) -> Option<bool> {
    if m.contains_key(key) {
        match m[key] {
            Member::Flag(b) => Some(b),
            _ => None,
        }
    } else {
        None
    }
}

/// The integer under a key, where the member there is one.
pub open spec fn int_at(m: Map<Seq<char>, Member>, key: Seq<char>) -> Option<i64> {
    if m.contains_key(key) {
        match m[key] {
            Member::Int(n) => Some(n),
            _ => None,
        }
    } else {
        None
    }
}

/// Whether a number stands under a key.
pub open spec fn number_at(m: Map<Seq<char>, Member>, key: Seq<char>) -> bool {
    m.contains_key(key) && match m[key] {
        Member::Int(_) => true,
        Member::Wide(_) => true,
        Member::Real => true,
        _ => false,
    }
}

/// The double under a key, where a number stands there.
pub open spec fn real_at(reals: Map<Seq<char>, u64>, key: Seq<char>) -> Option<u64> {
    if reals.contains_key(key) {
        Some(reals[key])
    } else {
        None
    }
}

} // verus!
