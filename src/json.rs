use vstd::prelude::*;

verus! {

/// serde_json's parsed JSON value.
#[verifier::external_type_specification]
#[verifier::external_body]
pub struct ExValue(serde_json::Value);

/// A parsed JSON value, as far as a graph document is read: its shape, and
/// the compact text that serde_json writes for it.
pub struct Json {
    pub shape: JsonShape,
    /// The value written back as compact JSON text.
    pub text: String,
}

/// The shapes of JSON value that a graph document tells apart.
pub enum JsonShape {
    /// An object: its members in serde_json's order, keys unescaped.
    Object(Vec<(String, Json)>),
    /// An array: its items in order.
    Array(Vec<Json>),
    /// A string, number, boolean or null.
    Scalar,
}

/// What serde_json makes of a text: the value, or nothing where the text is
/// not JSON.
pub uninterp spec fn parsed(text: Seq<char>) -> Option<Json>;

/// Relies on `serde_json::from_str` into a `serde_json::Value`.
#[verifier::external_body]
pub(crate) fn parse_json(text: &str) -> (r: Option<Json>)
    ensures
        r == parsed(text@),
{
    serde_json::from_str::<serde_json::Value>(text).ok().map(|v| json_of_value(&v))
}

/// Relies on the variants of `serde_json::Value` and on its `Display`, which
/// writes compact JSON; this changes a value's type and nothing else.
#[verifier::external_body]
fn json_of_value(v: &serde_json::Value) -> Json {
    let shape = match v {
        serde_json::Value::Object(m) => JsonShape::Object(
            m.iter().map(|(k, x)| (k.clone(), json_of_value(x))).collect(),
        ),
        serde_json::Value::Array(a) => JsonShape::Array(a.iter().map(json_of_value).collect()),
        _ => JsonShape::Scalar,
    };
    Json { shape, text: v.to_string() }
}

/// The position of the first member of `members` whose key is `key`.
pub open spec fn key_position(members: Seq<(String, Json)>, key: Seq<char>) -> Option<int>
    decreases members.len(),
{
    if members.len() == 0 {
        None
    } else {
        match key_position(members.drop_last(), key) {
            Some(i) => Some(i),
            None => if members.last().0@ == key {
                Some(members.len() - 1)
            } else {
                None
            },
        }
    }
}

/// The member of object `j` under `key`; nothing where `j` is no object or
/// has no such member.
pub open spec fn member(j: Json, key: Seq<char>) -> Option<Json> {
    match j.shape {
        JsonShape::Object(members) => match key_position(members@, key) {
            Some(i) => Some(members@[i].1),
            None => None,
        },
        _ => None,
    }
}

/// `s` with every double quote taken out.
pub open spec fn unquoted(s: Seq<char>) -> Seq<char> {
    s.filter(|c: char| c != '"')
}

proof fn lemma_key_position_found(members: Seq<(String, Json)>, key: Seq<char>, i: int)
    requires
        0 <= i < members.len(),
        members[i].0@ == key,
        forall|k: int| 0 <= k < i ==> members[k].0@ != key,
    ensures
        key_position(members, key) == Some(i),
    decreases members.len(),
{
    if i < members.len() - 1 {
        lemma_key_position_found(members.drop_last(), key, i);
    } else {
        lemma_key_position_absent(members.drop_last(), key);
    }
}

proof fn lemma_key_position_absent(members: Seq<(String, Json)>, key: Seq<char>)
    requires
        forall|k: int| 0 <= k < members.len() ==> members[k].0@ != key,
    ensures
        key_position(members, key) is None,
    decreases members.len(),
{
    if members.len() > 0 {
        lemma_key_position_absent(members.drop_last(), key);
    }
}

/// The characters of `s`, one by one.
pub fn chars_of(s: &str) -> (r: Vec<char>)
    ensures
        r@ == s@,
{
    let mut r: Vec<char> = Vec::new();
    for c in it: s.chars()
        invariant
            r@ == it.seq().take(it.index()),
    {
        r.push(c);
    }
    r
}

/// The characters of `s` without its double quotes.
pub fn unquoted_chars(s: &str) -> (r: Vec<char>)
    ensures
        r@ == unquoted(s@),
{
    let chars = chars_of(s);
    let mut r: Vec<char> = Vec::new();
    let mut i: usize = 0;
    while i < chars.len()
        invariant
            chars@ == s@,
            i <= chars.len(),
            r@ == unquoted(chars@.take(i as int)),
        decreases chars.len() - i,
    {
        let c = chars[i];
        proof {
            reveal(Seq::filter);
            let taken = chars@.take(i + 1);
            assert(taken.drop_last() =~= chars@.take(i as int));
            assert(taken.last() == c);
        }
        if c != '"' {
            r.push(c);
        }
        i += 1;
    }
    assert(chars@.take(i as int) =~= s@);
    r
}

/// Whether two character sequences are equal.
pub fn same_chars(a: &Vec<char>, b: &Vec<char>) -> (r: bool)
    ensures
        r == (a@ == b@),
{
    if a.len() != b.len() {
        return false;
    }
    let mut i: usize = 0;
    while i < a.len()
        invariant
            a.len() == b.len(),
            i <= a.len(),
            forall|k: int| 0 <= k < i ==> a@[k] == b@[k],
        decreases a.len() - i,
    {
        if a[i] != b[i] {
            return false;
        }
        i += 1;
    }
    assert(a@ =~= b@);
    true
}

/// The position of the first member of `members` whose key is `key`.
pub fn position_of(members: &Vec<(String, Json)>, key: &Vec<char>) -> (r: Option<usize>)
    ensures
        r is None <==> key_position(members@, key@) is None,
        r matches Some(i) ==> key_position(members@, key@) == Some(i as int) && i < members.len(),
{
    let mut i: usize = 0;
    while i < members.len()
        invariant
            i <= members.len(),
            forall|k: int| 0 <= k < i ==> members@[k].0@ != key@,
        decreases members.len() - i,
    {
        let name = chars_of(members[i].0.as_str());
        if same_chars(&name, key) {
            proof {
                lemma_key_position_found(members@, key@, i as int);
            }
            return Some(i);
        }
        i += 1;
    }
    proof {
        lemma_key_position_absent(members@, key@);
    }
    None
}

/// A key position is a position of that key.
pub proof fn lemma_key_position_bounds(members: Seq<(String, Json)>, key: Seq<char>)
    ensures
        match key_position(members, key) {
            Some(i) => 0 <= i < members.len() && members[i].0@ == key,
            None => true,
        },
    decreases members.len(),
{
    if members.len() > 0 {
        lemma_key_position_bounds(members.drop_last(), key);
    }
}

/// The member of object `j` under `key`; nothing where `j` is no object or
/// has no such member.
pub fn find_member<'a>(j: &'a Json, key: &str) -> (r: Option<&'a Json>)
    ensures
        match member(*j, key@) {
            Some(m) => r is Some && *r->0 == m,
            None => r is None,
        },
{
    match &j.shape {
        JsonShape::Object(members) => {
            let wanted = chars_of(key);
            proof {
                lemma_key_position_bounds(members@, key@);
            }
            match position_of(members, &wanted) {
                Some(i) => {
                    Some(&members[i].1)
                },
                None => None,
            }
        },
        _ => None,
    }
}

} // verus!
