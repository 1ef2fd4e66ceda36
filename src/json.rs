use vstd::prelude::*;

verus! {

/// What serde_json writes for a string: one JSON string literal, quotes and
/// escapes included.
pub uninterp spec fn json_quoted(s: Seq<char>) -> Seq<char>;

/// Relies on `serde_json::to_string` on a `str`: it writes the string as one
/// JSON string literal. Writing into its in-memory buffer cannot fail.
#[verifier::external_body]
fn quote(s: &str) -> (r: String)
    ensures
        r@ == json_quoted(s@),
{
    serde_json::to_string(s).expect("a str always serializes")
}

/// The parts, separated by commas.
pub open spec fn join(parts: Seq<Seq<char>>) -> Seq<char>
    decreases parts.len(),
{
    if parts.len() == 0 {
        Seq::empty()
    } else if parts.len() == 1 {
        parts[0]
    } else {
        join(parts.drop_last()) + seq![','] + parts.last()
    }
}

/// One `"key":value` member of an object.
pub open spec fn member_text(m: (Seq<char>, Seq<char>)) -> Seq<char> {
    json_quoted(m.0) + seq![':'] + m.1
}

/// A JSON object holding the members in order.
pub open spec fn object_text(members: Seq<(Seq<char>, Seq<char>)>) -> Seq<char> {
    seq!['{'] + join(members.map_values(|m: (Seq<char>, Seq<char>)| member_text(m))) + seq!['}']
}

/// A JSON array of strings.
pub open spec fn string_array_text(items: Seq<Seq<char>>) -> Seq<char> {
    seq!['['] + join(items.map_values(|s: Seq<char>| json_quoted(s))) + seq![']']
}

pub open spec fn digit_char(d: nat) -> char {
    seq!['0', '1', '2', '3', '4', '5', '6', '7', '8', '9'][d as int]
}

/// The decimal digits of `n`, without leading zeros.
pub open spec fn decimal(n: nat) -> Seq<char>
    decreases n,
{
    if n < 10 {
        seq![digit_char(n)]
    } else {
        decimal(n / 10) + seq![digit_char(n % 10)]
    }
}

pub open spec fn bool_text(b: bool) -> Seq<char> {
    if b {
        seq!['t', 'r', 'u', 'e']
    } else {
        seq!['f', 'a', 'l', 's', 'e']
    }
}

/// Some member of `ms` has the key `k`.
pub open spec fn has_key(ms: Seq<(Seq<char>, Seq<char>)>, k: Seq<char>) -> bool {
    exists|i: int| 0 <= i < ms.len() && (#[trigger] ms[i]).0 == k
}

pub proof fn lemma_has_key_concat(a: Seq<(Seq<char>, Seq<char>)>, b: Seq<(Seq<char>, Seq<char>)>, k: Seq<char>)
    ensures
        has_key(a + b, k) == (has_key(a, k) || has_key(b, k)),
{
    let ab = a + b;
    if has_key(ab, k) {
        let i = choose|i: int| 0 <= i < ab.len() && (#[trigger] ab[i]).0 == k;
        if i < a.len() {
            assert(a[i] == ab[i]);
        } else {
            assert(b[i - a.len()] == ab[i]);
        }
    }
    if has_key(a, k) {
        let i = choose|i: int| 0 <= i < a.len() && (#[trigger] a[i]).0 == k;
        assert(ab[i] == a[i]);
    }
    if has_key(b, k) {
        let i = choose|i: int| 0 <= i < b.len() && (#[trigger] b[i]).0 == k;
        assert(ab[i + a.len()] == b[i]);
    }
}

proof fn lemma_join_step(parts: Seq<Seq<char>>, i: int)
    requires
        0 <= i < parts.len(),
    ensures
        join(parts.take(i + 1)) == if i == 0 {
            parts[0]
        } else {
            join(parts.take(i)) + seq![','] + parts[i]
        },
{
    assert(parts.take(i + 1).drop_last() =~= parts.take(i));
    if i == 0 {
        assert(parts.take(1) =~= seq![parts[0]]);
    }
}

fn append_char_literal(out: &mut String, c: char)
    requires
        c == ',' || c == ':' || c == '{' || c == '}' || c == '[' || c == ']',
    ensures
        final(out)@ == old(out)@ + seq![c],
{
    let lit: &str = if c == ',' {
        proof { reveal_strlit(","); }
        ","
    } else if c == ':' {
        proof { reveal_strlit(":"); }
        ":"
    } else if c == '{' {
        proof { reveal_strlit("{"); }
        "{"
    } else if c == '}' {
        proof { reveal_strlit("}"); }
        "}"
    } else if c == '[' {
        proof { reveal_strlit("["); }
        "["
    } else {
        proof { reveal_strlit("]"); }
        "]"
    };
    assert(lit@ =~= seq![c]);
    out.append(lit);
}

fn digit_str(d: u32) -> (r: &'static str)
    requires
        d < 10,
    ensures
        r@ == seq![digit_char(d as nat)],
{
    proof {
        reveal_strlit("0");
        reveal_strlit("1");
        reveal_strlit("2");
        reveal_strlit("3");
        reveal_strlit("4");
        reveal_strlit("5");
        reveal_strlit("6");
        reveal_strlit("7");
        reveal_strlit("8");
        reveal_strlit("9");
    }
    let r = match d {
        0 => "0",
        1 => "1",
        2 => "2",
        3 => "3",
        4 => "4",
        5 => "5",
        6 => "6",
        7 => "7",
        8 => "8",
        _ => "9",
    };
    assert(r@ =~= seq![digit_char(d as nat)]);
    r
}

/// Appends the decimal digits of `n`.
pub fn append_decimal(out: &mut String, n: u32)
    ensures
        final(out)@ == old(out)@ + decimal(n as nat),
    decreases n,
{
    if n >= 10 {
        append_decimal(out, n / 10);
    }
    out.append(digit_str(n % 10));
    assert(final(out)@ =~= old(out)@ + decimal(n as nat));
}

/// The decimal text of `n`.
pub fn decimal_string(n: u32) -> (r: String)
    ensures
        r@ == decimal(n as nat),
{
    let mut out = String::new();
    append_decimal(&mut out, n);
    assert(out@ =~= decimal(n as nat));
    out
}

/// One member of an object: its key and the JSON text of its value.
pub struct JsonMember {
    key: String,
    value: String,
}

/// A JSON object under construction. Each value is written by this type, so
/// every member holds well-formed JSON text.
pub struct JsonObject {
    members: Vec<JsonMember>,
}

impl View for JsonObject {
    type V = Seq<(Seq<char>, Seq<char>)>;

    closed spec fn view(&self) -> Seq<(Seq<char>, Seq<char>)> {
        self.members@.map_values(|m: JsonMember| (m.key@, m.value@))
    }
}

impl JsonObject {
    /// An object with no members.
    pub fn new() -> (r: JsonObject)
        ensures
            r@ == Seq::<(Seq<char>, Seq<char>)>::empty(),
    {
        let r = JsonObject { members: Vec::new() };
        assert(r@ =~= Seq::<(Seq<char>, Seq<char>)>::empty());
        r
    }

    fn push_raw(&mut self, key: &str, value: String)
        ensures
            final(self)@ == old(self)@.push((key@, value@)),
    {
        let k = String::from_str(key);
        self.members.push(JsonMember { key: k, value });
        assert(final(self)@ =~= old(self)@.push((key@, value@)));
    }

    /// Adds a member whose value is the string `value`.
    pub fn push_str(&mut self, key: &str, value: &str)
        ensures
            final(self)@ == old(self)@.push((key@, json_quoted(value@))),
    {
        let v = quote(value);
        self.push_raw(key, v);
    }

    /// Adds a member whose value is the number `value`.
    pub fn push_u32(&mut self, key: &str, value: u32)
        ensures
            final(self)@ == old(self)@.push((key@, decimal(value as nat))),
    {
        let v = decimal_string(value);
        self.push_raw(key, v);
    }

    /// Adds a member whose value is `true` or `false`.
    pub fn push_bool(&mut self, key: &str, value: bool)
        ensures
            final(self)@ == old(self)@.push((key@, bool_text(value))),
    {
        let lit: &str = if value {
            proof { reveal_strlit("true"); }
            "true"
        } else {
            proof { reveal_strlit("false"); }
            "false"
        };
        assert(lit@ =~= bool_text(value));
        let v = String::from_str(lit);
        self.push_raw(key, v);
    }

    /// Adds a member whose value is an array of the strings `items`.
    pub fn push_str_array(&mut self, key: &str, items: &Vec<String>)
        ensures
            final(self)@ == old(self)@.push(
                (key@, string_array_text(items@.map_values(|s: String| s@))),
            ),
    {
        let ghost views = items@.map_values(|s: String| s@);
        let ghost parts = views.map_values(|s: Seq<char>| json_quoted(s));
        let mut out = String::new();
        append_char_literal(&mut out, '[');
        let mut i: usize = 0;
        while i < items.len()
            invariant
                i <= items.len(),
                views == items@.map_values(|s: String| s@),
                parts == views.map_values(|s: Seq<char>| json_quoted(s)),
                out@ == seq!['['] + join(parts.take(i as int)),
            decreases items.len() - i,
        {
            proof { lemma_join_step(parts, i as int); }
            if i > 0 {
                append_char_literal(&mut out, ',');
            }
            let q = quote(items[i].as_str());
            out.append(q.as_str());
            assert(out@ =~= seq!['['] + join(parts.take(i + 1)));
            i = i + 1;
        }
        append_char_literal(&mut out, ']');
        assert(parts.take(i as int) =~= parts);
        assert(out@ =~= string_array_text(views));
        self.push_raw(key, out);
    }

    /// Appends the members of `other`, in order, after those of `self`.
    pub fn extend(&mut self, other: JsonObject)
        ensures
            final(self)@ == old(self)@ + other@,
    {
        let ghost added = other@;
        let mut other = other;
        self.members.append(&mut other.members);
        assert(final(self)@ =~= old(self)@ + added);
    }

    /// The JSON text of the object.
    pub fn to_json(&self) -> (r: String)
        ensures
            r@ == object_text(self@),
    {
        let ghost parts = self@.map_values(|m: (Seq<char>, Seq<char>)| member_text(m));
        let mut out = String::new();
        append_char_literal(&mut out, '{');
        let mut i: usize = 0;
        while i < self.members.len()
            invariant
                i <= self.members.len(),
                parts == self@.map_values(|m: (Seq<char>, Seq<char>)| member_text(m)),
                out@ == seq!['{'] + join(parts.take(i as int)),
            decreases self.members.len() - i,
        {
            proof { lemma_join_step(parts, i as int); }
            if i > 0 {
                append_char_literal(&mut out, ',');
            }
            let k = quote(self.members[i].key.as_str());
            out.append(k.as_str());
            append_char_literal(&mut out, ':');
            out.append(self.members[i].value.as_str());
            assert(out@ =~= seq!['{'] + join(parts.take(i + 1)));
            i = i + 1;
        }
        append_char_literal(&mut out, '}');
        assert(parts.take(i as int) =~= parts);
        assert(out@ =~= object_text(self@));
        out
    }
}

} // verus!
