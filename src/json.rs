//! The JSON text that packets are sent as: strings, integers, literals, and
//! comma-separated objects and arrays.
use vstd::prelude::*;

verus! {

/// The lowercase hexadecimal digit for `d` in `0..16`.
pub open spec fn lower_hex_digit(d: int) -> char {
    seq!['0', '1', '2', '3', '4', '5', '6', '7', '8', '9', 'a', 'b', 'c', 'd', 'e', 'f'][d]
}

/// How one character stands inside a JSON string: `"` and `\` behind a
/// backslash, the control characters below U+0020 by their short escape or as
/// `\u00XX`, and every other character as itself.
pub open spec fn escape_char(c: char) -> Seq<char> {
    if c == '"' {
        seq!['\\', '"']
    } else if c == '\\' {
        seq!['\\', '\\']
    } else if c == '\u{8}' {
        seq!['\\', 'b']
    } else if c == '\t' {
        seq!['\\', 't']
    } else if c == '\n' {
        seq!['\\', 'n']
    } else if c == '\u{c}' {
        seq!['\\', 'f']
    } else if c == '\r' {
        seq!['\\', 'r']
    } else if (c as int) < 0x20 {
        seq!['\\', 'u', '0', '0', lower_hex_digit((c as int) / 16), lower_hex_digit((c as int) % 16)]
    } else {
        seq![c]
    }
}

/// The characters of `s`, each escaped.
pub open spec fn escape_text(s: Seq<char>) -> Seq<char>
    decreases s.len(),
{
    if s.len() == 0 {
        seq![]
    } else {
        escape_text(s.drop_last()) + escape_char(s.last())
    }
}

/// A string that JSON holds as it is: no `"`, no `\`, no control character.
pub open spec fn is_plain(s: Seq<char>) -> bool {
    forall|i: int|
        0 <= i < s.len() ==> #[trigger] s[i] != '"' && s[i] != '\\' && (s[i] as int) >= 0x20
}

/// Escaping leaves a plain string as it is.
pub proof fn lemma_escape_plain(s: Seq<char>)
    requires
        is_plain(s),
    ensures
        escape_text(s) == s,
    decreases s.len(),
{
    if s.len() > 0 {
        lemma_escape_plain(s.drop_last());
        assert(s.drop_last().push(s.last()) =~= s);
    }
}

/// The JSON string literal that holds `s`.
pub open spec fn json_string(s: Seq<char>) -> Seq<char> {
    seq!['"'] + escape_text(s) + seq!['"']
}

/// The decimal digit for `d` in `0..10`.
pub open spec fn decimal_digit(d: int) -> char {
    seq!['0', '1', '2', '3', '4', '5', '6', '7', '8', '9'][d]
}

/// The decimal numeral of `n`, with no leading zeros.
pub open spec fn decimal_text(n: nat) -> Seq<char>
    decreases n,
{
    if n < 10 {
        seq![decimal_digit(n as int)]
    } else {
        decimal_text(n / 10) + seq![decimal_digit((n % 10) as int)]
    }
}

/// The JSON number for the integer `i`.
pub open spec fn int_text(i: int) -> Seq<char> {
    if i < 0 {
        seq!['-'] + decimal_text((-i) as nat)
    } else {
        decimal_text(i as nat)
    }
}

/// `true` or `false`.
pub open spec fn json_bool(b: bool) -> Seq<char> {
    if b {
        "true"@
    } else {
        "false"@
    }
}

/// A string, or `null` where there is none.
pub open spec fn json_opt_string(o: Option<Seq<char>>) -> Seq<char> {
    match o {
        Some(s) => json_string(s),
        None => "null"@,
    }
}

/// An integer, or `null` where there is none.
pub open spec fn json_opt_int(o: Option<i32>) -> Seq<char> {
    match o {
        Some(i) => int_text(i as int),
        None => "null"@,
    }
}

/// The parts, in order, with a comma between each two.
pub open spec fn comma_join(parts: Seq<Seq<char>>) -> Seq<char>
    decreases parts.len(),
{
    if parts.len() == 0 {
        seq![]
    } else if parts.len() == 1 {
        parts[0]
    } else {
        comma_join(parts.drop_last()) + ","@ + parts.last()
    }
}

/// One `"key":value` member of an object.
pub open spec fn json_member(key: Seq<char>, value: Seq<char>) -> Seq<char> {
    json_string(key) + ":"@ + value
}

/// The object with these members, in this order.
pub open spec fn json_object(members: Seq<Seq<char>>) -> Seq<char> {
    "{"@ + comma_join(members) + "}"@
}

/// The array with these items, in this order.
pub open spec fn json_array(items: Seq<Seq<char>>) -> Seq<char> {
    "["@ + comma_join(items) + "]"@
}

/// Relies on serde_json::to_string on a `str`: the string in double quotes,
/// `"` and `\` escaped by a backslash, the control characters below U+0020 by
/// the escape table of serde_json's serializer (`\b`, `\t`, `\n`, `\f`, `\r`,
/// else `\u00` and two lowercase hex digits), every other character kept.
/// Writing a `str` into memory does not fail.
#[verifier::external_body]
pub(crate) fn quote(s: &str) -> (r: String)
    ensures
        r@ == json_string(s@),
{
    serde_json::to_string(s).unwrap()
}

fn digit_str(d: u64) -> (r: &'static str)
    requires
        d < 10,
    ensures
        r@ == seq![decimal_digit(d as int)],
{
    proof {
        reveal_strlit("0");
        reveal_strlit("1");
        reveal_strlit("2");
        reveal_strlit("3");
        reveal_strlit("4");
        reveal_strlit("5");
        reveal_strlit("6");
        reveal_strlit("7");
        reveal_strlit("8");
        reveal_strlit("9");
    }
    let r = match d {
        0 => "0",
        1 => "1",
        2 => "2",
        3 => "3",
        4 => "4",
        5 => "5",
        6 => "6",
        7 => "7",
        8 => "8",
        _ => "9",
    };
    assert(r@ =~= seq![decimal_digit(d as int)]);
    r
}

/// The decimal numeral of `n`.
pub fn decimal_string(n: u64) -> (r: String)
    ensures
        r@ == decimal_text(n as nat),
{
    let mut s = String::from_str(digit_str(n % 10));
    let mut m: u64 = n / 10;
    while m > 0
        invariant
            decimal_text(n as nat) == (if m == 0 {
                Seq::<char>::empty()
            } else {
                decimal_text(m as nat)
            }) + s@,
        decreases m,
    {
        s = String::from_str(digit_str(m % 10)).concat(s.as_str());
        assert(decimal_text(m as nat) == (if m / 10 == 0 {
            Seq::<char>::empty()
        } else {
            decimal_text((m / 10) as nat)
        }) + seq![decimal_digit((m % 10) as int)]);
        m = m / 10;
    }
    assert(Seq::<char>::empty() + s@ =~= s@);
    s
}

/// The JSON number for `v`.
pub fn int_string(v: i32) -> (r: String)
    ensures
        r@ == int_text(v as int),
{
    if v < 0 {
        let magnitude: u64 = (-(v as i64)) as u64;
        let r = String::from_str("-").concat(decimal_string(magnitude).as_str());
        proof {
            reveal_strlit("-");
        }
        assert(r@ =~= int_text(v as int));
        r
    } else {
        decimal_string(v as u64)
    }
}

/// The inside of a JSON object or array as it is written: its parts so far,
/// separated by commas.
pub(crate) struct JsonWriter {
    text: String,
    first: bool,
    parts: Ghost<Seq<Seq<char>>>,
}

impl JsonWriter {
    /// The parts written so far.
    pub(crate) closed spec fn parts(&self) -> Seq<Seq<char>> {
        self.parts@
    }

    pub(crate) closed spec fn wf(&self) -> bool {
        &&& self.text@ == comma_join(self.parts@)
        &&& self.first == (self.parts@.len() == 0)
    }

    pub(crate) fn new() -> (w: Self)
        ensures
            w.wf(),
            w.parts() == Seq::<Seq<char>>::empty(),
    {
        JsonWriter { text: String::new(), first: true, parts: Ghost(Seq::empty()) }
    }

    /// Appends one part.
    pub(crate) fn push(&mut self, part: &str)
        requires
            old(self).wf(),
        ensures
            final(self).wf(),
            final(self).parts() == old(self).parts().push(part@),
    {
        let ghost new_parts = self.parts@.push(part@);
        assert(new_parts.drop_last() =~= self.parts@);
        if !self.first {
            self.text.append(",");
        }
        self.text.append(part);
        self.first = false;
        self.parts = Ghost(new_parts);
    }

    /// Appends the member `"key":value`.
    pub(crate) fn member(&mut self, key: &str, value: &str)
        requires
            old(self).wf(),
        ensures
            final(self).wf(),
            final(self).parts() == old(self).parts().push(json_member(key@, value@)),
    {
        let m = quote(key).concat(":").concat(value);
        assert(m@ =~= json_member(key@, value@));
        self.push(m.as_str());
    }

    /// The object whose members are the parts.
    pub(crate) fn into_object(self) -> (r: String)
        requires
            self.wf(),
        ensures
            r@ == json_object(self.parts()),
    {
        let r = String::from_str("{").concat(self.text.as_str()).concat("}");
        assert(r@ =~= json_object(self.parts()));
        r
    }

    /// The array whose items are the parts.
    pub(crate) fn into_array(self) -> (r: String)
        requires
            self.wf(),
        ensures
            r@ == json_array(self.parts()),
    {
        let r = String::from_str("[").concat(self.text.as_str()).concat("]");
        assert(r@ =~= json_array(self.parts()));
        r
    }
}

/// A string, or `null`.
pub(crate) fn opt_string_json(o: &Option<String>) -> (r: String)
    ensures
        r@ == json_opt_string(opt_view(o)),
{
    match o {
        Some(s) => quote(s.as_str()),
        None => String::from_str("null"),
    }
}

/// An integer, or `null`.
pub(crate) fn opt_int_json(o: Option<i32>) -> (r: String)
    ensures
        r@ == json_opt_int(o),
{
    match o {
        Some(i) => int_string(i),
        None => String::from_str("null"),
    }
}

/// `true` or `false`.
pub(crate) fn bool_json(b: bool) -> (r: String)
    ensures
        r@ == json_bool(b),
{
    if b {
        String::from_str("true")
    } else {
        String::from_str("false")
    }
}

/// The characters of an optional string.
pub open spec fn opt_view(o: &Option<String>) -> Option<Seq<char>> {
    match o {
        Some(s) => Some(s@),
        None => None,
    }
}

} // verus!
