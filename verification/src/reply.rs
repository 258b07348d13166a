//! Refusals, and their JSON text.
use vstd::prelude::*;
use vstd::string::StringExecFns;

verus! {

/// The hexadecimal digit of a number below sixteen.
pub open spec fn hex_digit(n: int) -> char {
    if n < 10 {
        ('0' as int + n) as char
    } else {
        ('a' as int + n - 10) as char
    }
}

/// A character as it stands inside a JSON string.
pub open spec fn json_char(c: char) -> Seq<char> {
    if c == '"' {
        seq!['\\', '"']
    } else if c == '\\' {
        seq!['\\', '\\']
    } else if c == '\u{8}' {
        seq!['\\', 'b']
    } else if c == '\t' {
        seq!['\\', 't']
    } else if c == '\n' {
        seq!['\\', 'n']
    } else if c == '\u{c}' {
        seq!['\\', 'f']
    } else if c == '\r' {
        seq!['\\', 'r']
    } else if (c as int) < 0x20 {
        seq!['\\', 'u', '0', '0', hex_digit(c as int / 16), hex_digit(c as int % 16)]
    } else {
        seq![c]
    }
}

/// The characters of `s` as they stand inside a JSON string.
pub open spec fn json_chars(s: Seq<char>) -> Seq<char>
    decreases s.len(),
{
    if s.len() == 0 {
        seq![]
    } else {
        json_char(s[0]) + json_chars(s.drop_first())
    }
}

/// `s` as a JSON string.
pub open spec fn json_string(s: Seq<char>) -> Seq<char> {
    seq!['"'] + json_chars(s) + seq!['"']
}

/// A JSON object of two fields that hold strings.
pub open spec fn json_object(k1: Seq<char>, v1: Seq<char>, k2: Seq<char>, v2: Seq<char>) -> Seq<
    char,
> {
    seq!['{'] + json_string(k1) + seq![':'] + json_string(v1) + seq![','] + json_string(k2) + seq![
        ':',
    ] + json_string(v2) + seq!['}']
}

/// `serde_json::Value::to_string` on an object of two fields that hold strings:
/// the compact JSON text, with the fields in the order of their keys.
#[verifier::external_body]
fn json_object_text(k1: &str, v1: &str, k2: &str, v2: &str) -> (text: String)
    requires
        k1@.len() > 0,
        k2@.len() > 0,
        (k1@[0] as int) < (k2@[0] as int),
    ensures
        text@ == json_object(k1@, v1@, k2@, v2@),
{
    let mut fields = serde_json::Map::new();
    fields.insert(k1.to_string(), serde_json::Value::from(v1));
    fields.insert(k2.to_string(), serde_json::Value::from(v2));
    serde_json::Value::Object(fields).to_string()
}

/// What a client is told when a request is refused or fails.
#[derive(Debug)]
pub struct ErrorReply {
    pub error: String,
    pub reason: String,
}

impl ErrorReply {
    /// The reply says `error` and, for its reason, `reason`.
    pub open spec fn says(self, error: Seq<char>, reason: Seq<char>) -> bool {
        self.error@ == error && self.reason@ == reason
    }

    /// The reply to a request that is refused.
    pub fn bad_request(reason: String) -> (reply: ErrorReply)
        ensures
            reply.says("bad request"@, reason@),
    {
        ErrorReply { error: "bad request".to_owned(), reason }
    }

    /// The reply to a request for a subscription that there is already.
    pub fn already_subscribed() -> (reply: ErrorReply)
        ensures
            reply.says("bad request"@, "subscription already exists"@),
    {
        ErrorReply::bad_request("subscription already exists".to_owned())
    }

    /// The message that there is no order book to be had of `symbol`.
    pub fn no_order_book(symbol: &String, reason: String) -> (reply: ErrorReply)
        ensures
            reply.says("couldn't subscribe to "@ + symbol@ + " orderbook"@, reason@),
    {
        let mut error = "couldn't subscribe to ".to_owned();
        error.append(symbol.as_str());
        error.append(" orderbook");
        ErrorReply { error, reason }
    }

    /// The reply as JSON text.
    pub fn to_json(&self) -> (text: String)
        ensures
            text@ == json_object("error"@, self.error@, "reason"@, self.reason@),
    {
        proof {
            reveal_strlit("error");
            reveal_strlit("reason");
        }
        json_object_text("error", self.error.as_str(), "reason", self.reason.as_str())
    }
}

/// A JSON string can be read back: where two of them begin texts that are
/// equal, they hold the same characters, and what follows them is equal too.
proof fn lemma_json_chars_read_back(
    a: Seq<char>,
    b: Seq<char>,
    rest_a: Seq<char>,
    rest_b: Seq<char>,
)
    requires
        json_chars(a) + seq!['"'] + rest_a == json_chars(b) + seq!['"'] + rest_b,
    ensures
        a == b,
        rest_a == rest_b,
    decreases a.len(),
{
    let text_a = json_chars(a) + seq!['"'] + rest_a;
    let text_b = json_chars(b) + seq!['"'] + rest_b;
    if a.len() > 0 && b.len() > 0 {
        let tail_a = json_chars(a.drop_first()) + seq!['"'] + rest_a;
        let tail_b = json_chars(b.drop_first()) + seq!['"'] + rest_b;
        assert(text_a =~= json_char(a[0]) + tail_a);
        assert(text_b =~= json_char(b[0]) + tail_b);
        lemma_json_char_reads_back(a[0], b[0], tail_a, tail_b);
        lemma_json_chars_read_back(a.drop_first(), b.drop_first(), rest_a, rest_b);
        assert(a =~= seq![a[0]] + a.drop_first());
        assert(b =~= seq![b[0]] + b.drop_first());
    } else if a.len() > 0 {
        assert(text_a[0] == json_char(a[0])[0]);
        assert(text_b[0] == '"');
    } else if b.len() > 0 {
        assert(text_b[0] == json_char(b[0])[0]);
        assert(text_a[0] == '"');
    } else {
        assert(text_a =~= seq!['"'] + rest_a);
        assert(text_b =~= seq!['"'] + rest_b);
        assert(rest_a =~= text_a.drop_first());
        assert(rest_b =~= text_b.drop_first());
        assert(a =~= b);
    }
}

/// A character inside a JSON string can be read back.
proof fn lemma_json_char_reads_back(a: char, b: char, rest_a: Seq<char>, rest_b: Seq<char>)
    requires
        json_char(a) + rest_a == json_char(b) + rest_b,
    ensures
        a == b,
        rest_a == rest_b,
{
    let text_a = json_char(a) + rest_a;
    let text_b = json_char(b) + rest_b;
    assert(text_a[0] == json_char(a)[0] && text_b[0] == json_char(b)[0]);
    if json_char(a).len() > 1 && json_char(b).len() > 1 {
        assert(text_a[1] == json_char(a)[1] && text_b[1] == json_char(b)[1]);
        if json_char(a).len() > 2 && json_char(b).len() > 2 {
            assert(text_a[4] == json_char(a)[4] && text_b[4] == json_char(b)[4]);
            assert(text_a[5] == json_char(a)[5] && text_b[5] == json_char(b)[5]);
            lemma_hex_digit_reads_back(a as int / 16, b as int / 16);
            lemma_hex_digit_reads_back(a as int % 16, b as int % 16);
        }
    }
    assert(a == b);
    assert(rest_a =~= text_a.skip(json_char(a).len() as int));
    assert(rest_b =~= text_b.skip(json_char(b).len() as int));
}

/// No two numbers below sixteen share a digit.
proof fn lemma_hex_digit_reads_back(m: int, n: int)
    requires
        0 <= m < 16,
        0 <= n < 16,
        hex_digit(m) == hex_digit(n),
    ensures
        m == n,
{
    assert(hex_digit(m) as int == hex_digit(n) as int);
}

/// What a client is told can be read back from its text: replies that differ
/// have texts that differ.
pub proof fn reply_reads_back(a: ErrorReply, b: ErrorReply)
    requires
        json_object("error"@, a.error@, "reason"@, a.reason@) == json_object(
            "error"@,
            b.error@,
            "reason"@,
            b.reason@,
        ),
    ensures
        a.error@ == b.error@,
        a.reason@ == b.reason@,
{
    let head = seq!['{'] + json_string("error"@) + seq![':'] + seq!['"'];
    let middle = seq![','] + json_string("reason"@) + seq![':'] + seq!['"'];
    let end_a = json_chars(a.reason@) + seq!['"'] + seq!['}'];
    let end_b = json_chars(b.reason@) + seq!['"'] + seq!['}'];
    let tail_a = json_chars(a.error@) + seq!['"'] + (middle + end_a);
    let tail_b = json_chars(b.error@) + seq!['"'] + (middle + end_b);
    let text_a = json_object("error"@, a.error@, "reason"@, a.reason@);
    let text_b = json_object("error"@, b.error@, "reason"@, b.reason@);
    assert(text_a =~= head + tail_a);
    assert(text_b =~= head + tail_b);
    assert(tail_a =~= text_a.skip(head.len() as int));
    assert(tail_b =~= text_b.skip(head.len() as int));
    lemma_json_chars_read_back(a.error@, b.error@, middle + end_a, middle + end_b);
    assert(end_a =~= (middle + end_a).skip(middle.len() as int));
    assert(end_b =~= (middle + end_b).skip(middle.len() as int));
    lemma_json_chars_read_back(a.reason@, b.reason@, seq!['}'], seq!['}']);
}

/// Characters that need no escape stand in a JSON string as they are.
proof fn lemma_plain_chars_stand(s: Seq<char>)
    requires
        forall|i: int|
            0 <= i < s.len() ==> (#[trigger] s[i]) != '"' && s[i] != '\\' && s[i] as int >= 0x20,
    ensures
        json_chars(s) == s,
    decreases s.len(),
{
    if s.len() > 0 {
        let rest = s.drop_first();
        assert forall|i: int| 0 <= i < rest.len() implies (#[trigger] rest[i]) != '"' && rest[i]
            != '\\' && rest[i] as int >= 0x20 by {
            assert(rest[i] == s[i + 1]);
        }
        lemma_plain_chars_stand(rest);
        assert(json_char(s[0]) =~= seq![s[0]]);
        assert(seq![s[0]] + rest =~= s);
    } else {
        assert(json_chars(s) =~= s);
    }
}

/// What a client is told of an error, and its reason, stand in the text as they
/// are where no character of them is a quote, a backslash or a control character.
pub proof fn plain_reply_stands_in_its_text(error: Seq<char>, reason: Seq<char>)
    requires
        forall|i: int|
            0 <= i < error.len() ==> (#[trigger] error[i]) != '"' && error[i] != '\\'
                && error[i] as int >= 0x20,
        forall|i: int|
            0 <= i < reason.len() ==> (#[trigger] reason[i]) != '"' && reason[i] != '\\'
                && reason[i] as int >= 0x20,
    ensures
        json_object("error"@, error, "reason"@, reason) == "{\"error\":\""@ + error
            + "\",\"reason\":\""@ + reason + "\"}"@,
{
    reveal_strlit("error");
    reveal_strlit("reason");
    reveal_strlit("{\"error\":\"");
    reveal_strlit("\",\"reason\":\"");
    reveal_strlit("\"}");
    lemma_plain_chars_stand(error);
    lemma_plain_chars_stand(reason);
    lemma_plain_chars_stand("error"@);
    lemma_plain_chars_stand("reason"@);
    assert(json_object("error"@, error, "reason"@, reason) =~= "{\"error\":\""@ + error
        + "\",\"reason\":\""@ + reason + "\"}"@);
}

/// No control character stands in the text of a reply.
pub proof fn reply_text_has_no_control_characters(error: Seq<char>, reason: Seq<char>, i: int)
    requires
        0 <= i < json_object("error"@, error, "reason"@, reason).len(),
    ensures
        json_object("error"@, error, "reason"@, reason)[i] as int >= 0x20,
{
    lemma_no_control_characters("error"@);
    lemma_no_control_characters(error);
    lemma_no_control_characters("reason"@);
    lemma_no_control_characters(reason);
}

/// No control character stands inside a JSON string.
proof fn lemma_no_control_characters(s: Seq<char>)
    ensures
        forall|i: int|
            0 <= i < json_chars(s).len() ==> (#[trigger] json_chars(s)[i]) as int >= 0x20,
    decreases s.len(),
{
    if s.len() > 0 {
        let first = json_char(s[0]);
        let rest = json_chars(s.drop_first());
        lemma_no_control_characters(s.drop_first());
        assert forall|i: int| 0 <= i < json_chars(s).len() implies (
        #[trigger] json_chars(s)[i]) as int >= 0x20 by {
            if i < first.len() {
                lemma_json_char_is_printed(s[0], i);
                assert(json_chars(s)[i] == first[i]);
            } else {
                assert(json_chars(s)[i] == rest[i - first.len()]);
            }
        }
    }
}

/// A character is written in a JSON string without control characters.
proof fn lemma_json_char_is_printed(c: char, i: int)
    requires
        0 <= i < json_char(c).len(),
    ensures
        json_char(c)[i] as int >= 0x20,
{
    if (c as int) < 0x20 {
        lemma_hex_digit_is_printed(c as int / 16);
        lemma_hex_digit_is_printed(c as int % 16);
    }
}

/// A hexadecimal digit is no control character.
proof fn lemma_hex_digit_is_printed(n: int)
    requires
        0 <= n < 16,
    ensures
        hex_digit(n) as int >= 0x20,
{
    assert('0' as int == 48 && 'a' as int == 97);
}

/// A reply says one error and one reason.
pub proof fn reply_says_what_it_holds(
    reply: ErrorReply,
    error: Seq<char>,
    reason: Seq<char>,
)
    ensures
        reply.says(error, reason) <==> reply.error@ == error && reply.reason@ == reason,
{
}

} // verus!
