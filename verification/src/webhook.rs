use vstd::prelude::*;
use vstd::string::{StrSliceExecFns, StringExecFns};
use crate::report::Report;

verus! {

/// The hexadecimal digit for a value below sixteen, lower case.
pub open spec fn spec_hex_digit(n: int) -> char {
    if n == 0 {
        '0'
    } else if n == 1 {
        '1'
    } else if n == 2 {
        '2'
    } else if n == 3 {
        '3'
    } else if n == 4 {
        '4'
    } else if n == 5 {
        '5'
    } else if n == 6 {
        '6'
    } else if n == 7 {
        '7'
    } else if n == 8 {
        '8'
    } else if n == 9 {
        '9'
    } else if n == 10 {
        'a'
    } else if n == 11 {
        'b'
    } else if n == 12 {
        'c'
    } else if n == 13 {
        'd'
    } else if n == 14 {
        'e'
    } else {
        'f'
    }
}

/// How one character appears inside a JSON string: quote and backslash
/// get a backslash escape, the named control characters their short
/// escapes, the remaining control characters a `\u00..` escape, and
/// every other character stands as itself.
pub open spec fn json_escaped_char(c: char) -> Seq<char> {
    if c == '"' {
        seq!['\\', '"']
    } else if c == '\\' {
        seq!['\\', '\\']
    } else if c == '\u{0008}' {
        seq!['\\', 'b']
    } else if c == '\u{000c}' {
        seq!['\\', 'f']
    } else if c == '\n' {
        seq!['\\', 'n']
    } else if c == '\r' {
        seq!['\\', 'r']
    } else if c == '\t' {
        seq!['\\', 't']
    } else if (c as u32) < 32 {
        seq!['\\', 'u', '0', '0', spec_hex_digit(((c as u32) / 16) as int), spec_hex_digit(
            ((c as u32) % 16) as int,
        )]
    } else {
        seq![c]
    }
}

/// A text escaped for splicing between quotes in a JSON document,
/// character by character.
pub open spec fn json_escaped(s: Seq<char>) -> Seq<char>
    decreases s.len(),
{
    if s.len() == 0 {
        Seq::empty()
    } else {
        json_escaped_char(s[0]) + json_escaped(s.drop_first())
    }
}

proof fn lemma_escaped_push(t: Seq<char>, x: char)
    ensures
        json_escaped(t.push(x)) == json_escaped(t) + json_escaped_char(x),
    decreases t.len(),
{
    if t.len() == 0 {
        assert(t.push(x)[0] == x);
        assert(t.push(x).drop_first() =~= Seq::<char>::empty());
        assert(t =~= Seq::<char>::empty());
        assert(json_escaped(Seq::<char>::empty()) == Seq::<char>::empty());
        assert(json_escaped(t.push(x)) =~= json_escaped(t) + json_escaped_char(x));
    } else {
        assert(t.push(x)[0] == t[0]);
        assert(t.push(x).drop_first() =~= t.drop_first().push(x));
        lemma_escaped_push(t.drop_first(), x);
        assert(json_escaped(t.push(x)) =~= json_escaped(t) + json_escaped_char(x));
    }
}

/// A run of characters that stand as themselves passes through the
/// escape unchanged.
proof fn lemma_escaped_run(s: Seq<char>, a: int, b: int)
    requires
        0 <= a <= b <= s.len(),
        forall|j: int| a <= j < b ==> json_escaped_char(s[j]) == seq![s[j]],
    ensures
        json_escaped(s.take(b)) == json_escaped(s.take(a)) + s.subrange(a, b),
    decreases b - a,
{
    if a == b {
        assert(json_escaped(s.take(a)) + s.subrange(a, b) =~= json_escaped(s.take(b)));
    } else {
        lemma_escaped_run(s, a, b - 1);
        assert(s.take(b) =~= s.take(b - 1).push(s[b - 1]));
        lemma_escaped_push(s.take(b - 1), s[b - 1]);
        assert(json_escaped_char(s[b - 1]) == seq![s[b - 1]]);
        assert(s.subrange(a, b - 1) + seq![s[b - 1]] =~= s.subrange(a, b));
        assert(json_escaped(s.take(b)) =~= json_escaped(s.take(a)) + s.subrange(a, b));
    }
}

fn hex_digit_str(n: u32) -> (r: &'static str)
    requires
        n < 16,
    ensures
        r@ == seq![spec_hex_digit(n as int)],
{
    if n == 0 {
        proof {
            reveal_strlit("0");
            assert("0"@ =~= seq![spec_hex_digit(0)]);
        }
        "0"
    } else if n == 1 {
        proof {
            reveal_strlit("1");
            assert("1"@ =~= seq![spec_hex_digit(1)]);
        }
        "1"
    } else if n == 2 {
        proof {
            reveal_strlit("2");
            assert("2"@ =~= seq![spec_hex_digit(2)]);
        }
        "2"
    } else if n == 3 {
        proof {
            reveal_strlit("3");
            assert("3"@ =~= seq![spec_hex_digit(3)]);
        }
        "3"
    } else if n == 4 {
        proof {
            reveal_strlit("4");
            assert("4"@ =~= seq![spec_hex_digit(4)]);
        }
        "4"
    } else if n == 5 {
        proof {
            reveal_strlit("5");
            assert("5"@ =~= seq![spec_hex_digit(5)]);
        }
        "5"
    } else if n == 6 {
        proof {
            reveal_strlit("6");
            assert("6"@ =~= seq![spec_hex_digit(6)]);
        }
        "6"
    } else if n == 7 {
        proof {
            reveal_strlit("7");
            assert("7"@ =~= seq![spec_hex_digit(7)]);
        }
        "7"
    } else if n == 8 {
        proof {
            reveal_strlit("8");
            assert("8"@ =~= seq![spec_hex_digit(8)]);
        }
        "8"
    } else if n == 9 {
        proof {
            reveal_strlit("9");
            assert("9"@ =~= seq![spec_hex_digit(9)]);
        }
        "9"
    } else if n == 10 {
        proof {
            reveal_strlit("a");
            assert("a"@ =~= seq![spec_hex_digit(10)]);
        }
        "a"
    } else if n == 11 {
        proof {
            reveal_strlit("b");
            assert("b"@ =~= seq![spec_hex_digit(11)]);
        }
        "b"
    } else if n == 12 {
        proof {
            reveal_strlit("c");
            assert("c"@ =~= seq![spec_hex_digit(12)]);
        }
        "c"
    } else if n == 13 {
        proof {
            reveal_strlit("d");
            assert("d"@ =~= seq![spec_hex_digit(13)]);
        }
        "d"
    } else if n == 14 {
        proof {
            reveal_strlit("e");
            assert("e"@ =~= seq![spec_hex_digit(14)]);
        }
        "e"
    } else {
        proof {
            reveal_strlit("f");
            assert("f"@ =~= seq![spec_hex_digit(15)]);
        }
        "f"
    }
}

/// Escape a text for splicing between quotes in a JSON document.
#[verifier::loop_isolation(false)]
pub fn json_escape(s: &str) -> (r: String)
    ensures
        r@ == json_escaped(s@),
{
    let n: usize = s.unicode_len();
    let mut r = String::new();
    let mut start: usize = 0;
    let mut i: usize = 0;
    proof {
        assert(s@.take(0) =~= Seq::<char>::empty());
    }
    while i < n
        invariant
            start <= i <= n,
            n == s@.len(),
            r@ == json_escaped(s@.take(start as int)),
            forall|j: int| start <= j < i ==> json_escaped_char(s@[j]) == seq![s@[j]],
        decreases n - i,
    {
        let c = s.get_char(i);
        let escaped = c == '"' || c == '\\' || (c as u32) < 32;
        if escaped {
            r.append(s.substring_char(start, i));
            proof {
                lemma_escaped_run(s@, start as int, i as int);
            }
            if c == '"' {
                r.append("\\\"");
                proof {
                    reveal_strlit("\\\"");
                    assert("\\\""@ =~= json_escaped_char(c));
                }
            } else if c == '\\' {
                r.append("\\\\");
                proof {
                    reveal_strlit("\\\\");
                    assert("\\\\"@ =~= json_escaped_char(c));
                }
            } else if c == '\u{0008}' {
                r.append("\\b");
                proof {
                    reveal_strlit("\\b");
                    assert("\\b"@ =~= json_escaped_char(c));
                }
            } else if c == '\u{000c}' {
                r.append("\\f");
                proof {
                    reveal_strlit("\\f");
                    assert("\\f"@ =~= json_escaped_char(c));
                }
            } else if c == '\n' {
                r.append("\\n");
                proof {
                    reveal_strlit("\\n");
                    assert("\\n"@ =~= json_escaped_char(c));
                }
            } else if c == '\r' {
                r.append("\\r");
                proof {
                    reveal_strlit("\\r");
                    assert("\\r"@ =~= json_escaped_char(c));
                }
            } else if c == '\t' {
                r.append("\\t");
                proof {
                    reveal_strlit("\\t");
                    assert("\\t"@ =~= json_escaped_char(c));
                }
            } else {
                let code = c as u32;
                r.append("\\u00");
                r.append(hex_digit_str(code / 16));
                r.append(hex_digit_str(code % 16));
                proof {
                    reveal_strlit("\\u00");
                    assert("\\u00"@ + seq![spec_hex_digit((code / 16) as int)] + seq![
                        spec_hex_digit((code % 16) as int),
                    ] =~= json_escaped_char(c));
                }
            }
            proof {
                assert(s@.take(i as int + 1) =~= s@.take(i as int).push(s@[i as int]));
                lemma_escaped_push(s@.take(i as int), s@[i as int]);
                assert(r@ =~= json_escaped(s@.take(i as int + 1)));
            }
            start = i + 1;
        }
        i += 1;
    }
    r.append(s.substring_char(start, n));
    proof {
        lemma_escaped_run(s@, start as int, n as int);
        assert(s@.take(n as int) =~= s@);
    }
    r
}

/// The notification payload sent to the webhook: one content string and
/// a single embed whose title is the report category, whose description
/// is the report comment, and whose two inline fields carry the
/// reporting and reported account display names. Each of the five texts
/// is spliced in JSON-escaped, so the payload is a JSON object carrying
/// them verbatim.
pub open spec fn spec_payload(
    content: Seq<char>,
    title: Seq<char>,
    comment: Seq<char>,
    author: Seq<char>,
    target: Seq<char>,
) -> Seq<char> {
    "{\"content\": \""@ + json_escaped(content) + "\", \"embeds\": [{\"title\": \""@
        + json_escaped(title) + "\", \"description\": \""@ + json_escaped(comment)
        + "\", \"color\": 16711680, \"fields\": [{\"name\": \"auteur\", \"value\": \""@
        + json_escaped(author) + "\", \"inline\": true}, {\"name\": \"target\", \"value\": \""@
        + json_escaped(target) + "\", \"inline\": true}]}], \"attachments\": []}"@
}

/// Build the JSON notification payload from its five text parts.
pub fn webhook_payload(
    content: &str,
    title: &str,
    comment: &str,
    author: &str,
    target: &str,
) -> (r: String)
    ensures
        r@ == spec_payload(content@, title@, comment@, author@, target@),
{
    let mut r = String::new();
    r.append("{\"content\": \"");
    r.append(json_escape(content).as_str());
    r.append("\", \"embeds\": [{\"title\": \"");
    r.append(json_escape(title).as_str());
    r.append("\", \"description\": \"");
    r.append(json_escape(comment).as_str());
    r.append("\", \"color\": 16711680, \"fields\": [{\"name\": \"auteur\", \"value\": \"");
    r.append(json_escape(author).as_str());
    r.append("\", \"inline\": true}, {\"name\": \"target\", \"value\": \"");
    r.append(json_escape(target).as_str());
    r.append("\", \"inline\": true}]}], \"attachments\": []}");
    proof {
        assert(r@ =~= spec_payload(content@, title@, comment@, author@, target@));
    }
    r
}

/// The notification for a triggering report: the embed is filled from
/// the report's category and comment and the display forms of the
/// reporting and reported accounts.
pub fn report_notification(content: &str, report: &Report) -> (r: String)
    ensures
        r@ == spec_payload(
            content@,
            report.category@,
            report.comment@,
            report.account.display(),
            report.target_account.display(),
        ),
{
    let author = report.account.format_username();
    let target = report.target_account.format_username();
    webhook_payload(
        content,
        report.category.as_str(),
        report.comment.as_str(),
        author.as_str(),
        target.as_str(),
    )
}

} // verus!
