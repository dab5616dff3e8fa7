use vstd::prelude::*;

verus! {

/// The recipient when none is given.
pub open spec fn default_recipient() -> Seq<char> {
    "noreply@example.org"@
}

/// How one character of a mail body is written.
pub open spec fn escape_char(c: char) -> Seq<char> {
    if c == '%' {
        "%25"@
    } else if c == '"' {
        "%22"@
    } else if c == '&' {
        "%26"@
    } else if c == '?' {
        "%3F"@
    } else {
        seq![c]
    }
}

/// A mail body with `%`, `"`, `&` and `?` percent-encoded.
pub open spec fn escape_body(s: Seq<char>) -> Seq<char>
    decreases s.len(),
{
    if s.len() == 0 {
        Seq::empty()
    } else {
        escape_body(s.drop_last()) + escape_char(s.last())
    }
}

/// The argument that opens a new mail: `<recipient>?subject=<subject>&body=<body>`.
pub open spec fn mail_argument(recipient: Seq<char>, subject: Seq<char>, body: Seq<char>) -> Seq<char> {
    recipient + "?subject="@ + subject + "&body="@ + escape_body(body)
}

/// Percent-encodes the characters of a mail body that would end it early.
pub fn escape_mail_body(body: &str) -> (r: String)
    ensures
        r@ == escape_body(body@),
{
    proof {
        reveal_strlit("%25");
        reveal_strlit("%22");
        reveal_strlit("%26");
        reveal_strlit("%3F");
    }
    let n = body.unicode_len();
    let mut r = String::new();
    let mut i: usize = 0;
    while i < n
        invariant
            n == body@.len(),
            i <= n,
            r@ == escape_body(body@.subrange(0, i as int)),
        decreases n - i,
    {
        let c = body.get_char(i);
        if c == '%' {
            r.append("%25");
        } else if c == '"' {
            r.append("%22");
        } else if c == '&' {
            r.append("%26");
        } else if c == '?' {
            r.append("%3F");
        } else {
            r.append(body.substring_char(i, i + 1));
        }
        proof {
            let s = body@.subrange(0, i + 1);
            assert(s.drop_last() =~= body@.subrange(0, i as int));
            assert(s.last() == c);
            if c != '%' && c != '"' && c != '&' && c != '?' {
                assert(body@.subrange(i as int, i + 1) =~= seq![c]);
            }
        }
        i = i + 1;
    }
    proof {
        assert(body@.subrange(0, n as int) =~= body@);
    }
    r
}

/// The argument that opens a new mail to `recipient` (a fixed no-reply
/// address when absent) with the given subject and body.
pub fn mail_arguments(recipient: Option<String>, subject: &str, message: &str) -> (r: String)
    ensures
        r@ == mail_argument(
            match recipient {
                Some(t) => t@,
                None => default_recipient(),
            },
            subject@,
            message@,
        ),
{
    let mut r = match recipient {
        Some(t) => t,
        None => String::from_str("noreply@example.org"),
    };
    r.append("?subject=");
    r.append(subject);
    r.append("&body=");
    let body = escape_mail_body(message);
    r.append(body.as_str());
    proof {
        reveal_strlit("noreply@example.org");
        reveal_strlit("?subject=");
        reveal_strlit("&body=");
    }
    r
}

} // verus!
