use vstd::prelude::*;
use vstd::string::StringExecFns;
use crate::text::str_equals;
use crate::guessing_game::{all_digits, digits_value, is_digit, numeral_value};

verus! {

/// How the server answers one request: which page to send, with which
/// status line, after waiting how many seconds.
pub struct Route {
    pub file_path: &'static str,
    pub status_line: &'static str,
    pub delay_secs: u64,
}

/// Chooses the answer to a request from its first line: `GET /` gets the
/// index page at once, `GET /sleep` gets it after five seconds, anything else
/// gets the not-found page.
pub fn route(request_line: &str) -> (r: Route)
    ensures
        request_line@ == "GET / HTTP/1.1"@ ==> r.file_path@ == "index.html"@ && r.status_line@
            == "HTTP/1.1 200 OK"@ && r.delay_secs == 0,
        request_line@ == "GET /sleep HTTP/1.1"@ ==> r.file_path@ == "index.html"@
            && r.status_line@ == "HTTP/1.1 200 OK"@ && r.delay_secs == 5,
        request_line@ != "GET / HTTP/1.1"@ && request_line@ != "GET /sleep HTTP/1.1"@
            ==> r.file_path@ == "404.html"@ && r.status_line@ == "HTTP/1.1 404 NOT FOUND"@
            && r.delay_secs == 0,
{
    proof {
        reveal_strlit("GET / HTTP/1.1");
        reveal_strlit("GET /sleep HTTP/1.1");
        assert("GET / HTTP/1.1"@.len() != "GET /sleep HTTP/1.1"@.len());
    }
    if str_equals(request_line, "GET / HTTP/1.1") {
        Route { file_path: "index.html", status_line: "HTTP/1.1 200 OK", delay_secs: 0 }
    } else if str_equals(request_line, "GET /sleep HTTP/1.1") {
        Route { file_path: "index.html", status_line: "HTTP/1.1 200 OK", delay_secs: 5 }
    } else {
        Route { file_path: "404.html", status_line: "HTTP/1.1 404 NOT FOUND", delay_secs: 0 }
    }
}

/// The character of the decimal digit `d`.
pub open spec fn digit_char(d: nat) -> char {
    if d == 0 {
        '0'
    } else if d == 1 {
        '1'
    } else if d == 2 {
        '2'
    } else if d == 3 {
        '3'
    } else if d == 4 {
        '4'
    } else if d == 5 {
        '5'
    } else if d == 6 {
        '6'
    } else if d == 7 {
        '7'
    } else if d == 8 {
        '8'
    } else {
        '9'
    }
}

/// The decimal numeral of `n`, without leading zeros (`0` for zero).
pub open spec fn decimal(n: nat) -> Seq<char>
    decreases n,
{
    if n < 10 {
        seq![digit_char(n)]
    } else {
        decimal(n / 10).push(digit_char(n % 10))
    }
}

/// The one-character string of the digit `d`.
fn digit_str(d: usize) -> (s: &'static str)
    requires
        d < 10,
    ensures
        s@ == seq![digit_char(d as nat)],
{
    proof {
        reveal_strlit("0");
        reveal_strlit("1");
        reveal_strlit("2");
        reveal_strlit("3");
        reveal_strlit("4");
        reveal_strlit("5");
        reveal_strlit("6");
        reveal_strlit("7");
        reveal_strlit("8");
        reveal_strlit("9");
    }
    if d == 0 {
        "0"
    } else if d == 1 {
        "1"
    } else if d == 2 {
        "2"
    } else if d == 3 {
        "3"
    } else if d == 4 {
        "4"
    } else if d == 5 {
        "5"
    } else if d == 6 {
        "6"
    } else if d == 7 {
        "7"
    } else if d == 8 {
        "8"
    } else {
        "9"
    }
}

/// Appends the decimal numeral of `n` to `out`.
pub fn append_decimal(out: &mut String, n: usize)
    ensures
        final(out)@ == old(out)@ + decimal(n as nat),
    decreases n,
{
    if n >= 10 {
        append_decimal(out, n / 10);
    }
    out.append(digit_str(n % 10));
    proof {
        if n >= 10 {
            assert(decimal(n as nat) == decimal((n / 10) as nat).push(digit_char((n % 10) as nat)));
        }
    }
}

/// The digit character of `d` stands for `d`.
proof fn lemma_digit_char_value(d: nat)
    requires
        d < 10,
    ensures
        is_digit(digit_char(d)),
        digit_char(d) as int - '0' as int == d,
{
}

/// The decimal numeral of `n` is a run of digits that reads back as `n`; so
/// the `Content-Length` header written by `response` reads back, as a `u32`
/// numeral, as the length it states whenever that length fits in a `u32`.
pub proof fn lemma_decimal_reads_back(n: nat)
    ensures
        all_digits(decimal(n)),
        digits_value(decimal(n)) == n,
        n <= u32::MAX ==> numeral_value(decimal(n)) == Some(n as u32),
    decreases n,
{
    if n < 10 {
        lemma_digit_char_value(n);
        assert(decimal(n).drop_last() =~= Seq::<char>::empty());
        assert(digits_value(decimal(n)) == digits_value(Seq::<char>::empty()) * 10 + (digit_char(n) as int - '0' as int));
    } else {
        lemma_decimal_reads_back(n / 10);
        lemma_digit_char_value(n % 10);
        assert(decimal(n).drop_last() =~= decimal(n / 10));
        assert(decimal(n).last() == digit_char(n % 10));
        assert(digits_value(decimal(n)) == digits_value(decimal(n / 10)) * 10 + (digit_char(n % 10) as int - '0' as int));
        assert((n / 10) * 10 + n % 10 == n) by (nonlinear_arith);
        assert forall|i: int| 0 <= i < decimal(n).len() implies is_digit(#[trigger] decimal(n)[i]) by {
            if i < decimal(n / 10).len() {
                assert(decimal(n)[i] == decimal(n / 10)[i]);
            }
        }
    }
    assert(decimal(n)[0] != '+') by {
        assert(is_digit(decimal(n)[0]));
    }
}

/// The HTTP response carrying `contents`: the status line, a
/// `Content-Length` header giving the length of `contents` in bytes, an empty
/// line, then `contents`; lines end in CR LF.
pub fn response(status_line: &str, contents: &str) -> (r: String)
    ensures
        r@ == status_line@ + "\r\n"@ + "Content-Length: "@ + decimal(contents.len() as nat)
            + "\r\n"@ + "\r\n"@ + contents@,
{
    let length = contents.len();
    let mut r = String::new();
    r.append(status_line);
    r.append("\r\n");
    r.append("Content-Length: ");
    append_decimal(&mut r, length);
    r.append("\r\n");
    r.append("\r\n");
    r.append(contents);
    r
}

} // verus!
