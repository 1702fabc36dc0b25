//! The served routes and the response bytes, as verified byte-level logic.
//!
//! A connection handler reads one request line, picks a route from the
//! two-entry table below, and answers with a status line, a
//! `Content-Length` header and the file's contents.  Everything here is
//! computation on bytes; the reading and writing of the connection itself
//! stays outside the library.

use vstd::prelude::*;
use vstd::string::StringSliceAdditionalSpecFns;

verus! {

/// The two served routes, and the fallback for every other request line.
#[derive(Debug, Clone, Copy, PartialEq, Eq, Structural)]
pub enum Route {
    Root,
    Sleep,
    NotFound,
}

/// Whether two byte slices hold the same bytes.
pub fn bytes_eq(a: &[u8], b: &[u8]) -> (r: bool)
    ensures
        r <==> a@ == b@,
{
    if a.len() != b.len() {
        assert(a@ != b@) by {
            assert(a@.len() != b@.len());
        }
        return false;
    }
    let n = a.len();
    let mut i: usize = 0;
    while i < n
        invariant
            i <= n,
            n == a@.len(),
            n == b@.len(),
            forall|j: int| 0 <= j < i ==> a@[j] == b@[j],
        decreases n - i,
    {
        if a[i] != b[i] {
            assert(a@ != b@) by {
                assert(a@[i as int] != b@[i as int]);
            }
            return false;
        }
        i = i + 1;
    }
    assert(a@ =~= b@);
    true
}

/// The route a request line selects: the two table entries, else the fallback.
pub open spec fn spec_route(line: Seq<u8>) -> Route {
    if line == "GET / HTTP/1.1".spec_bytes() {
        Route::Root
    } else if line == "GET /sleep HTTP/1.1".spec_bytes() {
        Route::Sleep
    } else {
        Route::NotFound
    }
}

/// Picks the route for one request line.
pub fn route(line: &[u8]) -> (r: Route)
    ensures
        r == spec_route(line@),
{
    if bytes_eq(line, "GET / HTTP/1.1".as_bytes()) {
        Route::Root
    } else if bytes_eq(line, "GET /sleep HTTP/1.1".as_bytes()) {
        Route::Sleep
    } else {
        Route::NotFound
    }
}

/// The status line a route is answered with.
pub open spec fn spec_status(r: Route) -> Seq<u8> {
    match r {
        Route::Root | Route::Sleep => "HTTP/1.1 200 OK".spec_bytes(),
        Route::NotFound => "HTTP/1.1 404 Not Found".spec_bytes(),
    }
}

/// Status line for a route: both served routes answer 200, the fallback 404.
pub fn status_line(r: Route) -> (s: &'static str)
    ensures
        s.spec_bytes() == spec_status(r),
{
    match r {
        Route::Root | Route::Sleep => "HTTP/1.1 200 OK",
        Route::NotFound => "HTTP/1.1 404 Not Found",
    }
}

/// The file a route serves.
pub open spec fn spec_filename(r: Route) -> Seq<u8> {
    match r {
        Route::Root | Route::Sleep => "hello.html".spec_bytes(),
        Route::NotFound => "404.html".spec_bytes(),
    }
}

/// File name for a route: both served routes send the greeting page, the
/// fallback the error page.
pub fn filename(r: Route) -> (s: &'static str)
    ensures
        s.spec_bytes() == spec_filename(r),
{
    match r {
        Route::Root | Route::Sleep => "hello.html",
        Route::NotFound => "404.html",
    }
}

/// The decimal digits of `n`, most significant first, no sign and no
/// leading zero (a single zero digit for `n == 0`).
pub open spec fn spec_decimal(n: nat) -> Seq<u8>
    decreases n,
{
    if n < 10 {
        seq![(48 + n) as u8]
    } else {
        spec_decimal(n / 10).push((48 + n % 10) as u8)
    }
}

/// Renders `n` as its decimal digits.
pub fn decimal_digits(n: usize) -> (digits: Vec<u8>)
    ensures
        digits@ == spec_decimal(n as nat),
{
    let mut rev: Vec<u8> = Vec::new();
    let mut rest: usize = n;
    while rest >= 10
        invariant
            spec_decimal(n as nat) == spec_decimal(rest as nat) + rev@.reverse(),
        decreases rest,
    {
        let d: u8 = (rest % 10) as u8 + 48;
        let ghost rev_before = rev@;
        rev.push(d);
        proof {
            assert(rev@.reverse() =~= seq![d] + rev_before.reverse());
            assert(spec_decimal(rest as nat) == spec_decimal((rest / 10) as nat) + seq![d]) by {
                assert(spec_decimal(rest as nat) == spec_decimal((rest / 10) as nat).push(
                    (48 + rest % 10) as u8,
                ));
                assert(spec_decimal((rest / 10) as nat).push(d) =~= spec_decimal(
                    (rest / 10) as nat,
                ) + seq![d]);
            }
            assert(spec_decimal((rest / 10) as nat) + rev@.reverse() =~= (spec_decimal(
                (rest / 10) as nat,
            ) + seq![d]) + rev_before.reverse());
        }
        rest = rest / 10;
    }
    let mut digits: Vec<u8> = Vec::new();
    digits.push(rest as u8 + 48);
    proof {
        assert(digits@ =~= spec_decimal(rest as nat));
    }
    while rev.len() > 0
        invariant
            spec_decimal(n as nat) == digits@ + rev@.reverse(),
        decreases rev@.len(),
    {
        let ghost rev_before = rev@;
        let d = rev.pop().unwrap();
        proof {
            assert(rev_before.reverse() =~= seq![d] + rev@.reverse());
        }
        let ghost digits_before = digits@;
        digits.push(d);
        proof {
            assert(digits@ + rev@.reverse() =~= digits_before + rev_before.reverse());
        }
    }
    proof {
        assert(digits@ + rev@.reverse() =~= digits@);
    }
    digits
}

/// Appends every byte of `src` to `dst`, in order.
pub fn push_all(dst: &mut Vec<u8>, src: &[u8])
    ensures
        final(dst)@ == old(dst)@ + src@,
{
    let n = src.len();
    let mut i: usize = 0;
    while i < n
        invariant
            i <= n,
            n == src@.len(),
            dst@ == old(dst)@ + src@.take(i as int),
        decreases n - i,
    {
        dst.push(src[i]);
        proof {
            assert(dst@ =~= old(dst)@ + src@.take(i + 1));
        }
        i = i + 1;
    }
    proof {
        assert(dst@ =~= old(dst)@ + src@);
    }
}

/// The full response for a status line and a body: the status line, the
/// body's length announced in a `Content-Length` header, a blank line, and
/// the body itself.
pub open spec fn spec_response(status: Seq<u8>, body: Seq<u8>) -> Seq<u8> {
    status + "\r\nContent-Length: ".spec_bytes() + spec_decimal(body.len()) + "\r\n\r\n".spec_bytes()
        + body
}

/// Builds the response bytes for one answered request.
pub fn response_bytes(status: &str, body: &[u8]) -> (response: Vec<u8>)
    ensures
        response@ == spec_response(status.spec_bytes(), body@),
{
    let mut response: Vec<u8> = Vec::new();
    push_all(&mut response, status.as_bytes());
    push_all(&mut response, "\r\nContent-Length: ".as_bytes());
    let digits = decimal_digits(body.len());
    push_all(&mut response, digits.as_slice());
    push_all(&mut response, "\r\n\r\n".as_bytes());
    push_all(&mut response, body);
    proof {
        assert(response@ =~= spec_response(status.spec_bytes(), body@));
    }
    response
}

} // verus!
