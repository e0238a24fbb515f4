//! The one decision a connection handler makes: which page answers a
//! request, and how the answer is put together.

use vstd::prelude::*;

verus! {

/// The bytes of the request line `GET / HTTP/1.1`, carriage return and line
/// feed included.
pub open spec fn root_request_line() -> Seq<u8> {
    seq![
        0x47u8, 0x45u8, 0x54u8, 0x20u8,
        0x2fu8, 0x20u8,
        0x48u8, 0x54u8, 0x54u8, 0x50u8, 0x2fu8, 0x31u8, 0x2eu8, 0x31u8,
        0x0du8, 0x0au8,
    ]
}

/// Whether `request` begins with the request line for the root page.
pub open spec fn asks_for_root(request: Seq<u8>) -> bool {
    root_request_line().is_prefix_of(request)
}

/// The status line of a response and the name of the file that holds its
/// body.
pub struct Reply {
    pub status_line: &'static str,
    pub filename: &'static str,
}

/// Chooses the reply to `request`: the greeting page for a request that
/// begins with `GET / HTTP/1.1`, the not-found page for every other one.
pub fn route(request: &[u8]) -> (reply: Reply)
    ensures
        asks_for_root(request@) ==> reply.status_line@ == "HTTP/1.1 200 OK\r\n\r\n"@
            && reply.filename@ == "hello.html"@,
        !asks_for_root(request@) ==> reply.status_line@ == "HTTP/1.1 404 NOT FOUND\r\n\r\n"@
            && reply.filename@ == "404.html"@,
{
    let line: [u8; 16] = [
        0x47, 0x45, 0x54, 0x20,
        0x2f, 0x20,
        0x48, 0x54, 0x54, 0x50, 0x2f, 0x31, 0x2e, 0x31,
        0x0d, 0x0a,
    ];
    let mut same = request.len() >= line.len();
    let mut i: usize = 0;
    while i < line.len()
        invariant
            i <= line@.len(),
            line@ == root_request_line(),
            same ==> request@.len() >= line@.len(),
            same ==> forall|j: int| 0 <= j < i ==> request@[j] == line@[j],
            !same ==> !asks_for_root(request@),
        decreases line@.len() - i,
    {
        if same && request[i] != line[i] {
            same = false;
        }
        i = i + 1;
    }
    if same {
        Reply { status_line: "HTTP/1.1 200 OK\r\n\r\n", filename: "hello.html" }
    } else {
        Reply { status_line: "HTTP/1.1 404 NOT FOUND\r\n\r\n", filename: "404.html" }
    }
}

/// The text of a response: the status line, then the body.
pub fn response(status_line: &str, contents: &str) -> (text: String)
    ensures
        text@ == status_line@ + contents@,
{
    String::from_str(status_line).concat(contents)
}

} // verus!
