use crate::decimal::{decimal, push_decimal};
use vstd::prelude::*;
use vstd::string::*;

verus! {

/// The page that answers a request.
#[derive(Clone, Copy, Debug, PartialEq, Eq, Structural)]
pub enum Page {
    /// The front page.
    Hello,
    /// The page that says that nothing was found.
    NotFound,
}

/// The first bytes of a request for the front page: `GET / HTTP/1.1`, then
/// carriage return and line feed.
pub open spec fn front_page_request() -> Seq<u8> {
    seq![71u8, 69, 84, 32, 47, 32, 72, 84, 84, 80, 47, 49, 46, 49, 13, 10]
}

/// Whether `request` begins with the bytes of `prefix`.
pub open spec fn starts_with(request: Seq<u8>, prefix: Seq<u8>) -> bool {
    prefix.len() <= request.len() && request.subrange(0, prefix.len() as int) == prefix
}

/// The page that answers `request`: the front page for a request that begins
/// with its request line, the other page for anything else.
pub open spec fn page_for(request: Seq<u8>) -> Page {
    if starts_with(request, front_page_request()) {
        Page::Hello
    } else {
        Page::NotFound
    }
}

/// The status line of the answer that serves `page`.
pub open spec fn status_line_of(page: Page) -> Seq<char> {
    match page {
        Page::Hello => "HTTP/1.1 200 OK"@,
        Page::NotFound => "HTTP/1.1 404 NOT FOUND"@,
    }
}

/// The name of the file that holds `page`.
pub open spec fn filename_of(page: Page) -> Seq<char> {
    match page {
        Page::Hello => "hello.html"@,
        Page::NotFound => "404.html"@,
    }
}

/// An answer: the status line, the length of the body in bytes, an empty
/// line and the body, with carriage return and line feed at each line's end.
pub open spec fn response_of(status_line: Seq<char>, length: nat, body: Seq<char>) -> Seq<char> {
    status_line + "\r\nContent-Length: "@ + decimal(length) + "\r\n\r\n"@ + body
}

/// Decides which page answers the request whose first bytes are `request`.
pub fn route(request: &[u8]) -> (page: Page)
    ensures
        page == page_for(request@),
{
    let line: [u8; 16] = [71, 69, 84, 32, 47, 32, 72, 84, 84, 80, 47, 49, 46, 49, 13, 10];
    assert(line@ =~= front_page_request());
    if request.len() < 16 {
        return Page::NotFound;
    }
    let mut i: usize = 0;
    while i < 16
        invariant
            i <= 16,
            request@.len() >= 16,
            line@ == front_page_request(),
            forall|k: int| 0 <= k < i ==> request@[k] == line@[k],
        decreases 16 - i,
    {
        if request[i] != line[i] {
            assert(request@.subrange(0, 16)[i as int] != front_page_request()[i as int]);
            return Page::NotFound;
        }
        i = i + 1;
    }
    assert(request@.subrange(0, 16) =~= front_page_request());
    Page::Hello
}

impl Page {
    /// The status line of the answer that serves this page.
    pub fn status_line(&self) -> (line: &'static str)
        ensures
            line@ == status_line_of(*self),
    {
        match self {
            Page::Hello => "HTTP/1.1 200 OK",
            Page::NotFound => "HTTP/1.1 404 NOT FOUND",
        }
    }

    /// The name of the file that holds this page.
    pub fn filename(&self) -> (name: &'static str)
        ensures
            name@ == filename_of(*self),
    {
        match self {
            Page::Hello => "hello.html",
            Page::NotFound => "404.html",
        }
    }
}

/// Puts an answer together from its status line and its body.
pub fn response(status_line: &str, contents: &str) -> (text: String)
    ensures
        text@ == response_of(status_line@, contents.spec_bytes().len(), contents@),
{
    let mut text = String::from_str(status_line);
    text.append("\r\nContent-Length: ");
    push_decimal(&mut text, contents.as_bytes().len() as u64);
    text.append("\r\n\r\n");
    text.append(contents);
    assert(text@ =~= response_of(status_line@, contents.spec_bytes().len(), contents@));
    text
}

} // verus!
