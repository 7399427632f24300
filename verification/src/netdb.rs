//! The name server of the resolver configuration.
use vstd::prelude::*;
use vstd::utf8::{decode_utf8, valid_utf8};

verus! {

/// The keyword that a name server line starts with, and the blank after it.
pub open spec fn keyword() -> Seq<u8> {
    seq![110u8, 97u8, 109u8, 101u8, 115u8, 101u8, 114u8, 118u8, 101u8, 114u8, 32u8]
}

/// The byte that ends a line.
pub open spec fn newline() -> u8 {
    10u8
}

/// A line starts at `at`: at the first byte, or after a newline.
pub open spec fn line_start(conf: Seq<u8>, at: int) -> bool {
    0 <= at < conf.len() && (at == 0 || conf[at - 1] == newline())
}

/// The line that starts at `at` names a server: it starts with the keyword.
pub open spec fn names_server(conf: Seq<u8>, at: int) -> bool {
    line_start(conf, at) && at + keyword().len() <= conf.len() && conf.subrange(
        at,
        at + keyword().len(),
    ) == keyword()
}

/// Where the line that holds the byte at `from` ends: at the next newline, or
/// where the text ends.
pub open spec fn line_end(conf: Seq<u8>, from: int) -> int
    decreases conf.len() - from,
{
    if from < 0 || from >= conf.len() || conf[from] == newline() {
        from
    } else {
        line_end(conf, from + 1)
    }
}

/// What follows the keyword on the line that starts at `at`, up to the end of
/// the line.
pub open spec fn server_bytes(conf: Seq<u8>, at: int) -> Seq<u8> {
    conf.subrange(at + keyword().len(), line_end(conf, at + keyword().len()))
}

/// The text that the bytes encode in UTF-8, or no text where they encode none.
pub open spec fn text_of(bytes: Seq<u8>) -> Seq<char> {
    if valid_utf8(bytes) {
        decode_utf8(bytes)
    } else {
        Seq::empty()
    }
}

/// `String::from_utf8`: the string whose UTF-8 encoding the bytes are, if they
/// are the encoding of one.
#[verifier::external_body]
fn string_from_utf8(bytes: Vec<u8>) -> (text: Option<String>)
    ensures
        text is Some <==> valid_utf8(bytes@),
        text matches Some(string) ==> string@ == decode_utf8(bytes@),
{
    match String::from_utf8(bytes) {
        Ok(string) => Some(string),
        Err(_) => None,
    }
}

/// Gives the keyword, byte by byte.
fn keyword_bytes() -> (word: [u8; 11])
    ensures
        word@ == keyword(),
{
    let word: [u8; 11] = [110, 97, 109, 101, 115, 101, 114, 118, 101, 114, 32];
    assert(word@ =~= keyword());
    word
}

/// Tells whether the keyword stands at `at`.
fn keyword_at(conf: &[u8], at: usize) -> (found: bool)
    requires
        at <= conf@.len(),
    ensures
        found == (at + keyword().len() <= conf@.len() && conf@.subrange(
            at as int,
            at + keyword().len(),
        ) == keyword()),
{
    let word: [u8; 11] = keyword_bytes();
    if conf.len() - at < 11 {
        return false;
    }
    let mut k: usize = 0;
    while k < 11
        invariant
            k <= 11,
            at + 11 <= conf@.len() <= usize::MAX,
            word@ == keyword(),
            forall|m: int| 0 <= m < k ==> conf@[at + m] == keyword()[m],
        decreases 11 - k,
    {
        if conf[at + k] != word[k] {
            proof {
                let part: Seq<u8> = conf@.subrange(at as int, at + 11);
                assert(part[k as int] == conf@[at + k]);
            }
            return false;
        }
        k += 1;
    }
    assert(conf@.subrange(at as int, at + 11) =~= keyword());
    true
}

/// The line starts with the keyword.
pub open spec fn starts_with_keyword(line: Seq<u8>) -> bool {
    keyword().len() <= line.len() && line.subrange(0, keyword().len() as int) == keyword()
}

/// Tells what server one line of a resolver configuration names, for a reader
/// that takes the text line by line. The line is given without the newline that
/// ends it. A line that starts with the keyword names what follows the keyword,
/// as text if it is UTF-8 and as no text if it is not; any other line names
/// nothing.
pub fn server_of_line(line: &[u8]) -> (server: Option<String>)
    ensures
        server is Some <==> starts_with_keyword(line@),
        server matches Some(name) ==> name@ == text_of(
            line@.subrange(keyword().len() as int, line@.len() as int),
        ),
{
    if !keyword_at(line, 0) {
        return None;
    }
    let mut rest: Vec<u8> = Vec::new();
    let mut k: usize = 11;
    while k < line.len()
        invariant
            11 <= k <= line@.len(),
            rest@ == line@.subrange(11, k as int),
        decreases line@.len() - k,
    {
        rest.push(line[k]);
        assert(rest@ =~= line@.subrange(11, k + 1));
        k += 1;
    }
    match string_from_utf8(rest) {
        Some(text) => Some(text),
        None => Some(String::new()),
    }
}

/// A stretch without a newline that ends at a newline, or where the text ends,
/// is the rest of its line.
proof fn lemma_line_end(conf: Seq<u8>, from: int, end: int)
    requires
        0 <= from <= end <= conf.len(),
        forall|m: int| from <= m < end ==> conf[m] != newline(),
        end == conf.len() || conf[end] == newline(),
    ensures
        line_end(conf, from) == end,
    decreases end - from,
{
    if from < end {
        lemma_line_end(conf, from + 1, end);
    }
}

/// The line that holds the byte at `at`, from `at` on and without the newline
/// that ends it.
pub open spec fn line_from(conf: Seq<u8>, at: int) -> Seq<u8> {
    conf.subrange(at, line_end(conf, at))
}

/// A line ends at or after the place it is looked for from, holds no newline
/// up to there, and ends at a newline or where the text ends.
pub proof fn lemma_line_end_is_first(conf: Seq<u8>, from: int)
    requires
        0 <= from <= conf.len(),
    ensures
        from <= line_end(conf, from) <= conf.len(),
        forall|i: int| from <= i < line_end(conf, from) ==> conf[i] != newline(),
        line_end(conf, from) < conf.len() ==> conf[line_end(conf, from)] == newline(),
    decreases conf.len() - from,
{
    if from < conf.len() && conf[from] != newline() {
        lemma_line_end_is_first(conf, from + 1);
    }
}

/// Reading line by line finds what reading the whole text finds: a line of the
/// text names a server exactly where the line, taken alone, starts with the
/// keyword, and what follows the keyword is the same either way.
pub proof fn lemma_line_by_line(conf: Seq<u8>, at: int)
    requires
        line_start(conf, at),
    ensures
        names_server(conf, at) <==> starts_with_keyword(line_from(conf, at)),
        names_server(conf, at) ==> server_bytes(conf, at) == line_from(conf, at).subrange(
            keyword().len() as int,
            line_from(conf, at).len() as int,
        ),
{
    lemma_line_end_is_first(conf, at);
    let end: int = line_end(conf, at);
    let line: Seq<u8> = line_from(conf, at);
    if names_server(conf, at) {
        if end < at + 11 {
            let part: Seq<u8> = conf.subrange(at, at + 11);
            assert(part[end - at] == conf[end]);
            assert(keyword()[end - at] != newline());
        }
        assert(line.subrange(0, 11) =~= conf.subrange(at, at + 11));
        lemma_line_end(conf, at + 11, end);
        assert(server_bytes(conf, at) =~= line.subrange(11, line.len() as int));
    }
    if starts_with_keyword(line) {
        assert(conf.subrange(at, at + 11) =~= line.subrange(0, 11));
    }
}

/// Finds the name server in the text of a resolver configuration.
///
/// The lines of the text are ended by newlines. The first line that starts with
/// the keyword `nameserver` and a blank decides: what follows on that line is
/// the server, as text if it is UTF-8 and as no text if it is not. Where no
/// line starts so, there is no server and the result is empty.
pub fn get_dns_server(conf: &[u8]) -> (server: String)
    ensures
        forall|at: int|
            #[trigger] names_server(conf@, at) && (forall|before: int|
                0 <= before < at ==> !names_server(conf@, before)) ==> server@ == text_of(
                server_bytes(conf@, at),
            ),
        (forall|at: int| !names_server(conf@, at)) ==> server@ == Seq::<char>::empty(),
{
    let mut start: usize = 0;
    while start < conf.len()
        invariant
            start == 0 || start >= conf@.len() || conf@[start - 1] == newline(),
            forall|before: int| 0 <= before < start ==> !names_server(conf@, before),
        decreases conf@.len() - start,
    {
        let mut end: usize = start;
        while end < conf.len() && conf[end] != 10
            invariant
                start <= end <= conf@.len(),
                forall|m: int| start <= m < end ==> conf@[m] != newline(),
            decreases conf@.len() - end,
        {
            end += 1;
        }
        if keyword_at(conf, start) {
            assert(names_server(conf@, start as int));
            assert(end >= start + 11) by {
                if end < start + 11 {
                    let part: Seq<u8> = conf@.subrange(start as int, start + 11);
                    assert(part[end - start] == conf@[end as int]);
                    assert(keyword()[end - start] != newline());
                }
            }
            let mut rest: Vec<u8> = Vec::new();
            let mut k: usize = start + 11;
            while k < end
                invariant
                    start + 11 <= k <= end <= conf@.len(),
                    rest@ == conf@.subrange(start + 11, k as int),
                decreases end - k,
            {
                rest.push(conf[k]);
                assert(rest@ =~= conf@.subrange(start + 11, k + 1));
                k += 1;
            }
            proof {
                lemma_line_end(conf@, start + 11, end as int);
                assert(rest@ == server_bytes(conf@, start as int));
            }
            let server: String = match string_from_utf8(rest) {
                Some(text) => text,
                None => String::new(),
            };
            assert forall|at: int|
                #[trigger] names_server(conf@, at) && (forall|before: int|
                    0 <= before < at ==> !names_server(conf@, before)) implies server@ == text_of(
                server_bytes(conf@, at),
            ) by {
                if at < start {
                    assert(!names_server(conf@, at));
                } else if at > start {
                    assert(!names_server(conf@, start as int));
                }
            }
            return server;
        }
        proof {
            assert forall|before: int| start <= before <= end implies !names_server(
                conf@,
                before,
            ) by {
                if before > start {
                    assert(conf@[before - 1] != newline());
                }
            }
        }
        if end == conf.len() {
            start = end;
        } else {
            start = end + 1;
        }
    }
    assert forall|at: int| !names_server(conf@, at) by {
        if names_server(conf@, at) {
            assert(at < start);
        }
    }
    String::new()
}

} // verus!
