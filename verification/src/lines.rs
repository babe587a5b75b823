use vstd::prelude::*;

use crate::error::P4CliError;

verus! {

/// The newline byte that ends a line.
pub open spec fn is_newline(b: u8) -> bool {
    b == 10u8
}

/// Splits a byte stream into lines, scanning left to right with `cur` as the
/// line fragment read so far: a newline ends the current line (and is not
/// part of it), and a final unterminated fragment is a line of its own unless
/// it is empty.
pub open spec fn spec_lines_from(cur: Seq<u8>, rest: Seq<u8>) -> Seq<Seq<u8>>
    decreases rest.len(),
{
    if rest.len() == 0 {
        if cur.len() == 0 {
            Seq::empty()
        } else {
            seq![cur]
        }
    } else if is_newline(rest[0]) {
        seq![cur] + spec_lines_from(Seq::empty(), rest.skip(1))
    } else {
        spec_lines_from(cur.push(rest[0]), rest.skip(1))
    }
}

/// The lines of a whole byte stream, newline-terminated or not; an empty
/// stream has no lines, and a trailing newline adds none.
pub open spec fn spec_lines(content: Seq<u8>) -> Seq<Seq<u8>> {
    spec_lines_from(Seq::empty(), content)
}

/// One raw line as a blocking line read hands it over, with its single
/// trailing newline removed and any other trailing bytes kept.
pub open spec fn spec_trim_newline(raw: Seq<u8>) -> Seq<u8> {
    if raw.len() > 0 && is_newline(raw[raw.len() - 1]) {
        raw.drop_last()
    } else {
        raw
    }
}

/// What a byte sequence decodes to as text: `Some` of its characters when it
/// is valid UTF-8, `None` when it is not. A property of the bytes alone.
pub uninterp spec fn utf8_decoded(bytes: Seq<u8>) -> Option<Seq<char>>;

#[verifier::external_type_specification]
#[verifier::external_body]
pub struct ExFromUtf8Error(std::string::FromUtf8Error);

/// Relies on String::from_utf8: it decodes the bytes as UTF-8 text, a
/// deterministic check and conversion, refusing exactly the byte sequences
/// that are not valid UTF-8; no bytes means empty text.
#[verifier::external_body]
fn utf8_decode(bytes: Vec<u8>) -> (r: Result<String, std::string::FromUtf8Error>)
    ensures
        match r {
            Ok(s) => utf8_decoded(bytes@) == Some(s@),
            Err(_) => utf8_decoded(bytes@) is None,
        },
        bytes@.len() == 0 ==> r is Ok,
{
    String::from_utf8(bytes)
}

/// Removes the trailing newline from one raw line, if there is one, and
/// decodes the rest as text.
pub fn parse_line(raw: Vec<u8>) -> (r: Result<String, P4CliError>)
    ensures
        match r {
            Ok(s) => utf8_decoded(spec_trim_newline(raw@)) == Some(s@),
            Err(e) => utf8_decoded(spec_trim_newline(raw@)) is None && e
                == P4CliError::InvalidEncoding,
        },
{
    let mut line = raw;
    if line.len() > 0 && line[line.len() - 1] == 10u8 {
        line.pop();
    }
    match utf8_decode(line) {
        Ok(s) => Ok(s),
        Err(_) => Err(P4CliError::InvalidEncoding),
    }
}

/// The views of a sequence of byte vectors.
pub open spec fn views_of(parts: Seq<Vec<u8>>) -> Seq<Seq<u8>> {
    parts.map_values(|part: Vec<u8>| part@)
}

/// Splits a whole byte stream into its lines, exactly as `spec_lines` says.
pub fn split_lines(content: &Vec<u8>) -> (r: Vec<Vec<u8>>)
    ensures
        views_of(r@) == spec_lines(content@),
{
    let mut parts: Vec<Vec<u8>> = Vec::new();
    let mut cur: Vec<u8> = Vec::new();
    let mut i: usize = 0;
    assert(content@.skip(0) =~= content@);
    assert(views_of(Seq::<Vec<u8>>::empty()) + spec_lines(content@) =~= spec_lines(content@));
    while i < content.len()
        invariant
            i <= content@.len(),
            spec_lines(content@) == views_of(parts@) + spec_lines_from(
                cur@,
                content@.skip(i as int),
            ),
        decreases content@.len() - i,
    {
        let ghost rest = content@.skip(i as int);
        assert(rest[0] == content@[i as int]);
        assert(rest.skip(1) =~= content@.skip(i as int + 1));
        let b = content[i];
        if b == 10u8 {
            assert(spec_lines_from(cur@, rest) == seq![cur@] + spec_lines_from(
                Seq::empty(),
                rest.skip(1),
            ));
            assert(views_of(parts@.push(cur)) =~= views_of(parts@) + seq![cur@]);
            assert(views_of(parts@) + (seq![cur@] + spec_lines_from(Seq::empty(), rest.skip(1)))
                =~= (views_of(parts@) + seq![cur@]) + spec_lines_from(Seq::empty(), rest.skip(1)));
            parts.push(cur);
            cur = Vec::new();
        } else {
            assert(spec_lines_from(cur@, rest) == spec_lines_from(cur@.push(b), rest.skip(1)));
            cur.push(b);
        }
        i = i + 1;
    }
    assert(content@.skip(i as int) =~= Seq::<u8>::empty());
    if cur.len() > 0 {
        assert(views_of(parts@.push(cur)) =~= views_of(parts@) + seq![cur@]);
        parts.push(cur);
    } else {
        assert(views_of(parts@) + spec_lines_from(cur@, Seq::empty()) =~= views_of(parts@));
    }
    parts
}

/// Splits a whole byte stream into lines and decodes each as text. Succeeds
/// exactly when every line is valid UTF-8, and then yields every line, in
/// order, unchanged.
pub fn decode_lines(content: &Vec<u8>) -> (r: Result<Vec<String>, P4CliError>)
    ensures
        match r {
            Ok(lines) => {
                &&& lines@.len() == spec_lines(content@).len()
                &&& forall|k: int|
                    0 <= k < lines@.len() ==> utf8_decoded(spec_lines(content@)[k]) == Some(
                        #[trigger] lines@[k]@,
                    )
            },
            Err(e) => {
                &&& e == P4CliError::InvalidEncoding
                &&& exists|k: int|
                    0 <= k < spec_lines(content@).len() && utf8_decoded(
                        #[trigger] spec_lines(content@)[k],
                    ) is None
            },
        },
{
    let mut parts = split_lines(content);
    let ghost all = spec_lines(content@);
    let mut lines: Vec<String> = Vec::new();
    let ghost mut done: int = 0;
    while parts.len() > 0
        invariant
            all == spec_lines(content@),
            0 <= done <= all.len(),
            lines@.len() == done,
            parts@.len() == all.len() - done,
            forall|k: int| 0 <= k < parts@.len() ==> (#[trigger] parts@[k])@ == all[done + k],
            forall|k: int|
                0 <= k < done ==> utf8_decoded(all[k]) == Some(#[trigger] lines@[k]@),
        decreases parts@.len(),
    {
        let part = parts.remove(0);
        assert(part@ == all[done]);
        match utf8_decode(part) {
            Ok(s) => {
                lines.push(s);
            },
            Err(_) => {
                assert(done < all.len() && utf8_decoded(spec_lines(content@)[done]) is None);
                return Err(P4CliError::InvalidEncoding);
            },
        }
        proof {
            done = done + 1;
        }
    }
    Ok(lines)
}

} // verus!
