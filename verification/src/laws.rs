//! What holds of parsing and formatting together.

use vstd::prelude::*;
use vstd::utf8::{encode_utf8, is_ascii_chars, is_ascii_chars_encode_utf8};
use crate::syntax::{is_token, token};
use crate::version::HttpVersion;

verus! {

/// Parsing undoes formatting: the canonical form of every version of two single
/// digits parses, and gives that version back.
pub proof fn lemma_parse_of_bytes(major: u8, minor: u8)
    requires
        major < 10,
        minor < 10,
    ensures
        HttpVersion::spec_from_bytes((HttpVersion { major, minor }).spec_bytes()) == Ok::<
            HttpVersion,
            (),
        >(HttpVersion { major, minor }),
{
}

/// The text of a version is plain ASCII, so that its bytes are the canonical form;
/// parsing the text therefore gives the version back as well.
pub proof fn lemma_parse_of_text(major: u8, minor: u8)
    requires
        major < 10,
        minor < 10,
    ensures
        is_ascii_chars((HttpVersion { major, minor }).spec_text()),
        encode_utf8((HttpVersion { major, minor }).spec_text()) == (HttpVersion {
            major,
            minor,
        }).spec_bytes(),
        HttpVersion::spec_from_bytes(encode_utf8((HttpVersion { major, minor }).spec_text()))
            == Ok::<HttpVersion, ()>(HttpVersion { major, minor }),
{
    let v = HttpVersion { major, minor };
    is_ascii_chars_encode_utf8(v.spec_text());
    lemma_parse_of_bytes(major, minor);
}

/// Formatting undoes parsing: whatever parses is the canonical form of the version
/// it gives, and that version has two single digits. So the well-formed fields are
/// exactly the canonical forms, one for each version.
pub proof fn lemma_bytes_of_parsed(bytes: Seq<u8>)
    ensures
        HttpVersion::spec_from_bytes(bytes) matches Ok(v) ==> v.wf() && bytes == v.spec_bytes(),
        HttpVersion::spec_from_bytes(bytes) is Ok <==> is_token(bytes),
        is_token(bytes) <==> exists|major: u8, minor: u8|
            major < 10 && minor < 10 && bytes == #[trigger] token(major, minor),
{
    if is_token(bytes) {
        let v = HttpVersion::spec_from_bytes(bytes).unwrap();
        assert(bytes =~= token(v.major, v.minor));
    }
    if exists|major: u8, minor: u8|
        major < 10 && minor < 10 && bytes == #[trigger] token(major, minor) {
        let (major, minor) = choose|major: u8, minor: u8|
            major < 10 && minor < 10 && bytes == #[trigger] token(major, minor);
        lemma_parse_of_bytes(major, minor);
    }
}

/// Two versions with the same canonical form are the same version.
pub proof fn lemma_bytes_tell_versions_apart(v: HttpVersion, w: HttpVersion)
    requires
        v.wf(),
        w.wf(),
        v.spec_bytes() == w.spec_bytes(),
    ensures
        v == w,
{
    lemma_parse_of_bytes(v.major, v.minor);
    lemma_parse_of_bytes(w.major, w.minor);
}

/// Parsing keeps no state and reads nothing but the bytes it is given: two inputs
/// that agree byte for byte parse to the same result.
pub proof fn lemma_parse_reads_bytes_alone(a: Seq<u8>, b: Seq<u8>)
    requires
        a.len() == b.len(),
        forall|i: int| 0 <= i < a.len() ==> a[i] == b[i],
    ensures
        HttpVersion::spec_from_bytes(a) == HttpVersion::spec_from_bytes(b),
{
    assert(a =~= b);
}

/// Formatting keeps no state and reads nothing but the two numbers: versions with
/// the same numbers have the same bytes and the same text.
pub proof fn lemma_format_reads_numbers_alone(v: HttpVersion, w: HttpVersion)
    requires
        v.major == w.major,
        v.minor == w.minor,
    ensures
        v.spec_bytes() == w.spec_bytes(),
        v.spec_text() == w.spec_text(),
{
}

} // verus!
