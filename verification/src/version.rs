//! The version value, its parser and its formatter.

use vstd::prelude::*;
use vstd::slice::slice_subrange;
use vstd::string::StringExecFns;
use vstd::string::StrSliceExecFns;
use vstd::utf8::{encode_utf8, is_ascii_chars_encode_utf8};
use crate::syntax::{digit_value, is_token, starts_with, to_digit, token, DOT, NAME, ZERO};

verus! {

/// HTTP start line version field.
#[derive(Copy, Clone, Eq, PartialEq, Ord, Debug, Hash, Structural)]
pub struct HttpVersion {
    /// Major version number.
    pub major: u8,
    /// Minor version number.
    pub minor: u8,
}

impl HttpVersion {
    /// Both numbers are single decimal digits, as the protocol requires.
    pub open spec fn wf(&self) -> bool {
        self.major < 10 && self.minor < 10
    }

    /// The canonical form of the version on the wire.
    pub open spec fn spec_bytes(&self) -> Seq<u8>
        recommends
            self.wf(),
    {
        token(self.major, self.minor)
    }

    /// The canonical form of the version as text: the characters whose codes are
    /// the bytes of the field.
    pub open spec fn spec_text(&self) -> Seq<char>
        recommends
            self.wf(),
    {
        Seq::new(8, |i: int| self.spec_bytes()[i] as char)
    }

    /// What parsing makes of `bytes`: the version that a well-formed field names,
    /// and the one failure for everything else.
    pub open spec fn spec_from_bytes(bytes: Seq<u8>) -> Result<HttpVersion, ()> {
        if is_token(bytes) {
            Ok(
                HttpVersion {
                    major: digit_value(bytes[5]).unwrap(),
                    minor: digit_value(bytes[7]).unwrap(),
                },
            )
        } else {
            Err(())
        }
    }

    /// Create a new `HttpVersion` from the given major and minor version parts,
    /// which must be single digits.
    pub fn from_parts(major: u8, minor: u8) -> (v: Self)
        requires
            major < 10,
            minor < 10,
        ensures
            v == (HttpVersion { major, minor }),
            v.wf(),
    {
        HttpVersion { major, minor }
    }

    /// Try to parse an `HttpVersion` from the given bytes in the form required by the
    /// request line syntax.
    ///
    /// This verifies the syntax is well-formed and extracts the version parts.
    pub fn from_bytes(s: &[u8]) -> (r: Result<Self, ()>)
        ensures
            r == Self::spec_from_bytes(s@),
            r matches Ok(v) ==> v.wf() && s@ == v.spec_bytes(),
    {
        if !starts_with(s, &NAME) {
            return Err(());
        }
        let ver = slice_subrange(s, NAME.len(), s.len());

        if ver.len() != 3 || ver[1] != DOT {
            return Err(());
        }
        match (to_digit(ver[0]), to_digit(ver[2])) {
            (Some(major), Some(minor)) => Ok(HttpVersion::from_parts(major, minor)),
            _ => Err(()),
        }
    }

    /// The version in the form required by the start line, `HTTP/<major>.<minor>`:
    /// always the same eight bytes for the same version.
    pub fn to_bytes(&self) -> (out: [u8; 8])
        requires
            self.wf(),
        ensures
            out@ == self.spec_bytes(),
    {
        let out: [u8; 8] = [
            NAME[0],
            NAME[1],
            NAME[2],
            NAME[3],
            NAME[4],
            ZERO + self.major,
            DOT,
            ZERO + self.minor,
        ];
        out
    }

    /// The version as text in the form required by the start line. The string is
    /// plain ASCII, and its bytes are those that [`HttpVersion::to_bytes`] gives.
    pub fn to_string(&self) -> (s: String)
        requires
            self.wf(),
        ensures
            s@ == self.spec_text(),
            encode_utf8(s@) == self.spec_bytes(),
    {
        let digits = "0123456789";
        proof {
            reveal_strlit("0123456789");
            reveal_strlit("HTTP/");
            reveal_strlit(".");
        }
        let major = self.major as usize;
        let minor = self.minor as usize;
        let mut s = "HTTP/".to_owned();
        s.append(digits.substring_ascii(major, major + 1));
        s.append(".");
        s.append(digits.substring_ascii(minor, minor + 1));
        proof {
            is_ascii_chars_encode_utf8(s@);
        }
        s
    }
}

impl std::str::FromStr for HttpVersion {
    type Err = ();

    /// Parse the version from text: the bytes of `s` are read as
    /// [`HttpVersion::from_bytes`] reads them.
    fn from_str(s: &str) -> (r: Result<Self, ()>)
        ensures
            r == HttpVersion::spec_from_bytes(encode_utf8(s@)),
    {
        HttpVersion::from_bytes(s.as_bytes())
    }
}

} // verus!
