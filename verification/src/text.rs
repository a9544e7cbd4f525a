use vstd::prelude::*;

use crate::status::BoundaryError;

verus! {

/// A continuation byte of a multi-byte encoded scalar.
pub open spec fn is_cont_byte(b: u8) -> bool {
    0x80 <= b <= 0xBF
}

/// Width of the encoded scalar that starts with `b`. Bytes that cannot start
/// a well-formed scalar are given width 1 so that a scan always advances.
pub open spec fn encoded_len(b: u8) -> int {
    if b < 0x80 {
        1
    } else if 0xC2 <= b && b <= 0xDF {
        2
    } else if 0xE0 <= b && b <= 0xEF {
        3
    } else if 0xF0 <= b && b <= 0xF4 {
        4
    } else {
        1
    }
}

/// A well-formed UTF-8 scalar starts at position `i` of `s`: the leading byte
/// announces a width that fits in `s`, the continuation bytes are in range,
/// and the narrowed second-byte ranges rule out overlong forms, surrogates
/// and values above U+10FFFF.
pub open spec fn valid_encoding_at(s: Seq<u8>, i: int) -> bool
    recommends
        0 <= i < s.len(),
{
    let b = s[i];
    if b < 0x80 {
        true
    } else if 0xC2 <= b && b <= 0xDF {
        i + 1 < s.len() && is_cont_byte(s[i + 1])
    } else if b == 0xE0 {
        i + 2 < s.len() && 0xA0 <= s[i + 1] <= 0xBF && is_cont_byte(s[i + 2])
    } else if 0xE1 <= b && b <= 0xEC {
        i + 2 < s.len() && is_cont_byte(s[i + 1]) && is_cont_byte(s[i + 2])
    } else if b == 0xED {
        i + 2 < s.len() && 0x80 <= s[i + 1] <= 0x9F && is_cont_byte(s[i + 2])
    } else if 0xEE <= b && b <= 0xEF {
        i + 2 < s.len() && is_cont_byte(s[i + 1]) && is_cont_byte(s[i + 2])
    } else if b == 0xF0 {
        i + 3 < s.len() && 0x90 <= s[i + 1] <= 0xBF && is_cont_byte(s[i + 2]) && is_cont_byte(
            s[i + 3],
        )
    } else if 0xF1 <= b && b <= 0xF3 {
        i + 3 < s.len() && is_cont_byte(s[i + 1]) && is_cont_byte(s[i + 2]) && is_cont_byte(
            s[i + 3],
        )
    } else if b == 0xF4 {
        i + 3 < s.len() && 0x80 <= s[i + 1] <= 0x8F && is_cont_byte(s[i + 2]) && is_cont_byte(
            s[i + 3],
        )
    } else {
        false
    }
}

/// The suffix of `s` that starts at `i` is a sequence of well-formed scalars.
pub open spec fn valid_text_from(s: Seq<u8>, i: int) -> bool
    decreases s.len() - i,
{
    if i >= s.len() {
        true
    } else if !valid_encoding_at(s, i) {
        false
    } else {
        valid_text_from(s, i + encoded_len(s[i]))
    }
}

/// No byte of `s` is zero, so `s` survives transport as a C string.
pub open spec fn is_nul_free(s: Seq<u8>) -> bool {
    forall|j: int| 0 <= j < s.len() ==> s[j] != 0
}

/// Well-formed boundary text: a valid UTF-8 encoding with no interior NUL.
/// This is exactly what conversion of a foreign field checks.
pub open spec fn text_ok(s: Seq<u8>) -> bool {
    valid_text_from(s, 0) && is_nul_free(s)
}

/// One pass over `bytes` deciding `text_ok`.
pub fn validate_text(bytes: &Vec<u8>) -> (ok: bool)
    ensures
        ok == text_ok(bytes@),
{
    let n = bytes.len();
    let mut i: usize = 0;
    while i < n
        invariant
            n == bytes@.len(),
            i <= n,
            valid_text_from(bytes@, 0) == valid_text_from(bytes@, i as int),
            forall|j: int| 0 <= j < i ==> bytes@[j] != 0,
        decreases n - i,
    {
        let b = bytes[i];
        if b == 0 {
            return false;
        }
        if b < 0x80 {
            i = i + 1;
        } else if 0xC2 <= b && b <= 0xDF {
            if n - i < 2 || !(0x80 <= bytes[i + 1] && bytes[i + 1] <= 0xBF) {
                return false;
            }
            i = i + 2;
        } else if 0xE0 <= b && b <= 0xEF {
            if n - i < 3 {
                return false;
            }
            let b1 = bytes[i + 1];
            let b2 = bytes[i + 2];
            let lo: u8 = if b == 0xE0 {
                0xA0
            } else {
                0x80
            };
            let hi: u8 = if b == 0xED {
                0x9F
            } else {
                0xBF
            };
            if !(lo <= b1 && b1 <= hi && 0x80 <= b2 && b2 <= 0xBF) {
                return false;
            }
            i = i + 3;
        } else if 0xF0 <= b && b <= 0xF4 {
            if n - i < 4 {
                return false;
            }
            let b1 = bytes[i + 1];
            let b2 = bytes[i + 2];
            let b3 = bytes[i + 3];
            let lo: u8 = if b == 0xF0 {
                0x90
            } else {
                0x80
            };
            let hi: u8 = if b == 0xF4 {
                0x8F
            } else {
                0xBF
            };
            if !(lo <= b1 && b1 <= hi && 0x80 <= b2 && b2 <= 0xBF && 0x80 <= b3 && b3 <= 0xBF) {
                return false;
            }
            i = i + 4;
        } else {
            return false;
        }
    }
    true
}

/// Internal text form: bytes that were checked once, at the boundary, and are
/// carried with their well-formedness from then on.
pub struct Text {
    bytes: Vec<u8>,
}

impl View for Text {
    type V = Seq<u8>;

    closed spec fn view(&self) -> Seq<u8> {
        self.bytes@
    }
}

impl Text {
    /// The invariant every constructed `Text` carries.
    pub open spec fn wf(&self) -> bool {
        text_ok(self@)
    }

    /// Outbound translation of one field: accept exactly the well-formed
    /// byte strings, and report malformed ones as a conversion failure.
    pub fn from_bytes(bytes: Vec<u8>) -> (r: Result<Text, BoundaryError>)
        ensures
            r is Ok <==> text_ok(bytes@),
            r is Ok ==> r->Ok_0@ == bytes@ && r->Ok_0.wf(),
            r is Err ==> r->Err_0 == BoundaryError::Conversion,
    {
        if validate_text(&bytes) {
            Ok(Text { bytes })
        } else {
            Err(BoundaryError::Conversion)
        }
    }

    /// Inbound translation of one field: a fresh byte copy for the foreign
    /// side. Total, because the invariant already excludes interior NUL.
    pub fn to_bytes(&self) -> (r: Vec<u8>)
        ensures
            r@ == self@,
    {
        clone_bytes(&self.bytes)
    }

    /// A fresh `Text` with the same bytes.
    pub fn copied(&self) -> (r: Text)
        ensures
            r@ == self@,
            self.wf() ==> r.wf(),
    {
        Text { bytes: clone_bytes(&self.bytes) }
    }

    /// Borrow the underlying bytes.
    pub fn as_bytes(&self) -> (r: &Vec<u8>)
        ensures
            r@ == self@,
    {
        &self.bytes
    }
}

/// A fresh byte vector with the same contents.
pub fn clone_bytes(v: &Vec<u8>) -> (r: Vec<u8>)
    ensures
        r@ == v@,
{
    let mut r: Vec<u8> = Vec::new();
    let n = v.len();
    let mut i: usize = 0;
    while i < n
        invariant
            n == v@.len(),
            i <= n,
            r@ == v@.take(i as int),
        decreases n - i,
    {
        r.push(v[i]);
        proof {
            assert(v@.take(i as int + 1) =~= v@.take(i as int).push(v@[i as int]));
        }
        i = i + 1;
    }
    proof {
        assert(v@.take(n as int) =~= v@);
    }
    r
}

/// Byte-wise equality of two vectors.
pub fn bytes_eq(a: &Vec<u8>, b: &Vec<u8>) -> (r: bool)
    ensures
        r == (a@ == b@),
{
    if a.len() != b.len() {
        return false;
    }
    let n = a.len();
    let mut i: usize = 0;
    while i < n
        invariant
            n == a@.len(),
            n == b@.len(),
            i <= n,
            forall|j: int| 0 <= j < i ==> a@[j] == b@[j],
        decreases n - i,
    {
        if a[i] != b[i] {
            return false;
        }
        i = i + 1;
    }
    proof {
        assert(a@ =~= b@);
    }
    true
}

} // verus!
