//! Serial numbers of inverters and dataloggers: ten bytes, shown as text.
use vstd::prelude::*;

verus! {

/// The ten-byte serial number of an inverter or of its datalogger.
#[derive(Clone, Copy, Debug)]
pub struct Serial {
    pub bytes: [u8; 10],
}

impl PartialEq for Serial {
    fn eq(&self, other: &Serial) -> (r: bool) {
        let mut i: usize = 0;
        while i < 10
            invariant
                0 <= i <= 10,
                forall|j: int| 0 <= j < i ==> self.bytes@[j] == other.bytes@[j],
            decreases 10 - i,
        {
            if self.bytes[i] != other.bytes[i] {
                proof {
                    if *self == *other {
                        assert(self.bytes@[i as int] == other.bytes@[i as int]);
                    }
                }
                return false;
            }
            i = i + 1;
        }
        proof {
            broadcast use vstd::array::group_array_axioms;
            assert(self.bytes =~= other.bytes);
        }
        true
    }
}

impl vstd::std_specs::cmp::PartialEqSpecImpl for Serial {
    open spec fn obeys_eq_spec() -> bool {
        true
    }

    open spec fn eq_spec(&self, other: &Serial) -> bool {
        *self == *other
    }
}

impl Eq for Serial {}

} // verus!

verus! {

/// The text that `String::from_utf8_lossy` makes of a byte sequence that is not valid UTF-8.
pub uninterp spec fn utf8_lossy(bytes: Seq<u8>) -> Seq<char>;

/// The text `String::from_utf8_lossy` gives for a byte sequence: the decoded text when the
/// bytes are valid UTF-8, and otherwise the named lossy result.
pub open spec fn lossy_text(bytes: Seq<u8>) -> Seq<char> {
    if vstd::utf8::valid_utf8(bytes) {
        vstd::utf8::decode_utf8(bytes)
    } else {
        utf8_lossy(bytes)
    }
}

/// `String::from_utf8_lossy`: decodes the bytes as UTF-8, replacing invalid sequences.
/// Claimed: the result is a function of the bytes alone, and for valid UTF-8 it is
/// exactly the decoded text (as the std documentation states).
#[verifier::external_body]
fn from_utf8_lossy(bytes: &[u8]) -> (s: String)
    ensures
        vstd::utf8::valid_utf8(bytes@) ==> s@ == vstd::utf8::decode_utf8(bytes@),
        !vstd::utf8::valid_utf8(bytes@) ==> s@ == utf8_lossy(bytes@),
{
    String::from_utf8_lossy(bytes).into_owned()
}

/// Why a serial number was refused.
#[derive(Clone, Copy, Debug, PartialEq, Eq, Structural)]
pub enum SerialError {
    /// The text is not exactly ten bytes long.
    WrongLength,
}

impl Serial {
    /// The text form of the serial number.
    pub open spec fn text(self) -> Seq<char> {
        lossy_text(self.bytes@)
    }

    /// Parses a serial number: the text must be exactly ten bytes (in UTF-8).
    pub fn from_str(s: &str) -> (r: Result<Serial, SerialError>)
        ensures
            r matches Ok(serial) ==> serial.bytes@ == vstd::utf8::encode_utf8(s@),
            r is Ok <==> vstd::utf8::encode_utf8(s@).len() == 10,
            r matches Err(e) ==> e == SerialError::WrongLength,
    {
        let b = s.as_bytes();
        if b.len() != 10 {
            return Err(SerialError::WrongLength);
        }
        let bytes: [u8; 10] = [b[0], b[1], b[2], b[3], b[4], b[5], b[6], b[7], b[8], b[9]];
        proof {
            broadcast use vstd::array::group_array_axioms;
            assert(bytes@ =~= b@);
        }
        Ok(Serial { bytes })
    }

    /// Builds a serial number from its ten bytes.
    pub fn new(bytes: [u8; 10]) -> (r: Serial)
        ensures
            r.bytes == bytes,
    {
        Serial { bytes }
    }

    /// The serial number as text.
    pub fn to_string(&self) -> (r: String)
        ensures
            r@ == self.text(),
    {
        from_utf8_lossy(self.bytes.as_slice())
    }
}

/// Law: text that parses as a serial number is given back unchanged by `to_string`.
pub proof fn serial_text_round_trip(s: Seq<char>, serial: Serial)
    requires
        serial.bytes@ == vstd::utf8::encode_utf8(s),
    ensures
        serial.text() == s,
{
    vstd::utf8::encode_utf8_valid_utf8(s);
    vstd::utf8::encode_utf8_decode_utf8(s);
}

} // verus!
