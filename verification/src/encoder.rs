//! Short codes for indices, computed by the `harsh` implementation of Hashids.

use harsh::Harsh;
use vstd::prelude::*;
use vstd::string::StringSliceAdditionalSpecFns;
use vstd::utf8::encode_utf8;

verus! {

#[verifier::external_type_specification]
#[verifier::external_body]
pub struct ExHarsh(harsh::Harsh);

#[verifier::external_type_specification]
#[verifier::external_body]
pub struct ExBuildError(harsh::BuildError);

#[verifier::external_type_specification]
#[verifier::external_body]
pub struct ExHarshError(harsh::Error);

/// The hasher that `harsh`'s builder makes from a salt, with its standard
/// alphabet, separators and no minimum length.
pub uninterp spec fn salted(salt: Seq<char>) -> Harsh;

/// The code that `Harsh::encode` gives for a list of values.
pub uninterp spec fn hashid(hasher: Harsh, values: Seq<u64>) -> Seq<char>;

/// The values that `Harsh::decode` finds in a code, `None` where it reports
/// an error.
pub uninterp spec fn hashid_values(hasher: Harsh, code: Seq<char>) -> Option<Seq<u64>>;

/// The longest code, in bytes, that is handed to the hasher for decoding:
/// a lottery character and eleven digits. Every index below 44^11 has a
/// code within this length.
pub const MAX_CODE_BYTES: usize = 12;

/// Calls `HarshBuilder::salt` and `HarshBuilder::build` on a fresh builder.
///
/// Trusted: the build succeeds, and the hasher is the one named by `salted`
/// for this salt. The build fails only on an alphabet that was supplied and
/// holds a space or fewer than sixteen distinct characters; none is supplied
/// here, and the standard one has sixty-two letters and digits.
#[verifier::external_body]
fn harsh_build(salt: &str) -> (r: Result<Harsh, harsh::BuildError>)
    ensures
        r is Ok,
        r matches Ok(h) ==> h == salted(salt@),
{
    Harsh::builder().salt(salt).build()
}

/// Whether a character is an ASCII letter or digit.
pub open spec fn is_code_char(c: char) -> bool {
    ('a' <= c && c <= 'z') || ('A' <= c && c <= 'Z') || ('0' <= c && c <= '9')
}

/// Whether a text has the form of a code: at least two characters, all of
/// them ASCII letters or digits, so that it can stand as one segment of a
/// path.
pub open spec fn is_code_text(code: Seq<char>) -> bool {
    code.len() >= 2 && forall|k: int| 0 <= k < code.len() ==> is_code_char(#[trigger] code[k])
}

/// Whether a hasher is one that the builder makes from a salt alone.
pub open spec fn is_salted(hasher: Harsh) -> bool {
    exists|salt: Seq<char>| hasher == #[trigger] salted(salt)
}

/// Calls `Harsh::encode` on the one-element list `[index]`.
///
/// Trusted: the string that comes back is the one named by `hashid`. For a
/// hasher made from a salt alone it has the form of a code: the crate
/// writes one lottery character and then at least one digit, all taken
/// from its standard alphabet of letters and digits, and adds no padding
/// where no minimum length was asked for.
///
/// The crate turns each digit string into text and stops on bytes that
/// are no UTF-8, which an alphabet supplied by hand may hold. A hasher made
/// from a salt alone has the standard alphabet, so only such a hasher is
/// admitted.
#[verifier::external_body]
fn harsh_encode(hasher: &Harsh, index: u64) -> (code: String)
    requires
        is_salted(*hasher),
    ensures
        code@ == hashid(*hasher, seq![index]),
        is_code_text(code@),
{
    hasher.encode(&[index])
}

/// Calls `Harsh::decode`.
///
/// Trusted: the outcome is the one named by `hashid_values`; an input of
/// fewer than two bytes is an error, since the crate asks for a lottery
/// character and a digit; and values are handed back only after the crate
/// has encoded them again and found the input, so they encode to it. For a
/// hasher made from a salt alone, whatever it encodes to is written in
/// letters and digits, so an input that is accepted has the form of a code.
///
/// The crate sums the digits of a segment with an unchecked addition. A
/// hasher made from a salt alone keeps 44 of the 62 standard characters as
/// digits (14 are separators, 4 of the other 48 are guards), so a segment
/// of at most eleven digits stays below 44^11, which is less than 2^64,
/// and the sum cannot overflow; the bound on the input's length, whose first
/// byte is no digit, keeps every segment that short.
#[verifier::external_body]
fn harsh_decode(hasher: &Harsh, code: &str) -> (r: Result<Vec<u64>, harsh::Error>)
    requires
        is_salted(*hasher),
        code.spec_bytes().len() <= MAX_CODE_BYTES,
    ensures
        hashid_values(*hasher, code@) == match r {
            Ok(values) => Some(values@),
            Err(_) => None,
        },
        code.spec_bytes().len() < 2 ==> r is Err,
        r matches Ok(values) ==> hashid(*hasher, values@) == code@,
        r is Ok ==> is_code_text(code@),
{
    hasher.decode(code)
}

/// Why a code is not accepted.
#[derive(Clone, Copy, Debug, PartialEq, Eq, Structural)]
pub enum DecodeError {
    /// The code is longer than `MAX_CODE_BYTES`.
    TooLong,
    /// The hasher does not recognise the code as one of its own.
    Malformed,
    /// The code holds no value, or more than one.
    NotSingle,
}

/// The hasher could not be built.
#[derive(Clone, Copy, Debug, PartialEq, Eq, Structural)]
pub struct BuildFailed;

/// The index that a list of decoded values stands for: its only element.
pub open spec fn sole_index(values: Seq<u64>) -> Result<u64, DecodeError> {
    if values.len() == 1 {
        Ok(values[0])
    } else {
        Err(DecodeError::NotSingle)
    }
}

/// What a decoding outcome of the hasher means for a code of the given
/// length in bytes.
pub open spec fn decoded_index(bytes: nat, found: Option<Seq<u64>>) -> Result<u64, DecodeError> {
    if bytes > MAX_CODE_BYTES {
        Err(DecodeError::TooLong)
    } else {
        match found {
            Some(values) => sole_index(values),
            None => Err(DecodeError::Malformed),
        }
    }
}

/// Accepts a list of decoded values only if it holds exactly one index.
pub fn index_from_values(values: &Vec<u64>) -> (r: Result<u64, DecodeError>)
    ensures
        r == sole_index(values@),
{
    if values.len() == 1 {
        Ok(values[0])
    } else {
        Err(DecodeError::NotSingle)
    }
}

/// Turns indices into short codes and back, under a fixed salt.
pub struct Encoder {
    salt: String,
    inner: Harsh,
}

impl Encoder {
    /// The hasher held is always the one made from the salt held.
    #[verifier::type_invariant]
    spec fn hasher_is_salted(&self) -> bool {
        self.inner == salted(self.salt@)
    }

    /// The salt that this encoder was made with.
    pub closed spec fn salt(&self) -> Seq<char> {
        self.salt@
    }

    /// The hasher of this encoder: the one made from its salt.
    pub open spec fn hasher(&self) -> Harsh {
        salted(self.salt())
    }

    /// Whether this encoder was made with the given salt.
    pub open spec fn made_with(&self, salt: Seq<char>) -> bool {
        self.salt() == salt
    }

    /// The code of an index.
    pub open spec fn code_of(&self, index: u64) -> Seq<char> {
        hashid(self.hasher(), seq![index])
    }

    /// The index that a code stands for, or the reason why it stands for none.
    pub open spec fn index_of(&self, code: Seq<char>) -> Result<u64, DecodeError> {
        decoded_index(encode_utf8(code).len(), hashid_values(self.hasher(), code))
    }

    /// Whether decoding the code of an index gives the index back.
    pub open spec fn round_trips(&self, index: u64) -> bool {
        self.index_of(self.code_of(index)) == Ok::<u64, DecodeError>(index)
    }

    /// Builds an encoder for a salt. Every salt is accepted.
    pub fn new(salt: &str) -> (r: Result<Encoder, BuildFailed>)
        ensures
            r is Ok,
            r matches Ok(e) ==> e.made_with(salt@),
    {
        match harsh_build(salt) {
            Ok(inner) => Ok(Encoder { salt: salt.to_owned(), inner }),
            Err(_) => Err(BuildFailed),
        }
    }

    /// The code of an index: a function of the salt and the index alone,
    /// and a text that can stand as one segment of a path.
    pub fn encode(&self, index: u64) -> (code: String)
        ensures
            code@ == self.code_of(index),
            is_code_text(code@),
    {
        proof {
            use_type_invariant(self);
            assert(self.inner == salted(self.salt@));
        }
        harsh_encode(&self.inner, index)
    }

    /// The code of an index, handed out only after decoding it has given
    /// the index back.
    pub fn encode_checked(&self, index: u64) -> (r: Option<String>)
        ensures
            r is Some <==> self.round_trips(index),
            r matches Some(code) ==> code@ == self.code_of(index) && is_code_text(code@),
    {
        let code = self.encode(index);
        match self.decode(code.as_str()) {
            Ok(found) => if found == index {
                Some(code)
            } else {
                None
            },
            Err(_) => None,
        }
    }

    /// The index that a code stands for.
    ///
    /// A code is accepted only if it is the code of the index returned: a
    /// string that is the code of no index is always refused, and so is one
    /// that is empty, a single byte, or holds anything but letters and
    /// digits.
    pub fn decode(&self, code: &str) -> (r: Result<u64, DecodeError>)
        ensures
            r == self.index_of(code@),
            r == Err::<u64, DecodeError>(DecodeError::TooLong) <==> code.spec_bytes().len()
                > MAX_CODE_BYTES,
            code.spec_bytes().len() < 2 ==> r == Err::<u64, DecodeError>(DecodeError::Malformed),
            r matches Ok(index) ==> self.code_of(index) == code@,
            (forall|index: u64| #[trigger] self.code_of(index) != code@) ==> r is Err,
            !is_code_text(code@) ==> r is Err,
    {
        proof {
            use_type_invariant(self);
            assert(self.inner == salted(self.salt@));
        }
        if code.as_bytes().len() > MAX_CODE_BYTES {
            return Err(DecodeError::TooLong);
        }
        match harsh_decode(&self.inner, code) {
            Ok(values) => {
                let r = index_from_values(&values);
                proof {
                    if values@.len() == 1 {
                        assert(values@ =~= seq![values@[0]]);
                        assert(self.code_of(values@[0]) == code@);
                    }
                }
                r
            },
            Err(_) => Err(DecodeError::Malformed),
        }
    }
}

/// Two encoders made with the same salt agree on every code and on every
/// decoding.
pub proof fn lemma_same_salt_same_codes(a: Encoder, b: Encoder, index: u64, code: Seq<char>)
    requires
        a.salt() == b.salt(),
    ensures
        a.code_of(index) == b.code_of(index),
        a.index_of(code) == b.index_of(code),
{
}

/// Two different indices whose codes both decode back to them have
/// different codes.
pub proof fn lemma_round_trip_separates_codes(e: Encoder, i: u64, j: u64)
    requires
        e.round_trips(i),
        e.round_trips(j),
        i != j,
    ensures
        e.code_of(i) != e.code_of(j),
{
}

} // verus!
