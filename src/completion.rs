use vstd::prelude::*;

verus! {

/// One completion as the kernel reports it.
#[derive(Clone, Copy, Debug, PartialEq, Eq, Structural)]
pub struct CompletionRecord {
    /// Negative: a platform error code. Otherwise: bytes transferred.
    pub result: i32,
    /// The correlation tag of the entry that completed.
    pub user_data: u64,
}

/// Why a completion's payload could not be read as text.
#[derive(Clone, Copy, Debug, PartialEq, Eq, Structural)]
pub enum DecodeError {
    /// The operation failed with this platform error code.
    OpFailed(i32),
    /// The reported length exceeds the buffer.
    TooLong(i32),
    /// The payload is not UTF-8 text.
    NotText,
}

/// The text that a byte string spells, if it is UTF-8.
pub uninterp spec fn utf8_text_of(b: Seq<u8>) -> Option<Seq<char>>;

/// Relies on `String::from_utf8`: it accepts exactly the UTF-8 byte strings
/// and yields the text they spell; the empty string is UTF-8.
#[verifier::external_body]
fn utf8_text(b: Vec<u8>) -> (r: Option<String>)
    ensures
        match r {
            Some(t) => utf8_text_of(b@) == Some(t@),
            None => utf8_text_of(b@) is None,
        },
        b@.len() == 0 ==> r is Some && r.unwrap()@.len() == 0,
{
    String::from_utf8(b).ok()
}

impl CompletionRecord {
    /// The correlation tag, used as the index of the request.
    pub fn index(&self) -> (r: u64)
        ensures
            r == self.user_data,
    {
        self.user_data
    }

    /// How many bytes of a buffer of `buf_len` bytes the completion filled.
    pub fn payload_len(&self, buf_len: usize) -> (r: Result<usize, DecodeError>)
        ensures
            self.result < 0 ==> r == Err::<usize, DecodeError>(DecodeError::OpFailed(self.result)),
            0 <= self.result && self.result as int > buf_len ==> r == Err::<usize, DecodeError>(
                DecodeError::TooLong(self.result),
            ),
            0 <= self.result <= buf_len ==> r == Ok::<usize, DecodeError>(self.result as usize),
    {
        if self.result < 0 {
            Err(DecodeError::OpFailed(self.result))
        } else if self.result as usize > buf_len {
            Err(DecodeError::TooLong(self.result))
        } else {
            Ok(self.result as usize)
        }
    }

    /// The completion's payload in `buf` read as text.
    pub fn decode(&self, buf: &[u8]) -> (r: Result<String, DecodeError>)
        ensures
            self.result < 0 ==> r == Err::<String, DecodeError>(DecodeError::OpFailed(self.result)),
            0 <= self.result && self.result as int > buf@.len() ==> r == Err::<String, DecodeError>(
                DecodeError::TooLong(self.result),
            ),
            0 <= self.result <= buf@.len() ==> match utf8_text_of(buf@.take(self.result as int)) {
                Some(t) => r matches Ok(s) && s@ == t,
                None => r == Err::<String, DecodeError>(DecodeError::NotText),
            },
    {
        let len = match self.payload_len(buf.len()) {
            Ok(n) => n,
            Err(e) => return Err(e),
        };
        let mut bytes: Vec<u8> = Vec::with_capacity(len);
        let mut i: usize = 0;
        while i < len
            invariant
                len <= buf@.len(),
                i <= len,
                bytes@ == buf@.take(i as int),
            decreases len - i,
        {
            bytes.push(buf[i]);
            i = i + 1;
            assert(bytes@ =~= buf@.take(i as int));
        }
        match utf8_text(bytes) {
            Some(s) => Ok(s),
            None => Err(DecodeError::NotText),
        }
    }
}

} // verus!
