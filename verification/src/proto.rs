//! The framed response format exchanged with a rendering backend.
//!
//! A response travels as a status code, the payload length and the payload:
//! two big-endian 32-bit words followed by the payload bytes, verbatim.

use vstd::prelude::*;
use vstd::slice::{slice_subrange, slice_to_vec};
use vstd::std_specs::convert::{FromSpecImpl, TryFromSpecImpl};
use vstd::string::StringExecFns;

verus! {

/// Outcome of a render job. The numbering is part of the wire contract.
#[derive(Clone, Copy, Debug, PartialEq, Eq, Structural)]
pub enum Code {
    /// The document was rendered; the payload is the image.
    Success,
    /// Typesetting failed; the payload is the transcript.
    ErrTex,
    /// Rasterization failed; the payload is the diagnostic.
    ErrMupdf,
    /// The backend failed unexpectedly; the payload is free-form text.
    ErrInternal,
}

/// Why a frame could not be written or read.
#[derive(Clone, Copy, Debug, PartialEq, Eq, Structural)]
pub enum WireError {
    /// The status word is outside the known enumeration.
    InvalidCode(u32),
    /// Fewer bytes are present than the frame announces.
    Truncated,
    /// The payload length does not fit in the 32-bit length field.
    TooLong,
}

/// A status code with its payload.
#[derive(Clone, Debug, PartialEq, Eq)]
pub struct Response {
    pub code: Code,
    pub data: Vec<u8>,
}

/// Mathematical value of a [`Response`].
pub struct ResponseView {
    pub code: Code,
    pub data: Seq<u8>,
}

impl View for Response {
    type V = ResponseView;

    open spec fn view(&self) -> ResponseView {
        ResponseView { code: self.code, data: self.data@ }
    }
}

/// The character of the decimal digit `d`.
pub open spec fn digit_char(d: nat) -> char {
    if d == 0 {
        '0'
    } else if d == 1 {
        '1'
    } else if d == 2 {
        '2'
    } else if d == 3 {
        '3'
    } else if d == 4 {
        '4'
    } else if d == 5 {
        '5'
    } else if d == 6 {
        '6'
    } else if d == 7 {
        '7'
    } else if d == 8 {
        '8'
    } else {
        '9'
    }
}

/// The decimal numeral of `n`, without leading zeros.
pub open spec fn decimal(n: nat) -> Seq<char>
    decreases n,
{
    if n < 10 {
        seq![digit_char(n)]
    } else {
        decimal(n / 10).push(digit_char(n % 10))
    }
}

/// The message of an error: `invalid code: ` and the number in decimal for
/// an unknown status word, and a fixed phrase for the others.
pub open spec fn message_of(error: WireError) -> Seq<char> {
    match error {
        WireError::InvalidCode(n) => "invalid code: "@ + decimal(n as nat),
        WireError::Truncated => "truncated frame"@,
        WireError::TooLong => "response too long"@,
    }
}

/// The numeral of one decimal digit.
fn digit_text(d: u32) -> (text: &'static str)
    requires
        d < 10,
    ensures
        text@ == seq![digit_char(d as nat)],
{
    proof {
        reveal_strlit("0");
        reveal_strlit("1");
        reveal_strlit("2");
        reveal_strlit("3");
        reveal_strlit("4");
        reveal_strlit("5");
        reveal_strlit("6");
        reveal_strlit("7");
        reveal_strlit("8");
        reveal_strlit("9");
    }
    let text = match d {
        0 => "0",
        1 => "1",
        2 => "2",
        3 => "3",
        4 => "4",
        5 => "5",
        6 => "6",
        7 => "7",
        8 => "8",
        _ => "9",
    };
    assert(text@ =~= seq![digit_char(d as nat)]);
    text
}

/// The decimal numeral of `n`.
fn decimal_text(n: u32) -> (text: String)
    ensures
        text@ == decimal(n as nat),
    decreases n,
{
    if n < 10 {
        digit_text(n).to_owned()
    } else {
        let mut text = decimal_text(n / 10);
        text.append(digit_text(n % 10));
        text
    }
}

impl WireError {
    /// The message of this error.
    pub fn message(&self) -> (text: String)
        ensures
            text@ == message_of(*self),
    {
        match self {
            WireError::InvalidCode(n) => {
                let mut text = "invalid code: ".to_owned();
                let number = decimal_text(*n);
                text.append(number.as_str());
                text
            },
            WireError::Truncated => "truncated frame".to_owned(),
            WireError::TooLong => "response too long".to_owned(),
        }
    }
}

/// Length of the two words that precede the payload.
pub const HEADER_LEN: usize = 8;

/// The number that stands for `code` on the wire.
pub open spec fn code_number(code: Code) -> u32 {
    match code {
        Code::Success => 0,
        Code::ErrTex => 1,
        Code::ErrMupdf => 2,
        Code::ErrInternal => 3,
    }
}

/// The code that `n` stands for, or the error for a number outside the
/// enumeration.
pub open spec fn code_of_number(n: u32) -> Result<Code, WireError> {
    if n == 0 {
        Ok(Code::Success)
    } else if n == 1 {
        Ok(Code::ErrTex)
    } else if n == 2 {
        Ok(Code::ErrMupdf)
    } else if n == 3 {
        Ok(Code::ErrInternal)
    } else {
        Err(WireError::InvalidCode(n))
    }
}

/// The four bytes of `n`, most significant first.
pub open spec fn be_word(n: u32) -> Seq<u8> {
    seq![
        (n / 0x100_0000) as u8,
        (n / 0x1_0000 % 0x100) as u8,
        (n / 0x100 % 0x100) as u8,
        (n % 0x100) as u8,
    ]
}

/// The number whose big-endian bytes are `bytes[at..at + 4]`.
pub open spec fn word_at(bytes: Seq<u8>, at: int) -> int {
    bytes[at] * 0x100_0000 + bytes[at + 1] * 0x1_0000 + bytes[at + 2] * 0x100 + bytes[at + 3]
}

/// The frame that carries `response`.
pub open spec fn frame_of(response: ResponseView) -> Seq<u8> {
    be_word(code_number(response.code)) + be_word(response.data.len() as u32) + response.data
}

/// What a reader makes of the eight header bytes at the start of `bytes`:
/// the code and the announced payload length.
pub open spec fn header_of(bytes: Seq<u8>) -> Result<(Code, u32), WireError> {
    if bytes.len() < HEADER_LEN {
        Err(WireError::Truncated)
    } else {
        match code_of_number(word_at(bytes, 0) as u32) {
            Ok(code) => Ok((code, word_at(bytes, 4) as u32)),
            Err(e) => Err(e),
        }
    }
}

/// What a reader makes of the frame at the start of `bytes`. Bytes behind
/// the announced payload are never looked at.
pub open spec fn response_of(bytes: Seq<u8>) -> Result<ResponseView, WireError> {
    match header_of(bytes) {
        Ok((code, length)) => {
            if bytes.len() < HEADER_LEN + length {
                Err(WireError::Truncated)
            } else {
                Ok(ResponseView { code, data: bytes.subrange(HEADER_LEN as int, HEADER_LEN + length) })
            }
        },
        Err(e) => Err(e),
    }
}

impl From<Code> for u32 {
    fn from(code: Code) -> (n: u32) {
        match code {
            Code::Success => 0,
            Code::ErrTex => 1,
            Code::ErrMupdf => 2,
            Code::ErrInternal => 3,
        }
    }
}

impl FromSpecImpl<Code> for u32 {
    open spec fn obeys_from_spec() -> bool {
        true
    }

    open spec fn from_spec(code: Code) -> u32 {
        code_number(code)
    }
}

impl TryFrom<u32> for Code {
    type Error = WireError;

    fn try_from(n: u32) -> (r: Result<Code, WireError>) {
        match n {
            0 => Ok(Code::Success),
            1 => Ok(Code::ErrTex),
            2 => Ok(Code::ErrMupdf),
            3 => Ok(Code::ErrInternal),
            _ => Err(WireError::InvalidCode(n)),
        }
    }
}

impl TryFromSpecImpl<u32> for Code {
    open spec fn obeys_try_from_spec() -> bool {
        true
    }

    open spec fn try_from_spec(n: u32) -> Result<Code, WireError> {
        code_of_number(n)
    }
}

/// Appends the four big-endian bytes of `n` to `out`.
fn put_word(n: u32, out: &mut Vec<u8>)
    ensures
        final(out)@ == old(out)@ + be_word(n),
{
    out.push((n / 0x100_0000) as u8);
    out.push((n / 0x1_0000 % 0x100) as u8);
    out.push((n / 0x100 % 0x100) as u8);
    out.push((n % 0x100) as u8);
    assert(out@ =~= old(out)@ + be_word(n));
}

/// Reads the big-endian word at `bytes[at..at + 4]`.
fn get_word(bytes: &[u8], at: usize) -> (n: u32)
    requires
        at + 4 <= bytes@.len(),
    ensures
        n == word_at(bytes@, at as int),
{
    let b0: u32 = bytes[at] as u32;
    let b1: u32 = bytes[at + 1] as u32;
    let b2: u32 = bytes[at + 2] as u32;
    let b3: u32 = bytes[at + 3] as u32;
    b0 * 0x100_0000 + b1 * 0x1_0000 + b2 * 0x100 + b3
}

/// Reading the big-endian bytes of a word gives the word back, wherever
/// in a buffer they stand.
pub proof fn lemma_word_round_trip(n: u32, before: Seq<u8>, after: Seq<u8>)
    ensures
        word_at(before + be_word(n) + after, before.len() as int) == n,
{
    let w = be_word(n);
    let all = before + w + after;
    let at = before.len() as int;
    assert(all[at] == w[0]);
    assert(all[at + 1] == w[1]);
    assert(all[at + 2] == w[2]);
    assert(all[at + 3] == w[3]);
}

/// Appends the status word of `code` to `out`.
pub fn write_code(code: Code, out: &mut Vec<u8>)
    ensures
        final(out)@ == old(out)@ + be_word(code_number(code)),
{
    put_word(u32::from(code), out);
}

/// Appends the frame of `response` to `out`. A payload too long for the
/// length field is refused and nothing is written.
pub fn write_response(response: &Response, out: &mut Vec<u8>) -> (r: Result<(), WireError>)
    ensures
        response.data@.len() <= u32::MAX ==> r == Ok::<(), WireError>(()) && final(out)@ == old(
            out,
        )@ + frame_of(response@),
        response.data@.len() > u32::MAX ==> r == Err::<(), WireError>(WireError::TooLong)
            && final(out)@ == old(out)@,
{
    let length = response.data.len();
    if length > u32::MAX as usize {
        return Err(WireError::TooLong);
    }
    write_code(response.code, out);
    put_word(length as u32, out);
    let mut payload = slice_to_vec(response.data.as_slice());
    out.append(&mut payload);
    assert(out@ =~= old(out)@ + frame_of(response@));
    Ok(())
}

/// Decodes the header at the start of `bytes`: the code and the number of
/// payload bytes that follow. An unknown status word is an error, never
/// coerced to a known code.
pub fn read_header(bytes: &[u8]) -> (r: Result<(Code, u32), WireError>)
    ensures
        r == header_of(bytes@),
{
    if bytes.len() < HEADER_LEN {
        return Err(WireError::Truncated);
    }
    let number = get_word(bytes, 0);
    let length = get_word(bytes, 4);
    match Code::try_from(number) {
        Ok(code) => Ok((code, length)),
        Err(e) => Err(e),
    }
}

/// Decodes the frame at the start of `bytes`.
pub fn read_response(bytes: &[u8]) -> (r: Result<Response, WireError>)
    ensures
        match r {
            Ok(response) => response_of(bytes@) == Ok::<ResponseView, WireError>(response@),
            Err(e) => response_of(bytes@) == Err::<ResponseView, WireError>(e),
        },
{
    let (code, length) = match read_header(bytes) {
        Ok(header) => header,
        Err(e) => {
            return Err(e);
        },
    };
    let length = length as usize;
    let total = bytes.len();
    if total - HEADER_LEN < length {
        return Err(WireError::Truncated);
    }
    let data = slice_to_vec(slice_subrange(bytes, HEADER_LEN, HEADER_LEN + length));
    Ok(Response { code, data })
}

/// Writing a response and reading the frame back gives the same code and
/// the same payload, for every code and every payload that fits the length
/// field, the empty one included. Bytes that follow the frame do not
/// matter.
pub proof fn lemma_frame_round_trip(response: ResponseView, rest: Seq<u8>)
    requires
        response.data.len() <= u32::MAX,
    ensures
        response_of(frame_of(response) + rest) == Ok::<ResponseView, WireError>(response),
        header_of(frame_of(response) + rest) == Ok::<(Code, u32), WireError>(
            (response.code, response.data.len() as u32),
        ),
{
    let code = be_word(code_number(response.code));
    let length = be_word(response.data.len() as u32);
    let bytes = frame_of(response) + rest;
    assert(bytes =~= Seq::<u8>::empty() + code + (length + response.data + rest));
    assert(bytes =~= code + length + (response.data + rest));
    lemma_word_round_trip(code_number(response.code), Seq::empty(), length + response.data + rest);
    lemma_word_round_trip(response.data.len() as u32, code, response.data + rest);
    assert(bytes.subrange(HEADER_LEN as int, HEADER_LEN + response.data.len()) =~= response.data);
}

} // verus!
