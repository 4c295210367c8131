//! What a shell command leaves behind, and how it is read from the raw bytes
//! that the process wrote.
use crate::errors::Error;
use vstd::prelude::*;
use vstd::string::StringSliceAdditionalSpecFns;
use vstd::utf8::{decode_utf8, valid_utf8};

verus! {

/// A UTF-8 decoding error of std.
#[verifier::external_type_specification]
#[verifier::external_body]
pub struct ExUtf8Error(std::str::Utf8Error);

/// What a finished command left behind.
#[derive(Debug)]
pub struct Output {
    /// The exit code, if the process ended with one.
    pub status_code: Option<i32>,
    /// What the command wrote to its standard output.
    pub stdout: String,
    /// What the command wrote to its standard error.
    pub stderr: String,
}

/// `std::str::from_utf8`: the bytes as a string slice where they are valid UTF-8,
/// an error where they are not.
#[verifier::external_body]
fn text_of(bytes: &[u8]) -> (text: Result<&str, std::str::Utf8Error>)
    ensures
        text is Ok <==> valid_utf8(bytes@),
        text matches Ok(s) ==> s.spec_bytes() == bytes@,
{
    std::str::from_utf8(bytes)
}

/// Reads the output of a command from its exit code and the bytes of its two
/// streams.
///
/// Both streams have to be valid UTF-8: nothing is replaced. Where one is not,
/// the error is that of the first that fails, standard output before standard
/// error.
pub fn decode_output(status_code: Option<i32>, stdout: &[u8], stderr: &[u8]) -> (output: Result<
    Output,
    Error,
>)
    ensures
        output is Ok <==> valid_utf8(stdout@) && valid_utf8(stderr@),
        output matches Ok(o) ==> {
            &&& o.status_code == status_code
            &&& o.stdout@ == decode_utf8(stdout@)
            &&& o.stderr@ == decode_utf8(stderr@)
        },
        output matches Err(e) ==> e is Utf8,
{
    let out = match text_of(stdout) {
        Ok(text) => text,
        Err(e) => {
            return Err(Error::Utf8(e));
        },
    };
    let err = match text_of(stderr) {
        Ok(text) => text,
        Err(e) => {
            return Err(Error::Utf8(e));
        },
    };
    proof {
        vstd::utf8::encode_utf8_decode_utf8(out@);
        vstd::utf8::encode_utf8_decode_utf8(err@);
    }
    Ok(Output { status_code, stdout: out.to_owned(), stderr: err.to_owned() })
}

} // verus!
