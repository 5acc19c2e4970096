use vstd::prelude::*;

use vstd::string::StringSliceAdditionalSpecFns;
use vstd::utf8::encode_utf8;

use crate::error::OverlayError;

verus! {

/// Whether some byte of `bytes` is NUL.
pub open spec fn has_nul(bytes: Seq<u8>) -> bool {
    exists|i: int| 0 <= i < bytes.len() && bytes[i] == 0
}

/// The length of the text in a C character buffer: up to its first NUL
/// byte, or all of it when there is none.
pub fn c_string_len(buf: &[u8]) -> (r: usize)
    ensures
        r <= buf@.len(),
        forall|i: int| 0 <= i < r ==> buf@[i] != 0,
        r < buf@.len() ==> buf@[r as int] == 0,
{
    let n = buf.len();
    let mut i: usize = 0;
    while i < n
        invariant
            n == buf@.len(),
            i <= n,
            forall|j: int| 0 <= j < i ==> buf@[j] != 0,
        decreases n - i,
    {
        if buf[i] == 0 {
            return i;
        }
        i = i + 1;
    }
    i
}

/// Text can be handed to the runtime as a C string only without NUL bytes.
pub fn check_c_text(text: &str) -> (r: Result<(), OverlayError>)
    ensures
        has_nul(text.spec_bytes()) ==> r == Err::<(), OverlayError>(OverlayError::ContainsNul),
        !has_nul(text.spec_bytes()) ==> r == Ok::<(), OverlayError>(()),
{
    let bytes = text.as_bytes();
    let n = c_string_len(bytes);
    if n < bytes.len() {
        Err(OverlayError::ContainsNul)
    } else {
        Ok(())
    }
}

/// The interface version to ask the runtime for: a non-empty override
/// from the environment, else the built-in default. Either must be usable
/// as a C string.
pub fn interface_version(env_value: Option<String>, default: &str) -> (r: Result<
    String,
    OverlayError,
>)
    ensures
        (env_value matches Some(v) && v@.len() > 0) ==> (r matches Ok(s) && Some(s)
            == env_value) || (r == Err::<String, OverlayError>(OverlayError::ContainsNul)),
        (env_value matches Some(v) && v@.len() > 0) ==> (r is Err <==> has_nul(
            encode_utf8(env_value->0@),
        )),
        !(env_value matches Some(v) && v@.len() > 0) ==> (r matches Ok(s) && s@ == default@)
            || (r == Err::<String, OverlayError>(OverlayError::ContainsNul)),
        !(env_value matches Some(v) && v@.len() > 0) ==> (r is Err <==> has_nul(
            default.spec_bytes(),
        )),
{
    if let Some(value) = env_value {
        if !value.as_str().is_empty() {
            check_c_text(value.as_str())?;
            return Ok(value);
        }
    }
    check_c_text(default)?;
    Ok(default.to_owned())
}

} // verus!
