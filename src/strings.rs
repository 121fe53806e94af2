//! Text that the native layer writes into NUL-terminated byte buffers.
use vstd::prelude::*;
use vstd::string::StringSliceAdditionalSpecFns;
use vstd::utf8::{decode_utf8, valid_utf8};

use crate::error::{SpxError, SPX_NOERROR};

verus! {

/// No byte of `b` is NUL.
pub open spec fn nul_free(b: Seq<u8>) -> bool {
    forall|i: int| 0 <= i < b.len() ==> b[i] != 0
}

/// `p` is the position of the first NUL byte of `b`.
pub open spec fn first_nul_at(b: Seq<u8>, p: int) -> bool {
    &&& 0 <= p < b.len()
    &&& b[p] == 0
    &&& nul_free(b.take(p))
}

/// `r` is what a native string getter's buffer stands for: the getter's error
/// if `status` is one, and otherwise the UTF-8 text before the first NUL.
pub open spec fn is_buffer_text(status: usize, buffer: Seq<u8>, r: Result<String, SpxError>) -> bool {
    &&& (status != SPX_NOERROR ==> r == Err::<String, SpxError>(SpxError::General(status)))
    &&& (status == SPX_NOERROR && nul_free(buffer) ==> r == Err::<String, SpxError>(
        SpxError::InvalidCString,
    ))
    &&& (status == SPX_NOERROR ==> forall|p: int|
        #[trigger] first_nul_at(buffer, p) ==> {
            &&& (valid_utf8(buffer.take(p)) ==> (r matches Ok(s) && s@ == decode_utf8(
                buffer.take(p),
            )))
            &&& (!valid_utf8(buffer.take(p)) ==> r == Err::<String, SpxError>(
                SpxError::FromUtf8Error,
            ))
        })
}

/// Relies on `String::from_utf8`: it accepts exactly the valid UTF-8 byte
/// sequences and keeps the characters they encode.
#[verifier::external_body]
fn utf8_to_string(bytes: Vec<u8>) -> (r: Option<String>)
    ensures
        r is Some <==> valid_utf8(bytes@),
        r matches Some(s) ==> s@ == decode_utf8(bytes@),
{
    String::from_utf8(bytes).ok()
}

/// The text of a buffer that a native getter filled and returned `status`
/// for: the bytes before the first NUL, decoded as UTF-8.
pub fn string_from_buffer(status: usize, buffer: &Vec<u8>) -> (r: Result<String, SpxError>)
    ensures
        is_buffer_text(status, buffer@, r),
{
    if status != SPX_NOERROR {
        return Err(SpxError::General(status));
    }
    let mut text: Vec<u8> = Vec::new();
    let mut i: usize = 0;
    while i < buffer.len()
        invariant
            status == SPX_NOERROR,
            i <= buffer@.len(),
            text@ == buffer@.take(i as int),
            nul_free(text@),
        decreases buffer@.len() - i,
    {
        if buffer[i] == 0 {
            proof {
                assert forall|p: int| #[trigger] first_nul_at(buffer@, p) implies p == i by {
                    if p < i {
                        assert(text@[p] == buffer@[p]);
                    } else if p > i {
                        assert(buffer@.take(p)[i as int] == buffer@[i as int]);
                    }
                }
            }
            return match utf8_to_string(text) {
                Some(s) => Ok(s),
                None => Err(SpxError::FromUtf8Error),
            };
        }
        text.push(buffer[i]);
        i = i + 1;
        assert(text@ =~= buffer@.take(i as int));
    }
    proof {
        assert(buffer@.take(i as int) =~= buffer@);
        assert forall|p: int| !#[trigger] first_nul_at(buffer@, p) by {
            if 0 <= p < buffer@.len() {
                assert(text@[p] == buffer@[p]);
            }
        }
    }
    Err(SpxError::InvalidCString)
}

/// Checks that `text` can be handed to the native layer as a C string: it
/// fails with the position of its first NUL byte, if it has one.
pub fn check_c_text(text: &str) -> (r: Result<(), SpxError>)
    ensures
        nul_free(text.spec_bytes()) ==> r is Ok,
        forall|p: int| #[trigger] first_nul_at(text.spec_bytes(), p) ==> r
            == Err::<(), SpxError>(SpxError::StrNulError(p as usize)),
{
    let bytes = text.as_bytes();
    let mut i: usize = 0;
    while i < bytes.len()
        invariant
            bytes@ == text.spec_bytes(),
            i <= bytes@.len(),
            nul_free(bytes@.take(i as int)),
        decreases bytes@.len() - i,
    {
        if bytes[i] == 0 {
            proof {
                assert forall|p: int| #[trigger] first_nul_at(bytes@, p) implies p == i by {
                    if p < i {
                        assert(bytes@.take(i as int)[p] == bytes@[p]);
                    } else if p > i {
                        assert(bytes@.take(p)[i as int] == bytes@[i as int]);
                    }
                }
            }
            return Err(SpxError::StrNulError(i));
        }
        i = i + 1;
        assert forall|j: int| 0 <= j < i implies #[trigger] bytes@.take(i as int)[j] != 0 by {
            if j < i - 1 {
                assert(bytes@.take(i as int)[j] == bytes@.take((i - 1) as int)[j]);
            }
        }
    }
    proof {
        assert(bytes@.take(i as int) =~= bytes@);
        assert forall|p: int| !#[trigger] first_nul_at(bytes@, p) by {
            if 0 <= p < bytes@.len() {
                assert(bytes@.take(i as int)[p] == bytes@[p]);
            }
        }
    }
    Ok(())
}

} // verus!
