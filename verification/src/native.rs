//! The computed parts of the in-process transport and its library loader.
//!
//! Loading the shared library, resolving symbols and calling through the
//! resolved pointers is inherently unchecked and stays outside the library.
//! Verified here: the file name the loader opens, the C-string framing of
//! every text handed across the native boundary, and the decisions on what
//! the native calls return — a zero context is a failed engine, a null
//! reply is an empty response.

use vstd::prelude::*;
use vstd::utf8::encode_utf8;

use crate::error::Error;

verus! {

/// The caller-supplied name suffix, if any.
pub open spec fn opt_suffix(suffix: Option<&str>) -> Seq<char> {
    match suffix {
        Some(s) => s@,
        None => Seq::empty(),
    }
}

/// The platform's shared-library extension: `.dll` on Windows, `.dylib` on
/// macOS, `.so` elsewhere.
pub fn shared_lib_extension(windows: bool, macos: bool) -> (r: &'static str)
    ensures
        windows ==> r@ == ".dll"@,
        !windows && macos ==> r@ == ".dylib"@,
        !windows && !macos ==> r@ == ".so"@,
{
    if windows {
        ".dll"
    } else if macos {
        ".dylib"
    } else {
        ".so"
    }
}

/// The file name the loader opens: the library name, the platform's shared
/// library extension, and any caller-supplied suffix.
pub fn lib_filename(name: &str, ext: &str, suffix: Option<&str>) -> (r: String)
    ensures
        r@ == name@ + ext@ + opt_suffix(suffix),
{
    let mut file = name.to_owned();
    file.append(ext);
    match suffix {
        Some(s) => {
            file.append(s);
        },
        None => {
            proof {
                assert(name@ + ext@ + opt_suffix(suffix) =~= name@ + ext@);
            }
        },
    }
    file
}

/// Frames text for the native boundary: its UTF-8 bytes followed by one
/// terminating NUL.  Text with an interior NUL cannot cross that boundary
/// and is refused as a library error.
pub fn cstring_bytes(s: &str) -> (r: Result<Vec<u8>, Error>)
    ensures
        (exists|i: int|
            0 <= i < encode_utf8(s@).len() && #[trigger] encode_utf8(s@)[i] == 0) ==> (
        r matches Err(e) && e is SharedLibraryError),
        (forall|i: int|
            0 <= i < encode_utf8(s@).len() ==> #[trigger] encode_utf8(s@)[i] != 0) ==> (
        r matches Ok(v) && v@ == encode_utf8(s@) + seq![0u8]),
{
    let b = s.as_bytes();
    let n = b.len();
    let mut i: usize = 0;
    while i < n
        invariant
            i <= n,
            n == b@.len(),
            b@ == encode_utf8(s@),
            forall|j: int| 0 <= j < i ==> #[trigger] b@[j] != 0,
        decreases n - i,
    {
        if b[i] == 0 {
            return Err(Error::SharedLibraryError("interior NUL in text".to_owned()));
        }
        i += 1;
    }
    let mut framed = vstd::slice::slice_to_vec(b);
    framed.push(0u8);
    proof {
        assert(framed@ =~= encode_utf8(s@) + seq![0u8]);
    }
    Ok(framed)
}

/// The decision on what the engine's native constructor returned: a zero
/// context means the engine failed to initialize.
pub fn native_context_check(ctx: usize) -> (r: Result<(), Error>)
    ensures
        ctx == 0 ==> (r matches Err(e) && e is SharedLibraryError),
        ctx != 0 ==> r is Ok,
{
    if ctx == 0 {
        Err(Error::SharedLibraryError("engine context is null".to_owned()))
    } else {
        Ok(())
    }
}

/// The decision on what the engine's native command call returned: a null
/// reply is an empty response, anything else is the reply text itself.
pub fn native_response(resp: Option<String>) -> (r: Result<String, Error>)
    ensures
        resp matches Some(s) ==> r == Ok::<String, Error>(s),
        resp is None ==> (r matches Err(e) && e == Error::EmptyResponse),
{
    match resp {
        Some(s) => Ok(s),
        None => Err(Error::EmptyResponse),
    }
}

/// The internal command that loads the target into a fresh engine context.
pub fn open_file_command(path: &str) -> (r: String)
    ensures
        r@ == "o "@ + path@,
{
    let mut line = "o ".to_owned();
    line.append(path);
    line
}

} // verus!
