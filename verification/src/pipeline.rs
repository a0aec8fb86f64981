use vstd::prelude::*;
use crate::errors::FetchError;
use crate::naming::spec_filename;
use crate::urls::UrlParts;

verus! {

/// The conventional HTTP success range: any 2xx status code.
pub open spec fn is_success_status(code: u16) -> bool {
    200 <= code < 300
}

/// The status gate of the file-saving variant: passes exactly the success
/// codes, and rejects every other with `HttpError` carrying that code, so
/// the caller aborts before any file is created.
pub fn check_status(code: u16) -> (r: Result<(), FetchError>)
    ensures
        r is Ok <==> is_success_status(code),
        r matches Err(e) ==> e == (FetchError::HttpError { code }),
{
    if 200 <= code && code < 300 {
        Ok(())
    } else {
        Err(FetchError::HttpError { code })
    }
}

/// The whole decision the file-saving variant takes once the response
/// headers are in: given the validated URL and the observed status code,
/// either the filename to create — derived from the URL path — or the
/// failure that ends the run before any file exists.
pub fn save_target(url: &UrlParts, code: u16) -> (r: Result<String, FetchError>)
    ensures
        r is Ok <==> is_success_status(code),
        r matches Ok(name) ==> name@ == spec_filename(url.path@),
        r matches Err(e) ==> e == (FetchError::HttpError { code }),
{
    match check_status(code) {
        Ok(()) => Ok(url.filename()),
        Err(e) => Err(e),
    }
}

} // verus!
