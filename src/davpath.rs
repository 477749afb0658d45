//! Rebuilding a request path for the mount that serves it.
use vstd::prelude::*;

use dav_server::davpath::{DavPath, ParseError};

use crate::multifs::FsErrorKind;

verus! {

#[verifier::external_type_specification]
#[verifier::external_body]
pub struct ExDavPath(DavPath);

#[verifier::external_type_specification]
#[verifier::external_body]
pub struct ExParseError(ParseError);

/// Whether dav_server reads `s` as a URL-encoded path.
pub uninterp spec fn dav_path_parses(s: Seq<char>) -> bool;

/// Relies on `DavPath::new`: parses a URL-encoded path, and whether it
/// succeeds depends on the text alone.
#[verifier::external_body]
fn dav_path_new(s: &str) -> (r: Result<DavPath, ParseError>)
    ensures
        r is Ok == dav_path_parses(s@),
{
    DavPath::new(s)
}

/// Relies on `DavPath::set_prefix`: marks the path's leading `prefix` as its
/// URL prefix, and fails where the path does not start with it. The empty
/// prefix fits every path.
#[verifier::external_body]
fn set_prefix(p: &mut DavPath, prefix: &str) -> (r: Result<(), ParseError>)
    ensures
        prefix@.len() == 0 ==> r is Ok,
{
    p.set_prefix(prefix)
}

/// The path `inner` of a mount placed under the request's URL `prefix`, with
/// that prefix marked as such. Text that does not parse, or a prefix that the
/// parsed path does not start with, is a general failure.
pub fn rebuild_path(inner: &str, prefix: &str) -> (r: Result<DavPath, FsErrorKind>)
    ensures
        r matches Err(e) ==> e == FsErrorKind::GeneralFailure,
        !dav_path_parses(prefix@ + inner@) ==> r is Err,
        dav_path_parses(prefix@ + inner@) && prefix@.len() == 0 ==> r is Ok,
{
    let full = String::from_str(prefix).concat(inner);
    let mut path = match dav_path_new(full.as_str()) {
        Ok(p) => p,
        Err(_) => return Err(FsErrorKind::GeneralFailure),
    };
    match set_prefix(&mut path, prefix) {
        Ok(()) => Ok(path),
        Err(_) => Err(FsErrorKind::GeneralFailure),
    }
}

} // verus!
