//! Addresses of the pages of a query.

use vstd::prelude::*;
use crate::decimal::{decimal, push_decimal};

verus! {

/// The value of the `$metadata` parameter.
pub open spec fn flag_text(metadata: bool) -> Seq<char> {
    if metadata {
        "on"@
    } else {
        "off"@
    }
}

/// A page size as a natural number.
pub open spec fn size_model(size: Option<usize>) -> Option<nat> {
    match size {
        Some(s) => Some(s as nat),
        None => None,
    }
}

/// The address of page `page` of `query` at `base`.
///
/// With a page size the address skips `page * size` records and asks for
/// `size` of them; without one it carries neither parameter and `page` has no
/// bearing on it. Neither `base` nor `query` is looked into.
pub open spec fn uri_text(
    metadata: bool,
    base: Seq<char>,
    query: Seq<char>,
    page: nat,
    size: Option<nat>,
) -> Seq<char> {
    let head = base + "?"@ + query;
    let tail = "&$metadata="@ + flag_text(metadata);
    match size {
        Some(s) => head + "&$skip="@ + decimal(page * s) + "&$top="@ + decimal(s) + tail,
        None => head + tail,
    }
}

/// Writes the address of one page of a query.
pub fn get_uri(metadata: bool, base: &str, query: &str, page: usize, size: Option<usize>) -> (uri:
    String)
    ensures
        uri@ == uri_text(metadata, base@, query@, page as nat, size_model(size)),
{
    let mut uri = String::from_str(base);
    uri.append("?");
    uri.append(query);
    match size {
        Some(s) => {
            assert(page * s <= u128::MAX) by (nonlinear_arith)
                requires
                    page <= 0xffff_ffff_ffff_ffff,
                    s <= 0xffff_ffff_ffff_ffff,
            ;
            let skip: u128 = (page as u128) * (s as u128);
            uri.append("&$skip=");
            push_decimal(&mut uri, skip);
            uri.append("&$top=");
            push_decimal(&mut uri, s as u128);
        },
        None => {},
    }
    uri.append("&$metadata=");
    if metadata {
        uri.append("on");
    } else {
        uri.append("off");
    }
    uri
}

} // verus!
