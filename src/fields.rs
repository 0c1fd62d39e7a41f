//! Text of the certificate fields that are read one by one: distinguished-name
//! attributes, alternative DNS names and plain integers.

use vstd::prelude::*;
use crate::error::{ErrorKind, TLSValidationError};

verus! {

/// What reading one attribute gave: `None` when the name has no such entry,
/// `Some(None)` when the first entry is not valid text, else its text.
pub open spec fn entry_decodes(e: Option<Option<String>>) -> bool {
    match e {
        Some(None) => false,
        _ => true,
    }
}

/// The reported value of a decodable attribute read: `None` exactly where the
/// name has no such entry.
pub open spec fn entry_view(e: Option<Option<String>>) -> Option<Seq<char>> {
    match e {
        Some(Some(s)) => Some(s@),
        _ => None,
    }
}

/// The view of an optional string.
pub open spec fn opt_view(t: Option<String>) -> Option<Seq<char>> {
    match t {
        Some(s) => Some(s@),
        None => None,
    }
}

/// The reported value of one attribute read; a first entry that is not valid
/// text is a decode error.
pub fn entry_text(e: &Option<Option<String>>) -> (r: Result<Option<String>, TLSValidationError>)
    ensures
        r is Ok <==> entry_decodes(*e),
        r matches Ok(t) ==> opt_view(t) == entry_view(*e),
        r matches Err(x) ==> x.kind == ErrorKind::Decode,
{
    match e {
        None => Ok(None),
        Some(Some(s)) => Ok(Some(s.clone())),
        Some(None) => Err(
            TLSValidationError::with_kind(ErrorKind::Decode, "name entry is not valid text"),
        ),
    }
}

/// The views of a sequence of strings.
pub open spec fn views(v: Seq<String>) -> Seq<Seq<char>> {
    v.map_values(|x: String| x@)
}

/// The DNS names among the general names of an alternative-names extension,
/// in order; `None` stands for an entry of another type.
pub open spec fn dns_names_of(s: Seq<Option<String>>) -> Seq<Seq<char>>
    decreases s.len(),
{
    if s.len() == 0 {
        Seq::empty()
    } else {
        let rest = dns_names_of(s.drop_last());
        match s.last() {
            Some(n) => rest.push(n@),
            None => rest,
        }
    }
}

/// The alternative DNS names of a certificate: none where it has no
/// alternative-names extension.
pub open spec fn san_names(alt: Option<Seq<Option<String>>>) -> Seq<Seq<char>> {
    match alt {
        None => Seq::empty(),
        Some(s) => dns_names_of(s),
    }
}

/// Collects the DNS names among `names`, skipping entries of other types.
pub fn collect_dns_names(names: &Vec<Option<String>>) -> (r: Vec<String>)
    ensures
        views(r@) == dns_names_of(names@),
{
    let mut out: Vec<String> = Vec::new();
    let mut i: usize = 0;
    while i < names.len()
        invariant
            i <= names.len(),
            views(out@) == dns_names_of(names@.subrange(0, i as int)),
        decreases names.len() - i,
    {
        assert(names@.subrange(0, i + 1).drop_last() == names@.subrange(0, i as int));
        match &names[i] {
            Some(n) => {
                out.push(n.clone());
                assert(views(out@) == views(out@.drop_last()).push(n@));
            },
            None => {},
        }
        i = i + 1;
    }
    assert(names@.subrange(0, names.len() as int) == names@);
    out
}

/// The alternative DNS names of a certificate, empty where the extension is
/// missing.
pub fn san_list(alt: &Option<Vec<Option<String>>>) -> (r: Vec<String>)
    ensures
        views(r@) == san_names(
            match alt {
                None => None,
                Some(v) => Some(v@),
            },
        ),
{
    match alt {
        None => Vec::new(),
        Some(v) => collect_dns_names(v),
    }
}

/// An extension whose entries include no DNS name gives an empty list, the
/// same as a certificate without the extension.
pub proof fn lemma_no_dns_entries_gives_empty_list(s: Seq<Option<String>>)
    requires
        forall|i: int| 0 <= i < s.len() ==> s[i] is None,
    ensures
        dns_names_of(s).len() == 0,
        san_names(Some(s)) == san_names(None),
    decreases s.len(),
{
    if s.len() > 0 {
        lemma_no_dns_entries_gives_empty_list(s.drop_last());
    }
}

/// A decimal digit.
pub open spec fn digit_char(d: int) -> char {
    seq!['0', '1', '2', '3', '4', '5', '6', '7', '8', '9'][d]
}

/// The decimal digits of a natural number, without leading zeros.
pub open spec fn digits_of(n: nat) -> Seq<char>
    decreases n,
{
    if n < 10 {
        seq![digit_char(n as int)]
    } else {
        digits_of(n / 10).push(digit_char((n % 10) as int))
    }
}

/// The decimal text of an integer, with a leading `-` when negative.
pub open spec fn decimal_text(n: int) -> Seq<char> {
    if n < 0 {
        seq!['-'] + digits_of((-n) as nat)
    } else {
        digits_of(n as nat)
    }
}

/// Relies on `i32`'s `ToString`: its decimal text.
#[verifier::external_body]
pub(crate) fn int_text(n: i32) -> (r: String)
    ensures
        r@ == decimal_text(n as int),
{
    n.to_string()
}

} // verus!
