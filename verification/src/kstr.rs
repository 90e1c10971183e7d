use vstd::prelude::*;

verus! {

#[verifier::external_type_specification]
#[verifier::external_body]
#[verifier::reject_recursive_types(B)]
pub struct ExKStringBase<B>(kstring::KStringBase<B>);

/// The characters a `kstring::KString` holds.
pub uninterp spec fn kstr_chars(k: kstring::KString) -> Seq<char>;

/// Relies on `kstring::KString::from_string`: the new immutable string holds
/// exactly the characters of the `String` it was built from.
#[verifier::external_body]
pub fn kstr_from_string(s: String) -> (r: kstring::KString)
    ensures
        kstr_chars(r) == s@,
{
    kstring::KString::from_string(s)
}

/// Relies on `kstring::KString::as_str`: a slice of exactly the held
/// characters.
#[verifier::external_body]
pub fn kstr_as_str(k: &kstring::KString) -> (r: &str)
    ensures
        r@ == kstr_chars(*k),
{
    k.as_str()
}

} // verus!
