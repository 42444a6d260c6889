use vstd::prelude::*;

verus! {

/// The scheme a request URL carries: `Some` of the lower-cased scheme name
/// when the string parses as an absolute URL, `None` otherwise. Both facts
/// are functions of the characters of the string alone.
pub uninterp spec fn scheme_of(s: Seq<char>) -> Option<Seq<char>>;

/// Relies on url::Url::parse and url::Url::scheme: whether a string parses
/// as an absolute URL, and the lower-cased scheme (without the ':'
/// delimiter) it then has, depend on the characters of the input alone.
#[verifier::external_body]
pub(crate) fn parse_scheme(s: &str) -> (r: Option<String>)
    ensures
        r is Some <==> scheme_of(s@) is Some,
        r matches Some(sch) ==> scheme_of(s@) == Some(sch@),
{
    url::Url::parse(s).ok().map(|u| u.scheme().to_string())
}

/// Whether `scheme` occurs among the registered scheme names.
pub open spec fn scheme_registered(schemes: Seq<Seq<char>>, scheme: Seq<char>) -> bool {
    exists|j: int| 0 <= j < schemes.len() && schemes[j] == scheme
}

/// The registered scheme names, as character sequences.
pub open spec fn scheme_views(schemes: Seq<String>) -> Seq<Seq<char>> {
    schemes.map_values(|s: String| s@)
}

/// Find the position of the first registered scheme name equal to `scheme`.
pub fn find_scheme(schemes: &Vec<String>, scheme: &String) -> (r: Option<usize>)
    ensures
        match r {
            Some(i) => 0 <= i < schemes@.len() && schemes@[i as int]@ == scheme@,
            None => !scheme_registered(scheme_views(schemes@), scheme@),
        },
        r is Some <==> scheme_registered(scheme_views(schemes@), scheme@),
{
    let n = schemes.len();
    let mut i: usize = 0;
    while i < n
        invariant
            n == schemes@.len(),
            i <= n,
            forall|j: int| 0 <= j < i ==> schemes@[j]@ != scheme@,
        decreases n - i,
    {
        if schemes[i].eq(scheme) {
            assert(scheme_views(schemes@)[i as int] == scheme@);
            return Some(i);
        }
        i = i + 1;
    }
    assert forall|j: int| 0 <= j < schemes@.len() implies scheme_views(schemes@)[j] != scheme@ by {
        assert(schemes@[j]@ != scheme@);
    }
    None
}

} // verus!
