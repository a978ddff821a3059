//! Pieces shared by the query descriptions: sort order and text search terms.
//! A query description is plain data; the caller turns it into SQL and runs it.
//! How the database matches a search term against a text column (a `LIKE`
//! pattern `%term%`) is left to the database: the meaning of a query is stated
//! for any matching relation `text_match(column_text, term)`.

use vstd::prelude::*;

verus! {

/// Sort direction.
#[derive(Clone, Copy, Debug, PartialEq, Eq, Structural)]
pub enum Order {
    Asc,
    Desc,
}

/// How the database decides that a column's text contains a search term.
pub type TextMatch = spec_fn(Seq<char>, Seq<char>) -> bool;

/// The texts of a list of search terms.
pub open spec fn terms_view(terms: Seq<String>) -> Seq<Seq<char>> {
    terms.map_values(|t: String| t@)
}

/// Two lists of search terms with the same texts: every term of the one
/// passes a test exactly when every term of the other does.
pub proof fn lemma_same_terms_pass(a: Seq<String>, b: Seq<String>, pass: spec_fn(Seq<char>) -> bool)
    requires
        terms_view(a) == terms_view(b),
    ensures
        (forall|j: int| 0 <= j < a.len() ==> pass(#[trigger] a[j]@)) <==> (forall|j: int|
            0 <= j < b.len() ==> pass(#[trigger] b[j]@)),
{
    assert(terms_view(a).len() == a.len());
    assert(terms_view(b).len() == b.len());
    assert forall|i: int| 0 <= i < a.len() implies #[trigger] a[i]@ == b[i]@ by {
        assert(terms_view(a)[i] == terms_view(b)[i]);
    }
    if forall|j: int| 0 <= j < a.len() ==> pass(#[trigger] a[j]@) {
        assert forall|j: int| 0 <= j < b.len() implies pass(#[trigger] b[j]@) by {
            assert(a[j]@ == b[j]@);
        }
    }
    if forall|j: int| 0 <= j < b.len() ==> pass(#[trigger] b[j]@) {
        assert forall|j: int| 0 <= j < a.len() implies pass(#[trigger] a[j]@) by {
            assert(a[j]@ == b[j]@);
        }
    }
}

/// Copies borrowed search terms into owned strings.
pub fn owned_terms(texts: &Vec<&str>) -> (res: Vec<String>)
    ensures
        terms_view(res@) == texts@.map_values(|t: &str| t@),
{
    let mut res: Vec<String> = Vec::new();
    let mut i: usize = 0;
    while i < texts.len()
        invariant
            i <= texts@.len(),
            res@.len() == i,
            forall|j: int| 0 <= j < i ==> #[trigger] res@[j]@ == texts@[j]@,
        decreases texts@.len() - i,
    {
        res.push(String::from_str(texts[i]));
        i = i + 1;
    }
    assert(terms_view(res@) =~= texts@.map_values(|t: &str| t@));
    res
}

/// Copies a list of owned search terms.
pub fn copy_terms(texts: &Vec<String>) -> (res: Vec<String>)
    ensures
        terms_view(res@) == terms_view(texts@),
{
    let mut res: Vec<String> = Vec::new();
    let mut i: usize = 0;
    while i < texts.len()
        invariant
            i <= texts@.len(),
            res@.len() == i,
            forall|j: int| 0 <= j < i ==> #[trigger] res@[j]@ == texts@[j]@,
        decreases texts@.len() - i,
    {
        res.push(texts[i].clone());
        i = i + 1;
    }
    assert(terms_view(res@) =~= terms_view(texts@));
    res
}

} // verus!
