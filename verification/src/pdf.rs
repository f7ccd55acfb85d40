//! Where the PDF of a letter is rendered.

use vstd::prelude::*;
use vstd::string::StringExecFns;

verus! {

/// The file that the PDF of the letter with this id is written to.
pub open spec fn pdf_path_of(id: Seq<char>) -> Seq<char> {
    "out/"@ + id + ".pdf"@
}

/// The file that the PDF of the letter with this id is written to:
/// `out/{id}.pdf`.
pub fn pdf_output_path(id: &str) -> (path: String)
    ensures
        path@ == pdf_path_of(id@),
{
    let mut path = String::from_str("out/");
    path.append(id);
    path.append(".pdf");
    path
}

/// The PDF of a letter lies in `out/` and is named by the letter's id with
/// the extension `.pdf`.
pub proof fn lemma_pdf_path_parts(id: Seq<char>)
    ensures
        pdf_path_of(id) == seq!['o', 'u', 't', '/'] + id + seq!['.', 'p', 'd', 'f'],
        pdf_path_of(id).subrange(4, 4 + id.len() as int) == id,
{
    reveal_strlit("out/");
    reveal_strlit(".pdf");
    assert(pdf_path_of(id) =~= seq!['o', 'u', 't', '/'] + id + seq!['.', 'p', 'd', 'f']);
    assert(pdf_path_of(id).subrange(4, 4 + id.len() as int) =~= id);
}

} // verus!
